# greed-compute

A service that runs Python for agents. `src/` is its verified library: what the
service decides, computes and answers. `app/` is the server around it: HTTP,
the database, worker processes and files.

| module | what it holds |
|---|---|
| `text`, `path`, `json` | strings, file paths and JSON values on mathematical models |
| `codec`, `clock`, `ident`, `store` | encodings, times, identifiers and maps, computed by outside crates |
| `http` | answers |
| `billing` | plans, credits, Stripe requests and webhook signatures |
| `runtime` | the protocol with a Python worker |
| `sandbox` | session templates, sessions, and the manager of sessions and pools |
| `creation` | how a session gets its workspace and its worker, and is filed |
| `sql` | statements, the text that they are written in, and what they do to the rows of a table |
| `db` | records, the statements that store and look them up, and what is read back; accounts |
| `readback` | laws on the records: what is stored is read back |
| `maintenance` | what is kept of expired sessions, and which checkpoints are deleted |
| `api::auth` | keys, the sliding rate window and the credit quota |
| `api::routes` | sessions, executions, jobs, checkpoints, files, keys, logins |
| `api::session_run` | setting up a session, carrying out a job, making a checkpoint |
| `api::login` | a login through GitHub |
| `api::mcp`, `api::tool_run` | the tool endpoint, and carrying out the call of a tool |
| `api::swarm`, `api::stragglers`, `api::swarm_run` | map and reduce over many workers |
| `api::workspace`, `api::workspace_run` | shared workspaces, and running code in them |
| `api::billing`, `api::checkout` | checkout, portal, webhooks, usage |

A worker process is known to the library by a number that the server gives it.
Where the service alternates work and decisions, the library is a state machine
that says which work follows which event; the server does the work and hands
back what came of it.
