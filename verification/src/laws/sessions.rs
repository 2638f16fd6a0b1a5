//! Laws on sessions: each is as it was asked for, and lives until its end.
use vstd::prelude::*;
use vstd::string::*;
use crate::api::auth::WINDOW_NS;
use crate::api::routes::{requested_template, MEGABYTE};
use crate::billing::EXECUTION_GRACE_SECS;
use crate::clock::{whole_seconds, Timestamp};
use crate::ident::{hex_char, hyphen_at, uuid_text};
use crate::maintenance::{GRACE_INTERVAL_SECS, RETENTION_INTERVAL_SECS};
use crate::runtime::{CLEAR_TIMEOUT_SECS, EXECUTE_TIMEOUT_SECS, INSTALL_TIMEOUT_SECS, READY_TIMEOUT_SECS};
use crate::sandbox::{
    choice, counted, created, drained, each_quoted, ended, expired, expiry, filed, no_sessions, offered, out_of,
    plain, report_of, sessions_of, status_of, taken, template_code, template_name, template_of, template_packages,
    tokens_without_sandbox, ttl_fits, Acquired, AcquiredV, ManagerV, NewSession, Session, SessionInfo, SessionStatus,
    SessionTemplate, SessionV, DEFAULT_TTL_SECS, SWEEPER_INTERVAL_SECS, WARM_POOL_SIZE,
};
use crate::text::{join, maybe_owned};

verus! {

/// Law: a template is asked for by one of its names, and any other name asks for none,
/// which is the blank one.
pub proof fn law_templates_have_their_names(s: Seq<char>)
    ensures
        template_of(s) == Some(SessionTemplate::DataScience) <==> (
            s == "data-science"@ || s == "data_science"@ || s == "datascience"@
        ),
        template_of(s) == Some(SessionTemplate::MachineLearning) <==> (
            s == "ml"@ || s == "machine-learning"@ || s == "machine_learning"@
        ),
        template_of(s) == Some(SessionTemplate::WebScraping) <==> (
            s == "web"@ || s == "web-scraping"@ || s == "scraping"@
        ),
        template_of(s) == Some(SessionTemplate::Blank) <==> (s == "blank"@ || s == ""@),
        requested_template(None) is Blank,
        template_of(s) is None ==> requested_template(Some(s)) is Blank,
        template_of(s) matches Some(t) ==> requested_template(Some(s)) == t,
{
    reveal_strlit("data-science");
    reveal_strlit("data_science");
    reveal_strlit("datascience");
    reveal_strlit("ml");
    reveal_strlit("machine-learning");
    reveal_strlit("machine_learning");
    reveal_strlit("web");
    reveal_strlit("web-scraping");
    reveal_strlit("scraping");
    reveal_strlit("blank");
    reveal_strlit("");
    assert("data-science"@.len() == 12);
    assert("data_science"@.len() == 12);
    assert("datascience"@.len() == 11);
    assert("ml"@.len() == 2);
    assert("machine-learning"@.len() == 16);
    assert("machine_learning"@.len() == 16);
    assert("web"@.len() == 3);
    assert("web-scraping"@.len() == 12);
    assert("scraping"@.len() == 8);
    assert("blank"@.len() == 5);
    assert(""@.len() == 0);
    assert("data-science"@[4] != "data_science"@[4]);
    assert("data-science"@[0] != "web-scraping"@[0]);
    assert("data_science"@[0] != "web-scraping"@[0]);
    assert("machine-learning"@[7] != "machine_learning"@[7]);
}

/// Law: each template has its packages, which its code installs, and the blank one has
/// none.
pub proof fn law_templates_install_their_packages()
    ensures
        template_packages(SessionTemplate::DataScience) == seq![
            "numpy"@, "pandas"@, "matplotlib"@, "scikit-learn"@, "scipy"@,
        ],
        template_code(SessionTemplate::DataScience) == Some(
            "import subprocess as _sp\n_sp.run(['pip','install','-q',"@
                + join(seq!["'numpy'"@, "'pandas'"@, "'matplotlib'"@, "'scikit-learn'"@, "'scipy'"@], ","@)
                + "], check=True)\ndel _sp"@,
        ),
        template_name(SessionTemplate::DataScience) == "data-science"@,
        template_packages(SessionTemplate::MachineLearning) == seq![
            "torch"@, "transformers"@, "datasets"@, "accelerate"@,
        ],
        template_code(SessionTemplate::MachineLearning) == Some(
            "import subprocess as _sp\n_sp.run(['pip','install','-q',"@
                + join(seq!["'torch'"@, "'transformers'"@, "'datasets'"@, "'accelerate'"@], ","@)
                + "], check=True)\ndel _sp"@,
        ),
        template_name(SessionTemplate::MachineLearning) == "machine-learning"@,
        template_packages(SessionTemplate::WebScraping) == seq!["requests"@, "httpx"@, "beautifulsoup4"@, "lxml"@],
        template_code(SessionTemplate::WebScraping) == Some(
            "import subprocess as _sp\n_sp.run(['pip','install','-q',"@
                + join(seq!["'requests'"@, "'httpx'"@, "'beautifulsoup4'"@, "'lxml'"@], ","@)
                + "], check=True)\ndel _sp"@,
        ),
        template_name(SessionTemplate::WebScraping) == "web-scraping"@,
        template_packages(SessionTemplate::Blank).len() == 0,
        template_code(SessionTemplate::Blank) is None,
        template_name(SessionTemplate::Blank) == "blank"@,
{
    reveal_strlit("'");
    reveal_strlit("numpy");
    reveal_strlit("'numpy'");
    assert("'numpy'"@ =~= "'"@ + "numpy"@ + "'"@);
    reveal_strlit("pandas");
    reveal_strlit("'pandas'");
    assert("'pandas'"@ =~= "'"@ + "pandas"@ + "'"@);
    reveal_strlit("matplotlib");
    reveal_strlit("'matplotlib'");
    assert("'matplotlib'"@ =~= "'"@ + "matplotlib"@ + "'"@);
    reveal_strlit("scikit-learn");
    reveal_strlit("'scikit-learn'");
    assert("'scikit-learn'"@ =~= "'"@ + "scikit-learn"@ + "'"@);
    reveal_strlit("scipy");
    reveal_strlit("'scipy'");
    assert("'scipy'"@ =~= "'"@ + "scipy"@ + "'"@);
    assert(each_quoted(template_packages(SessionTemplate::DataScience)) =~= seq![
        "'numpy'"@, "'pandas'"@, "'matplotlib'"@, "'scikit-learn'"@, "'scipy'"@,
    ]);
    reveal_strlit("torch");
    reveal_strlit("'torch'");
    assert("'torch'"@ =~= "'"@ + "torch"@ + "'"@);
    reveal_strlit("transformers");
    reveal_strlit("'transformers'");
    assert("'transformers'"@ =~= "'"@ + "transformers"@ + "'"@);
    reveal_strlit("datasets");
    reveal_strlit("'datasets'");
    assert("'datasets'"@ =~= "'"@ + "datasets"@ + "'"@);
    reveal_strlit("accelerate");
    reveal_strlit("'accelerate'");
    assert("'accelerate'"@ =~= "'"@ + "accelerate"@ + "'"@);
    assert(each_quoted(template_packages(SessionTemplate::MachineLearning)) =~= seq![
        "'torch'"@, "'transformers'"@, "'datasets'"@, "'accelerate'"@,
    ]);
    reveal_strlit("requests");
    reveal_strlit("'requests'");
    assert("'requests'"@ =~= "'"@ + "requests"@ + "'"@);
    reveal_strlit("httpx");
    reveal_strlit("'httpx'");
    assert("'httpx'"@ =~= "'"@ + "httpx"@ + "'"@);
    reveal_strlit("beautifulsoup4");
    reveal_strlit("'beautifulsoup4'");
    assert("'beautifulsoup4'"@ =~= "'"@ + "beautifulsoup4"@ + "'"@);
    reveal_strlit("lxml");
    reveal_strlit("'lxml'");
    assert("'lxml'"@ =~= "'"@ + "lxml"@ + "'"@);
    assert(each_quoted(template_packages(SessionTemplate::WebScraping)) =~= seq![
        "'requests'"@, "'httpx'"@, "'beautifulsoup4'"@, "'lxml'"@,
    ]);
}

/// Law: a new session has the id, the workspace, the worker, the key, the template and
/// the counting of tokens that it was asked for with. It starts now, without calls or
/// tokens, and ends after the time that was asked for, or else after fifteen minutes.
pub proof fn law_new_session_is_as_asked(n: NewSession, now: Timestamp)
    requires
        now.valid(),
        ttl_fits(n.ttl_secs, now),
    ensures
        created(n, now).info.session_id == n.session_id@,
        created(n, now).info.created_at == now,
        created(n, now).info.workspace_path == n.workspace@,
        created(n, now).workspace == n.workspace@,
        created(n, now).runtime == n.runtime,
        created(n, now).api_key == maybe_owned(n.api_key),
        created(n, now).token_tracking == n.token_tracking,
        n.template matches Some(t) ==> created(n, now).info.template == Some(template_name(t)),
        n.template is None ==> created(n, now).info.template is None,
        created(n, now).calls_used == 0
            && created(n, now).info.calls_used == 0
            && created(n, now).cumulative_output_tokens == 0
            && created(n, now).cumulative_state_tokens == 0,
        n.ttl_secs matches Some(t)
            ==> created(n, now).expires_at_secs == now.secs + t
                && created(n, now).info.expires_at.secs == now.secs + t,
        n.ttl_secs is None
            ==> created(n, now).expires_at_secs == now.secs + 900
                && created(n, now).info.expires_at.secs == now.secs + 900,
        created(n, now).info.expires_at.nanos == now.nanos,
{
}

/// Law: a time to live is possible where the end is a time that can be told.
pub proof fn law_time_to_live_must_fit(ttl: i64, now: Timestamp)
    ensures
        ttl_fits(Some(ttl), now) <==> -8334601228800 <= now.secs + ttl <= 8210266876799,
        ttl_fits(None, now) <==> -8334601228800 <= now.secs + 900 <= 8210266876799,
{
}

/// Law: a session without a key or a template has just what it was asked for with.
pub proof fn law_plain_session_has_no_key(
    id: String,
    workspace: String,
    runtime: u64,
    ttl: Option<i64>,
    tracking: bool,
)
    ensures
        plain(id, workspace, runtime, ttl, tracking).session_id == id,
        plain(id, workspace, runtime, ttl, tracking).workspace == workspace,
        plain(id, workspace, runtime, ttl, tracking).runtime == runtime,
        plain(id, workspace, runtime, ttl, tracking).ttl_secs == ttl,
        plain(id, workspace, runtime, ttl, tracking).token_tracking == tracking,
        plain(id, workspace, runtime, ttl, tracking).api_key is None
            && plain(id, workspace, runtime, ttl, tracking).template is None,
{
}

/// Law: a session that is filed is found under its id and no other is changed; one that
/// ended is not found and no other is changed; the pools stay as they are.
pub proof fn law_sessions_are_filed_by_id(m: ManagerV, s: SessionV, id: Seq<char>, other: Seq<char>)
    ensures
        filed(m, s).sessions.contains_key(s.info.session_id) && filed(m, s).sessions[s.info.session_id] == s,
        other != s.info.session_id
            ==> filed(m, s).sessions.contains_key(other) == m.sessions.contains_key(other)
                && filed(m, s).sessions[other] == m.sessions[other],
        !ended(m, id).sessions.contains_key(id),
        other != id
            ==> ended(m, id).sessions.contains_key(other) == m.sessions.contains_key(other)
                && (m.sessions.contains_key(other) ==> ended(m, id).sessions[other] == m.sessions[other]),
        filed(m, s).warm_pool == m.warm_pool && ended(m, id).warm_pool == m.warm_pool,
        filed(m, s).template_pools == m.template_pools && ended(m, id).template_pools == m.template_pools,
        filed(m, s).worker_path == m.worker_path && filed(m, s).python_path == m.python_path,
        ended(m, id).worker_path == m.worker_path && ended(m, id).python_path == m.python_path,
        no_sessions().dom() == Set::<Seq<char>>::empty(),
{
}

/// Law: a session is expired if and only if its end is past, to the second; one whose
/// end cannot be told never is.
pub proof fn law_session_lives_until_its_end(s: SessionV, now: Timestamp)
    requires
        now.valid(),
    ensures
        -8334601228800 <= s.expires_at_secs <= 8210266876799 && s.expires_at_secs < now.secs ==> expired(s, now),
        -8334601228800 <= s.expires_at_secs <= 8210266876799 && s.expires_at_secs > now.secs ==> !expired(s, now),
        -8334601228800 <= s.expires_at_secs <= 8210266876799 && s.expires_at_secs == now.secs
            ==> (expired(s, now) <==> now.nanos > 0),
        !(-8334601228800 <= s.expires_at_secs <= 8210266876799) ==> !expired(s, now) && expiry(s, now) == now,
        -8334601228800 <= s.expires_at_secs <= 8210266876799
            ==> expiry(s, now).secs == s.expires_at_secs && expiry(s, now).nanos == 0,
{
}

/// Law: the status of a session has its id, its calls and the whole seconds until its
/// end, and none where the end is past.
pub proof fn law_status_tells_the_time_left(s: SessionV, now: Timestamp)
    requires
        now.valid(),
    ensures
        !(-8334601228800 <= s.expires_at_secs <= 8210266876799) ==> status_of(s, now).ttl_remaining == 0,
        status_of(s, now).active,
        status_of(s, now).session_id == s.info.session_id,
        status_of(s, now).calls_used == s.calls_used,
        -8334601228800 <= s.expires_at_secs <= now.secs ==> status_of(s, now).ttl_remaining == 0,
        now.secs < s.expires_at_secs <= 8210266876799 && now.nanos == 0
            ==> status_of(s, now).ttl_remaining == s.expires_at_secs - now.secs,
        now.secs < s.expires_at_secs <= 8210266876799 && now.nanos > 0
            ==> status_of(s, now).ttl_remaining == s.expires_at_secs - now.secs - 1,
{
}

/// Law: a report has the tokens that were put out and those of the state, what they
/// would have cost without a sandbox, where the state is sent with every call, and what
/// was saved.
pub proof fn law_report_counts_what_was_used(s: SessionV)
    requires
        tokens_without_sandbox(s) <= u64::MAX,
    ensures
        report_of(s).total_output_tokens == s.cumulative_output_tokens,
        report_of(s).peak_session_state_tokens == s.cumulative_state_tokens,
        s.calls_used <= 1
            ==> report_of(s).estimated_tokens_without_sandbox == s.cumulative_output_tokens
                + s.cumulative_state_tokens
                && report_of(s).net_token_savings == s.cumulative_state_tokens,
        s.calls_used > 1
            ==> report_of(s).estimated_tokens_without_sandbox == s.cumulative_output_tokens
                + s.cumulative_state_tokens * s.calls_used
                && report_of(s).net_token_savings == s.cumulative_state_tokens * s.calls_used,
{
    assert(s.cumulative_state_tokens * s.calls_used >= 0) by (nonlinear_arith)
        requires
            s.cumulative_state_tokens >= 0,
            s.calls_used >= 0,
    ;
    if s.calls_used == 1 {
        assert(s.cumulative_state_tokens * s.calls_used == s.cumulative_state_tokens) by (nonlinear_arith)
            requires
                s.calls_used == 1,
        ;
    }
}

/// Law: counting tokens adds them to those of the session, each to its own, and changes
/// nothing else.
pub proof fn law_counts_add_up(s: SessionV, out: u64, state: u64)
    ensures
        s.cumulative_output_tokens + out <= u64::MAX
            ==> counted(s, out, state).cumulative_output_tokens == s.cumulative_output_tokens + out,
        s.cumulative_state_tokens + state <= u64::MAX
            ==> counted(s, out, state).cumulative_state_tokens == s.cumulative_state_tokens + state,
        s.cumulative_output_tokens + out > u64::MAX
            ==> counted(s, out, state).cumulative_output_tokens == s.cumulative_output_tokens
                + out - 0x1_0000_0000_0000_0000,
        s.cumulative_state_tokens + state > u64::MAX
            ==> counted(s, out, state).cumulative_state_tokens == s.cumulative_state_tokens
                + state - 0x1_0000_0000_0000_0000,
        counted(s, out, state) == (
            SessionV {
                cumulative_output_tokens: counted(s, out, state).cumulative_output_tokens,
                cumulative_state_tokens: counted(s, out, state).cumulative_state_tokens,
                ..s
            }
        ),
{
}

/// Law: a session with a template takes a waiting worker of that template, or else a
/// new one that installs its packages; any other takes a warm worker, or else a new
/// one. The worker that is taken leaves its pool, and nothing else changes.
pub proof fn law_workers_are_taken_from_their_pool(
    m: ManagerV,
    t: SessionTemplate,
    blank: Option<SessionTemplate>,
)
    requires
        t != SessionTemplate::Blank,
        blank is None || blank == Some(SessionTemplate::Blank),
    ensures
        m.template_pools.contains_key(template_name(t)) && m.template_pools[template_name(t)].len() > 0
            ==> choice(m, Some(t)) == AcquiredV::Warm(m.template_pools[template_name(t)].last())
                && taken(m, Some(t)).template_pools == m.template_pools.insert(
                    template_name(t),
                    m.template_pools[template_name(t)].drop_last(),
                ),
        !(m.template_pools.contains_key(template_name(t)) && m.template_pools[template_name(t)].len() > 0)
            ==> choice(m, Some(t)) == AcquiredV::Cold(template_code(t)) && taken(m, Some(t)) == m,
        m.warm_pool.len() > 0
            ==> choice(m, blank) == AcquiredV::Warm(m.warm_pool.last())
                && taken(m, blank).warm_pool == m.warm_pool.drop_last(),
        m.warm_pool.len() == 0 ==> choice(m, blank) == AcquiredV::Cold(None) && taken(m, blank) == m,
        taken(m, Some(t)).warm_pool == m.warm_pool
            && taken(m, Some(t)).sessions == m.sessions
            && taken(m, Some(t)).worker_path == m.worker_path
            && taken(m, Some(t)).python_path == m.python_path,
        taken(m, blank).template_pools == m.template_pools
            && taken(m, blank).sessions == m.sessions
            && taken(m, blank).worker_path == m.worker_path
            && taken(m, blank).python_path == m.python_path,
{
}

/// Law: a worker whose packages are installed waits in the pool of its template, where
/// there is one, and is the next that is taken from it; one whose installation failed
/// does not.
pub proof fn law_offered_worker_waits_for_its_template(m: ManagerV, t: SessionTemplate, runtime: u64)
    requires
        t != SessionTemplate::Blank,
        m.template_pools.contains_key(template_name(t)),
    ensures
        choice(offered(m, t, runtime, false), Some(t)) == AcquiredV::Warm(runtime),
        taken(offered(m, t, runtime, false), Some(t)) == m,
        offered(m, t, runtime, true) == m,
{
    let pool = m.template_pools[template_name(t)];
    assert(pool.push(runtime).drop_last() =~= pool);
    assert(taken(offered(m, t, runtime, false), Some(t)).template_pools =~= m.template_pools);
}

/// Law: a session, what is told of it and a worker that was acquired are known by what
/// their fields say.
pub proof fn law_session_parts_keep_their_names(i: SessionInfo, s: Session, t: SessionStatus, a: Acquired)
    ensures
        i@.session_id == i.session_id@,
        i@.created_at == i.created_at,
        i@.expires_at == i.expires_at,
        i@.calls_used == i.calls_used,
        i@.workspace_path == i.workspace_path@,
        i@.template == maybe_owned(i.template),
        s@.info == s.info@,
        s@.expires_at_secs == s.expires_at_secs,
        s@.calls_used == s.calls_used,
        s@.cumulative_output_tokens == s.cumulative_output_tokens,
        s@.cumulative_state_tokens == s.cumulative_state_tokens,
        s@.runtime == s.runtime,
        s@.workspace == s.workspace@,
        s@.api_key == maybe_owned(s.api_key),
        s@.token_tracking == s.token_tracking,
        t@.active == t.active,
        t@.ttl_remaining == t.ttl_remaining,
        t@.calls_used == t.calls_used,
        t@.session_id == t.session_id@,
        a matches Acquired::Warm(r) ==> a@ == AcquiredV::Warm(r),
        a matches Acquired::Cold(c) ==> a@ == AcquiredV::Cold(maybe_owned(c)),
{
}

/// Law: a session lasts fifteen minutes, three workers are kept warm, and what is past
/// is looked for every half minute, or hour where it is a checkpoint; a worker has
/// thirty seconds to start, and an execution, an installation and a clearing have their
/// own.
pub proof fn law_figures_of_the_service()
    ensures
        DEFAULT_TTL_SECS == 900,
        WARM_POOL_SIZE == 3,
        SWEEPER_INTERVAL_SECS == 30,
        GRACE_INTERVAL_SECS == 30,
        RETENTION_INTERVAL_SECS == 3600,
        READY_TIMEOUT_SECS == 30,
        EXECUTE_TIMEOUT_SECS == 35,
        INSTALL_TIMEOUT_SECS == 120,
        CLEAR_TIMEOUT_SECS == 5,
        EXECUTION_GRACE_SECS == 5,
        MEGABYTE == 1024 * 1024,
        WINDOW_NS == 60 * 1_000_000_000,
{
}

/// Law: of two times that differ one is before the other, and no time is before itself;
/// whole seconds between two times are none where the second is not later, and else as
/// many as fit between them.
pub proof fn law_time_is_ordered(a: Timestamp, b: Timestamp, c: Timestamp)
    ensures
        !a.before_spec(a),
        a.before_spec(b) ==> !b.before_spec(a),
        a.before_spec(b) && b.before_spec(c) ==> a.before_spec(c),
        a != b ==> a.before_spec(b) || b.before_spec(a),
        a.secs < b.secs ==> a.before_spec(b),
        a.valid() && b.valid() && !a.before_spec(b) ==> whole_seconds(a, b) == 0,
        a.valid() && b.valid() && a.before_spec(b)
            ==> whole_seconds(a, b) * 1_000_000_000 <= (b.secs - a.secs) * 1_000_000_000
                + (b.nanos - a.nanos) < (whole_seconds(a, b) + 1) * 1_000_000_000,
{
}

/// Law: of the sessions those whose end is past are taken out, each once and as it was,
/// and the others stay as they are.
pub proof fn law_past_sessions_are_drained(
    before: Map<Seq<char>, SessionV>,
    after: Map<Seq<char>, SessionV>,
    list: Seq<(String, Session)>,
    now: Timestamp,
    id: Seq<char>,
    k: int,
)
    requires
        drained(before, after, list, now),
    ensures
        after.contains_key(id) <==> before.contains_key(id) && !expired(before[id], now),
        after.contains_key(id) ==> after[id] == before[id],
        before.contains_key(id) && expired(before[id], now)
            ==> exists|j: int| 0 <= j < list.len() && (#[trigger] list[j]).0@ == id,
        0 <= k < list.len()
            ==> before.contains_key(list[k].0@)
                && list[k].1@ == before[list[k].0@]
                && expired(before[list[k].0@], now),
        forall|j: int| 0 <= j < list.len() && 0 <= k < list.len() && j != k ==> (#[trigger] list[j]).0@ != list[k].0@,
{
    if before.contains_key(id) && expired(before[id], now) {
        assert(!after.contains_key(id));
    }
    if 0 <= k < list.len() {
        assert(out_of(before, list[k], now));
    }
}

/// Law: the sessions of a key are those that were created under it.
pub proof fn law_sessions_of_a_key(sessions: Map<Seq<char>, SessionV>, key: Seq<char>, id: Seq<char>)
    ensures
        sessions_of(sessions, key).contains(id) <==> sessions.contains_key(id) && sessions[id].api_key == Some(key),
{
}

/// Law: an id is a random UUID: groups of hexadecimal digits with hyphens between them,
/// its version and its variant.
pub proof fn law_ids_have_their_shape(s: Seq<char>)
    ensures
        uuid_text(s)
            <==> s.len() == 36
                && (
                    forall|i: int|
                        0 <= i < 36
                            ==> if i == 8 || i == 13 || i == 18 || i == 23 {
                                #[trigger] s[i] as int == 45
                            } else {
                                48 <= s[i] as int <= 57 || 97 <= s[i] as int <= 102
                            }
                )
                && s[14] == '4'
                && (s[19] == '8' || s[19] == '9' || s[19] == 'a' || s[19] == 'b'),
{
    if uuid_text(s) {
        assert forall|i: int| 0 <= i < 36 implies if i == 8 || i == 13 || i == 18 || i == 23 {
            #[trigger] s[i] as int == 45
        } else {
            48 <= s[i] as int <= 57 || 97 <= s[i] as int <= 102
        } by {
            assert(hyphen_at(i) || hex_char(s[i]));
        }
    }
}

/// Law: each template but the blank one has a pool under its name, and there is no
/// other; each session is filed under its own id.
pub proof fn law_each_template_has_its_pool(m: ManagerV, t: SessionTemplate, id: Seq<char>)
    requires
        m.wf(),
    ensures
        t != SessionTemplate::Blank ==> m.template_pools.contains_key(template_name(t)),
        m.template_pools.contains_key(id)
            ==> id == "data-science"@ || id == "machine-learning"@ || id == "web-scraping"@,
        m.sessions.contains_key(id) ==> m.sessions[id].info.session_id == id,
        m.sessions.dom().finite(),
{
    assert(m.template_pools.dom().contains(id) == m.template_pools.contains_key(id));
}

} // verus!
