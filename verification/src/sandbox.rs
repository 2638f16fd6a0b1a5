//! Sessions: their templates, their lifetime, their token counts, and the
//! manager that hands workers out to them.
//!
//! A worker process is known here by a number that its owner gives it.
use vstd::prelude::*;
use vstd::string::*;
use std::collections::VecDeque;
use crate::clock::{seconds_left, utc_now, whole_seconds, Timestamp, MAX_SECS, MIN_SECS};
use crate::ident::uuid_text;
use crate::json::slices;
use crate::path::{join_path, joined};
use crate::store::{list_keys, list_len, lists_in, new_lists, put_list, take_list};
use crate::text::{join, join_texts, labelled, maybe_owned, same, texts};

verus! {

/// Seconds that a session lives after its last execution.
pub const DEFAULT_TTL_SECS: i64 = 900;

/// Seconds between two looks at the warm pool.
pub const SWEEPER_INTERVAL_SECS: u64 = 30;

/// Workers that the warm pool should hold.
pub const WARM_POOL_SIZE: usize = 3;

// ── Templates ───────────────────────────────────────────

/// What a session starts with.
#[derive(Clone, Copy, Debug, PartialEq, Eq, Structural)]
pub enum SessionTemplate {
    /// numpy pandas matplotlib scikit-learn scipy
    DataScience,
    /// torch transformers datasets accelerate
    MachineLearning,
    /// requests httpx beautifulsoup4 lxml
    WebScraping,
    /// nothing
    Blank,
}

/// The template that a name stands for.
pub open spec fn template_of(s: Seq<char>) -> Option<SessionTemplate> {
    if s == "data-science"@ || s == "data_science"@ || s == "datascience"@ {
        Some(SessionTemplate::DataScience)
    } else if s == "ml"@ || s == "machine-learning"@ || s == "machine_learning"@ {
        Some(SessionTemplate::MachineLearning)
    } else if s == "web"@ || s == "web-scraping"@ || s == "scraping"@ {
        Some(SessionTemplate::WebScraping)
    } else if s == "blank"@ || s == ""@ {
        Some(SessionTemplate::Blank)
    } else {
        None
    }
}

/// The name of a template.
pub open spec fn template_name(t: SessionTemplate) -> Seq<char> {
    match t {
        SessionTemplate::DataScience => "data-science"@,
        SessionTemplate::MachineLearning => "machine-learning"@,
        SessionTemplate::WebScraping => "web-scraping"@,
        SessionTemplate::Blank => "blank"@,
    }
}

/// The packages of a template.
pub open spec fn template_packages(t: SessionTemplate) -> Seq<Seq<char>> {
    match t {
        SessionTemplate::DataScience => seq!["numpy"@, "pandas"@, "matplotlib"@, "scikit-learn"@, "scipy"@],
        SessionTemplate::MachineLearning => seq!["torch"@, "transformers"@, "datasets"@, "accelerate"@],
        SessionTemplate::WebScraping => seq!["requests"@, "httpx"@, "beautifulsoup4"@, "lxml"@],
        SessionTemplate::Blank => seq![],
    }
}

/// Each text between single quotes.
pub open spec fn each_quoted(v: Seq<Seq<char>>) -> Seq<Seq<char>> {
    Seq::new(v.len(), |i: int| "'"@ + v[i] + "'"@)
}

/// The Python code that installs packages.
pub open spec fn install_text(packages: Seq<Seq<char>>) -> Seq<char> {
    "import subprocess as _sp\n_sp.run(['pip','install','-q',"@ + join(each_quoted(packages), ","@)
        + "], check=True)\ndel _sp"@
}

/// The Python code that installs a template, where there is anything to install.
pub open spec fn template_code(t: SessionTemplate) -> Option<Seq<char>> {
    if template_packages(t).len() == 0 {
        None
    } else {
        Some(install_text(template_packages(t)))
    }
}

impl SessionTemplate {
    /// The template that a name stands for.
    pub fn from_str(s: &str) -> (r: Option<SessionTemplate>)
        ensures
            r == template_of(s@),
    {
        if same(s, "data-science") || same(s, "data_science") || same(s, "datascience") {
            Some(SessionTemplate::DataScience)
        } else if same(s, "ml") || same(s, "machine-learning") || same(s, "machine_learning") {
            Some(SessionTemplate::MachineLearning)
        } else if same(s, "web") || same(s, "web-scraping") || same(s, "scraping") {
            Some(SessionTemplate::WebScraping)
        } else if same(s, "blank") || same(s, "") {
            Some(SessionTemplate::Blank)
        } else {
            None
        }
    }

    /// The packages of this template.
    pub fn packages(&self) -> (r: &[&str])
        ensures
            slices(r@) == template_packages(*self),
    {
        let r: &[&str] = match self {
            SessionTemplate::DataScience => &["numpy", "pandas", "matplotlib", "scikit-learn", "scipy"],
            SessionTemplate::MachineLearning => &["torch", "transformers", "datasets", "accelerate"],
            SessionTemplate::WebScraping => &["requests", "httpx", "beautifulsoup4", "lxml"],
            SessionTemplate::Blank => &[],
        };
        assert(slices(r@) =~= template_packages(*self));
        r
    }

    /// The Python code that installs this template, where there is anything to
    /// install.
    pub fn install_code(&self) -> (r: Option<String>)
        ensures
            maybe_owned(r) == template_code(*self),
    {
        let pkgs: &[&str] = self.packages();
        let ghost all = template_packages(*self);
        assert(pkgs@.len() == slices(pkgs@).len());
        if pkgs.len() == 0 {
            return None;
        }
        let mut quoted: Vec<String> = Vec::new();
        let mut i: usize = 0;
        while i < pkgs.len()
            invariant
                i <= pkgs@.len(),
                slices(pkgs@) == all,
                quoted@.len() == i,
                forall|j: int| 0 <= j < i ==> (#[trigger] quoted@[j])@ == "'"@ + all[j] + "'"@,
            decreases pkgs@.len() - i,
        {
            let mut q: String = "'".to_owned();
            q.append(pkgs[i]);
            q.append("'");
            assert(pkgs@[i as int]@ == slices(pkgs@)[i as int]);
            quoted.push(q);
            i += 1;
        }
        assert(texts(quoted@) =~= each_quoted(all));
        let mut s: String = "import subprocess as _sp\n_sp.run(['pip','install','-q',".to_owned();
        let list: String = join_texts(&quoted, ",");
        s.append(list.as_str());
        s.append("], check=True)\ndel _sp");
        Some(s)
    }

    /// The name of this template.
    pub fn name(&self) -> (r: &str)
        ensures
            r@ == template_name(*self),
    {
        match self {
            SessionTemplate::DataScience => "data-science",
            SessionTemplate::MachineLearning => "machine-learning",
            SessionTemplate::WebScraping => "web-scraping",
            SessionTemplate::Blank => "blank",
        }
    }
}

/// Law: the name of a template stands for that template.
pub proof fn law_template_name(t: SessionTemplate)
    ensures
        template_of(template_name(t)) == Some(t),
{
    lemma_template_names();
}

/// Names of different templates differ, and none is an alias of another.
proof fn lemma_template_names()
    ensures
        template_of("data-science"@) == Some(SessionTemplate::DataScience),
        template_of("machine-learning"@) == Some(SessionTemplate::MachineLearning),
        template_of("web-scraping"@) == Some(SessionTemplate::WebScraping),
        template_of("blank"@) == Some(SessionTemplate::Blank),
        "data-science"@ != "machine-learning"@,
        "data-science"@ != "web-scraping"@,
        "machine-learning"@ != "web-scraping"@,
        "blank"@ != "data-science"@,
        "blank"@ != "machine-learning"@,
        "blank"@ != "web-scraping"@,
{
    reveal_strlit("data-science");
    reveal_strlit("data_science");
    reveal_strlit("datascience");
    reveal_strlit("ml");
    reveal_strlit("machine-learning");
    reveal_strlit("machine_learning");
    reveal_strlit("web");
    reveal_strlit("web-scraping");
    reveal_strlit("scraping");
    reveal_strlit("blank");
    reveal_strlit("");
    assert("data-science"@[0] == 'd' && "data_science"@[0] == 'd' && "datascience"@[0] == 'd');
    assert("ml"@[0] == 'm' && "machine-learning"@[0] == 'm' && "machine_learning"@[0] == 'm');
    assert("web"@[0] == 'w' && "web-scraping"@[0] == 'w' && "scraping"@[0] == 's');
    assert("blank"@[0] == 'b');
}

// ── Sessions ────────────────────────────────────────────

/// What a session was created with.
#[derive(Clone)]
pub struct SessionInfo {
    pub session_id: String,
    pub created_at: Timestamp,
    pub expires_at: Timestamp,
    pub calls_used: u64,
    pub workspace_path: String,
    pub template: Option<String>,
}

/// What a session was created with, as mathematics.
pub struct SessionInfoV {
    pub session_id: Seq<char>,
    pub created_at: Timestamp,
    pub expires_at: Timestamp,
    pub calls_used: u64,
    pub workspace_path: Seq<char>,
    pub template: Option<Seq<char>>,
}

impl View for SessionInfo {
    type V = SessionInfoV;

    open spec fn view(&self) -> SessionInfoV {
        SessionInfoV {
            session_id: self.session_id@,
            created_at: self.created_at,
            expires_at: self.expires_at,
            calls_used: self.calls_used,
            workspace_path: self.workspace_path@,
            template: maybe_owned(self.template),
        }
    }
}

/// A session.
pub struct Session {
    pub info: SessionInfo,
    /// When the session expires, in seconds since 1970. Moved by every execution.
    pub expires_at_secs: i64,
    /// Executions so far.
    pub calls_used: u64,
    /// The output tokens of all executions.
    pub cumulative_output_tokens: u64,
    /// The state tokens of all executions; divided by the executions, the average
    /// state that was held.
    pub cumulative_state_tokens: u64,
    /// The worker.
    pub runtime: u64,
    pub workspace: String,
    /// The API key that owns the session.
    pub api_key: Option<String>,
    /// Whether tokens are counted.
    pub token_tracking: bool,
}

/// A session, as mathematics.
pub struct SessionV {
    pub info: SessionInfoV,
    pub expires_at_secs: i64,
    pub calls_used: u64,
    pub cumulative_output_tokens: u64,
    pub cumulative_state_tokens: u64,
    pub runtime: u64,
    pub workspace: Seq<char>,
    pub api_key: Option<Seq<char>>,
    pub token_tracking: bool,
}

impl View for Session {
    type V = SessionV;

    open spec fn view(&self) -> SessionV {
        SessionV {
            info: self.info@,
            expires_at_secs: self.expires_at_secs,
            calls_used: self.calls_used,
            cumulative_output_tokens: self.cumulative_output_tokens,
            cumulative_state_tokens: self.cumulative_state_tokens,
            runtime: self.runtime,
            workspace: self.workspace@,
            api_key: maybe_owned(self.api_key),
            token_tracking: self.token_tracking,
        }
    }
}

impl SessionInfo {
    /// The same once more.
    pub fn copy(&self) -> (r: SessionInfo)
        ensures
            r@ == self@,
    {
        SessionInfo {
            session_id: self.session_id.clone(),
            created_at: self.created_at,
            expires_at: self.expires_at,
            calls_used: self.calls_used,
            workspace_path: self.workspace_path.clone(),
            template: self.template.clone(),
        }
    }
}

impl Session {
    /// The same once more.
    pub fn copy(&self) -> (r: Session)
        ensures
            r@ == self@,
    {
        Session {
            info: self.info.copy(),
            expires_at_secs: self.expires_at_secs,
            calls_used: self.calls_used,
            cumulative_output_tokens: self.cumulative_output_tokens,
            cumulative_state_tokens: self.cumulative_state_tokens,
            runtime: self.runtime,
            workspace: self.workspace.clone(),
            api_key: self.api_key.clone(),
            token_tracking: self.token_tracking,
        }
    }
}

/// A session after an execution at `now`.
pub open spec fn touched(s: SessionV, now: Timestamp) -> SessionV {
    SessionV {
        expires_at_secs: (now.secs + DEFAULT_TTL_SECS) as i64,
        calls_used: if s.calls_used == u64::MAX {
            0
        } else {
            (s.calls_used + 1) as u64
        },
        ..s
    }
}

/// A running total after `n` more; it starts again from 0 past the greatest
/// number.
pub open spec fn running_total(total: u64, n: u64) -> u64 {
    if total + n > u64::MAX {
        (total + n - 0x1_0000_0000_0000_0000) as u64
    } else {
        (total + n) as u64
    }
}

/// A session after an execution that reported these tokens: both totals run on.
pub open spec fn counted(s: SessionV, output_tokens: u64, state_tokens: u64) -> SessionV {
    SessionV {
        cumulative_output_tokens: running_total(s.cumulative_output_tokens, output_tokens),
        cumulative_state_tokens: running_total(s.cumulative_state_tokens, state_tokens),
        ..s
    }
}

/// When a session expires: at its second, or at `now` where that second lies
/// outside what a time can hold.
pub open spec fn expiry(s: SessionV, now: Timestamp) -> Timestamp {
    if MIN_SECS <= s.expires_at_secs <= MAX_SECS {
        Timestamp { secs: s.expires_at_secs, nanos: 0 }
    } else {
        now
    }
}

/// Whether a session has expired at `now`.
pub open spec fn expired(s: SessionV, now: Timestamp) -> bool {
    expiry(s, now).before_spec(now)
}

/// What the tokens of a session come to.
pub struct TokenReport {
    pub total_output_tokens: u64,
    pub peak_session_state_tokens: u64,
    pub estimated_tokens_without_sandbox: u64,
    pub net_token_savings: u64,
}

/// The executions of a session, at least one.
pub open spec fn at_least_one(calls: u64) -> int {
    if calls == 0 {
        1
    } else {
        calls as int
    }
}

/// The tokens that the session would have cost with its state repeated in every
/// call.
pub open spec fn tokens_without_sandbox(s: SessionV) -> int {
    s.cumulative_output_tokens + s.cumulative_state_tokens * at_least_one(s.calls_used)
}

/// What the tokens of a session come to.
pub open spec fn report_of(s: SessionV) -> TokenReport {
    TokenReport {
        total_output_tokens: s.cumulative_output_tokens,
        peak_session_state_tokens: s.cumulative_state_tokens,
        estimated_tokens_without_sandbox: tokens_without_sandbox(s) as u64,
        net_token_savings: (s.cumulative_state_tokens * at_least_one(s.calls_used)) as u64,
    }
}

impl Session {
    /// Renews the session from `now` on and counts an execution.
    pub fn touch_at(&mut self, now: Timestamp)
        requires
            now.valid(),
        ensures
            final(self)@ == touched(old(self)@, now),
    {
        self.expires_at_secs = now.secs + DEFAULT_TTL_SECS;
        self.calls_used = self.calls_used.wrapping_add(1);
    }

    /// Renews the session from the current time on and counts an execution.
    pub fn touch(&mut self)
        ensures
            exists|now: Timestamp| now.valid() && now.secs >= 0 && final(self)@ == #[trigger] touched(old(self)@, now),
    {
        let now: Timestamp = utc_now();
        self.touch_at(now);
    }

    /// When the session expires, seen at `now`.
    pub fn expires_at_from(&self, now: Timestamp) -> (r: Timestamp)
        requires
            now.valid(),
        ensures
            r == expiry(self@, now),
            r.valid(),
    {
        if MIN_SECS <= self.expires_at_secs && self.expires_at_secs <= MAX_SECS {
            Timestamp { secs: self.expires_at_secs, nanos: 0 }
        } else {
            now
        }
    }

    /// When the session expires.
    pub fn expires_at(&self) -> (r: Timestamp)
        ensures
            exists|now: Timestamp| now.valid() && now.secs >= 0 && r == #[trigger] expiry(self@, now),
    {
        let now: Timestamp = utc_now();
        self.expires_at_from(now)
    }

    /// Executions so far.
    pub fn calls_used(&self) -> (r: u64)
        ensures
            r == self@.calls_used,
    {
        self.calls_used
    }

    /// Records the tokens of one execution.
    pub fn record_tokens(&mut self, output_tokens: u64, state_tokens: u64)
        ensures
            final(self)@ == counted(old(self)@, output_tokens, state_tokens),
    {
        self.cumulative_output_tokens = self.cumulative_output_tokens.wrapping_add(output_tokens);
        self.cumulative_state_tokens = self.cumulative_state_tokens.wrapping_add(state_tokens);
    }

    /// Whether the token report of this session can be computed.
    pub fn can_report(&self) -> (r: bool)
        ensures
            r == (tokens_without_sandbox(self@) <= u64::MAX),
    {
        let calls: u64 = if self.calls_used == 0 {
            1
        } else {
            self.calls_used
        };
        let state: u64 = self.cumulative_state_tokens;
        assert(0 <= state * calls <= u64::MAX * u64::MAX) by (nonlinear_arith)
            requires
                0 <= state <= u64::MAX,
                0 <= calls <= u64::MAX,
        ;
        (state as u128) * (calls as u128) <= (u64::MAX - self.cumulative_output_tokens) as u128
    }

    /// What the tokens of the session come to.
    pub fn token_report(&self) -> (r: TokenReport)
        requires
            tokens_without_sandbox(self@) <= u64::MAX,
        ensures
            r == report_of(self@),
    {
        let total_output: u64 = self.cumulative_output_tokens;
        let peak_state: u64 = self.cumulative_state_tokens;
        let calls: u64 = if self.calls_used == 0 {
            1
        } else {
            self.calls_used
        };
        assert(peak_state * calls >= 0) by (nonlinear_arith)
            requires
                peak_state >= 0,
                calls >= 0,
        ;
        let held: u64 = peak_state * calls;
        let without: u64 = total_output + held;
        TokenReport {
            total_output_tokens: total_output,
            peak_session_state_tokens: peak_state,
            estimated_tokens_without_sandbox: without,
            net_token_savings: without.saturating_sub(total_output),
        }
    }
}

/// Law: an execution keeps a session alive for 15 minutes, and the time that is
/// then left is no more than that.
pub proof fn law_touch_renews(s: SessionV, now: Timestamp, later: Timestamp)
    requires
        now.valid(),
        later.valid(),
        now.secs <= MAX_SECS - DEFAULT_TTL_SECS,
    ensures
        later.secs < now.secs + DEFAULT_TTL_SECS ==> !expired(touched(s, now), later),
        later.secs > now.secs + DEFAULT_TTL_SECS ==> expired(touched(s, now), later),
        whole_seconds(now, expiry(touched(s, now), now)) <= DEFAULT_TTL_SECS,
        whole_seconds(now, expiry(touched(s, now), now)) >= DEFAULT_TTL_SECS - 1,
{
}

/// Law: what the sandbox saves is what it would have cost without it, less the
/// output.
pub proof fn law_net_savings(s: SessionV)
    requires
        tokens_without_sandbox(s) <= u64::MAX,
    ensures
        report_of(s).net_token_savings == report_of(s).estimated_tokens_without_sandbox - report_of(s).total_output_tokens,
{
    assert(s.cumulative_state_tokens * at_least_one(s.calls_used) >= 0) by (nonlinear_arith)
        requires
            s.cumulative_state_tokens >= 0,
            at_least_one(s.calls_used) >= 0,
    ;
}

/// The state of a session as its owner sees it.
pub struct SessionStatus {
    pub active: bool,
    pub ttl_remaining: i64,
    pub calls_used: u64,
    pub session_id: String,
}

/// The state of a session as its owner sees it, as mathematics.
pub struct SessionStatusV {
    pub active: bool,
    pub ttl_remaining: int,
    pub calls_used: u64,
    pub session_id: Seq<char>,
}

impl View for SessionStatus {
    type V = SessionStatusV;

    open spec fn view(&self) -> SessionStatusV {
        SessionStatusV {
            active: self.active,
            ttl_remaining: self.ttl_remaining as int,
            calls_used: self.calls_used,
            session_id: self.session_id@,
        }
    }
}

/// The state of a session at `now`.
pub open spec fn status_of(s: SessionV, now: Timestamp) -> SessionStatusV {
    SessionStatusV {
        active: true,
        ttl_remaining: whole_seconds(now, expiry(s, now)),
        calls_used: s.calls_used,
        session_id: s.info.session_id,
    }
}

/// An attempt to use the worker of a session.
pub enum Attempt<T> {
    /// There is no such session.
    NoSession,
    /// Another execution is running.
    Busy,
    /// What came of it.
    Ran(T),
}

// ── The manager ─────────────────────────────────────────

/// The sessions that a map holds.
pub uninterp spec fn sessions_in(map: dashmap::DashMap<String, Session>) -> Map<Seq<char>, SessionV>;

/// No session.
pub open spec fn no_sessions() -> Map<Seq<char>, SessionV> {
    Map::empty()
}

/// `DashMap::new`: an empty map.
#[verifier::external_body]
fn new_sessions() -> (r: dashmap::DashMap<String, Session>)
    ensures
        sessions_in(r) == no_sessions(),
{
    dashmap::DashMap::new()
}

/// `DashMap::insert`: puts a session in.
#[verifier::external_body]
fn put_session(map: &mut dashmap::DashMap<String, Session>, id: String, session: Session)
    ensures
        sessions_in(*final(map)) == sessions_in(*old(map)).insert(id@, session@),
{
    map.insert(id, session);
}

/// `DashMap::remove`: takes a session out, where there is one.
#[verifier::external_body]
fn take_session(map: &mut dashmap::DashMap<String, Session>, id: &str) -> (r: Option<Session>)
    ensures
        sessions_in(*final(map)) == sessions_in(*old(map)).remove(id@),
        r is Some == sessions_in(*old(map)).contains_key(id@),
        r is Some ==> r->Some_0@ == sessions_in(*old(map))[id@],
{
    map.remove(id).map(|entry| entry.1)
}

/// `DashMap::get`: a copy of a session, where there is one.
#[verifier::external_body]
fn copy_session(map: &dashmap::DashMap<String, Session>, id: &str) -> (r: Option<Session>)
    ensures
        r is Some == sessions_in(*map).contains_key(id@),
        r is Some ==> r->Some_0@ == sessions_in(*map)[id@],
{
    map.get(id).map(|entry| entry.value().copy())
}

/// `DashMap::len`: how many sessions a map holds.
#[verifier::external_body]
fn count_sessions(map: &dashmap::DashMap<String, Session>) -> (r: usize)
    ensures
        r == sessions_in(*map).dom().len(),
{
    map.len()
}

/// `DashMap::iter`: the identifiers of all sessions, each once, in some order.
#[verifier::external_body]
fn session_ids(map: &dashmap::DashMap<String, Session>) -> (r: Vec<String>)
    ensures
        texts(r@).no_duplicates(),
        texts(r@).to_set() == sessions_in(*map).dom(),
{
    map.iter().map(|entry| entry.key().clone()).collect()
}

/// The sessions and the workers that wait for one.
pub struct SessionManager {
    sessions: dashmap::DashMap<String, Session>,
    warm_pool: Vec<u64>,
    template_pools: dashmap::DashMap<String, VecDeque<u64>>,
    worker_path: String,
    python_path: String,
}

/// The sessions and the workers that wait for one, as mathematics.
pub struct ManagerV {
    pub sessions: Map<Seq<char>, SessionV>,
    pub warm_pool: Seq<u64>,
    pub template_pools: Map<Seq<char>, Seq<u64>>,
    pub worker_path: Seq<char>,
    pub python_path: Seq<char>,
}

impl View for SessionManager {
    type V = ManagerV;

    closed spec fn view(&self) -> ManagerV {
        ManagerV {
            sessions: sessions_in(self.sessions),
            warm_pool: self.warm_pool@,
            template_pools: lists_in(self.template_pools),
            worker_path: self.worker_path@,
            python_path: self.python_path@,
        }
    }
}

impl ManagerV {
    /// Whether every session is filed under its own identifier, and the pools are
    /// those of the templates that install something.
    pub open spec fn wf(self) -> bool {
        &&& self.sessions.dom().finite()
        &&& forall|id: Seq<char>| #[trigger]
            self.sessions.contains_key(id) ==> self.sessions[id].info.session_id == id && uuid_text(id)
        &&& self.template_pools.dom() == pool_keys()
    }
}

/// The names of the templates that have a pool.
pub open spec fn pool_keys() -> Set<Seq<char>> {
    set!["data-science"@, "machine-learning"@, "web-scraping"@]
}

/// The sessions that belong to a key, by their identifiers.
pub open spec fn sessions_of(sessions: Map<Seq<char>, SessionV>, key: Seq<char>) -> Set<Seq<char>> {
    sessions.dom().filter(|id: Seq<char>| sessions[id].api_key == Some(key))
}

/// The manager with a session filed under its identifier.
pub open spec fn filed(m: ManagerV, s: SessionV) -> ManagerV {
    ManagerV { sessions: m.sessions.insert(s.info.session_id, s), ..m }
}

/// The manager without a session.
pub open spec fn ended(m: ManagerV, id: Seq<char>) -> ManagerV {
    ManagerV { sessions: m.sessions.remove(id), ..m }
}

/// What a new session runs on.
pub enum Acquired {
    /// A waiting worker, which is to be cleared first.
    Warm(u64),
    /// A new worker, which is to run this code first, where there is any.
    Cold(Option<String>),
}

/// What a new session is made of.
pub struct NewSession {
    pub session_id: String,
    pub workspace: String,
    pub runtime: u64,
    pub ttl_secs: Option<i64>,
    pub api_key: Option<String>,
    pub template: Option<SessionTemplate>,
    pub token_tracking: bool,
}

/// A new session that belongs to no key and has no template.
pub open spec fn plain(
    session_id: String,
    workspace: String,
    runtime: u64,
    ttl_secs: Option<i64>,
    token_tracking: bool,
) -> NewSession {
    NewSession { session_id, workspace, runtime, ttl_secs, api_key: None, template: None, token_tracking }
}

/// The lifetime asked for, or the default.
pub open spec fn ttl_of(ttl_secs: Option<i64>) -> int {
    match ttl_secs {
        Some(t) => t as int,
        None => DEFAULT_TTL_SECS as int,
    }
}

/// Whether a session that starts at `now` can have that lifetime.
pub open spec fn ttl_fits(ttl_secs: Option<i64>, now: Timestamp) -> bool {
    MIN_SECS <= now.secs + ttl_of(ttl_secs) <= MAX_SECS
}

/// The session that is created at `now`.
pub open spec fn created(n: NewSession, now: Timestamp) -> SessionV {
    SessionV {
        info: SessionInfoV {
            session_id: n.session_id@,
            created_at: now,
            expires_at: Timestamp { secs: (now.secs + ttl_of(n.ttl_secs)) as i64, nanos: now.nanos },
            calls_used: 0,
            workspace_path: n.workspace@,
            template: match n.template {
                Some(t) => Some(template_name(t)),
                None => None,
            },
        },
        expires_at_secs: (now.secs + ttl_of(n.ttl_secs)) as i64,
        calls_used: 0,
        cumulative_output_tokens: 0,
        cumulative_state_tokens: 0,
        runtime: n.runtime,
        workspace: n.workspace@,
        api_key: maybe_owned(n.api_key),
        token_tracking: n.token_tracking,
    }
}

/// Whether a session that starts at `now` can have the lifetime asked for.
pub fn ttl_is_possible(ttl_secs: Option<i64>, now: Timestamp) -> (r: bool)
    requires
        now.valid(),
    ensures
        r == ttl_fits(ttl_secs, now),
{
    let ttl: i64 = match ttl_secs {
        Some(t) => t,
        None => DEFAULT_TTL_SECS,
    };
    MIN_SECS - now.secs <= ttl && ttl <= MAX_SECS - now.secs
}

/// The workspace of a session.
pub fn session_workspace(temp_dir: &str, session_id: &str) -> (r: String)
    ensures
        r@ == joined(joined(temp_dir@, "greed-compute"@), session_id@),
{
    let base: String = join_path(temp_dir, "greed-compute");
    join_path(base.as_str(), session_id)
}

/// Why a session has no workspace.
pub fn workspace_error(error: &str) -> (r: String)
    ensures
        r@ == "Failed to create workspace directory: "@ + error@,
{
    labelled("Failed to create workspace directory: ", error)
}

/// The workspace in which workers wait.
pub fn warm_workspace(temp_dir: &str) -> (r: String)
    ensures
        r@ == joined(joined(temp_dir@, "greed-compute"@), "_warm_pool"@),
{
    session_workspace(temp_dir, "_warm_pool")
}

/// The workspace in which workers of a template wait.
pub fn template_workspace(temp_dir: &str, template: SessionTemplate) -> (r: String)
    ensures
        r@ == joined(joined(temp_dir@, "greed-compute"@), "_template_"@ + template_name(template)),
{
    let name: String = labelled("_template_", template.name());
    session_workspace(temp_dir, name.as_str())
}

impl SessionManager {
    /// A manager with no session, no waiting worker, and a pool for each template
    /// that installs something.
    pub fn new(worker_path: String, python_path: String) -> (r: SessionManager)
        ensures
            r@.wf(),
            r@.sessions == no_sessions(),
            r@.warm_pool.len() == 0,
            forall|name: Seq<char>|
                r@.template_pools.contains_key(name) ==> (#[trigger] r@.template_pools[name]).len() == 0,
            r@.worker_path == worker_path@,
            r@.python_path == python_path@,
    {
        let mut template_pools: dashmap::DashMap<String, VecDeque<u64>> = new_lists();
        put_list(&mut template_pools, "data-science".to_owned(), VecDeque::new());
        put_list(&mut template_pools, "machine-learning".to_owned(), VecDeque::new());
        put_list(&mut template_pools, "web-scraping".to_owned(), VecDeque::new());
        assert(lists_in(template_pools).dom() =~= pool_keys());
        SessionManager { sessions: new_sessions(), warm_pool: Vec::new(), template_pools, worker_path, python_path }
    }

    /// How many workers the warm pool still wants.
    pub fn warm_needed(&self) -> (r: usize)
        ensures
            r == (if self@.warm_pool.len() >= WARM_POOL_SIZE {
                0int
            } else {
                WARM_POOL_SIZE - self@.warm_pool.len()
            }),
    {
        WARM_POOL_SIZE.saturating_sub(self.warm_pool.len())
    }

    /// Adds a worker to the warm pool.
    pub fn add_warm(&mut self, runtime: u64)
        ensures
            final(self)@ == (ManagerV { warm_pool: old(self)@.warm_pool.push(runtime), ..old(self)@ }),
    {
        self.warm_pool.push(runtime);
    }

    /// How many workers the pool of a template still wants; none where the
    /// template has no pool.
    pub fn template_needed(&self, template: SessionTemplate, target: usize) -> (r: usize)
        ensures
            r == (if !self@.template_pools.contains_key(template_name(template))
                || self@.template_pools[template_name(template)].len() >= target {
                0int
            } else {
                target - self@.template_pools[template_name(template)].len()
            }),
    {
        match list_len(&self.template_pools, template.name()) {
            Some(n) => target.saturating_sub(n),
            None => 0,
        }
    }

    /// Offers a new worker to the pool of a template, with the error that its
    /// installation ended in. It is kept where there was no error and there is
    /// such a pool.
    pub fn offer_template(&mut self, template: SessionTemplate, runtime: u64, install_error: Option<String>) -> (r: bool)
        ensures
            r == (install_error is None && old(self)@.template_pools.contains_key(template_name(template))),
            final(self)@ == offered(old(self)@, template, runtime, install_error is Some),
            old(self)@.wf() ==> final(self)@.wf(),
    {
        if install_error.is_some() {
            return false;
        }
        let ghost before = self@;
        match take_list(&mut self.template_pools, template.name()) {
            Some(mut pool) => {
                pool.push_back(runtime);
                put_list(&mut self.template_pools, template.name().to_owned(), pool);
                proof {
                    let name = template_name(template);
                    assert(self@.template_pools =~= before.template_pools.insert(
                        name,
                        before.template_pools[name].push(runtime),
                    ));
                    assert(self@.template_pools.dom() =~= before.template_pools.dom());
                }
                true
            },
            None => {
                assert(self@.template_pools =~= before.template_pools);
                false
            },
        }
    }

    /// Takes the worker that waited least out of the warm pool.
    fn acquire_runtime(&mut self) -> (r: Acquired)
        ensures
            final(self)@ == warm_taken(old(self)@),
            r@ == warm_choice(old(self)@),
    {
        match self.warm_pool.pop() {
            Some(runtime) => Acquired::Warm(runtime),
            None => Acquired::Cold(None),
        }
    }

    /// Takes the worker that waited least out of the pool of a template.
    fn acquire_template_runtime(&mut self, template: SessionTemplate) -> (r: Acquired)
        ensures
            final(self)@ == template_taken(old(self)@, template),
            r@ == template_choice(old(self)@, template),
    {
        let ghost before = self@;
        let ghost name = template_name(template);
        match take_list(&mut self.template_pools, template.name()) {
            Some(mut pool) => {
                let taken: Option<u64> = pool.pop_back();
                put_list(&mut self.template_pools, template.name().to_owned(), pool);
                match taken {
                    Some(runtime) => {
                        assert(self@.template_pools =~= before.template_pools.insert(
                            name,
                            before.template_pools[name].drop_last(),
                        ));
                        Acquired::Warm(runtime)
                    },
                    None => {
                        assert(self@.template_pools =~= before.template_pools);
                        Acquired::Cold(template.install_code())
                    },
                }
            },
            None => {
                assert(self@.template_pools =~= before.template_pools);
                Acquired::Cold(template.install_code())
            },
        }
    }

    /// Chooses what a new session runs on: a worker of its template's pool or,
    /// without a template or with the blank one, of the warm pool; a new worker
    /// where the pool is empty.
    pub fn acquire(&mut self, template: Option<SessionTemplate>) -> (r: Acquired)
        ensures
            r@ == choice(old(self)@, template),
            final(self)@ == taken(old(self)@, template),
            old(self)@.wf() ==> final(self)@.wf(),
    {
        let ghost before = self@;
        let r: Acquired = match template {
            Some(t) => if t != SessionTemplate::Blank {
                self.acquire_template_runtime(t)
            } else {
                self.acquire_runtime()
            },
            None => self.acquire_runtime(),
        };
        assert(self@.template_pools.dom() =~= before.template_pools.dom());
        r
    }

    /// Creates a session at `now`.
    pub fn create_session_at(&mut self, n: NewSession, now: Timestamp) -> (r: SessionInfo)
        requires
            now.valid(),
            ttl_fits(n.ttl_secs, now),
        ensures
            r@ == created(n, now).info,
            final(self)@ == filed(old(self)@, created(n, now)),
            old(self)@.wf() && uuid_text(n.session_id@) ==> final(self)@.wf(),
    {
        let ttl: i64 = match n.ttl_secs {
            Some(t) => t,
            None => DEFAULT_TTL_SECS,
        };
        let expires_at: Timestamp = Timestamp { secs: now.secs + ttl, nanos: now.nanos };
        let template: Option<String> = match n.template {
            Some(t) => Some(t.name().to_owned()),
            None => None,
        };
        let template_copy: Option<String> = match n.template {
            Some(t) => Some(t.name().to_owned()),
            None => None,
        };
        let info: SessionInfo = SessionInfo {
            session_id: n.session_id.clone(),
            created_at: now,
            expires_at,
            calls_used: 0,
            workspace_path: n.workspace.clone(),
            template,
        };
        let r: SessionInfo = SessionInfo {
            session_id: n.session_id.clone(),
            created_at: now,
            expires_at,
            calls_used: 0,
            workspace_path: n.workspace.clone(),
            template: template_copy,
        };
        let session: Session = Session {
            info,
            expires_at_secs: expires_at.secs,
            calls_used: 0,
            cumulative_output_tokens: 0,
            cumulative_state_tokens: 0,
            runtime: n.runtime,
            workspace: n.workspace,
            api_key: n.api_key,
            token_tracking: n.token_tracking,
        };
        put_session(&mut self.sessions, n.session_id, session);
        r
    }

    /// Creates a session now. Nothing comes of it where its lifetime would end
    /// outside what a time can hold.
    pub fn create_session_for_key(&mut self, n: NewSession) -> (r: Option<SessionInfo>)
        ensures
            match r {
                Some(info) => exists|now: Timestamp|
                    {
                        &&& now.valid() && now.secs >= 0 && ttl_fits(n.ttl_secs, now)
                        &&& info@ == (#[trigger] created(n, now)).info
                        &&& final(self)@ == filed(old(self)@, created(n, now))
                    },
                None => final(self)@ == old(self)@ && exists|now: Timestamp|
                    now.valid() && now.secs >= 0 && !#[trigger] ttl_fits(n.ttl_secs, now),
            },
            old(self)@.wf() && uuid_text(n.session_id@) ==> final(self)@.wf(),
    {
        let now: Timestamp = utc_now();
        if ttl_is_possible(n.ttl_secs, now) {
            Some(self.create_session_at(n, now))
        } else {
            None
        }
    }

    /// Creates a session now that belongs to no key and has no template.
    pub fn create_session(
        &mut self,
        session_id: String,
        workspace: String,
        runtime: u64,
        ttl_secs: Option<i64>,
        token_tracking: bool,
    ) -> (r: Option<SessionInfo>)
        ensures
            ({
                let n = plain(session_id, workspace, runtime, ttl_secs, token_tracking);
                match r {
                    Some(info) => exists|now: Timestamp|
                        {
                            &&& now.valid() && now.secs >= 0 && ttl_fits(ttl_secs, now)
                            &&& info@ == (#[trigger] created(n, now)).info
                            &&& final(self)@ == filed(old(self)@, created(n, now))
                        },
                    None => final(self)@ == old(self)@ && exists|now: Timestamp|
                        now.valid() && now.secs >= 0 && !#[trigger] ttl_fits(ttl_secs, now),
                }
            }),
            old(self)@.wf() && uuid_text(session_id@) ==> final(self)@.wf(),
    {
        self.create_session_for_key(
            NewSession { session_id, workspace, runtime, ttl_secs, api_key: None, template: None, token_tracking },
        )
    }

    /// A copy of a session.
    pub fn get_session(&self, session_id: &str) -> (r: Option<Session>)
        ensures
            match r {
                Some(s) => self@.sessions.contains_key(session_id@) && s@ == self@.sessions[session_id@],
                None => !self@.sessions.contains_key(session_id@),
            },
    {
        copy_session(&self.sessions, session_id)
    }

    /// Takes a session out to change it: the one that is filed, or, where it is
    /// gone, the copy at hand. Says whether it was filed.
    pub fn check_out(&mut self, copy: Session) -> (r: (Session, bool))
        ensures
            r.1 == old(self)@.sessions.contains_key(copy@.info.session_id),
            r.1 ==> r.0@ == old(self)@.sessions[copy@.info.session_id],
            !r.1 ==> r.0 == copy,
            final(self)@ == ended(old(self)@, copy@.info.session_id),
            old(self)@.wf() ==> final(self)@.wf(),
    {
        match take_session(&mut self.sessions, copy.info.session_id.as_str()) {
            Some(s) => (s, true),
            None => (copy, false),
        }
    }

    /// Files a session under its identifier.
    pub fn check_in(&mut self, session: Session)
        ensures
            final(self)@ == filed(old(self)@, session@),
            old(self)@.wf() && uuid_text(session@.info.session_id) ==> final(self)@.wf(),
    {
        let id: String = session.info.session_id.clone();
        put_session(&mut self.sessions, id, session);
    }

    /// Renews a session at `now` and counts an execution, where there is such a
    /// session.
    pub fn touch_session(&mut self, session_id: &str, now: Timestamp)
        requires
            now.valid(),
        ensures
            final(self)@ == if old(self)@.sessions.contains_key(session_id@) {
                ManagerV {
                    sessions: old(self)@.sessions.insert(session_id@, touched(old(self)@.sessions[session_id@], now)),
                    ..old(self)@
                }
            } else {
                old(self)@
            },
            old(self)@.wf() ==> final(self)@.wf(),
    {
        let ghost before = self@;
        match take_session(&mut self.sessions, session_id) {
            Some(mut s) => {
                s.touch_at(now);
                put_session(&mut self.sessions, session_id.to_owned(), s);
                assert(self@.sessions =~= before.sessions.insert(session_id@, touched(before.sessions[session_id@], now)));
            },
            None => {
                assert(self@.sessions =~= before.sessions);
            },
        }
    }

    /// Ends a session and hands it out, where there is one.
    pub fn terminate_session(&mut self, session_id: &str) -> (r: Option<Session>)
        ensures
            match r {
                Some(s) => old(self)@.sessions.contains_key(session_id@) && s@ == old(self)@.sessions[session_id@],
                None => !old(self)@.sessions.contains_key(session_id@),
            },
            final(self)@ == ended(old(self)@, session_id@),
            old(self)@.wf() ==> final(self)@.wf(),
    {
        take_session(&mut self.sessions, session_id)
    }

    /// The state of a session at `now`.
    pub fn status_at(&self, session_id: &str, now: Timestamp) -> (r: Option<SessionStatus>)
        requires
            now.valid(),
        ensures
            match r {
                Some(s) => self@.sessions.contains_key(session_id@) && s@ == status_of(self@.sessions[session_id@], now),
                None => !self@.sessions.contains_key(session_id@),
            },
    {
        match copy_session(&self.sessions, session_id) {
            Some(s) => {
                let until: Timestamp = s.expires_at_from(now);
                Some(
                    SessionStatus {
                        active: true,
                        ttl_remaining: seconds_left(now, until),
                        calls_used: s.calls_used(),
                        session_id: s.info.session_id,
                    },
                )
            },
            None => None,
        }
    }

    /// The state of a session now.
    pub fn get_session_status(&self, session_id: &str) -> (r: Option<SessionStatus>)
        ensures
            r is Some == self@.sessions.contains_key(session_id@),
            r is Some ==> exists|now: Timestamp|
                now.valid() && now.secs >= 0 && r->Some_0@ == #[trigger] status_of(self@.sessions[session_id@], now),
    {
        let now: Timestamp = utc_now();
        self.status_at(session_id, now)
    }

    /// How many sessions there are.
    pub fn active_session_count(&self) -> (r: usize)
        ensures
            r == self@.sessions.dom().len(),
    {
        count_sessions(&self.sessions)
    }

    /// The number of sessions that belong to a key.
    pub fn key_session_count(&self, api_key: &str) -> (r: usize)
        ensures
            r == sessions_of(self@.sessions, api_key@).len(),
    {
        let ids: Vec<String> = session_ids(&self.sessions);
        let ghost all = texts(ids@);
        let ghost held = self@.sessions;
        let ghost mut found: Set<Seq<char>> = Set::empty();
        let mut n: usize = 0;
        let mut i: usize = 0;
        while i < ids.len()
            invariant
                i <= ids@.len(),
                n <= i,
                n == found.len(),
                found.finite(),
                held == self@.sessions,
                all == texts(ids@),
                all.no_duplicates(),
                all.to_set() == held.dom(),
                forall|id: Seq<char>| #[trigger]
                    found.contains(id) == (all.take(i as int).contains(id) && held[id].api_key == Some(api_key@)),
            decreases ids.len() - i,
        {
            let ghost id = all[i as int];
            let ghost before = found;
            proof {
                assert(all.to_set().contains(id));
                assert(all.take(i + 1) =~= all.take(i as int).push(id));
                assert(!all.take(i as int).contains(id));
            }
            let owner: Option<String> = match copy_session(&self.sessions, ids[i].as_str()) {
                Some(s) => s.api_key,
                None => None,
            };
            if let Some(k) = owner {
                if same(k.as_str(), api_key) {
                    n += 1;
                    proof {
                        found = found.insert(id);
                    }
                }
            }
            proof {
                assert forall|x: Seq<char>| #[trigger] found.contains(x) == (all.take(i + 1).contains(x)
                    && held[x].api_key == Some(api_key@)) by {
                    let shorter = all.take(i as int);
                    let longer = all.take(i + 1);
                    assert(before.contains(x) == (shorter.contains(x) && held[x].api_key == Some(api_key@)));
                    if shorter.contains(x) {
                        let j = choose|j: int| 0 <= j < shorter.len() && shorter[j] == x;
                        assert(longer[j] == x);
                    }
                    assert(longer[i as int] == id);
                    if longer.contains(x) && x != id {
                        let j = choose|j: int| 0 <= j < longer.len() && longer[j] == x;
                        assert(shorter[j] == x);
                    }
                }
            }
            i += 1;
        }
        proof {
            assert(all.take(i as int) =~= all);
            assert forall|id: Seq<char>| found.contains(id) == sessions_of(held, api_key@).contains(id) by {
                assert(all.to_set().contains(id) == all.contains(id));
            }
            assert(found =~= sessions_of(held, api_key@));
        }
        n
    }

    /// The path of the worker program.
    pub fn worker_path(&self) -> (r: String)
        ensures
            r@ == self@.worker_path,
    {
        self.worker_path.clone()
    }

    /// The path of the Python interpreter.
    pub fn python_path(&self) -> (r: String)
        ensures
            r@ == self@.python_path,
    {
        self.python_path.clone()
    }

    /// How many workers each template's pool holds.
    pub fn template_pool_sizes(&self) -> (r: Vec<(String, usize)>)
        ensures
            forall|i: int|
                0 <= i < r@.len() ==> self@.template_pools.contains_key((#[trigger] r@[i]).0@) && r@[i].1
                    == self@.template_pools[r@[i].0@].len(),
            forall|name: Seq<char>| #[trigger]
                self@.template_pools.contains_key(name) ==> exists|i: int| 0 <= i < r@.len() && (#[trigger] r@[i]).0@ == name,
            forall|i: int, j: int| 0 <= i < j < r@.len() ==> (#[trigger] r@[i]).0@ != (#[trigger] r@[j]).0@,
    {
        let names: Vec<String> = list_keys(&self.template_pools);
        let ghost all = texts(names@);
        let mut r: Vec<(String, usize)> = Vec::new();
        let mut i: usize = 0;
        while i < names.len()
            invariant
                i <= names@.len(),
                all == texts(names@),
                all.to_set() == self@.template_pools.dom(),
                self@.template_pools == lists_in(self.template_pools),
                r@.len() == i,
                forall|j: int|
                    0 <= j < i ==> (#[trigger] r@[j]).0@ == all[j] && r@[j].1 == self@.template_pools[all[j]].len(),
            decreases names.len() - i,
        {
            assert(all.contains(all[i as int]));
            assert(all.to_set().contains(all[i as int]));
            let n: usize = match list_len(&self.template_pools, names[i].as_str()) {
                Some(n) => n,
                None => 0,
            };
            r.push((names[i].clone(), n));
            i += 1;
        }
        proof {
            assert forall|j: int| 0 <= j < r@.len() implies self@.template_pools.contains_key((#[trigger] r@[j]).0@) by {
                assert(all.contains(all[j]));
                assert(all.to_set().contains(all[j]));
            }
            assert forall|name: Seq<char>| #[trigger] self@.template_pools.contains_key(name) implies exists|j: int|
                0 <= j < r@.len() && (#[trigger] r@[j]).0@ == name by {
                assert(all.to_set().contains(name));
                let j = choose|j: int| 0 <= j < all.len() && all[j] == name;
                assert(r@[j].0@ == name);
            }
        }
        r
    }

    /// How many workers wait in the warm pool.
    pub fn warm_pool_size(&self) -> (r: usize)
        ensures
            r == self@.warm_pool.len(),
    {
        self.warm_pool.len()
    }

    /// Takes all sessions out that have expired at `now`.
    pub fn drain_expired_at(&mut self, now: Timestamp) -> (r: Vec<(String, Session)>)
        requires
            now.valid(),
        ensures
            drained(old(self)@.sessions, final(self)@.sessions, r@, now),
            final(self)@ == (ManagerV { sessions: final(self)@.sessions, ..old(self)@ }),
            old(self)@.wf() ==> final(self)@.wf(),
    {
        let ids: Vec<String> = session_ids(&self.sessions);
        let ghost all = texts(ids@);
        let ghost before = self@;
        let mut r: Vec<(String, Session)> = Vec::new();
        let mut i: usize = 0;
        while i < ids.len()
            invariant
                i <= ids@.len(),
                now.valid(),
                all == texts(ids@),
                all.no_duplicates(),
                all.to_set() == before.sessions.dom(),
                self@ == (ManagerV { sessions: self@.sessions, ..before }),
                self@.sessions.dom().subset_of(before.sessions.dom()),
                forall|id: Seq<char>| #[trigger]
                    self@.sessions.contains_key(id) ==> self@.sessions[id] == before.sessions[id],
                forall|j: int|
                    0 <= j < i ==> self@.sessions.contains_key(#[trigger] all[j]) == !expired(
                        before.sessions[all[j]],
                        now,
                    ),
                forall|j: int| i <= j < all.len() ==> self@.sessions.contains_key(#[trigger] all[j]),
                forall|k: int|
                    0 <= k < r@.len() ==> out_of(before.sessions, #[trigger] r@[k], now) && !self@.sessions.contains_key(
                        r@[k].0@,
                    ),
                forall|j: int|
                    0 <= j < i && expired(before.sessions[#[trigger] all[j]], now) ==> exists|k: int|
                        0 <= k < r@.len() && (#[trigger] r@[k]).0@ == all[j],
                forall|k: int, l: int| 0 <= k < l < r@.len() ==> (#[trigger] r@[k]).0@ != (#[trigger] r@[l]).0@,
                before.wf() ==> self@.wf(),
            decreases ids.len() - i,
        {
            let ghost id = all[i as int];
            let ghost held = self@.sessions;
            let ghost list = r@;
            proof {
                assert(all.contains(id));
                assert(all.to_set().contains(id));
            }
            let gone: bool = match copy_session(&self.sessions, ids[i].as_str()) {
                Some(s) => s.expires_at_from(now).before(now),
                None => false,
            };
            if gone {
                match take_session(&mut self.sessions, ids[i].as_str()) {
                    Some(s) => {
                        r.push((ids[i].clone(), s));
                        assert(self@.sessions == held.remove(id));
                        assert(r@[list.len() as int].0@ == id);
                        assert forall|j: int| 0 <= j < i + 1 && expired(before.sessions[#[trigger] all[j]], now) implies exists|
                            k: int,
                        |
                            0 <= k < r@.len() && (#[trigger] r@[k]).0@ == all[j] by {
                            if j < i {
                                let k = choose|k: int| 0 <= k < list.len() && (#[trigger] list[k]).0@ == all[j];
                                assert(r@[k] == list[k]);
                            } else {
                                assert(r@[list.len() as int].0@ == all[j]);
                            }
                        }
                    },
                    None => {},
                }
            }
            i += 1;
        }
        proof {
            assert forall|id: Seq<char>| #[trigger] self@.sessions.contains_key(id) == (before.sessions.contains_key(id)
                && !expired(before.sessions[id], now)) by {
                if before.sessions.contains_key(id) {
                    assert(all.to_set().contains(id));
                    let j = choose|j: int| 0 <= j < all.len() && all[j] == id;
                    assert(self@.sessions.contains_key(all[j]) == !expired(before.sessions[all[j]], now));
                }
            }
            assert forall|id: Seq<char>| #[trigger]
                before.sessions.contains_key(id) && expired(before.sessions[id], now) implies exists|k: int|
                0 <= k < r@.len() && (#[trigger] r@[k]).0@ == id by {
                assert(all.to_set().contains(id));
                let j = choose|j: int| 0 <= j < all.len() && all[j] == id;
                assert(expired(before.sessions[all[j]], now));
            }
        }
        r
    }

    /// Takes all sessions out that have expired.
    pub fn drain_expired(&mut self) -> (r: Vec<(String, Session)>)
        ensures
            exists|now: Timestamp|
                now.valid() && now.secs >= 0 && #[trigger] drained(old(self)@.sessions, final(self)@.sessions, r@, now),
            final(self)@ == (ManagerV { sessions: final(self)@.sessions, ..old(self)@ }),
            old(self)@.wf() ==> final(self)@.wf(),
    {
        let now: Timestamp = utc_now();
        self.drain_expired_at(now)
    }
}

/// Whether an entry is an expired session of `before` with its identifier.
pub open spec fn out_of(before: Map<Seq<char>, SessionV>, entry: (String, Session), now: Timestamp) -> bool {
    before.contains_key(entry.0@) && entry.1@ == before[entry.0@] && expired(before[entry.0@], now)
}

/// Whether `list` holds just the sessions of `before` that have expired at `now`,
/// each once, and `after` just the others.
pub open spec fn drained(
    before: Map<Seq<char>, SessionV>,
    after: Map<Seq<char>, SessionV>,
    list: Seq<(String, Session)>,
    now: Timestamp,
) -> bool {
    &&& forall|id: Seq<char>| #[trigger]
        after.contains_key(id) == (before.contains_key(id) && !expired(before[id], now))
    &&& forall|id: Seq<char>| #[trigger] after.contains_key(id) ==> after[id] == before[id]
    &&& forall|k: int| 0 <= k < list.len() ==> out_of(before, #[trigger] list[k], now)
    &&& forall|id: Seq<char>| #[trigger]
        before.contains_key(id) && expired(before[id], now) ==> exists|k: int|
            0 <= k < list.len() && (#[trigger] list[k]).0@ == id
    &&& forall|k: int, l: int| 0 <= k < l < list.len() ==> (#[trigger] list[k]).0@ != (#[trigger] list[l]).0@
}

/// What a new session runs on, as mathematics.
pub enum AcquiredV {
    Warm(u64),
    Cold(Option<Seq<char>>),
}

impl View for Acquired {
    type V = AcquiredV;

    open spec fn view(&self) -> AcquiredV {
        match self {
            Acquired::Warm(runtime) => AcquiredV::Warm(*runtime),
            Acquired::Cold(code) => AcquiredV::Cold(maybe_owned(*code)),
        }
    }
}

/// The manager after a worker was offered to the pool of a template, whose
/// installation may have failed.
pub open spec fn offered(m: ManagerV, t: SessionTemplate, runtime: u64, failed: bool) -> ManagerV {
    if failed || !m.template_pools.contains_key(template_name(t)) {
        m
    } else {
        ManagerV {
            template_pools: m.template_pools.insert(template_name(t), m.template_pools[template_name(t)].push(runtime)),
            ..m
        }
    }
}

/// What the warm pool gives: the worker that came last, or a new one.
pub open spec fn warm_choice(m: ManagerV) -> AcquiredV {
    if m.warm_pool.len() > 0 {
        AcquiredV::Warm(m.warm_pool.last())
    } else {
        AcquiredV::Cold(None)
    }
}

/// The manager after that.
pub open spec fn warm_taken(m: ManagerV) -> ManagerV {
    if m.warm_pool.len() > 0 {
        ManagerV { warm_pool: m.warm_pool.drop_last(), ..m }
    } else {
        m
    }
}

/// Whether a worker waits in the pool of a template.
pub open spec fn template_waits(m: ManagerV, t: SessionTemplate) -> bool {
    m.template_pools.contains_key(template_name(t)) && m.template_pools[template_name(t)].len() > 0
}

/// What the pool of a template gives: the worker that came last, or a new one
/// that runs the installation first.
pub open spec fn template_choice(m: ManagerV, t: SessionTemplate) -> AcquiredV {
    if template_waits(m, t) {
        AcquiredV::Warm(m.template_pools[template_name(t)].last())
    } else {
        AcquiredV::Cold(template_code(t))
    }
}

/// The manager after that.
pub open spec fn template_taken(m: ManagerV, t: SessionTemplate) -> ManagerV {
    if template_waits(m, t) {
        ManagerV {
            template_pools: m.template_pools.insert(
                template_name(t),
                m.template_pools[template_name(t)].drop_last(),
            ),
            ..m
        }
    } else {
        m
    }
}

/// What a new session runs on.
pub open spec fn choice(m: ManagerV, template: Option<SessionTemplate>) -> AcquiredV {
    match template {
        Some(t) => if t != SessionTemplate::Blank {
            template_choice(m, t)
        } else {
            warm_choice(m)
        },
        None => warm_choice(m),
    }
}

/// The manager after the choice.
pub open spec fn taken(m: ManagerV, template: Option<SessionTemplate>) -> ManagerV {
    match template {
        Some(t) => if t != SessionTemplate::Blank {
            template_taken(m, t)
        } else {
            warm_taken(m)
        },
        None => warm_taken(m),
    }
}

/// Law: a session that is created is found under its identifier, unused, until
/// it is ended, and then is not; no other session and no pool changes.
pub proof fn law_session_lifecycle(m: ManagerV, n: NewSession, now: Timestamp, other: Seq<char>)
    requires
        other != n.session_id@,
    ensures
        ({
            let with = filed(m, created(n, now));
            let without = ended(with, n.session_id@);
            &&& with.sessions.contains_key(n.session_id@)
            &&& with.sessions[n.session_id@] == created(n, now)
            &&& created(n, now).calls_used == 0
            &&& !without.sessions.contains_key(n.session_id@)
            &&& with.sessions.contains_key(other) == m.sessions.contains_key(other)
            &&& without.sessions.contains_key(other) == m.sessions.contains_key(other)
            &&& m.sessions.contains_key(other) ==> with.sessions[other] == m.sessions[other] && without.sessions[other]
                == m.sessions[other]
            &&& with.warm_pool == m.warm_pool && without.warm_pool == m.warm_pool
            &&& with.template_pools == m.template_pools && without.template_pools == m.template_pools
        }),
{
}

/// Law: a new identifier adds one session, and its end takes one away.
pub proof fn law_session_count(m: ManagerV, n: NewSession, now: Timestamp)
    requires
        m.wf(),
        !m.sessions.contains_key(n.session_id@),
    ensures
        filed(m, created(n, now)).sessions.dom().len() == m.sessions.dom().len() + 1,
        ended(filed(m, created(n, now)), n.session_id@).sessions.dom().len() == m.sessions.dom().len(),
{
    let with = filed(m, created(n, now));
    assert(with.sessions.dom() =~= m.sessions.dom().insert(n.session_id@));
    assert(ended(with, n.session_id@).sessions.dom() =~= m.sessions.dom());
}

/// Law: a session with the default lifetime is not expired for 15 minutes.
pub proof fn law_new_session_lives(n: NewSession, now: Timestamp, later: Timestamp)
    requires
        n.ttl_secs is None,
        now.valid(),
        later.valid(),
        ttl_fits(n.ttl_secs, now),
        later.secs < now.secs + DEFAULT_TTL_SECS,
    ensures
        !expired(created(n, now), later),
{
}

/// Law: after a drain no session is left that has expired, and none that is left
/// was taken out.
pub proof fn law_drain_leaves_the_living(
    before: Map<Seq<char>, SessionV>,
    after: Map<Seq<char>, SessionV>,
    list: Seq<(String, Session)>,
    now: Timestamp,
)
    requires
        drained(before, after, list, now),
    ensures
        forall|id: Seq<char>| #[trigger] after.contains_key(id) ==> !expired(after[id], now),
        forall|k: int| 0 <= k < list.len() ==> !after.contains_key((#[trigger] list[k]).0@),
{
    assert forall|k: int| 0 <= k < list.len() implies !after.contains_key((#[trigger] list[k]).0@) by {
        assert(out_of(before, list[k], now));
    }
}

/// Law: a worker whose installation failed is not kept, and without a waiting
/// worker a new session with a template that installs something runs the
/// installation first.
pub proof fn law_template_is_installed(m: ManagerV, t: SessionTemplate, runtime: u64)
    requires
        t != SessionTemplate::Blank,
    ensures
        offered(m, t, runtime, true) == m,
        !template_waits(m, t) ==> choice(m, Some(t)) == AcquiredV::Cold(Some(install_text(template_packages(t)))),
{
}

/// Law: a session that is filed for a key with fewer sessions than its plan gives
/// leaves the key within its plan, and gives no other key a session.
pub proof fn law_sessions_stay_within_the_plan(m: ManagerV, s: SessionV, key: Seq<char>, limit: nat, other: Seq<char>)
    requires
        m.wf(),
        s.api_key == Some(key),
        sessions_of(m.sessions, key).len() < limit,
        other != key,
        !m.sessions.contains_key(s.info.session_id),
    ensures
        sessions_of(filed(m, s).sessions, key).len() == sessions_of(m.sessions, key).len() + 1,
        sessions_of(filed(m, s).sessions, key).len() <= limit,
        sessions_of(filed(m, s).sessions, other) == sessions_of(m.sessions, other),
{
    let after = filed(m, s).sessions;
    let id = s.info.session_id;
    assert(sessions_of(after, key) =~= sessions_of(m.sessions, key).insert(id));
    assert(sessions_of(after, other) =~= sessions_of(m.sessions, other));
}

} // verus!
