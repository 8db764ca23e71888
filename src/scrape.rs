use vstd::prelude::*;
use crate::results::{SearchResult, results_view};
use rand::seq::SliceRandom;
use rand::Rng;

verus! {

/// Parameters of the request loop for one dork.
#[derive(Debug, Clone, Copy, PartialEq, Eq)]
pub struct ScrapeConfig {
    /// Request slots per dork.
    pub requests: usize,
    /// Least delay, in seconds, between attempts and between slots.
    pub min_delay: u64,
    /// Greatest delay, in seconds.
    pub max_delay: u64,
    /// Attempts per request slot.
    pub max_retries: usize,
    /// Whether the pause after a slot also follows the dork's last slot.
    pub pause_after_last: bool,
}

/// A configuration fault, detected before any request or sleep.
#[derive(Debug, Clone, Copy, PartialEq, Eq)]
pub enum ConfigError {
    /// The least delay exceeds the greatest.
    InvalidDelayRange { min: u64, max: u64 },
    /// The pool of user agents is empty.
    EmptyUserAgentPool,
    /// Neither a single dork nor a dork list was given.
    MissingDorkSource,
    /// Both a single dork and a dork list were given.
    ConflictingDorkSources,
    /// The single dork given is empty.
    EmptyDork,
}

impl ScrapeConfig {
    pub open spec fn valid(&self) -> bool {
        self.min_delay <= self.max_delay
    }

    /// Checks the delay range: fails exactly when `min_delay > max_delay`.
    pub fn new(
        requests: usize,
        min_delay: u64,
        max_delay: u64,
        max_retries: usize,
        pause_after_last: bool,
    ) -> (r: Result<ScrapeConfig, ConfigError>)
        ensures
            min_delay > max_delay ==> r == Err::<ScrapeConfig, ConfigError>(
                ConfigError::InvalidDelayRange { min: min_delay, max: max_delay },
            ),
            min_delay <= max_delay ==> r == Ok::<ScrapeConfig, ConfigError>(
                (ScrapeConfig { requests, min_delay, max_delay, max_retries, pause_after_last }),
            ),
    {
        if min_delay > max_delay {
            Err(ConfigError::InvalidDelayRange { min: min_delay, max: max_delay })
        } else {
            Ok(ScrapeConfig { requests, min_delay, max_delay, max_retries, pause_after_last })
        }
    }
}

/// Where the loop stands.
#[derive(Debug, Clone, Copy, PartialEq, Eq, Structural)]
pub enum Phase {
    /// Created; waiting for `Event::Start`.
    Ready,
    /// A fetch for the current slot is out.
    Attempting,
    /// The last attempt failed; the back-off sleep is out.
    Backoff,
    /// The slot is over; the pause before the next slot is out.
    Pause,
    /// All slots are done.
    Finished,
}

/// What the loop's driver reports back.
pub enum Event {
    /// Begin the loop.
    Start,
    /// The fetch succeeded; these results were extracted from the response.
    Fetched(Vec<SearchResult>),
    /// The fetch failed in transport.
    FetchFailed,
    /// The requested sleep is over.
    Slept,
}

pub enum EventView {
    Start,
    Fetched(Seq<(Seq<char>, Seq<char>)>),
    FetchFailed,
    Slept,
}

impl View for Event {
    type V = EventView;

    open spec fn view(&self) -> EventView {
        match self {
            Event::Start => EventView::Start,
            Event::Fetched(rs) => EventView::Fetched(results_view(rs@)),
            Event::FetchFailed => EventView::FetchFailed,
            Event::Slept => EventView::Slept,
        }
    }
}

/// What the loop asks its driver to do next.
#[derive(Debug, Clone, PartialEq, Eq)]
pub enum Action {
    /// Fetch the search page with this user agent.
    Fetch { user_agent: String },
    /// Sleep this many seconds.
    Sleep { seconds: u64 },
    /// Nothing is left to do.
    Finished,
}

pub enum ActionView {
    Fetch(Seq<char>),
    Sleep(u64),
    Finished,
}

impl View for Action {
    type V = ActionView;

    open spec fn view(&self) -> ActionView {
        match self {
            Action::Fetch { user_agent } => ActionView::Fetch(user_agent@),
            Action::Sleep { seconds } => ActionView::Sleep(*seconds),
            Action::Finished => ActionView::Finished,
        }
    }
}

/// The random choices that one step may use: the user agent for a slot that
/// begins, and the length of a sleep.
#[derive(Debug, Clone, PartialEq, Eq)]
pub struct Draw {
    pub user_agent: String,
    pub delay: u64,
}

pub struct DrawView {
    pub user_agent: Seq<char>,
    pub delay: u64,
}

impl View for Draw {
    type V = DrawView;

    open spec fn view(&self) -> DrawView {
        DrawView { user_agent: self.user_agent@, delay: self.delay }
    }
}

/// Relies on rand's `SliceRandom::choose` with the thread-local generator: it
/// returns one element of the slice, and `None` only for an empty slice.
#[verifier::external_body]
fn choose_from(pool: &Vec<String>) -> (r: Option<String>)
    ensures
        r is None <==> pool@.len() == 0,
        r matches Some(s) ==> exists|i: int| 0 <= i < pool@.len() && pool@[i]@ == s@,
{
    pool.choose(&mut rand::thread_rng()).cloned()
}

/// Relies on rand's `Rng::gen_range` over an inclusive range with the
/// thread-local generator: the value lies in the range; an empty range panics.
#[verifier::external_body]
fn random_between(lo: u64, hi: u64) -> (r: u64)
    requires
        lo <= hi,
    ensures
        lo <= r <= hi,
{
    rand::thread_rng().gen_range(lo..=hi)
}

/// Draws a delay uniformly from `[config.min_delay, config.max_delay]`.
pub fn draw_delay(config: &ScrapeConfig) -> (r: u64)
    requires
        config.valid(),
    ensures
        config.min_delay <= r <= config.max_delay,
{
    random_between(config.min_delay, config.max_delay)
}

/// The default pool: common browser and crawler identities.
pub open spec fn default_pool() -> Seq<Seq<char>> {
    seq![
        "Mozilla/5.0 (compatible; Googlebot/2.1; +http://www.google.com/bot.html)"@,
        "Mozilla/5.0 (Windows NT 10.0; Win64; x64) AppleWebKit/537.36 (KHTML, like Gecko) Chrome/91.0.4472.124 Safari/537.36"@,
        "Mozilla/5.0 (Macintosh; Intel Mac OS X 10_15_7) AppleWebKit/537.36 (KHTML, like Gecko) Chrome/91.0.4472.124 Safari/537.36"@,
        "Mozilla/5.0 (Windows NT 10.0; Win64; x64) AppleWebKit/537.36 (KHTML, like Gecko) Firefox/89.0"@,
        "Mozilla/5.0 (compatible; Bingbot/2.0; +http://www.bing.com/bingbot.htm)"@,
    ]
}

/// The user agents that the loop rotates through by default.
pub fn default_user_agents() -> (r: Vec<String>)
    ensures
        r.deep_view() == default_pool(),
{
    let mut v: Vec<String> = Vec::new();
    v.push(String::from_str("Mozilla/5.0 (compatible; Googlebot/2.1; +http://www.google.com/bot.html)"));
    v.push(String::from_str("Mozilla/5.0 (Windows NT 10.0; Win64; x64) AppleWebKit/537.36 (KHTML, like Gecko) Chrome/91.0.4472.124 Safari/537.36"));
    v.push(String::from_str("Mozilla/5.0 (Macintosh; Intel Mac OS X 10_15_7) AppleWebKit/537.36 (KHTML, like Gecko) Chrome/91.0.4472.124 Safari/537.36"));
    v.push(String::from_str("Mozilla/5.0 (Windows NT 10.0; Win64; x64) AppleWebKit/537.36 (KHTML, like Gecko) Firefox/89.0"));
    v.push(String::from_str("Mozilla/5.0 (compatible; Bingbot/2.0; +http://www.bing.com/bingbot.htm)"));
    assert(v.deep_view() =~= default_pool());
    v
}

/// The state of the request loop for one dork, as a mathematical value.
pub struct ScraperView {
    pub config: ScrapeConfig,
    pub pool: Seq<Seq<char>>,
    pub phase: Phase,
    pub slot: nat,
    pub retries: nat,
    pub user_agent: Seq<char>,
    pub results: Seq<(Seq<char>, Seq<char>)>,
    /// How many sleeps the loop has asked for so far.
    pub sleeps: nat,
}

/// The request loop for one dork, driven one event at a time: for each of
/// `requests` slots, one user agent is drawn; up to `max_retries` fetches are
/// made with it, each failed one followed by a back-off sleep; after the slot
/// a pause follows. The results of every successful fetch are appended.
pub struct Scraper {
    config: ScrapeConfig,
    pool: Vec<String>,
    phase: Phase,
    slot: usize,
    retries: usize,
    user_agent: String,
    results: Vec<SearchResult>,
    sleeps: Ghost<nat>,
}

impl View for Scraper {
    type V = ScraperView;

    closed spec fn view(&self) -> ScraperView {
        ScraperView {
            config: self.config,
            pool: self.pool.deep_view(),
            phase: self.phase,
            slot: self.slot as nat,
            retries: self.retries as nat,
            user_agent: self.user_agent@,
            results: results_view(self.results@),
            sleeps: self.sleeps@,
        }
    }
}

/// The state right after `requests` slots were set up, before `Event::Start`.
pub open spec fn initial(config: ScrapeConfig, pool: Seq<Seq<char>>) -> ScraperView {
    ScraperView {
        config,
        pool,
        phase: Phase::Ready,
        slot: 0,
        retries: 0,
        user_agent: Seq::empty(),
        results: Seq::empty(),
        sleeps: 0,
    }
}

impl ScraperView {
    pub open spec fn wf(self) -> bool {
        &&& self.config.valid()
        &&& self.pool.len() > 0
        &&& self.retries <= self.config.max_retries
        &&& (self.phase is Attempting || self.phase is Backoff || self.phase is Pause) ==> self.slot
            < self.config.requests
        &&& self.phase is Attempting ==> self.retries < self.config.max_retries
        &&& self.agent_in_pool()
        &&& self.sleeps <= sleep_bound(self)
    }

    /// Whether `e` is the kind of event that the current phase waits for.
    pub open spec fn accepts(self, e: EventView) -> bool {
        match self.phase {
            Phase::Ready => e is Start,
            Phase::Attempting => e is Fetched || e is FetchFailed,
            Phase::Backoff | Phase::Pause => e is Slept,
            Phase::Finished => false,
        }
    }

    /// While a slot is attempting or backing off, its user agent is one of the pool.
    pub open spec fn agent_in_pool(self) -> bool {
        (self.phase is Attempting || self.phase is Backoff) ==> self.pool.contains(self.user_agent)
    }

    /// Whether `d` is a draw that the loop could have made.
    pub open spec fn draw_fits(self, d: DrawView) -> bool {
        &&& self.pool.contains(d.user_agent)
        &&& self.config.min_delay <= d.delay <= self.config.max_delay
    }
}

/// The most sleeps that the loop can have asked for on reaching `s`: up to
/// `max_retries` back-offs and one pause for each slot begun.
pub open spec fn sleep_bound(s: ScraperView) -> int {
    let per_slot = s.config.max_retries + 1;
    match s.phase {
        Phase::Ready => 0,
        Phase::Attempting | Phase::Backoff => s.slot * per_slot + s.retries,
        Phase::Pause => s.slot * per_slot + s.retries + 1,
        Phase::Finished => s.config.requests * per_slot,
    }
}

proof fn lemma_slot_bounds(i: nat, r: nat, m: nat, n: nat)
    ensures
        i < n && r <= m ==> i * (m + 1) + r + 1 <= (i + 1) * (m + 1),
        i < n ==> (i + 1) * (m + 1) <= n * (m + 1),
{
    if i < n {
        assert((i + 1) * (m + 1) == i * (m + 1) + (m + 1)) by (nonlinear_arith);
        assert((i + 1) * (m + 1) <= n * (m + 1)) by (nonlinear_arith)
            requires
                i + 1 <= n,
        ;
    }
}

/// Slot `slot` begins with the drawn user agent: a fetch, or, where no attempt
/// is allowed, the end of the slot at once.
pub open spec fn begin_slot(s: ScraperView, slot: nat, d: DrawView) -> (ScraperView, ActionView) {
    let t = ScraperView { phase: Phase::Attempting, slot, retries: 0, user_agent: d.user_agent, ..s };
    if s.config.max_retries == 0 {
        end_slot(t, d)
    } else {
        (t, ActionView::Fetch(d.user_agent))
    }
}

/// The current slot is over: pause, unless it was the last slot and no pause
/// follows the last one.
pub open spec fn end_slot(s: ScraperView, d: DrawView) -> (ScraperView, ActionView) {
    if s.slot + 1 < s.config.requests || s.config.pause_after_last {
        (ScraperView { phase: Phase::Pause, sleeps: (s.sleeps + 1) as nat, ..s }, ActionView::Sleep(d.delay))
    } else {
        (ScraperView { phase: Phase::Finished, ..s }, ActionView::Finished)
    }
}

/// One transition of the loop: the next state and the action it asks for.
/// An event that the phase does not wait for changes nothing.
pub open spec fn next(s: ScraperView, e: EventView, d: DrawView) -> (ScraperView, ActionView) {
    match (s.phase, e) {
        (Phase::Ready, EventView::Start) => if s.config.requests == 0 {
            (ScraperView { phase: Phase::Finished, ..s }, ActionView::Finished)
        } else {
            begin_slot(s, 0, d)
        },
        (Phase::Attempting, EventView::Fetched(rs)) => end_slot(
            ScraperView { results: s.results + rs, ..s },
            d,
        ),
        (Phase::Attempting, EventView::FetchFailed) => (
            ScraperView { phase: Phase::Backoff, retries: s.retries + 1, sleeps: (s.sleeps + 1) as nat, ..s },
            ActionView::Sleep(d.delay),
        ),
        (Phase::Backoff, EventView::Slept) => if s.retries < s.config.max_retries {
            (ScraperView { phase: Phase::Attempting, ..s }, ActionView::Fetch(s.user_agent))
        } else {
            end_slot(s, d)
        },
        (Phase::Pause, EventView::Slept) => if s.slot + 1 < s.config.requests {
            begin_slot(s, s.slot + 1, d)
        } else {
            (ScraperView { phase: Phase::Finished, ..s }, ActionView::Finished)
        },
        _ => (s, ActionView::Finished),
    }
}

/// The state after `k` rounds of a failed fetch followed by its back-off
/// sleep, where step `i` of the rounds uses draw `ds(i)`.
pub open spec fn after_failures(s: ScraperView, k: nat, ds: spec_fn(nat) -> DrawView) -> ScraperView
    decreases k,
{
    if k == 0 {
        s
    } else {
        let f = next(s, EventView::FetchFailed, ds(0)).0;
        after_failures(next(f, EventView::Slept, ds(1)).0, (k - 1) as nat, |i: nat| ds(i + 2))
    }
}

/// Starting a loop that has no request slots finishes it at once: no fetch is
/// asked for and no result is gathered.
pub proof fn lemma_no_requests(config: ScrapeConfig, pool: Seq<Seq<char>>, d: DrawView)
    requires
        config.requests == 0,
    ensures
        next(initial(config, pool), EventView::Start, d).1 is Finished,
        next(initial(config, pool), EventView::Start, d).0.phase is Finished,
        next(initial(config, pool), EventView::Start, d).0.results.len() == 0,
{
}

/// Each failed attempt of a slot adds one to the retry counter and nothing to
/// the results; the slot keeps its user agent and ends once the counter
/// reaches `max_retries`.
pub proof fn lemma_failures(s: ScraperView, k: nat, ds: spec_fn(nat) -> DrawView)
    requires
        s.phase is Attempting,
        s.retries + k <= s.config.max_retries,
    ensures
        after_failures(s, k, ds).config == s.config,
        after_failures(s, k, ds).results == s.results,
        after_failures(s, k, ds).slot == s.slot,
        after_failures(s, k, ds).retries == s.retries + k,
        after_failures(s, k, ds).user_agent == s.user_agent,
        s.retries + k < s.config.max_retries ==> after_failures(s, k, ds).phase is Attempting,
        k > 0 && s.retries + k == s.config.max_retries ==> (after_failures(s, k, ds).phase is Pause
            || after_failures(s, k, ds).phase is Finished),
    decreases k,
{
    if k > 0 {
        let f = next(s, EventView::FetchFailed, ds(0)).0;
        let g = next(f, EventView::Slept, ds(1)).0;
        let rest = |i: nat| ds(i + 2);
        if s.retries + 1 < s.config.max_retries {
            lemma_failures(g, (k - 1) as nat, rest);
        } else {
            assert(k == 1);
            assert(after_failures(g, 0, rest) == g);
        }
    }
}

/// A slot whose first `r < max_retries` fetches fail and whose next one
/// succeeds gathers exactly that fetch's results, and its retry counter at
/// success is `r`, whatever is drawn at each step.
pub proof fn lemma_success_after_failures(
    s: ScraperView,
    r: nat,
    rs: Seq<(Seq<char>, Seq<char>)>,
    ds: spec_fn(nat) -> DrawView,
    d: DrawView,
)
    requires
        s.phase is Attempting,
        s.retries == 0,
        r < s.config.max_retries,
    ensures
        after_failures(s, r, ds).phase is Attempting,
        after_failures(s, r, ds).retries == r,
        next(after_failures(s, r, ds), EventView::Fetched(rs), d).0.results == s.results + rs,
        next(after_failures(s, r, ds), EventView::Fetched(rs), d).0.retries == r,
        next(after_failures(s, r, ds), EventView::Fetched(rs), d).0.slot == s.slot,
        next(after_failures(s, r, ds), EventView::Fetched(rs), d).0.phase is Pause || next(
            after_failures(s, r, ds),
            EventView::Fetched(rs),
            d,
        ).0.phase is Finished,
{
    lemma_failures(s, r, ds);
}

/// A slot whose fetches all fail gathers no results and ends, without
/// stopping the loop, once the retry counter reaches `max_retries`.
pub proof fn lemma_exhausted_slot(s: ScraperView, ds: spec_fn(nat) -> DrawView)
    requires
        s.phase is Attempting,
        s.retries == 0,
        s.config.max_retries > 0,
    ensures
        after_failures(s, s.config.max_retries as nat, ds).results == s.results,
        after_failures(s, s.config.max_retries as nat, ds).retries == s.config.max_retries,
        after_failures(s, s.config.max_retries as nat, ds).slot == s.slot,
        after_failures(s, s.config.max_retries as nat, ds).phase is Pause || after_failures(
            s,
            s.config.max_retries as nat,
            ds,
        ).phase is Finished,
{
    lemma_failures(s, s.config.max_retries as nat, ds);
}

/// Every sleep that the loop asks for lasts between `min_delay` and
/// `max_delay` seconds, and every fetch uses a user agent of the pool.
pub proof fn lemma_actions_within_bounds(s: ScraperView, e: EventView, d: DrawView)
    requires
        s.wf(),
        s.draw_fits(d),
    ensures
        next(s, e, d).1 matches ActionView::Sleep(x) ==> s.config.min_delay <= x
            <= s.config.max_delay,
        next(s, e, d).1 matches ActionView::Fetch(ua) ==> s.pool.contains(ua),
        next(s, e, d).0.agent_in_pool(),
{
}

/// Results grow only on a successful fetch, by exactly that fetch's results
/// appended at the end; every other event leaves them as they were.
pub proof fn lemma_results_grow_only_on_success(s: ScraperView, e: EventView, d: DrawView)
    ensures
        !(e is Fetched) ==> next(s, e, d).0.results == s.results,
        e matches EventView::Fetched(rs) ==> next(s, e, d).0.results == (if s.phase is Attempting {
            s.results + rs
        } else {
            s.results
        }),
{
}

/// The loop counts each sleep it asks for, and never asks for more than
/// `max_retries` back-offs and one pause per request slot: in every state
/// that the loop can reach, at most `requests * (max_retries + 1)` sleeps.
pub proof fn lemma_sleep_count(s: ScraperView, e: EventView, d: DrawView)
    requires
        s.wf(),
    ensures
        next(s, e, d).1 is Sleep ==> next(s, e, d).0.sleeps == s.sleeps + 1,
        !(next(s, e, d).1 is Sleep) ==> next(s, e, d).0.sleeps == s.sleeps,
        s.sleeps <= s.config.requests * (s.config.max_retries + 1),
{
    let m = s.config.max_retries as nat;
    let n = s.config.requests as nat;
    lemma_slot_bounds(s.slot, s.retries, m, n);
    if s.phase is Attempting {
        assert(s.slot * (m + 1) + s.retries + 1 <= (s.slot + 1) * (m + 1));
    }
}

impl Scraper {
    /// A loop for one dork over the given pool of user agents. Fails, before
    /// any request or sleep, where the delay range is empty or the pool is.
    pub fn new(config: ScrapeConfig, pool: Vec<String>) -> (r: Result<Scraper, ConfigError>)
        ensures
            !config.valid() ==> r is Err && r->Err_0 == (ConfigError::InvalidDelayRange {
                min: config.min_delay,
                max: config.max_delay,
            }),
            config.valid() && pool@.len() == 0 ==> r is Err && r->Err_0
                == ConfigError::EmptyUserAgentPool,
            config.valid() && pool@.len() > 0 ==> r is Ok && r->Ok_0@ == initial(
                config,
                pool.deep_view(),
            ),
            r is Ok ==> r->Ok_0@.wf(),
    {
        if config.min_delay > config.max_delay {
            return Err(ConfigError::InvalidDelayRange { min: config.min_delay, max: config.max_delay });
        }
        if pool.len() == 0 {
            return Err(ConfigError::EmptyUserAgentPool);
        }
        let r = Scraper {
            config,
            pool,
            phase: Phase::Ready,
            slot: 0,
            retries: 0,
            user_agent: String::new(),
            results: Vec::new(),
            sleeps: Ghost(0),
        };
        assert(results_view(r.results@) =~= Seq::empty());
        assert(r.user_agent@ =~= Seq::empty());
        assert(r@ == initial(config, r.pool.deep_view()));
        Ok(r)
    }

    pub fn phase(&self) -> (r: Phase)
        ensures
            r == self@.phase,
    {
        self.phase
    }

    pub fn retries(&self) -> (r: usize)
        ensures
            r == self@.retries,
    {
        self.retries
    }

    pub fn slot(&self) -> (r: usize)
        ensures
            r == self@.slot,
    {
        self.slot
    }

    pub fn results(&self) -> (r: &Vec<SearchResult>)
        ensures
            results_view(r@) == self@.results,
    {
        &self.results
    }

    /// Hands over the results gathered so far, in the order they came.
    pub fn into_results(self) -> (r: Vec<SearchResult>)
        ensures
            results_view(r@) == self@.results,
    {
        self.results
    }

    /// Whether `e` is an event that the current phase waits for.
    pub fn accepts(&self, e: &Event) -> (r: bool)
        ensures
            r == self@.accepts(e@),
    {
        match (self.phase, e) {
            (Phase::Ready, Event::Start) => true,
            (Phase::Attempting, Event::Fetched(_)) => true,
            (Phase::Attempting, Event::FetchFailed) => true,
            (Phase::Backoff, Event::Slept) => true,
            (Phase::Pause, Event::Slept) => true,
            _ => false,
        }
    }

    /// Draws a user agent from the pool and a delay from the configured range.
    pub fn draw(&self) -> (r: Draw)
        requires
            self@.wf(),
        ensures
            self@.draw_fits(r@),
    {
        let user_agent = match choose_from(&self.pool) {
            Some(s) => s,
            None => String::new(),
        };
        let delay = draw_delay(&self.config);
        proof {
            let i = choose|i: int| 0 <= i < self.pool@.len() && self.pool@[i]@ == user_agent@;
            assert(self@.pool[i] == user_agent@);
        }
        Draw { user_agent, delay }
    }

    fn end_slot(&mut self, d: &Draw) -> (a: Action)
        requires
            old(self)@.wf(),
            old(self)@.phase is Attempting || old(self)@.phase is Backoff,
        ensures
            (final(self)@, a@) == end_slot(old(self)@, d@),
            final(self)@.wf(),
    {
        proof {
            lemma_slot_bounds(self.slot as nat, self.retries as nat, self.config.max_retries as nat, self.config.requests as nat);
        }
        if self.slot + 1 < self.config.requests || self.config.pause_after_last {
            self.phase = Phase::Pause;
            self.sleeps = Ghost((self.sleeps@ + 1) as nat);
            Action::Sleep { seconds: d.delay }
        } else {
            self.phase = Phase::Finished;
            Action::Finished
        }
    }

    fn begin_slot(&mut self, slot: usize, d: &Draw) -> (a: Action)
        requires
            old(self)@.wf(),
            old(self)@.draw_fits(d@),
            slot < old(self)@.config.requests,
            old(self)@.sleeps <= slot * (old(self)@.config.max_retries + 1),
        ensures
            (final(self)@, a@) == begin_slot(old(self)@, slot as nat, d@),
            final(self)@.wf(),
    {
        self.slot = slot;
        self.retries = 0;
        self.user_agent = d.user_agent.clone();
        if self.config.max_retries == 0 {
            self.phase = Phase::Backoff;
            self.end_slot(d)
        } else {
            self.phase = Phase::Attempting;
            Action::Fetch { user_agent: d.user_agent.clone() }
        }
    }

    /// Takes one event and returns the next action, as `next` describes.
    pub fn step(&mut self, e: Event, d: Draw) -> (a: Action)
        requires
            old(self)@.wf(),
            old(self)@.accepts(e@),
            old(self)@.draw_fits(d@),
        ensures
            (final(self)@, a@) == next(old(self)@, e@, d@),
            final(self)@.wf(),
    {
        let ghost s = self@;
        proof {
            lemma_slot_bounds(self.slot as nat, self.retries as nat, self.config.max_retries as nat, self.config.requests as nat);
            assert(0 * (self.config.max_retries + 1) == 0) by (nonlinear_arith);
        }
        match e {
            Event::Start => {
                if self.config.requests == 0 {
                    self.phase = Phase::Finished;
                    Action::Finished
                } else {
                    self.begin_slot(0, &d)
                }
            },
            Event::Fetched(rs) => {
                let mut rs = rs;
                let ghost added = results_view(rs@);
                let ghost before = self.results@;
                self.results.append(&mut rs);
                assert(results_view(self.results@) =~= results_view(before) + added);
                self.end_slot(&d)
            },
            Event::FetchFailed => {
                self.retries = self.retries + 1;
                self.phase = Phase::Backoff;
                self.sleeps = Ghost((self.sleeps@ + 1) as nat);
                Action::Sleep { seconds: d.delay }
            },
            Event::Slept => {
                if self.phase == Phase::Backoff {
                    if self.retries < self.config.max_retries {
                        self.phase = Phase::Attempting;
                        Action::Fetch { user_agent: self.user_agent.clone() }
                    } else {
                        self.end_slot(&d)
                    }
                } else if self.slot + 1 < self.config.requests {
                    self.begin_slot(self.slot + 1, &d)
                } else {
                    self.phase = Phase::Finished;
                    Action::Finished
                }
            },
        }
    }
}

} // verus!
