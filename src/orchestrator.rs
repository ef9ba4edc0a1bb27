//! The lookup orchestrator: which provider to ask next, when to give up, and
//! when the cache answers instead.
//!
//! A [`LookupSession`] is a state machine. The caller asks it for the provider
//! to try next, performs that attempt, and hands back the outcome; the session
//! decides whether to stop (with the record, or with the last failure once the
//! attempt ceiling is reached) or to go on with the next provider in order,
//! wrapping around the list when the retry budget allows more attempts than
//! there are providers.

use crate::cache::ResponseCache;
use crate::error::{AttemptError, LookupError};
use crate::lookup::{supports_target, LookupProvider};
use crate::response::{IpAddress, LookupResponse};
use vstd::prelude::*;

verus! {

/// What a caller asks for.
pub struct LookupRequest {
    /// The providers to try, in this order.
    pub providers: Vec<LookupProvider>,
    /// The address to look up; `None` looks up the caller's own address.
    pub target: Option<IpAddress>,
    /// Attempts allowed beyond one per provider; `None` means none.
    pub retry_budget: Option<u64>,
    /// Whether a fresh cached record may answer, and a new record is stored.
    pub use_cache: bool,
    /// Whether a target lookup must fail when no listed provider can look up a target.
    pub require_target: bool,
}

impl LookupRequest {
    /// A lookup of the caller's own address.
    pub fn lookup(providers: Vec<LookupProvider>, retry_budget: Option<u64>, use_cache: bool) -> (r:
        LookupRequest)
        ensures
            r.providers@ == providers@,
            r.target is None,
            r.retry_budget == retry_budget,
            r.use_cache == use_cache,
            !r.require_target,
    {
        LookupRequest { providers, target: None, retry_budget, use_cache, require_target: false }
    }

    /// A lookup of `target`. Providers that cannot look up a target answer for
    /// the caller instead, unless `require_target` is set afterwards.
    pub fn lookup_target(
        providers: Vec<LookupProvider>,
        target: IpAddress,
        retry_budget: Option<u64>,
        use_cache: bool,
    ) -> (r: LookupRequest)
        ensures
            r.providers@ == providers@,
            r.target == Some(target),
            r.retry_budget == retry_budget,
            r.use_cache == use_cache,
            !r.require_target,
    {
        LookupRequest { providers, target: Some(target), retry_budget, use_cache, require_target: false }
    }

    /// Whether the cache is to be read before any provider is asked: only
    /// when caching is on and there is a provider list to fall back on.
    pub fn consults_cache(&self) -> (r: bool)
        ensures
            r == (self.use_cache && self.providers@.len() > 0),
    {
        self.use_cache && self.providers.len() > 0
    }
}

/// The total number of attempts allowed: one per provider plus the retry budget.
pub open spec fn attempt_ceiling(n: nat, retry_budget: Option<u64>) -> nat {
    n + match retry_budget {
        Some(k) => k as nat,
        None => 0nat,
    }
}

/// Whether some provider of the list can look up a target.
pub open spec fn any_supports_target(providers: Seq<LookupProvider>) -> bool {
    exists|i: int| 0 <= i < providers.len() && supports_target(#[trigger] providers[i])
}

/// The state of a lookup session, as values.
pub struct SessionView {
    pub providers: Seq<LookupProvider>,
    pub target: Option<IpAddress>,
    pub use_cache: bool,
    /// The attempt ceiling (see [`attempt_ceiling`]).
    pub ceiling: nat,
    /// Provider attempts made so far.
    pub attempts: nat,
    pub cache: ResponseCache,
    /// Whether this session stored a record in the cache.
    pub written: bool,
    /// The answer, once the session is over.
    pub result: Option<Result<LookupResponse, LookupError>>,
}

impl SessionView {
    /// The session's internal invariant.
    pub open spec fn wf(self) -> bool {
        &&& self.attempts <= self.ceiling
        &&& self.ceiling <= u128::MAX
        &&& self.result is None ==> {
            &&& self.providers.len() > 0
            &&& self.attempts < self.ceiling
            &&& !self.written
        }
    }

    /// The session at its start. It is over at once when the provider list is
    /// empty, when caching is on and the cache holds a fresh record, or when a
    /// target lookup is required and no provider can do one.
    pub open spec fn start(request: LookupRequest, cache: ResponseCache, now: u64, ttl: u64) -> SessionView {
        let providers = request.providers@;
        let base = SessionView {
            providers,
            target: request.target,
            use_cache: request.use_cache,
            ceiling: attempt_ceiling(providers.len(), request.retry_budget),
            attempts: 0,
            cache,
            written: false,
            result: None,
        };
        if providers.len() == 0 {
            SessionView { result: Some(Err(LookupError::NoProvider)), ..base }
        } else if request.use_cache && cache.spec_read(now, ttl) is Some {
            SessionView { result: Some(Ok(cache.spec_read(now, ttl)->0)), ..base }
        } else if request.require_target && request.target is Some && !any_supports_target(
            providers,
        ) {
            SessionView { result: Some(Err(LookupError::UnsupportedTargetLookup)), ..base }
        } else {
            base
        }
    }

    /// The provider to ask next: the providers in order, wrapping around, one
    /// per attempt; none once the session is over.
    pub open spec fn pending(self) -> Option<LookupProvider> {
        if self.result is None {
            Some(self.providers[(self.attempts % self.providers.len()) as int])
        } else {
            None
        }
    }

    /// The session after an attempt with the pending provider ended with
    /// `outcome` at time `now`. A record ends the session and, when caching is
    /// on, replaces the cached entry. A failure counts one attempt, and ends
    /// the session with that failure once the attempt ceiling is reached.
    pub open spec fn after(self, outcome: Result<LookupResponse, AttemptError>, now: u64) -> SessionView {
        match outcome {
            Ok(response) => SessionView {
                cache: if self.use_cache {
                    self.cache.spec_write(response, now)
                } else {
                    self.cache
                },
                written: self.use_cache,
                result: Some(Ok(response)),
                ..self
            },
            Err(e) => if self.attempts + 1 >= self.ceiling {
                SessionView {
                    attempts: self.attempts + 1,
                    result: Some(
                        Err(LookupError::ExhaustedFailure { last: e, attempts: (self.attempts + 1) as u128 }),
                    ),
                    ..self
                }
            } else {
                SessionView { attempts: self.attempts + 1, ..self }
            },
        }
    }

    /// The session after the attempts whose outcomes are `outcomes`, in order;
    /// outcomes after the end of the session are not consumed.
    pub open spec fn run(self, outcomes: Seq<Result<LookupResponse, AttemptError>>, now: u64) -> SessionView
        decreases outcomes.len(),
    {
        if outcomes.len() == 0 || self.result is Some {
            self
        } else {
            self.after(outcomes[0], now).run(outcomes.drop_first(), now)
        }
    }

    /// The providers asked, in order, while the outcomes are `outcomes`.
    pub open spec fn asked(self, outcomes: Seq<Result<LookupResponse, AttemptError>>, now: u64) -> Seq<
        LookupProvider,
    >
        decreases outcomes.len(),
    {
        if outcomes.len() == 0 || self.result is Some {
            Seq::empty()
        } else {
            seq![self.pending()->0] + self.after(outcomes[0], now).asked(outcomes.drop_first(), now)
        }
    }
}

/// A lookup in progress (see the module documentation).
pub struct LookupSession {
    providers: Vec<LookupProvider>,
    target: Option<IpAddress>,
    use_cache: bool,
    ceiling: u128,
    attempts: u128,
    cache: ResponseCache,
    written: bool,
    result: Option<Result<LookupResponse, LookupError>>,
}

impl View for LookupSession {
    type V = SessionView;

    closed spec fn view(&self) -> SessionView {
        SessionView {
            providers: self.providers@,
            target: self.target,
            use_cache: self.use_cache,
            ceiling: self.ceiling as nat,
            attempts: self.attempts as nat,
            cache: self.cache,
            written: self.written,
            result: self.result,
        }
    }
}

/// Whether some provider of the list can look up a target.
pub fn has_target_support(providers: &Vec<LookupProvider>) -> (r: bool)
    ensures
        r == any_supports_target(providers@),
{
    let mut i: usize = 0;
    while i < providers.len()
        invariant
            i <= providers@.len(),
            forall|j: int| 0 <= j < i ==> !supports_target(#[trigger] providers@[j]),
        decreases providers@.len() - i,
    {
        if providers[i].supports_target_lookup() {
            return true;
        }
        i = i + 1;
    }
    false
}

impl LookupSession {
    /// Starts a session for `request`, with the cache as read at `now` (an empty
    /// cache where [`LookupRequest::consults_cache`] is false), entries staying
    /// fresh for `ttl` seconds.
    pub fn start(request: LookupRequest, cache: ResponseCache, now: u64, ttl: u64) -> (s: LookupSession)
        ensures
            s@ == SessionView::start(request, cache, now, ttl),
            s@.wf(),
    {
        let n = request.providers.len();
        let budget: u128 = match request.retry_budget {
            Some(k) => k as u128,
            None => 0,
        };
        let ceiling: u128 = n as u128 + budget;
        let result = if n == 0 {
            Some(Err(LookupError::NoProvider))
        } else if request.use_cache && cache.read_fresh(now, ttl).is_some() {
            Some(Ok(cache.read_fresh(now, ttl).unwrap()))
        } else if request.require_target && request.target.is_some() && !has_target_support(
            &request.providers,
        ) {
            Some(Err(LookupError::UnsupportedTargetLookup))
        } else {
            None
        };
        LookupSession {
            providers: request.providers,
            target: request.target,
            use_cache: request.use_cache,
            ceiling,
            attempts: 0,
            cache,
            written: false,
            result,
        }
    }

    /// Whether the session is over.
    pub fn is_finished(&self) -> (r: bool)
        ensures
            r == (self@.result is Some),
    {
        self.result.is_some()
    }

    /// The provider to ask next, if the session is not over.
    pub fn next_provider(&self) -> (r: Option<LookupProvider>)
        requires
            self@.wf(),
        ensures
            r == self@.pending(),
    {
        match &self.result {
            Some(_) => None,
            None => {
                let n = self.providers.len();
                let i = self.attempts % (n as u128);
                proof {
                    vstd::arithmetic::div_mod::lemma_mod_bound(self.attempts as int, n as int);
                }
                Some(self.providers[i as usize].duplicate())
            },
        }
    }

    /// The address to look up, if not the caller's own.
    pub fn target(&self) -> (r: Option<IpAddress>)
        ensures
            r == self@.target,
    {
        self.target
    }

    /// Records how the attempt with the pending provider ended, at time `now`.
    pub fn record(&mut self, outcome: Result<LookupResponse, AttemptError>, now: u64)
        requires
            old(self)@.wf(),
            old(self)@.result is None,
        ensures
            final(self)@ == old(self)@.after(outcome, now),
            final(self)@.wf(),
    {
        match outcome {
            Ok(response) => {
                if self.use_cache {
                    self.cache.write(response.duplicate(), now);
                    self.written = true;
                }
                self.result = Some(Ok(response));
            },
            Err(e) => {
                self.attempts = self.attempts + 1;
                if self.attempts >= self.ceiling {
                    self.result = Some(Err(LookupError::ExhaustedFailure { last: e, attempts: self.attempts }));
                }
            },
        }
    }

    /// Ends the session: its answer, and the cache entry to store, if this
    /// session stored one.
    pub fn finish(self) -> (r: (Result<LookupResponse, LookupError>, Option<crate::cache::CacheEntry>))
        requires
            self@.result is Some,
        ensures
            r.0 == self@.result->0,
            r.1 == (if self@.written {
                self@.cache.entry
            } else {
                None
            }),
    {
        let entry = if self.written {
            self.cache.entry
        } else {
            None
        };
        (self.result.unwrap(), entry)
    }
}


/// Whether every outcome is a failure.
pub open spec fn all_fail(outcomes: Seq<Result<LookupResponse, AttemptError>>) -> bool {
    forall|i: int| 0 <= i < outcomes.len() ==> #[trigger] outcomes[i] is Err
}

/// A session starts in a well-formed state.
proof fn lemma_start_wf(request: LookupRequest, cache: ResponseCache, now: u64, ttl: u64)
    requires
        request.providers@.len() <= usize::MAX,
    ensures
        SessionView::start(request, cache, now, ttl).wf(),
{
}

/// From a session in progress whose remaining attempts all fail: the
/// providers are asked in order, wrapping around, until the ceiling is
/// reached; the session then ends with the last failure, and the cache is
/// left as it was.
proof fn lemma_failures_from(v: SessionView, outcomes: Seq<Result<LookupResponse, AttemptError>>, now: u64)
    requires
        v.wf(),
        v.result is None,
        all_fail(outcomes),
        outcomes.len() >= v.ceiling - v.attempts,
    ensures
        v.asked(outcomes, now).len() == v.ceiling - v.attempts,
        forall|j: int|
            0 <= j < v.ceiling - v.attempts ==> #[trigger] v.asked(outcomes, now)[j] == v.providers[((
            v.attempts + j) % v.providers.len() as int)],
        v.run(outcomes, now).result == Some(
            Err::<LookupResponse, LookupError>(
                LookupError::ExhaustedFailure {
                    last: outcomes[v.ceiling - v.attempts - 1]->Err_0,
                    attempts: v.ceiling as u128,
                },
            ),
        ),
        v.run(outcomes, now).cache == v.cache,
        !v.run(outcomes, now).written,
    decreases v.ceiling - v.attempts,
{
    assert(outcomes[0] is Err);
    let rest = outcomes.drop_first();
    let w = v.after(outcomes[0], now);
    assert(v.run(outcomes, now) == w.run(rest, now));
    if v.attempts + 1 >= v.ceiling {
        assert(w.run(rest, now) == w);
        assert(w.asked(rest, now) == Seq::<LookupProvider>::empty());
        assert(v.asked(outcomes, now) == seq![v.pending()->0]);
    } else {
        assert(all_fail(rest)) by {
            assert forall|i: int| 0 <= i < rest.len() implies #[trigger] rest[i] is Err by {
                assert(rest[i] == outcomes[i + 1]);
            }
        }
        lemma_failures_from(w, rest, now);
        let asked = v.asked(outcomes, now);
        assert(asked == seq![v.pending()->0] + w.asked(rest, now));
        assert forall|j: int| 0 <= j < v.ceiling - v.attempts implies #[trigger] asked[j]
            == v.providers[((v.attempts + j) % v.providers.len() as int)] by {
            if j > 0 {
                assert(asked[j] == w.asked(rest, now)[j - 1]);
                assert(w.attempts + (j - 1) == v.attempts + j);
            }
        }
        assert(rest[w.ceiling - w.attempts - 1] == outcomes[v.ceiling - v.attempts - 1]);
    }
}

/// A lookup whose first provider answers returns that answer and asks no
/// other provider, whatever the later ones would have answered.
pub proof fn lemma_first_success_stops(
    request: LookupRequest,
    cache: ResponseCache,
    now: u64,
    ttl: u64,
    response: LookupResponse,
    later: Seq<Result<LookupResponse, AttemptError>>,
)
    requires
        request.providers@.len() > 0,
        SessionView::start(request, cache, now, ttl).result is None,
    ensures
        ({
            let v = SessionView::start(request, cache, now, ttl);
            let outcomes = seq![Ok::<LookupResponse, AttemptError>(response)] + later;
            &&& v.asked(outcomes, now) == seq![request.providers@[0]]
            &&& v.run(outcomes, now).result == Some(Ok::<LookupResponse, LookupError>(response))
        }),
{
    let v = SessionView::start(request, cache, now, ttl);
    let outcomes = seq![Ok::<LookupResponse, AttemptError>(response)] + later;
    assert(outcomes[0] == Ok::<LookupResponse, AttemptError>(response));
    let w = v.after(outcomes[0], now);
    assert(v.run(outcomes, now) == w.run(outcomes.drop_first(), now));
    assert(w.run(outcomes.drop_first(), now) == w);
    assert(w.asked(outcomes.drop_first(), now) == Seq::<LookupProvider>::empty());
    assert(0nat % v.providers.len() == 0);
    assert(v.asked(outcomes, now) =~= seq![request.providers@[0]]);
}

/// With a retry budget of zero and every attempt failing, each provider is
/// asked exactly once, in the given order, and the lookup fails with the last
/// failure after as many attempts as there are providers.
pub proof fn lemma_zero_budget_one_pass(
    request: LookupRequest,
    cache: ResponseCache,
    now: u64,
    ttl: u64,
    outcomes: Seq<Result<LookupResponse, AttemptError>>,
)
    requires
        request.providers@.len() <= usize::MAX,
        request.retry_budget == Some(0u64),
        SessionView::start(request, cache, now, ttl).result is None,
        all_fail(outcomes),
        outcomes.len() >= request.providers@.len(),
    ensures
        ({
            let v = SessionView::start(request, cache, now, ttl);
            let n = request.providers@.len();
            &&& v.asked(outcomes, now) == request.providers@
            &&& v.run(outcomes, now).result == Some(
                Err::<LookupResponse, LookupError>(
                    LookupError::ExhaustedFailure { last: outcomes[n - 1]->Err_0, attempts: n as u128 },
                ),
            )
        }),
{
    lemma_start_wf(request, cache, now, ttl);
    let v = SessionView::start(request, cache, now, ttl);
    lemma_failures_from(v, outcomes, now);
    let n = request.providers@.len();
    assert forall|j: int| 0 <= j < n implies v.asked(outcomes, now)[j] == request.providers@[j] by {
        vstd::arithmetic::div_mod::lemma_small_mod(j as nat, n);
    }
    assert(v.asked(outcomes, now) =~= request.providers@);
}

/// With a retry budget of `k`, at least the number of providers `n`, and every
/// attempt failing, the lookup wraps around the list: it makes `n + k`
/// attempts, the `i`-th asking provider `i % n`, then fails with the last failure.
pub proof fn lemma_budget_wraps_around(
    request: LookupRequest,
    cache: ResponseCache,
    now: u64,
    ttl: u64,
    k: u64,
    outcomes: Seq<Result<LookupResponse, AttemptError>>,
)
    requires
        request.providers@.len() <= usize::MAX,
        request.retry_budget == Some(k),
        k >= request.providers@.len(),
        SessionView::start(request, cache, now, ttl).result is None,
        all_fail(outcomes),
        outcomes.len() >= request.providers@.len() + k,
    ensures
        ({
            let v = SessionView::start(request, cache, now, ttl);
            let n = request.providers@.len();
            let asked = v.asked(outcomes, now);
            &&& asked.len() == n + k
            &&& forall|i: int| 0 <= i < n + k ==> #[trigger] asked[i] == request.providers@[i % n as int]
            &&& v.run(outcomes, now).result == Some(
                Err::<LookupResponse, LookupError>(
                    LookupError::ExhaustedFailure {
                        last: outcomes[n + k - 1]->Err_0,
                        attempts: (n + k) as u128,
                    },
                ),
            )
        }),
{
    lemma_start_wf(request, cache, now, ttl);
    let v = SessionView::start(request, cache, now, ttl);
    lemma_failures_from(v, outcomes, now);
}

/// The cache and whether anything was stored are unchanged by a run that ends
/// in a failure, from any session state.
proof fn lemma_failure_keeps_cache_from(v: SessionView, outcomes: Seq<Result<LookupResponse, AttemptError>>, now: u64)
    ensures
        v.run(outcomes, now).result matches Some(Err(_)) ==> v.run(outcomes, now).cache == v.cache
            && v.run(outcomes, now).written == v.written,
    decreases outcomes.len(),
{
    if outcomes.len() > 0 && v.result is None {
        let w = v.after(outcomes[0], now);
        lemma_failure_keeps_cache_from(w, outcomes.drop_first(), now);
    }
}

/// A lookup that fails leaves the cache exactly as it was and stores nothing,
/// whatever the attempts' outcomes were.
pub proof fn lemma_failed_lookup_keeps_cache(
    request: LookupRequest,
    cache: ResponseCache,
    now: u64,
    ttl: u64,
    outcomes: Seq<Result<LookupResponse, AttemptError>>,
    at: u64,
)
    ensures
        ({
            let end = SessionView::start(request, cache, now, ttl).run(outcomes, at);
            end.result matches Some(Err(_)) ==> end.cache == cache && !end.written
        }),
{
    lemma_failure_keeps_cache_from(SessionView::start(request, cache, now, ttl), outcomes, at);
}

/// From a session in progress whose next `m` attempts fail, before the
/// ceiling, and whose attempt after them succeeds: the providers are asked in
/// order, wrapping around, and the session ends with that record.
proof fn lemma_success_after_failures_from(
    v: SessionView,
    outcomes: Seq<Result<LookupResponse, AttemptError>>,
    m: nat,
    now: u64,
)
    requires
        v.wf(),
        v.result is None,
        m < v.ceiling - v.attempts,
        m < outcomes.len(),
        forall|i: int| 0 <= i < m ==> #[trigger] outcomes[i] is Err,
        outcomes[m as int] is Ok,
    ensures
        v.asked(outcomes, now).len() == m + 1,
        forall|j: int|
            0 <= j <= m ==> #[trigger] v.asked(outcomes, now)[j] == v.providers[((v.attempts + j)
                % v.providers.len() as int)],
        v.run(outcomes, now).result == Some(Ok::<LookupResponse, LookupError>(outcomes[m as int]->Ok_0)),
    decreases m,
{
    let rest = outcomes.drop_first();
    let w = v.after(outcomes[0], now);
    assert(v.run(outcomes, now) == w.run(rest, now));
    if m == 0 {
        assert(w.run(rest, now) == w);
        assert(w.asked(rest, now) == Seq::<LookupProvider>::empty());
        assert(v.asked(outcomes, now) == seq![v.pending()->0]);
    } else {
        assert(outcomes[0] is Err);
        assert forall|i: int| 0 <= i < (m - 1) as nat implies #[trigger] rest[i] is Err by {
            assert(rest[i] == outcomes[i + 1]);
        }
        assert(rest[(m - 1) as int] == outcomes[m as int]);
        lemma_success_after_failures_from(w, rest, (m - 1) as nat, now);
        let asked = v.asked(outcomes, now);
        assert(asked == seq![v.pending()->0] + w.asked(rest, now));
        assert forall|j: int| 0 <= j <= m implies #[trigger] asked[j] == v.providers[((v.attempts
            + j) % v.providers.len() as int)] by {
            if j > 0 {
                assert(asked[j] == w.asked(rest, now)[j - 1]);
                assert(w.attempts + (j - 1) == v.attempts + j);
            }
        }
    }
}

/// A lookup whose first `m` attempts fail and whose next attempt succeeds,
/// with `m` below the attempt ceiling, returns that record; attempt `i` asks
/// provider `i % n`, so with a retry budget the list is walked again from its
/// start after its last provider.
pub proof fn lemma_success_after_wrap_around(
    request: LookupRequest,
    cache: ResponseCache,
    now: u64,
    ttl: u64,
    outcomes: Seq<Result<LookupResponse, AttemptError>>,
    m: nat,
)
    requires
        request.providers@.len() <= usize::MAX,
        SessionView::start(request, cache, now, ttl).result is None,
        m < attempt_ceiling(request.providers@.len(), request.retry_budget),
        m < outcomes.len(),
        forall|i: int| 0 <= i < m ==> #[trigger] outcomes[i] is Err,
        outcomes[m as int] is Ok,
    ensures
        ({
            let v = SessionView::start(request, cache, now, ttl);
            let n = request.providers@.len();
            let asked = v.asked(outcomes, now);
            &&& asked.len() == m + 1
            &&& forall|i: int| 0 <= i <= m ==> #[trigger] asked[i] == request.providers@[i % n as int]
            &&& v.run(outcomes, now).result == Some(Ok::<LookupResponse, LookupError>(outcomes[m as int]->Ok_0))
        }),
{
    lemma_start_wf(request, cache, now, ttl);
    lemma_success_after_failures_from(SessionView::start(request, cache, now, ttl), outcomes, m, now);
}

/// A lookup that is not answered at its start and whose attempts all fail,
/// up to the attempt ceiling, ends in an error and leaves the cache exactly
/// as it was, storing nothing.
pub proof fn lemma_all_failures_fail(
    request: LookupRequest,
    cache: ResponseCache,
    now: u64,
    ttl: u64,
    outcomes: Seq<Result<LookupResponse, AttemptError>>,
)
    requires
        request.providers@.len() <= usize::MAX,
        SessionView::start(request, cache, now, ttl).result is None,
        all_fail(outcomes),
        outcomes.len() >= attempt_ceiling(request.providers@.len(), request.retry_budget),
    ensures
        ({
            let end = SessionView::start(request, cache, now, ttl).run(outcomes, now);
            &&& end.result matches Some(Err(_))
            &&& end.cache == cache
            &&& !end.written
        }),
{
    lemma_start_wf(request, cache, now, ttl);
    lemma_failures_from(SessionView::start(request, cache, now, ttl), outcomes, now);
}

} // verus!
