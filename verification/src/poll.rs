//! Asking a server again and again until it answers as hoped, or until time is up.
use vstd::prelude::*;

use crate::client::{client_request, request_to};
use crate::error::Error;
use crate::http::{Method, StatusCode, OK};
use crate::request::{Request, RequestView, SendAction, Sending};
use crate::time::Duration;
use crate::url::Address;

verus! {

/// Seconds between two attempts.
pub const RETRY_SECS: u64 = 10;

/// How far the attempts have come.
#[derive(Clone, Copy, Debug, PartialEq, Eq, Structural)]
pub enum PollState {
    /// Waiting for the next attempt, if there is time for it.
    Waiting,
    /// An attempt is being made.
    Trying,
    /// The attempts are over.
    Finished,
}

/// What to do next.
pub enum PollAction<R> {
    /// Make an attempt.
    Try,
    /// Sleep for this many seconds, then look at the clock.
    Sleep { secs: u64 },
    /// Return the result.
    Finish(R),
}

/// Whether there is time for an attempt when `elapsed` nanoseconds have gone by.
pub open spec fn in_time(timeout: Option<nat>, elapsed: nat) -> bool {
    match timeout {
        Some(t) => elapsed < t,
        None => true,
    }
}

/// What a timeout is in nanoseconds.
pub open spec fn timeout_nanos(timeout: Option<Duration>) -> Option<nat> {
    match timeout {
        Some(t) => Some(t@),
        None => None,
    }
}

/// What follows when the clock shows that `elapsed` nanoseconds have gone by: another attempt if
/// there is time for it, else the end of the attempts with `failure`.
pub open spec fn on_clock<R>(timeout: Option<nat>, elapsed: nat, failure: R) -> (
    PollState,
    PollAction<R>,
) {
    if in_time(timeout, elapsed) {
        (PollState::Trying, PollAction::Try)
    } else {
        (PollState::Finished, PollAction::Finish(failure))
    }
}

/// What follows when an attempt that there was time for is over: the end of the attempts with the result, if there is
/// one, else a pause.
pub open spec fn on_attempt<R>(result: Option<R>) -> (PollState, PollAction<R>) {
    match result {
        Some(r) => (PollState::Finished, PollAction::Finish(r)),
        None => (PollState::Waiting, PollAction::Sleep { secs: RETRY_SECS }),
    }
}

/// What follows when an attempt is over and `elapsed` nanoseconds have gone by: the end of the
/// attempts with `failure` if time is up by then.
pub open spec fn on_reply<R>(
    timeout: Option<nat>,
    elapsed: nat,
    result: Option<R>,
    failure: R,
) -> (PollState, PollAction<R>) {
    if in_time(timeout, elapsed) {
        on_attempt(result)
    } else {
        (PollState::Finished, PollAction::Finish(failure))
    }
}

/// The text of a URL that may be missing.
pub open spec fn target_text(target: Option<Address>) -> Option<Seq<char>> {
    match target {
        Some(url) => Some(url@),
        None => None,
    }
}

/// Whether there is time for an attempt.
fn check_time(timeout: &Option<Duration>, elapsed: &Duration) -> (r: bool)
    ensures
        r == in_time(timeout_nanos(*timeout), elapsed@),
{
    match timeout {
        Some(t) => elapsed.is_shorter(t),
        None => true,
    }
}

/// Connecting to a server: attempts until one is answered with the status OK.
pub struct Connecting {
    timeout: Option<Duration>,
    state: PollState,
    target: Option<Address>,
}

impl Connecting {
    /// The timeout in nanoseconds.
    pub closed spec fn timeout(self) -> Option<nat> {
        timeout_nanos(self.timeout)
    }

    /// How far the attempts have come.
    pub closed spec fn state(self) -> PollState {
        self.state
    }

    /// The URL that the attempts go to, if there is one.
    pub closed spec fn target(self) -> Option<Seq<char>> {
        target_text(self.target)
    }

    /// Begin, with the clock still to be looked at.
    pub(crate) fn new(timeout: Option<Duration>, target: Option<Address>) -> (r: Connecting)
        ensures
            r.timeout() == timeout_nanos(timeout),
            r.state() == PollState::Waiting,
            r.target() == target_text(target),
    {
        Connecting { timeout, state: PollState::Waiting, target }
    }

    /// The request of an attempt. [`try_attempt`](Self::try_attempt) finds out whether there is a
    /// URL for it.
    pub fn attempt<E: Error>(&self) -> (r: Request<(), E>)
        requires
            self.target() is Some,
        ensures
            r@ == (RequestView {
                method: Method::Get,
                url: self.target()->0,
                headers: Seq::empty(),
                body: None,
            }),
    {
        match &self.target {
            Some(url) => Request::new(Method::Get, url.clone()),
            None => {
                assert(false);
                vstd::pervasive::unreached()
            },
        }
    }

    /// The request of an attempt, if there is a URL for it.
    pub fn try_attempt<E: Error>(&self) -> (r: Option<Request<(), E>>)
        ensures
            match r {
                Some(req) => self.target() is Some && req@ == (RequestView {
                    method: Method::Get,
                    url: self.target()->0,
                    headers: Seq::empty(),
                    body: None,
                }),
                None => self.target() is None,
            },
    {
        if self.target.is_some() {
            Some(self.attempt())
        } else {
            None
        }
    }

    /// Go on when the clock shows how much time has gone by since the beginning.
    pub fn clock(&mut self, elapsed: Duration) -> (r: PollAction<bool>)
        requires
            old(self).state() == PollState::Waiting,
        ensures
            (final(self).state(), r) == on_clock(old(self).timeout(), elapsed@, false),
            final(self).timeout() == old(self).timeout(),
            final(self).target() == old(self).target(),
    {
        if check_time(&self.timeout, &elapsed) {
            self.state = PollState::Trying;
            PollAction::Try
        } else {
            self.state = PollState::Finished;
            PollAction::Finish(false)
        }
    }

    /// Go on when an attempt is over: with the status of the response, if there was one, and with
    /// the time that has gone by since the beginning.
    pub fn answered(&mut self, status: Option<StatusCode>, elapsed: Duration) -> (r: PollAction<
        bool,
    >)
        requires
            old(self).state() == PollState::Trying,
        ensures
            (final(self).state(), r) == on_reply(
                old(self).timeout(),
                elapsed@,
                connected(status),
                false,
            ),
            final(self).timeout() == old(self).timeout(),
            final(self).target() == old(self).target(),
    {
        if !check_time(&self.timeout, &elapsed) {
            self.state = PollState::Finished;
            return PollAction::Finish(false);
        }
        let ok = match status {
            Some(s) => s.code == OK,
            None => false,
        };
        if ok {
            self.state = PollState::Finished;
            PollAction::Finish(true)
        } else {
            self.state = PollState::Waiting;
            PollAction::Sleep { secs: RETRY_SECS }
        }
    }
}

/// Success, if an attempt was answered with the status OK.
pub open spec fn connected(status: Option<StatusCode>) -> Option<bool> {
    if status == Some(StatusCode { code: OK }) {
        Some(true)
    } else {
        None
    }
}

/// Whether `state` and `action` begin a health check at `url`.
pub open spec fn is_health_check<H, E: Error>(
    url: Seq<char>,
    state: Sending,
    action: SendAction<H, E>,
) -> bool {
    &&& state is AwaitingResponse
    &&& state.well_formed()
    &&& action matches SendAction::Transmit(req) && req@ == client_request(Method::Get, url)
}

/// Waiting for a server to be healthy: attempts until the answer satisfies a predicate.
pub struct AwaitingHealth {
    timeout: Option<Duration>,
    state: PollState,
    target: Option<Address>,
}

/// The health, if an attempt brought one that was found good.
pub open spec fn found_healthy<H, E>(answer: Result<H, E>, good: bool) -> Option<Option<H>> {
    match answer {
        Ok(health) => if good {
            Some(Some(health))
        } else {
            None
        },
        Err(_) => None,
    }
}

impl AwaitingHealth {
    /// The timeout in nanoseconds.
    pub closed spec fn timeout(self) -> Option<nat> {
        timeout_nanos(self.timeout)
    }

    /// How far the attempts have come.
    pub closed spec fn state(self) -> PollState {
        self.state
    }

    /// The URL that the attempts go to, if there is one.
    pub closed spec fn target(self) -> Option<Seq<char>> {
        target_text(self.target)
    }

    /// Begin, with the clock still to be looked at.
    pub(crate) fn new(timeout: Option<Duration>, target: Option<Address>) -> (r: AwaitingHealth)
        ensures
            r.timeout() == timeout_nanos(timeout),
            r.state() == PollState::Waiting,
            r.target() == target_text(target),
    {
        AwaitingHealth { timeout, state: PollState::Waiting, target }
    }

    /// Begin an attempt: a health check. [`try_attempt`](Self::try_attempt) finds out whether
    /// there is a URL for it.
    pub fn attempt<H, E: Error>(&self) -> (r: (Sending, SendAction<H, E>))
        requires
            self.target() is Some,
        ensures
            is_health_check(self.target()->0, r.0, r.1),
    {
        match &self.target {
            Some(url) => request_to(Method::Get, url.clone()).send(),
            None => {
                assert(false);
                vstd::pervasive::unreached()
            },
        }
    }

    /// Begin an attempt, if there is a URL for it.
    pub fn try_attempt<H, E: Error>(&self) -> (r: Option<(Sending, SendAction<H, E>)>)
        ensures
            match r {
                Some(begun) => self.target() is Some && is_health_check(
                    self.target()->0,
                    begun.0,
                    begun.1,
                ),
                None => self.target() is None,
            },
    {
        if self.target.is_some() {
            Some(self.attempt())
        } else {
            None
        }
    }

    /// Go on when the clock shows how much time has gone by since the beginning.
    pub fn clock<H>(&mut self, elapsed: Duration) -> (r: PollAction<Option<H>>)
        requires
            old(self).state() == PollState::Waiting,
        ensures
            (final(self).state(), r) == on_clock(old(self).timeout(), elapsed@, None::<H>),
            final(self).timeout() == old(self).timeout(),
            final(self).target() == old(self).target(),
    {
        if check_time(&self.timeout, &elapsed) {
            self.state = PollState::Trying;
            PollAction::Try
        } else {
            self.state = PollState::Finished;
            PollAction::Finish(None)
        }
    }

    /// Go on when an attempt is over: with the answer of the health check, which `healthy` is
    /// asked about if there is one and it came in time, and with the time that has gone by since
    /// the beginning.
    pub fn answered<H, E, F: Fn(&H) -> bool>(
        &mut self,
        answer: Result<H, E>,
        elapsed: Duration,
        healthy: &F,
    ) -> (r: PollAction<Option<H>>)
        requires
            old(self).state() == PollState::Trying,
            in_time(old(self).timeout(), elapsed@) ==> (answer matches Ok(health) ==> call_requires(
                *healthy,
                (&health,),
            )),
        ensures
            match answer {
                Ok(health) if in_time(old(self).timeout(), elapsed@) => exists|good: bool|
                    #[trigger] call_ensures(*healthy, (&health,), good) && (
                        final(self).state(),
                        r,
                    ) == on_attempt(found_healthy(answer, good)),
                _ => (final(self).state(), r) == on_reply(
                    old(self).timeout(),
                    elapsed@,
                    found_healthy(answer, false),
                    None,
                ),
            },
            final(self).timeout() == old(self).timeout(),
            final(self).target() == old(self).target(),
    {
        if !check_time(&self.timeout, &elapsed) {
            self.state = PollState::Finished;
            return PollAction::Finish(None);
        }
        match answer {
            Ok(health) => if healthy(&health) {
                self.state = PollState::Finished;
                PollAction::Finish(Some(health))
            } else {
                self.state = PollState::Waiting;
                PollAction::Sleep { secs: RETRY_SECS }
            },
            Err(_) => {
                self.state = PollState::Waiting;
                PollAction::Sleep { secs: RETRY_SECS }
            },
        }
    }
}

/// One round of attempts: when the clock was looked at, when the attempt at that time was over, and
/// what it results in.
pub struct Round<R> {
    /// The nanoseconds that have gone by since the beginning.
    pub elapsed: nat,
    /// The nanoseconds that have gone by once the attempt is over.
    pub replied: nat,
    /// The result of the attempt, if it is the last.
    pub result: Option<R>,
}

impl<R> Round<R> {
    /// Whether there was time for the attempt until it was over.
    pub open spec fn is_timely(self, timeout: Option<nat>) -> bool {
        in_time(timeout, self.elapsed) && in_time(timeout, self.replied)
    }
}

/// The result of going on round after round, if the attempts are over by the last of `rounds`.
pub open spec fn poll_result<R>(timeout: Option<nat>, rounds: Seq<Round<R>>, failure: R) -> Option<
    R,
>
    decreases rounds.len(),
{
    if rounds.len() == 0 {
        None
    } else {
        match on_clock(timeout, rounds[0].elapsed, failure) {
            (PollState::Finished, PollAction::Finish(r)) => Some(r),
            // Only here an attempt is made: its result counts for nothing otherwise.
            (PollState::Trying, PollAction::Try) => match on_reply(
                timeout,
                rounds[0].replied,
                rounds[0].result,
                failure,
            ) {
                (PollState::Finished, PollAction::Finish(r)) => Some(r),
                _ => poll_result(timeout, rounds.drop_first(), failure),
            },
            _ => poll_result(timeout, rounds.drop_first(), failure),
        }
    }
}

/// Whether the attempts go on after each of the first `n` rounds.
pub open spec fn goes_on<R>(timeout: Option<nat>, rounds: Seq<Round<R>>, n: int) -> bool {
    forall|i: int|
        0 <= i < n ==> (#[trigger] rounds[i]).is_timely(timeout) && rounds[i].result is None
}

/// The attempts go on for `n + 1` rounds if they do for the first and then for `n` of the rest.
proof fn lemma_goes_on<R>(timeout: Option<nat>, rounds: Seq<Round<R>>, n: int)
    requires
        0 <= n < rounds.len(),
    ensures
        goes_on(timeout, rounds, n + 1) <==> rounds[0].is_timely(timeout) && rounds[0].result is None
            && goes_on(timeout, rounds.drop_first(), n),
{
    let rest = rounds.drop_first();
    if goes_on(timeout, rounds, n + 1) {
        assert(rounds[0].is_timely(timeout) && rounds[0].result is None);
        assert forall|i: int| 0 <= i < n implies (#[trigger] rest[i]).is_timely(timeout)
            && rest[i].result is None by {
            assert(rest[i] == rounds[i + 1]);
        }
    }
    if rounds[0].is_timely(timeout) && rounds[0].result is None && goes_on(timeout, rest, n) {
        assert forall|i: int| 0 <= i < n + 1 implies (#[trigger] rounds[i]).is_timely(timeout)
            && rounds[i].result is None by {
            if i > 0 {
                assert(rounds[i] == rest[i - 1]);
            }
        }
    }
}

/// The attempts are over in the first round for which time is up before its attempt is over, with
/// a failure, or whose attempt succeeds, with its result.
pub proof fn law_poll_ends<R>(timeout: Option<nat>, rounds: Seq<Round<R>>, failure: R, n: int)
    requires
        0 <= n < rounds.len(),
        goes_on(timeout, rounds, n),
        !rounds[n].is_timely(timeout) || rounds[n].result is Some,
    ensures
        poll_result(timeout, rounds, failure) == Some(
            if rounds[n].is_timely(timeout) {
                rounds[n].result->0
            } else {
                failure
            },
        ),
    decreases n,
{
    if n > 0 {
        lemma_goes_on(timeout, rounds, n - 1);
        law_poll_ends(timeout, rounds.drop_first(), failure, n - 1);
    }
}

/// The attempts go on as long as there is time and none of them succeeds.
pub proof fn law_poll_goes_on<R>(timeout: Option<nat>, rounds: Seq<Round<R>>, failure: R)
    ensures
        poll_result(timeout, rounds, failure) is None <==> goes_on(
            timeout,
            rounds,
            rounds.len() as int,
        ),
    decreases rounds.len(),
{
    if rounds.len() > 0 {
        lemma_goes_on(timeout, rounds, rounds.len() - 1);
        law_poll_goes_on(timeout, rounds.drop_first(), failure);
    }
}

/// A result that is no failure comes from an attempt that was over before time was up, with no
/// attempt before it that succeeded.
pub proof fn law_poll_succeeds<R>(
    timeout: Option<nat>,
    rounds: Seq<Round<R>>,
    failure: R,
    r: R,
) -> (n: int)
    requires
        poll_result(timeout, rounds, failure) == Some(r),
        r != failure,
    ensures
        0 <= n < rounds.len(),
        goes_on(timeout, rounds, n),
        rounds[n].is_timely(timeout),
        rounds[n].result == Some(r),
    decreases rounds.len(),
{
    if rounds[0].is_timely(timeout) && rounds[0].result is None {
        let m = law_poll_succeeds(timeout, rounds.drop_first(), failure, r);
        lemma_goes_on(timeout, rounds, m);
        m + 1
    } else {
        0
    }
}

/// Where no attempt results in the failure, it comes from a round in which time was up, with no
/// attempt before it that succeeded.
pub proof fn law_poll_times_out<R>(timeout: Option<nat>, rounds: Seq<Round<R>>, failure: R) -> (n:
    int)
    requires
        poll_result(timeout, rounds, failure) == Some(failure),
        forall|i: int| 0 <= i < rounds.len() ==> (#[trigger] rounds[i]).result != Some(failure),
    ensures
        0 <= n < rounds.len(),
        goes_on(timeout, rounds, n),
        !rounds[n].is_timely(timeout),
    decreases rounds.len(),
{
    if rounds[0].is_timely(timeout) {
        assert(rounds[0].result != Some(failure));
        let rest = rounds.drop_first();
        assert forall|i: int| 0 <= i < rest.len() implies (#[trigger] rest[i]).result != Some(
            failure,
        ) by {
            assert(rest[i] == rounds[i + 1]);
        }
        let m = law_poll_times_out(timeout, rest, failure);
        lemma_goes_on(timeout, rounds, m);
        m + 1
    } else {
        0
    }
}

/// The rounds of connecting, in which the clock shows `elapsed` before the attempts and `replied`
/// after them, and the attempts bring `statuses`.
pub open spec fn connect_rounds(
    elapsed: Seq<nat>,
    replied: Seq<nat>,
    statuses: Seq<Option<StatusCode>>,
) -> Seq<Round<bool>> {
    Seq::new(
        elapsed.len(),
        |i: int|
            Round { elapsed: elapsed[i], replied: replied[i], result: connected(statuses[i]) },
    )
}

/// Connecting gives `true` only once an attempt has been answered with the status OK before the
/// timeout has elapsed, and `false` only once the timeout has elapsed without such an answer.
/// Without a timeout it never gives `false`.
pub proof fn law_connect_result(
    timeout: Option<nat>,
    elapsed: Seq<nat>,
    replied: Seq<nat>,
    statuses: Seq<Option<StatusCode>>,
    r: bool,
) -> (n: int)
    requires
        elapsed.len() == statuses.len(),
        elapsed.len() == replied.len(),
        poll_result(timeout, connect_rounds(elapsed, replied, statuses), false) == Some(r),
    ensures
        0 <= n < elapsed.len(),
        forall|i: int| 0 <= i < n ==> #[trigger] statuses[i] != Some(StatusCode { code: OK }),
        r ==> in_time(timeout, replied[n]) && statuses[n] == Some(StatusCode { code: OK }),
        !r ==> timeout is Some && (elapsed[n] >= timeout->0 || replied[n] >= timeout->0),
{
    let rounds = connect_rounds(elapsed, replied, statuses);
    let n = if r {
        law_poll_succeeds(timeout, rounds, false, r)
    } else {
        law_poll_times_out(timeout, rounds, false)
    };
    assert forall|i: int| 0 <= i < n implies #[trigger] statuses[i] != Some(
        StatusCode { code: OK },
    ) by {
        assert(rounds[i].result is None);
    }
    n
}

/// An answer that comes in once the timeout has elapsed is too late, whatever it is: connecting
/// gives `false`.
pub proof fn law_late_answer(
    timeout: nat,
    elapsed: Seq<nat>,
    replied: Seq<nat>,
    statuses: Seq<Option<StatusCode>>,
    n: int,
)
    requires
        elapsed.len() == statuses.len(),
        elapsed.len() == replied.len(),
        0 <= n < elapsed.len(),
        goes_on(Some(timeout), connect_rounds(elapsed, replied, statuses), n),
        replied[n] >= timeout,
    ensures
        poll_result(Some(timeout), connect_rounds(elapsed, replied, statuses), false) == Some(
            false,
        ),
{
    law_poll_ends(Some(timeout), connect_rounds(elapsed, replied, statuses), false, n);
}

/// The rounds of waiting for health, in which the clock shows `elapsed` before the attempts and
/// `replied` after them, and the attempts bring `answers`, each with what the predicate says of
/// it.
pub open spec fn health_rounds<H, E>(
    elapsed: Seq<nat>,
    replied: Seq<nat>,
    answers: Seq<(Result<H, E>, bool)>,
) -> Seq<Round<Option<H>>> {
    Seq::new(
        elapsed.len(),
        |i: int|
            Round {
                elapsed: elapsed[i],
                replied: replied[i],
                result: found_healthy(answers[i].0, answers[i].1),
            },
    )
}

/// Waiting for health gives the first answer before the timeout has elapsed that satisfies the
/// predicate, and `None` only once the timeout has elapsed without such an answer.
pub proof fn law_health_result<H, E>(
    timeout: Option<nat>,
    elapsed: Seq<nat>,
    replied: Seq<nat>,
    answers: Seq<(Result<H, E>, bool)>,
    r: Option<H>,
) -> (n: int)
    requires
        elapsed.len() == answers.len(),
        elapsed.len() == replied.len(),
        poll_result(timeout, health_rounds(elapsed, replied, answers), None) == Some(r),
    ensures
        0 <= n < elapsed.len(),
        forall|i: int| 0 <= i < n ==> (#[trigger] answers[i]).0 is Err || !answers[i].1,
        r matches Some(health) ==> in_time(timeout, replied[n]) && answers[n] == (
            Ok::<H, E>(health),
            true,
        ),
        r is None ==> timeout is Some && (elapsed[n] >= timeout->0 || replied[n] >= timeout->0),
{
    let rounds = health_rounds(elapsed, replied, answers);
    let n = if r is Some {
        law_poll_succeeds(timeout, rounds, None, r)
    } else {
        law_poll_times_out(timeout, rounds, None)
    };
    assert forall|i: int| 0 <= i < n implies (#[trigger] answers[i]).0 is Err || !answers[i].1 by {
        assert(rounds[i].result is None);
    }
    n
}

} // verus!
