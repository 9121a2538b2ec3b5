//! The token polling state machine.
//!
//! A [`TokenPoller`] never sleeps and never sends anything. It is told what
//! happened, as a [`PollEvent`], and answers with what to do next, as a
//! [`PollAction`]. The only action that sends a request is
//! [`PollAction::WaitThenExchange`], which orders a wait of the interval in
//! force before the request, so no two requests can follow each other more
//! closely than that.

use vstd::prelude::*;
use crate::grant::{DeviceCodeGrant, HttpReply};
use crate::outcome::{
    decode_token_response, outcome_of, outcome_of_body, slowed, OutcomeModel, TokenOutcome,
};

verus! {

/// The bearer token that a successful exchange yields.
pub type AccessToken = String;

/// How many unreadable replies in a row are put up with.
pub const MAX_UNREADABLE_REPLIES: u32 = 3;

/// Where a run of the poller stands.
#[derive(Debug, Clone, Copy, PartialEq, Eq, Structural)]
pub enum PollPhase {
    /// Nothing was asked of the server yet.
    Idle,
    /// A wait and an exchange request were ordered; their result is due.
    Polling,
    /// Over: the token was issued.
    Granted,
    /// Over: the server refused.
    Denied,
    /// Over: the device code ran out.
    Expired,
    /// Over: the server's replies could not be read.
    Failed,
}

/// Why a run ended without a token.
#[derive(Debug, Clone, PartialEq, Eq)]
pub enum PollError {
    /// The server refused, with its reason.
    Denied(String),
    /// The device code ran out; the flow has to start again.
    Expired,
    /// More unreadable replies in a row than are put up with.
    Unreliable,
}

/// What the driver reports to the poller.
#[derive(Debug, Clone, PartialEq, Eq)]
pub enum PollEvent {
    /// The run starts.
    Begin,
    /// The exchange request was answered, and the answer decoded.
    Outcome(TokenOutcome),
    /// The exchange request failed, or its answer could not be decoded.
    Unreadable,
}

/// What the poller orders the driver to do.
#[derive(Debug, PartialEq, Eq)]
pub enum PollAction {
    /// Wait `seconds`, then send one exchange request and report on it.
    WaitThenExchange { seconds: u32 },
    /// Stop: the run is over with this result.
    Finish(Result<AccessToken, PollError>),
    /// The event does not fit the phase: nothing changed, nothing to do.
    Nothing,
}

/// A [`PollError`] with its string as a sequence of characters.
pub enum ErrorModel {
    Denied(Seq<char>),
    Expired,
    Unreliable,
}

/// A [`PollEvent`] over [`OutcomeModel`].
pub enum EventModel {
    Begin,
    Outcome(OutcomeModel),
    Unreadable,
}

/// A [`PollAction`] over sequences of characters.
pub enum ActionModel {
    WaitThenExchange { seconds: u32 },
    Finish(Result<Seq<char>, ErrorModel>),
    Nothing,
}

impl View for PollError {
    type V = ErrorModel;

    open spec fn view(&self) -> ErrorModel {
        match *self {
            PollError::Denied(reason) => ErrorModel::Denied(reason@),
            PollError::Expired => ErrorModel::Expired,
            PollError::Unreliable => ErrorModel::Unreliable,
        }
    }
}

impl View for PollEvent {
    type V = EventModel;

    open spec fn view(&self) -> EventModel {
        match *self {
            PollEvent::Begin => EventModel::Begin,
            PollEvent::Outcome(outcome) => EventModel::Outcome(outcome@),
            PollEvent::Unreadable => EventModel::Unreadable,
        }
    }
}

impl View for PollAction {
    type V = ActionModel;

    open spec fn view(&self) -> ActionModel {
        match *self {
            PollAction::WaitThenExchange { seconds } => ActionModel::WaitThenExchange { seconds },
            PollAction::Finish(Ok(token)) => ActionModel::Finish(Ok(token@)),
            PollAction::Finish(Err(e)) => ActionModel::Finish(Err(e@)),
            PollAction::Nothing => ActionModel::Nothing,
        }
    }
}

/// The state of a poller as plain values.
pub struct PollerModel {
    pub device_code: Seq<char>,
    pub client_id: Seq<char>,
    pub phase: PollPhase,
    /// Seconds for which the device code is good.
    pub expires_in: u32,
    /// The interval in force, in seconds.
    pub interval: u32,
    /// Seconds of waiting ordered so far.
    pub elapsed: nat,
    /// Unreadable replies since the last readable one.
    pub unreadable: u32,
}

/// Whether a phase ends the run.
pub open spec fn is_terminal(phase: PollPhase) -> bool {
    phase == PollPhase::Granted || phase == PollPhase::Denied || phase == PollPhase::Expired
        || phase == PollPhase::Failed
}

/// The next round, if the device code has time left: a wait of the interval
/// in force, then a request. Else the run ends as expired.
pub open spec fn schedule(m: PollerModel) -> (PollerModel, ActionModel) {
    if m.elapsed < m.expires_in {
        (
            PollerModel { phase: PollPhase::Polling, elapsed: m.elapsed + m.interval as nat, ..m },
            ActionModel::WaitThenExchange { seconds: m.interval },
        )
    } else {
        (PollerModel { phase: PollPhase::Expired, ..m }, ActionModel::Finish(Err(ErrorModel::Expired)))
    }
}

/// The larger of the interval in force and the one the server asks for.
pub open spec fn raised(interval: u32, asked: u32) -> u32 {
    if asked >= interval {
        asked
    } else {
        interval
    }
}

/// What an outcome of the exchange does to a polling run.
pub open spec fn settle(m: PollerModel, outcome: OutcomeModel) -> (PollerModel, ActionModel) {
    match outcome {
        OutcomeModel::Granted { access_token } => (
            PollerModel { phase: PollPhase::Granted, ..m },
            ActionModel::Finish(Ok(access_token)),
        ),
        OutcomeModel::Denied { reason } => (
            PollerModel { phase: PollPhase::Denied, ..m },
            ActionModel::Finish(Err(ErrorModel::Denied(reason))),
        ),
        OutcomeModel::Expired => (
            PollerModel { phase: PollPhase::Expired, ..m },
            ActionModel::Finish(Err(ErrorModel::Expired)),
        ),
        OutcomeModel::Pending => schedule(PollerModel { unreadable: 0, ..m }),
        OutcomeModel::SlowDown { new_interval } => schedule(
            PollerModel { unreadable: 0, interval: raised(m.interval, new_interval), ..m },
        ),
    }
}

/// The transition function: the state after `event`, and the action that
/// answers it.
///
/// `Begin` starts an idle run. An outcome or an unreadable reply moves a
/// polling run on. Every other pairing of phase and event changes nothing.
pub open spec fn step(m: PollerModel, event: EventModel) -> (PollerModel, ActionModel) {
    match (m.phase, event) {
        (PollPhase::Idle, EventModel::Begin) => schedule(m),
        (PollPhase::Polling, EventModel::Outcome(outcome)) => settle(m, outcome),
        (PollPhase::Polling, EventModel::Unreadable) => if m.unreadable >= MAX_UNREADABLE_REPLIES {
            (
                PollerModel { phase: PollPhase::Failed, ..m },
                ActionModel::Finish(Err(ErrorModel::Unreliable)),
            )
        } else {
            schedule(PollerModel { unreadable: (m.unreadable + 1) as u32, ..m })
        },
        _ => (m, ActionModel::Nothing),
    }
}

/// The state after a sequence of events, taken in order.
pub open spec fn run(m: PollerModel, events: Seq<EventModel>) -> PollerModel
    decreases events.len(),
{
    if events.len() == 0 {
        m
    } else {
        step(run(m, events.drop_last()), events.last()).0
    }
}

/// How many exchange requests are ordered while `events` are taken in order.
pub open spec fn requests(m: PollerModel, events: Seq<EventModel>) -> nat
    decreases events.len(),
{
    if events.len() == 0 {
        0
    } else {
        let earlier = requests(m, events.drop_last());
        if step(run(m, events.drop_last()), events.last()).1 is WaitThenExchange {
            earlier + 1
        } else {
            earlier
        }
    }
}

/// The event that a reply to an exchange request amounts to, decoded with
/// the interval in force.
pub open spec fn event_of_reply(reply: HttpReply, interval: u32) -> EventModel {
    match reply {
        HttpReply::Unreachable => EventModel::Unreadable,
        HttpReply::Answered { status, body } => match outcome_of_body(body@, interval) {
            Some(outcome) => EventModel::Outcome(outcome),
            None => EventModel::Unreadable,
        },
    }
}

/// Whether the waiting ordered so far is under the lifetime of the device
/// code plus one interval.
pub open spec fn within_lifetime(m: PollerModel) -> bool {
    m.elapsed == 0 || m.elapsed < m.expires_in + m.interval
}

/// Polls the token endpoint for one device code.
pub struct TokenPoller {
    device_code: String,
    client_id: String,
    phase: PollPhase,
    expires_in: u32,
    interval: u32,
    elapsed: u64,
    unreadable: u32,
}

impl View for TokenPoller {
    type V = PollerModel;

    closed spec fn view(&self) -> PollerModel {
        PollerModel {
            device_code: self.device_code@,
            client_id: self.client_id@,
            phase: self.phase,
            expires_in: self.expires_in,
            interval: self.interval,
            elapsed: self.elapsed as nat,
            unreadable: self.unreadable,
        }
    }
}

impl TokenPoller {
    /// A poller that has not started.
    pub fn new(device_code: String, initial_interval: u32, expires_in: u32, client_id: String) -> (r:
        TokenPoller)
        ensures
            r@ == (PollerModel {
                device_code: device_code@,
                client_id: client_id@,
                phase: PollPhase::Idle,
                expires_in,
                interval: initial_interval,
                elapsed: 0,
                unreadable: 0,
            }),
    {
        TokenPoller {
            device_code,
            client_id,
            phase: PollPhase::Idle,
            expires_in,
            interval: initial_interval,
            elapsed: 0,
            unreadable: 0,
        }
    }

    /// A poller for a grant, which it uses up.
    pub fn for_grant(grant: DeviceCodeGrant, client_id: String) -> (r: TokenPoller)
        ensures
            r@ == (PollerModel {
                device_code: grant.device_code@,
                client_id: client_id@,
                phase: PollPhase::Idle,
                expires_in: grant.expires_in,
                interval: grant.interval,
                elapsed: 0,
                unreadable: 0,
            }),
    {
        TokenPoller::new(grant.device_code, grant.interval, grant.expires_in, client_id)
    }

    pub fn phase(&self) -> (r: PollPhase)
        ensures
            r == self@.phase,
    {
        self.phase
    }

    /// The interval in force, in seconds.
    pub fn interval(&self) -> (r: u32)
        ensures
            r == self@.interval,
    {
        self.interval
    }

    /// Seconds of waiting ordered so far.
    pub fn elapsed(&self) -> (r: u64)
        ensures
            r == self@.elapsed,
    {
        self.elapsed
    }

    pub fn expires_in(&self) -> (r: u32)
        ensures
            r == self@.expires_in,
    {
        self.expires_in
    }

    /// Whether the run is over.
    pub fn is_finished(&self) -> (r: bool)
        ensures
            r == is_terminal(self@.phase),
    {
        match self.phase {
            PollPhase::Idle => false,
            PollPhase::Polling => false,
            _ => true,
        }
    }

    /// The fields of the form to post to the token endpoint, in order:
    /// `client_id`, `grant_type`, `device_code`.
    pub fn exchange_form(&self) -> (r: Vec<(String, String)>)
        ensures
            r@.len() == 3,
            r@[0].0@ == "client_id"@ && r@[0].1@ == self@.client_id,
            r@[1].0@ == "grant_type"@ && r@[1].1@
                == "urn:ietf:params:oauth:grant-type:device_code"@,
            r@[2].0@ == "device_code"@ && r@[2].1@ == self@.device_code,
    {
        let mut fields: Vec<(String, String)> = Vec::new();
        fields.push(("client_id".to_owned(), self.client_id.clone()));
        fields.push(
            ("grant_type".to_owned(), "urn:ietf:params:oauth:grant-type:device_code".to_owned()),
        );
        fields.push(("device_code".to_owned(), self.device_code.clone()));
        fields
    }

    fn plan(&mut self) -> (action: PollAction)
        ensures
            final(self)@ == schedule(old(self)@).0,
            action@ == schedule(old(self)@).1,
    {
        if self.elapsed < self.expires_in as u64 {
            self.phase = PollPhase::Polling;
            self.elapsed = self.elapsed + self.interval as u64;
            PollAction::WaitThenExchange { seconds: self.interval }
        } else {
            self.phase = PollPhase::Expired;
            PollAction::Finish(Err(PollError::Expired))
        }
    }

    /// Takes one event and answers with the next action, as [`step`] says.
    pub fn advance(&mut self, event: PollEvent) -> (action: PollAction)
        ensures
            final(self)@ == step(old(self)@, event@).0,
            action@ == step(old(self)@, event@).1,
    {
        match self.phase {
            PollPhase::Idle => match event {
                PollEvent::Begin => self.plan(),
                _ => PollAction::Nothing,
            },
            PollPhase::Polling => match event {
                PollEvent::Begin => PollAction::Nothing,
                PollEvent::Outcome(TokenOutcome::Granted { access_token }) => {
                    self.phase = PollPhase::Granted;
                    PollAction::Finish(Ok(access_token))
                },
                PollEvent::Outcome(TokenOutcome::Denied { reason }) => {
                    self.phase = PollPhase::Denied;
                    PollAction::Finish(Err(PollError::Denied(reason)))
                },
                PollEvent::Outcome(TokenOutcome::Expired) => {
                    self.phase = PollPhase::Expired;
                    PollAction::Finish(Err(PollError::Expired))
                },
                PollEvent::Outcome(TokenOutcome::Pending) => {
                    self.unreadable = 0;
                    self.plan()
                },
                PollEvent::Outcome(TokenOutcome::SlowDown { new_interval }) => {
                    self.unreadable = 0;
                    if new_interval >= self.interval {
                        self.interval = new_interval;
                    }
                    self.plan()
                },
                PollEvent::Unreadable => {
                    if self.unreadable >= MAX_UNREADABLE_REPLIES {
                        self.phase = PollPhase::Failed;
                        PollAction::Finish(Err(PollError::Unreliable))
                    } else {
                        self.unreadable = self.unreadable + 1;
                        self.plan()
                    }
                },
            },
            _ => PollAction::Nothing,
        }
    }

    /// Decodes the reply to an exchange request with the interval in force
    /// and takes it as the next event.
    pub fn on_reply(&mut self, reply: &HttpReply) -> (action: PollAction)
        ensures
            final(self)@ == step(old(self)@, event_of_reply(*reply, old(self)@.interval)).0,
            action@ == step(old(self)@, event_of_reply(*reply, old(self)@.interval)).1,
    {
        let event = match reply {
            HttpReply::Unreachable => PollEvent::Unreadable,
            HttpReply::Answered { status: _, body } => {
                match decode_token_response(body.as_str(), self.interval) {
                    Some(outcome) => PollEvent::Outcome(outcome),
                    None => PollEvent::Unreadable,
                }
            },
        };
        self.advance(event)
    }
}

/// A request is ordered only together with a wait, before it, of the
/// interval then in force, which is no shorter than the one in force
/// before the event; the wait is counted, and it is ordered only while the
/// device code has time left.
pub proof fn exchange_follows_a_full_wait(m: PollerModel, event: EventModel)
    ensures
        step(m, event).1 matches ActionModel::WaitThenExchange { seconds } ==> {
            &&& seconds == step(m, event).0.interval
            &&& seconds >= m.interval
            &&& step(m, event).0.elapsed == m.elapsed + seconds
            &&& step(m, event).0.phase == PollPhase::Polling
            &&& m.elapsed < m.expires_in
        },
{
}

/// A pending reply never ends a run that has time left: the poller stays
/// polling and orders the next round with the interval unchanged.
pub proof fn pending_keeps_polling(m: PollerModel)
    requires
        m.phase == PollPhase::Polling,
        m.elapsed < m.expires_in,
    ensures
        step(m, EventModel::Outcome(OutcomeModel::Pending)).0.phase == PollPhase::Polling,
        step(m, EventModel::Outcome(OutcomeModel::Pending)).0.interval == m.interval,
        step(m, EventModel::Outcome(OutcomeModel::Pending)).1 == (ActionModel::WaitThenExchange {
            seconds: m.interval,
        }),
{
}

/// A run ends only for one of four reasons, each with its cause: a grant,
/// with the token of the reply; a denial, with the reason of the reply;
/// expiry, said by the server or found by the poller when the waiting has
/// reached the lifetime; or too many unreadable replies in a row.
pub proof fn finish_has_a_cause(m: PollerModel, event: EventModel)
    ensures
        step(m, event).1 matches ActionModel::Finish(result) ==> !is_terminal(m.phase) && (
        match result {
            Ok(token) => {
                &&& event == EventModel::Outcome(OutcomeModel::Granted { access_token: token })
                &&& step(m, event).0.phase == PollPhase::Granted
            },
            Err(ErrorModel::Denied(reason)) => {
                &&& event == EventModel::Outcome(OutcomeModel::Denied { reason })
                &&& step(m, event).0.phase == PollPhase::Denied
            },
            Err(ErrorModel::Expired) => {
                &&& step(m, event).0.phase == PollPhase::Expired
                &&& (event == EventModel::Outcome(OutcomeModel::Expired) || m.elapsed
                    >= m.expires_in)
            },
            Err(ErrorModel::Unreliable) => {
                &&& step(m, event).0.phase == PollPhase::Failed
                &&& event == EventModel::Unreadable
                &&& m.unreadable >= MAX_UNREADABLE_REPLIES
            },
        }),
        is_terminal(step(m, event).0.phase) && !is_terminal(m.phase) ==> step(m, event).1 is Finish,
{
}

/// Once the waiting has reached the lifetime of the device code, no further
/// wait or request is ordered: an event that would have led to another
/// round ends the run as expired.
pub proof fn expired_code_is_not_polled(m: PollerModel, event: EventModel)
    requires
        m.elapsed >= m.expires_in,
    ensures
        !(step(m, event).1 is WaitThenExchange),
        step(m, event).0.elapsed == m.elapsed,
        leads_to_next_round(m, event) ==> {
            &&& step(m, event).0.phase == PollPhase::Expired
            &&& step(m, event).1 == ActionModel::Finish(Err(ErrorModel::Expired))
        },
{
}

/// Whether `event` asks for another round: the start of an idle run, or,
/// in a polling run, a pending or slow-down reply or an unreadable one
/// that is still put up with.
pub open spec fn leads_to_next_round(m: PollerModel, event: EventModel) -> bool {
    match (m.phase, event) {
        (PollPhase::Idle, EventModel::Begin) => true,
        (PollPhase::Polling, EventModel::Outcome(OutcomeModel::Pending)) => true,
        (PollPhase::Polling, EventModel::Outcome(OutcomeModel::SlowDown { .. })) => true,
        (PollPhase::Polling, EventModel::Unreadable) => m.unreadable < MAX_UNREADABLE_REPLIES,
        _ => false,
    }
}

/// Whatever happens, the waiting ordered in a run stays under the lifetime
/// of the device code plus one interval.
pub proof fn waiting_is_bounded(m: PollerModel, events: Seq<EventModel>)
    requires
        within_lifetime(m),
    ensures
        within_lifetime(run(m, events)),
    decreases events.len(),
{
    if events.len() > 0 {
        waiting_is_bounded(m, events.drop_last());
    }
}

/// A slow-down reply sets the interval to the larger of the one in force
/// and the one asked for, and the next wait is of that length.
pub proof fn slow_down_raises_interval(m: PollerModel, new_interval: u32)
    requires
        m.phase == PollPhase::Polling,
    ensures
        step(m, EventModel::Outcome(OutcomeModel::SlowDown { new_interval })).0.interval == raised(
            m.interval,
            new_interval,
        ),
        raised(m.interval, new_interval) >= m.interval,
        raised(m.interval, new_interval) >= new_interval,
        step(m, EventModel::Outcome(OutcomeModel::SlowDown { new_interval })).1
            matches ActionModel::WaitThenExchange { seconds } ==> seconds == raised(
            m.interval,
            new_interval,
        ),
{
}

/// Over a whole run the interval never shrinks, so every wait ordered
/// after any sequence of events is at least as long as the first interval;
/// the device code, the client and the lifetime stay what they were.
pub proof fn interval_never_shrinks(m: PollerModel, events: Seq<EventModel>, next: EventModel)
    ensures
        run(m, events).interval >= m.interval,
        run(m, events).expires_in == m.expires_in,
        run(m, events).device_code == m.device_code,
        run(m, events).client_id == m.client_id,
        step(run(m, events), next).1 matches ActionModel::WaitThenExchange { seconds } ==> seconds
            >= run(m, events).interval,
    decreases events.len(),
{
    if events.len() > 0 {
        interval_never_shrinks(m, events.drop_last(), events.last());
    }
}

/// A finished run stays finished: no event changes it, and none makes it
/// order another request, so the device code is not used again.
pub proof fn finished_run_stays_finished(m: PollerModel, events: Seq<EventModel>, next: EventModel)
    requires
        is_terminal(m.phase),
    ensures
        run(m, events) == m,
        step(m, next) == (m, ActionModel::Nothing),
    decreases events.len(),
{
    if events.len() > 0 {
        finished_run_stays_finished(m, events.drop_last(), events.last());
    }
}

/// A `slow_down` reply, decoded with the interval in force, lengthens the
/// interval by the fixed step, up to the largest `u32`.
pub proof fn slow_down_reply_lengthens_interval(m: PollerModel, description: Option<Seq<char>>)
    requires
        m.phase == PollPhase::Polling,
    ensures
        outcome_of(None, Some("slow_down"@), description, m.interval) == Some(
            OutcomeModel::SlowDown { new_interval: slowed(m.interval) },
        ),
        step(
            m,
            EventModel::Outcome(OutcomeModel::SlowDown { new_interval: slowed(m.interval) }),
        ).0.interval == slowed(m.interval),
        slowed(m.interval) >= m.interval,
{
    reveal_strlit("slow_down");
    reveal_strlit("authorization_pending");
    assert("slow_down"@.len() != "authorization_pending"@.len());
}

/// Every request of a run is paid for with a wait of at least the first
/// interval: the waiting ordered over a run is no less than the number of
/// requests times that interval.
pub proof fn each_request_costs_an_interval(m: PollerModel, events: Seq<EventModel>)
    ensures
        run(m, events).elapsed >= m.elapsed + requests(m, events) * m.interval,
    decreases events.len(),
{
    if events.len() > 0 {
        let earlier = events.drop_last();
        let before = run(m, earlier);
        each_request_costs_an_interval(m, earlier);
        interval_never_shrinks(m, earlier, events.last());
        exchange_follows_a_full_wait(before, events.last());
        let n = requests(m, earlier);
        let gap = m.interval as int;
        assert((n + 1) * gap == n * gap + gap) by (nonlinear_arith);
        if step(before, events.last()).1 is WaitThenExchange {
            assert(requests(m, events) * m.interval == n * gap + gap);
        } else {
            assert(requests(m, events) * m.interval == n * gap);
        }
    } else {
        assert(requests(m, events) == 0);
    }
}

/// A run cannot go on for ever: with an interval of at least one second,
/// the number of requests times the first interval stays under the
/// lifetime of the device code plus the interval in force at the end.
pub proof fn requests_are_bounded(m: PollerModel, events: Seq<EventModel>)
    requires
        m.phase == PollPhase::Idle,
        m.elapsed == 0,
        m.interval >= 1,
    ensures
        requests(m, events) == 0 || requests(m, events) * m.interval < m.expires_in + run(
            m,
            events,
        ).interval,
{
    each_request_costs_an_interval(m, events);
    waiting_is_bounded(m, events);
    interval_never_shrinks(m, events, EventModel::Begin);
    let n = requests(m, events);
    let gap = m.interval as int;
    if n > 0 {
        assert(n * gap >= 1) by (nonlinear_arith)
            requires
                n >= 1,
                gap >= 1,
        ;
    }
}

} // verus!
