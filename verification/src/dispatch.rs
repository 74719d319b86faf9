//! The decisions around the call: what to do first, and what to do with each
//! thing that comes back.
//!
//! The caller owns the network. It performs the [`Action`] it is given and
//! reports the result as an [`Event`]; [`begin`] and [`advance`] decide the
//! rest. One call is made against the primary endpoint. A 404 from it, and
//! nothing else, leads to one more call against the alternate endpoint.

use vstd::prelude::*;
use crate::endpoint::build_alternate_endpoint;
use crate::error::{ChatError, ErrorModel};
use crate::outbound::{alternate_of, prepare, primary_of, rejection_of, Outbound, OutboundModel};
use crate::request::{ChatRequest, RequestModel};
use crate::response::{
    normalize,
    normalized,
    AiResponse,
    AnswerModel,
    OpenAiResponse,
    ParsedModel,
};

verus! {

/// The status with which a server says that it has nothing at the address.
pub const NOT_FOUND: u16 = 404;

/// Whether `status` reports success: the range from 200 to 299.
pub open spec fn is_success_status(status: u16) -> bool {
    200 <= status <= 299
}

/// Whether `status` reports success.
pub fn is_success(status: u16) -> (success: bool)
    ensures
        success == is_success_status(status),
{
    200 <= status && status <= 299
}

/// What the caller is to do next.
#[derive(Clone, Debug, PartialEq, Eq)]
pub enum Action {
    /// Send this call with the request's JSON body; report `Status` or
    /// `TransportFailed`.
    Send(Outbound),
    /// Read the body of the answer just received and parse it; report
    /// `Answer` or `Unparsable`.
    ReadAnswer,
    /// Read the body of the answer just received as text; report
    /// `FailureBody`.
    ReadFailure,
    /// Hand this answer to whoever asked. Nothing follows.
    Deliver(AiResponse),
    /// Hand this error to whoever asked. Nothing follows.
    Fail(ChatError),
}

/// What an [`Action`] holds.
pub ghost enum ActionModel {
    Send(OutboundModel),
    ReadAnswer,
    ReadFailure,
    Deliver(AnswerModel),
    Fail(ErrorModel),
}

impl View for Action {
    type V = ActionModel;

    open spec fn view(&self) -> ActionModel {
        match self {
            Action::Send(outbound) => ActionModel::Send(outbound@),
            Action::ReadAnswer => ActionModel::ReadAnswer,
            Action::ReadFailure => ActionModel::ReadFailure,
            Action::Deliver(answer) => ActionModel::Deliver(answer@),
            Action::Fail(error) => ActionModel::Fail(error@),
        }
    }
}

impl DeepView for Action {
    type V = ActionModel;

    open spec fn deep_view(&self) -> ActionModel {
        self@
    }
}

/// What came back from the action last asked for.
#[derive(Clone, Debug, PartialEq, Eq)]
pub enum Event {
    /// The call was answered with this status.
    Status(u16),
    /// The call did not get through; the text says why.
    TransportFailed(String),
    /// The body was read and parsed.
    Answer(OpenAiResponse),
    /// The body could not be read or parsed; the text says why.
    Unparsable(String),
    /// The body as text, or `None` where it could not be read.
    FailureBody(Option<String>),
}

/// What an [`Event`] holds.
pub ghost enum EventModel {
    Status(u16),
    TransportFailed(Seq<char>),
    Answer(ParsedModel),
    Unparsable(Seq<char>),
    FailureBody(Option<Seq<char>>),
}

impl View for Event {
    type V = EventModel;

    open spec fn view(&self) -> EventModel {
        match self {
            Event::Status(status) => EventModel::Status(*status),
            Event::TransportFailed(detail) => EventModel::TransportFailed(detail@),
            Event::Answer(parsed) => EventModel::Answer(parsed@),
            Event::Unparsable(detail) => EventModel::Unparsable(detail@),
            Event::FailureBody(body) => EventModel::FailureBody(body.deep_view()),
        }
    }
}

/// How far one chat call has come.
#[derive(Clone, Debug, PartialEq, Eq)]
pub enum State {
    /// The call against the primary endpoint is under way; `alternate` is
    /// the call to make should it come back with 404.
    AwaitingPrimary { alternate: Outbound },
    /// The call against the alternate endpoint is under way.
    AwaitingAlternate,
    /// A successful answer is being read.
    ReadingAnswer,
    /// The body of a failed answer is being read.
    ReadingFailure,
    /// The outcome has been handed over.
    Finished,
}

/// What a [`State`] holds.
pub ghost enum StateModel {
    AwaitingPrimary { alternate: OutboundModel },
    AwaitingAlternate,
    ReadingAnswer,
    ReadingFailure,
    Finished,
}

impl View for State {
    type V = StateModel;

    open spec fn view(&self) -> StateModel {
        match self {
            State::AwaitingPrimary { alternate } => StateModel::AwaitingPrimary {
                alternate: alternate@,
            },
            State::AwaitingAlternate => StateModel::AwaitingAlternate,
            State::ReadingAnswer => StateModel::ReadingAnswer,
            State::ReadingFailure => StateModel::ReadingFailure,
            State::Finished => StateModel::Finished,
        }
    }
}

/// The action that ends a call with `outcome`.
pub open spec fn conclusion(outcome: Result<AnswerModel, ErrorModel>) -> ActionModel {
    match outcome {
        Ok(answer) => ActionModel::Deliver(answer),
        Err(error) => ActionModel::Fail(error),
    }
}

/// The text of a failed answer: its body, or nothing where the body could not
/// be read.
pub open spec fn failure_text(body: Option<Seq<char>>) -> Seq<char> {
    match body {
        Some(text) => text,
        None => Seq::empty(),
    }
}

/// How a call starts: a request that is turned down ends at once with its
/// error; any other is sent to the primary endpoint.
pub open spec fn first_step(request: RequestModel) -> (StateModel, ActionModel) {
    match rejection_of(request) {
        Some(error) => (StateModel::Finished, ActionModel::Fail(error)),
        None => (
            StateModel::AwaitingPrimary { alternate: alternate_of(request) },
            ActionModel::Send(primary_of(request)),
        ),
    }
}

/// What a status leads to while the primary call is under way.
pub open spec fn after_primary_status(alternate: OutboundModel, status: u16) -> (
    StateModel,
    Option<ActionModel>,
) {
    if is_success_status(status) {
        (StateModel::ReadingAnswer, Some(ActionModel::ReadAnswer))
    } else if status == NOT_FOUND {
        (StateModel::AwaitingAlternate, Some(ActionModel::Send(alternate)))
    } else {
        (StateModel::ReadingFailure, Some(ActionModel::ReadFailure))
    }
}

/// What a status leads to while the alternate call is under way.
pub open spec fn after_alternate_status(status: u16) -> (StateModel, Option<ActionModel>) {
    if is_success_status(status) {
        (StateModel::ReadingAnswer, Some(ActionModel::ReadAnswer))
    } else {
        (StateModel::ReadingFailure, Some(ActionModel::ReadFailure))
    }
}

/// The end of a call with `action`.
pub open spec fn finish(action: ActionModel) -> (StateModel, Option<ActionModel>) {
    (StateModel::Finished, Some(action))
}

/// The next state and the action to take when `event` arrives in `state`.
/// An event that does not answer the action last asked for changes nothing
/// and asks for nothing.
pub open spec fn step(state: StateModel, event: EventModel) -> (StateModel, Option<ActionModel>) {
    match (state, event) {
        (StateModel::AwaitingPrimary { alternate }, EventModel::Status(status)) => {
            after_primary_status(alternate, status)
        },
        (StateModel::AwaitingAlternate, EventModel::Status(status)) => after_alternate_status(
            status,
        ),
        (StateModel::AwaitingPrimary { .. }, EventModel::TransportFailed(detail)) => finish(
            ActionModel::Fail(ErrorModel::Network(detail)),
        ),
        (StateModel::AwaitingAlternate, EventModel::TransportFailed(detail)) => finish(
            ActionModel::Fail(ErrorModel::Network(detail)),
        ),
        (StateModel::ReadingAnswer, EventModel::Answer(parsed)) => finish(
            conclusion(normalized(parsed)),
        ),
        (StateModel::ReadingAnswer, EventModel::Unparsable(detail)) => finish(
            ActionModel::Fail(ErrorModel::Parse(detail)),
        ),
        (StateModel::ReadingFailure, EventModel::FailureBody(body)) => finish(
            ActionModel::Fail(ErrorModel::Server(failure_text(body))),
        ),
        _ => (state, None),
    }
}

/// The actions asked for, in order, while `events` arrive one by one from
/// `state` on.
pub open spec fn actions_from(state: StateModel, events: Seq<EventModel>) -> Seq<ActionModel>
    decreases events.len(),
{
    if events.len() == 0 {
        Seq::empty()
    } else {
        let stepped = step(state, events.first());
        let later = actions_from(stepped.0, events.drop_first());
        match stepped.1 {
            Some(action) => seq![action] + later,
            None => later,
        }
    }
}

/// Every action of the call for `request` during which `events` arrive.
pub open spec fn actions_of(request: RequestModel, events: Seq<EventModel>) -> Seq<ActionModel> {
    seq![first_step(request).1] + actions_from(first_step(request).0, events)
}

/// The calls among `actions`, in order.
pub open spec fn calls_in(actions: Seq<ActionModel>) -> Seq<OutboundModel>
    decreases actions.len(),
{
    if actions.len() == 0 {
        Seq::empty()
    } else {
        match actions.first() {
            ActionModel::Send(outbound) => seq![outbound] + calls_in(actions.drop_first()),
            _ => calls_in(actions.drop_first()),
        }
    }
}

/// Whether `event` reports how a call went.
pub open spec fn is_reply(event: EventModel) -> bool {
    event is Status || event is TransportFailed
}

/// The first of `events` that reports how a call went.
pub open spec fn first_reply(events: Seq<EventModel>) -> Option<EventModel>
    decreases events.len(),
{
    if events.len() == 0 {
        None
    } else if is_reply(events.first()) {
        Some(events.first())
    } else {
        first_reply(events.drop_first())
    }
}

/// The calls asked for while `events` arrive from the moment on at which the
/// primary call is under way and `alternate` is held ready.
pub open spec fn calls_from_primary(alternate: OutboundModel, events: Seq<EventModel>) -> Seq<
    OutboundModel,
> {
    calls_in(actions_from(StateModel::AwaitingPrimary { alternate }, events))
}

/// Whether `action` ends a call.
pub open spec fn is_outcome(action: ActionModel) -> bool {
    action is Deliver || action is Fail
}

/// A call is asked for in one situation only: a 404 arrives while the primary
/// call is under way. The call is then the alternate one, and the alternate
/// call is under way from then on.
pub proof fn lemma_send_only_after_primary_not_found(state: StateModel, event: EventModel)
    ensures
        step(state, event).1 matches Some(ActionModel::Send(outbound)) ==> state is AwaitingPrimary
            && state->alternate == outbound && event == EventModel::Status(NOT_FOUND) && step(
            state,
            event,
        ).0 == StateModel::AwaitingAlternate,
        state is AwaitingPrimary && event == EventModel::Status(NOT_FOUND) ==> step(
            state,
            event,
        ).1 == Some(ActionModel::Send(state->alternate)),
{
}

/// Once the primary call is over, no events whatever lead to another call.
pub proof fn lemma_no_call_after_primary(state: StateModel, events: Seq<EventModel>)
    requires
        !(state is AwaitingPrimary),
    ensures
        calls_in(actions_from(state, events)) == Seq::<OutboundModel>::empty(),
    decreases events.len(),
{
    if events.len() > 0 {
        let stepped = step(state, events.first());
        let later = actions_from(stepped.0, events.drop_first());
        lemma_no_call_after_primary(stepped.0, events.drop_first());
        match stepped.1 {
            Some(action) => {
                assert((seq![action] + later).drop_first() =~= later);
            },
            None => {},
        }
    }
}

/// While the primary call is under way, the alternate call is made exactly
/// when the first report on the primary call is the status 404, and then
/// once. Any other status, and a failure of the transport, lead to no call.
pub proof fn lemma_retry_exactly_on_not_found(alternate: OutboundModel, events: Seq<EventModel>)
    ensures
        first_reply(events) == Some(EventModel::Status(NOT_FOUND)) ==> calls_from_primary(
            alternate,
            events,
        ) == seq![alternate],
        first_reply(events) != Some(EventModel::Status(NOT_FOUND)) ==> calls_from_primary(
            alternate,
            events,
        ) == Seq::<OutboundModel>::empty(),
    decreases events.len(),
{
    let state = StateModel::AwaitingPrimary { alternate };
    if events.len() > 0 {
        let stepped = step(state, events.first());
        let later = actions_from(stepped.0, events.drop_first());
        if is_reply(events.first()) {
            lemma_no_call_after_primary(stepped.0, events.drop_first());
            let action = stepped.1->0;
            assert((seq![action] + later).drop_first() =~= later);
            assert(seq![alternate] + Seq::<OutboundModel>::empty() =~= seq![alternate]);
        } else {
            lemma_retry_exactly_on_not_found(alternate, events.drop_first());
        }
    }
}

/// The calls of a whole run. A request that is turned down leads to no call,
/// whatever arrives. Any other leads to the primary call, followed by the
/// alternate call exactly when the first report is the status 404.
pub proof fn lemma_calls_of_a_run(request: RequestModel, events: Seq<EventModel>)
    ensures
        rejection_of(request) is Some ==> calls_in(actions_of(request, events)) == Seq::<
            OutboundModel,
        >::empty(),
        rejection_of(request) is None && first_reply(events) == Some(
            EventModel::Status(NOT_FOUND),
        ) ==> calls_in(actions_of(request, events)) == seq![
            primary_of(request),
            alternate_of(request),
        ],
        rejection_of(request) is None && first_reply(events) != Some(
            EventModel::Status(NOT_FOUND),
        ) ==> calls_in(actions_of(request, events)) == seq![primary_of(request)],
{
    let first = first_step(request);
    let later = actions_from(first.0, events);
    assert((seq![first.1] + later).drop_first() =~= later);
    if rejection_of(request) is Some {
        lemma_no_call_after_primary(first.0, events);
    } else {
        lemma_retry_exactly_on_not_found(alternate_of(request), events);
        assert(seq![primary_of(request)] + seq![alternate_of(request)] =~= seq![
            primary_of(request),
            alternate_of(request),
        ]);
        assert(seq![primary_of(request)] + Seq::<OutboundModel>::empty() =~= seq![
            primary_of(request),
        ]);
    }
}

/// Nothing is asked for once the outcome has been handed over.
pub proof fn lemma_finished_is_silent(events: Seq<EventModel>)
    ensures
        actions_from(StateModel::Finished, events) == Seq::<ActionModel>::empty(),
    decreases events.len(),
{
    if events.len() > 0 {
        lemma_finished_is_silent(events.drop_first());
    }
}

/// An outcome is the last thing asked for: from any state, an action that
/// ends the call has no action behind it.
pub proof fn lemma_outcome_is_last(state: StateModel, events: Seq<EventModel>, i: int)
    requires
        0 <= i < actions_from(state, events).len(),
        is_outcome(actions_from(state, events)[i]),
    ensures
        i == actions_from(state, events).len() - 1,
    decreases events.len(),
{
    let stepped = step(state, events.first());
    let later = actions_from(stepped.0, events.drop_first());
    match stepped.1 {
        Some(action) => {
            if is_outcome(action) {
                lemma_finished_is_silent(events.drop_first());
            } else {
                assert(i > 0);
                assert((seq![action] + later)[i] == later[i - 1]);
                lemma_outcome_is_last(stepped.0, events.drop_first(), i - 1);
            }
        },
        None => {
            lemma_outcome_is_last(stepped.0, events.drop_first(), i);
        },
    }
}

/// A whole run hands over at most one outcome, as its last action.
pub proof fn lemma_one_outcome(request: RequestModel, events: Seq<EventModel>, i: int)
    requires
        0 <= i < actions_of(request, events).len(),
        is_outcome(actions_of(request, events)[i]),
    ensures
        i == actions_of(request, events).len() - 1,
{
    let first = first_step(request);
    if i == 0 {
        lemma_finished_is_silent(events);
    } else {
        let later = actions_from(first.0, events);
        assert((seq![first.1] + later)[i] == later[i - 1]);
        lemma_outcome_is_last(first.0, events, i - 1);
    }
}

/// Starts a call: checks `request` and says what to do first. A request
/// that is turned down ends here with its error, and no call is ever asked
/// for; any other is sent to the primary endpoint.
pub fn begin(request: &ChatRequest) -> (started: (State, Action))
    ensures
        (started.0@, started.1@) == first_step(request@),
        rejection_of(request@) matches Some(error) ==> started.0@ == StateModel::Finished
            && started.1@ == ActionModel::Fail(error),
        rejection_of(request@) is None ==> started.0@ == (StateModel::AwaitingPrimary {
            alternate: alternate_of(request@),
        }) && started.1@ == ActionModel::Send(primary_of(request@)),
{
    match prepare(request) {
        Err(error) => (State::Finished, Action::Fail(error)),
        Ok(primary) => {
            let alternate = primary.redirected(build_alternate_endpoint(request));
            (State::AwaitingPrimary { alternate }, Action::Send(primary))
        },
    }
}

/// Takes `event` in `state` and says where the call stands now and what to
/// do next, if anything.
pub fn advance(state: State, event: Event) -> (stepped: (State, Option<Action>))
    ensures
        (stepped.0@, stepped.1.deep_view()) == step(state@, event@),
{
    match state {
        State::AwaitingPrimary { alternate } => match event {
            Event::Status(status) => {
                if is_success(status) {
                    (State::ReadingAnswer, Some(Action::ReadAnswer))
                } else if status == NOT_FOUND {
                    (State::AwaitingAlternate, Some(Action::Send(alternate)))
                } else {
                    (State::ReadingFailure, Some(Action::ReadFailure))
                }
            },
            Event::TransportFailed(detail) => (
                State::Finished,
                Some(Action::Fail(ChatError::Network(detail))),
            ),
            _ => (State::AwaitingPrimary { alternate }, None),
        },
        State::AwaitingAlternate => match event {
            Event::Status(status) => {
                if is_success(status) {
                    (State::ReadingAnswer, Some(Action::ReadAnswer))
                } else {
                    (State::ReadingFailure, Some(Action::ReadFailure))
                }
            },
            Event::TransportFailed(detail) => (
                State::Finished,
                Some(Action::Fail(ChatError::Network(detail))),
            ),
            _ => (State::AwaitingAlternate, None),
        },
        State::ReadingAnswer => match event {
            Event::Answer(parsed) => match normalize(parsed) {
                Ok(answer) => (State::Finished, Some(Action::Deliver(answer))),
                Err(error) => (State::Finished, Some(Action::Fail(error))),
            },
            Event::Unparsable(detail) => (
                State::Finished,
                Some(Action::Fail(ChatError::Parse(detail))),
            ),
            _ => (State::ReadingAnswer, None),
        },
        State::ReadingFailure => match event {
            Event::FailureBody(body) => {
                let text = match body {
                    Some(text) => text,
                    None => String::new(),
                };
                (State::Finished, Some(Action::Fail(ChatError::Server(text))))
            },
            _ => (State::ReadingFailure, None),
        },
        State::Finished => (State::Finished, None),
    }
}

} // verus!
