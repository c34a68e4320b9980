//! API calls: the errors they end in, and the steps by which an endpoint serves one.

use crate::module::ModuleInstanceId;
use vstd::prelude::*;

verus! {

/// The error that an API call ends in.
#[derive(Debug)]
pub struct ApiError {
    pub code: i32,
    pub message: String,
}

impl ApiError {
    /// The error has this code and this message.
    pub open spec fn says(self, code: i32, message: Seq<char>) -> bool {
        self.code == code && self.message@ == message
    }

    pub fn new(code: i32, message: String) -> (error: Self)
        ensures
            error == (ApiError { code, message }),
    {
        Self { code, message }
    }

    pub fn not_found(message: String) -> (error: Self)
        ensures
            error == (ApiError { code: 404, message }),
    {
        Self::new(404, message)
    }

    pub fn bad_request(message: String) -> (error: Self)
        ensures
            error == (ApiError { code: 400, message }),
    {
        Self::new(400, message)
    }
}

/// The part of the database that a handler gets to see.
#[derive(Debug, Clone, Copy, PartialEq, Eq, Structural, Hash)]
pub enum DbScope {
    /// What belongs to this instance of a module.
    Module(ModuleInstanceId),
    /// The whole database, for an endpoint that belongs to no module.
    Isolated,
}

/// The scope for a call that is addressed to `instance`.
pub open spec fn scope_of(instance: Option<ModuleInstanceId>) -> DbScope {
    match instance {
        Some(id) => DbScope::Module(id),
        None => DbScope::Isolated,
    }
}

/// How far an endpoint has got with a call. `R` is what its handler returns.
#[derive(Debug)]
pub enum CallState<R> {
    /// The parameters are being parsed.
    Parsing,
    /// The handler is running.
    Handling,
    /// The handler has returned this, and what it wrote is being committed.
    Committing(R),
    /// The caller has its answer.
    Answered,
}

/// What an endpoint hears of the work that it asked for. `P` is the type of the handler's
/// parameters.
#[derive(Debug)]
pub enum CallEvent<P, R> {
    /// The parameters were parsed, or could not be, with what the parser said.
    Parsed(Result<P, String>),
    /// The handler has ended.
    Handled(Result<R, ApiError>),
    /// The database transaction was committed, or was not.
    Committed(bool),
}

/// The work that an endpoint asks for next.
#[derive(Debug)]
pub enum CallAction<P, R> {
    /// Run the handler with these parameters, on this part of the database.
    Handle { scope: DbScope, params: P },
    /// Commit the database transaction.
    Commit,
    /// Answer the caller. A transaction that was not committed is dropped.
    Answer(Result<R, ApiError>),
}

impl<R> CallState<R> {
    /// The event is one that this state waits for.
    pub open spec fn expects<P>(self, event: CallEvent<P, R>) -> bool {
        match event {
            CallEvent::Parsed(_) => self is Parsing,
            CallEvent::Handled(_) => self is Handling,
            CallEvent::Committed(_) => self is Committing,
        }
    }
}

/// One step of a call: in `before`, on `event`, the endpoint asks for `action` and is then
/// in `after`.
pub open spec fn call_step<P, R>(
    scope: DbScope,
    before: CallState<R>,
    event: CallEvent<P, R>,
    after: CallState<R>,
    action: CallAction<P, R>,
) -> bool {
    match event {
        CallEvent::Parsed(Ok(params)) => {
            &&& after is Handling
            &&& action == CallAction::<P, R>::Handle { scope, params }
        },
        CallEvent::Parsed(Err(message)) => {
            &&& after is Answered
            &&& action == CallAction::<P, R>::Answer(Err(ApiError { code: 400, message }))
        },
        CallEvent::Handled(Ok(ret)) => {
            &&& after == CallState::Committing(ret)
            &&& action == CallAction::<P, R>::Commit
        },
        CallEvent::Handled(Err(error)) => {
            &&& after is Answered
            &&& action == CallAction::<P, R>::Answer(Err(error))
        },
        CallEvent::Committed(true) => {
            &&& after is Answered
            &&& before matches CallState::Committing(ret)
            &&& action == CallAction::<P, R>::Answer(Ok(ret))
        },
        CallEvent::Committed(false) => {
            &&& after is Answered
            &&& action matches CallAction::Answer(Err(error))
            &&& error.says(500, "Internal Server Error"@)
        },
    }
}

/// Definition of an API endpoint.
#[derive(Debug, Clone, Copy)]
pub struct ApiEndpoint {
    /// Path under which the API endpoint can be reached.
    pub path: &'static str,
}

/// The scope for a call that is addressed to `instance`.
fn scope_for(instance: Option<ModuleInstanceId>) -> (scope: DbScope)
    ensures
        scope == scope_of(instance),
{
    match instance {
        Some(id) => DbScope::Module(id),
        None => DbScope::Isolated,
    }
}

impl ApiEndpoint {
    /// The endpoint that is reached under `path`.
    pub fn from_typed(path: &'static str) -> (endpoint: Self)
        ensures
            endpoint.path == path,
    {
        ApiEndpoint { path }
    }

    /// Takes a call one step further. It is addressed to an instance of a module, or to
    /// none. A call starts in `CallState::Parsing`, with the parameters handed to the
    /// parser.
    pub fn next<P, R>(
        &self,
        module_instance_id: Option<ModuleInstanceId>,
        state: CallState<R>,
        event: CallEvent<P, R>,
    ) -> (next: (CallState<R>, CallAction<P, R>))
        requires
            state.expects(event),
        ensures
            call_step(scope_of(module_instance_id), state, event, next.0, next.1),
    {
        match event {
            CallEvent::Parsed(Ok(params)) => (
                CallState::Handling,
                CallAction::Handle { scope: scope_for(module_instance_id), params },
            ),
            CallEvent::Parsed(Err(message)) => (
                CallState::Answered,
                CallAction::Answer(Err(ApiError::bad_request(message))),
            ),
            CallEvent::Handled(Ok(ret)) => (CallState::Committing(ret), CallAction::Commit),
            CallEvent::Handled(Err(error)) => (
                CallState::Answered,
                CallAction::Answer(Err(error)),
            ),
            CallEvent::Committed(committed) => match state {
                CallState::Committing(ret) if committed => (
                    CallState::Answered,
                    CallAction::Answer(Ok(ret)),
                ),
                _ => (
                    CallState::Answered,
                    CallAction::Answer(
                        Err(ApiError::new(500, "Internal Server Error".to_string())),
                    ),
                ),
            },
        }
    }
}

/// `events` and `actions` are those of a call from its start, and `states` are those that
/// it went through: `states[i]` before `events[i]`, and `states[i + 1]` after it.
pub open spec fn is_call<P, R>(
    scope: DbScope,
    events: Seq<CallEvent<P, R>>,
    states: Seq<CallState<R>>,
    actions: Seq<CallAction<P, R>>,
) -> bool {
    &&& states.len() == events.len() + 1
    &&& actions.len() == events.len()
    &&& states[0] is Parsing
    &&& forall|i: int|
        0 <= i < events.len() ==> {
            &&& states[i].expects(#[trigger] events[i])
            &&& call_step(scope, states[i], events[i], states[i + 1], actions[i])
        }
}

/// A call goes through parsing, handling and committing in this order and ends there, if
/// not before.
pub proof fn law_calls_end<P, R>(
    scope: DbScope,
    events: Seq<CallEvent<P, R>>,
    states: Seq<CallState<R>>,
    actions: Seq<CallAction<P, R>>,
)
    requires
        is_call(scope, events, states, actions),
    ensures
        events.len() <= 3,
        events.len() > 0 ==> events[0] is Parsed,
        events.len() > 1 ==> events[1] is Handled,
        events.len() > 2 ==> events[2] is Committed,
        events.len() == 3 ==> states[3] is Answered,
{
    if events.len() > 0 {
        assert(states[0].expects(events[0]));
    }
    if events.len() > 1 {
        assert(states[1].expects(events[1]));
    }
    if events.len() > 2 {
        assert(states[2].expects(events[2]));
    }
    if events.len() > 3 {
        assert(states[3].expects(events[3]));
    }
}

/// The handler runs at most once, with the parameters that were parsed, on the part of the
/// database that belongs to the endpoint's module.
pub proof fn law_handler_gets_parsed_params<P, R>(
    scope: DbScope,
    events: Seq<CallEvent<P, R>>,
    states: Seq<CallState<R>>,
    actions: Seq<CallAction<P, R>>,
    i: int,
)
    requires
        is_call(scope, events, states, actions),
        0 <= i < actions.len(),
        actions[i] is Handle,
    ensures
        i == 0,
        events[0] matches CallEvent::Parsed(Ok(params)) && actions[0] == (CallAction::<
            P,
            R,
        >::Handle { scope, params }),
{
    law_calls_end(scope, events, states, actions);
    assert(states[i].expects(events[i]));
}

/// What a handler wrote is committed only if the handler ended well.
pub proof fn law_commit_only_after_success<P, R>(
    scope: DbScope,
    events: Seq<CallEvent<P, R>>,
    states: Seq<CallState<R>>,
    actions: Seq<CallAction<P, R>>,
    i: int,
)
    requires
        is_call(scope, events, states, actions),
        0 <= i < actions.len(),
        actions[i] is Commit,
    ensures
        i == 1,
        events[1] matches CallEvent::Handled(Ok(_)),
{
    law_calls_end(scope, events, states, actions);
    assert(states[i].expects(events[i]));
}

/// A caller that is told of success gets what the handler returned, and what the handler
/// wrote has been committed.
pub proof fn law_success_is_committed<P, R>(
    scope: DbScope,
    events: Seq<CallEvent<P, R>>,
    states: Seq<CallState<R>>,
    actions: Seq<CallAction<P, R>>,
    i: int,
    ret: R,
)
    requires
        is_call(scope, events, states, actions),
        0 <= i < actions.len(),
        actions[i] == CallAction::<P, R>::Answer(Ok(ret)),
    ensures
        i == 2,
        events[1] == CallEvent::<P, R>::Handled(Ok(ret)),
        events[2] == CallEvent::<P, R>::Committed(true),
{
    law_calls_end(scope, events, states, actions);
    assert(states[i].expects(events[i]));
    assert(states[1].expects(events[1]));
}

/// A caller that is told of an error can rely on it that nothing was committed. The error
/// is 400 with the parser's words for parameters that cannot be parsed, the handler's own
/// error where the handler fails, and 500 where the commit fails.
pub proof fn law_failure_commits_nothing<P, R>(
    scope: DbScope,
    events: Seq<CallEvent<P, R>>,
    states: Seq<CallState<R>>,
    actions: Seq<CallAction<P, R>>,
    i: int,
    error: ApiError,
)
    requires
        is_call(scope, events, states, actions),
        0 <= i < actions.len(),
        actions[i] == CallAction::<P, R>::Answer(Err(error)),
    ensures
        !events.contains(CallEvent::<P, R>::Committed(true)),
        match events[i] {
            CallEvent::Parsed(parsed) => parsed matches Err(message) && error.says(400, message@),
            CallEvent::Handled(handled) => handled == Err::<R, ApiError>(error),
            CallEvent::Committed(_) => error.says(500, "Internal Server Error"@),
        },
{
    law_calls_end(scope, events, states, actions);
    assert(states[i].expects(events[i]));
    if i + 1 < events.len() {
        assert(states[i + 1].expects(events[i + 1]));
    }
    assert forall|j: int| 0 <= j < events.len() implies events[j] != CallEvent::<P, R>::Committed(
        true,
    ) by {
        assert(states[j].expects(events[j]));
    }
}

/// A call that is addressed to an instance of a module sees what belongs to that instance,
/// and only a call to no module sees the whole database; two calls see the same part exactly
/// if they are addressed alike.
pub proof fn law_scope_is_the_addressed_module(
    id: ModuleInstanceId,
    one: Option<ModuleInstanceId>,
    other: Option<ModuleInstanceId>,
)
    ensures
        scope_of(Some(id)) == DbScope::Module(id),
        scope_of(None) == DbScope::Isolated,
        scope_of(one) == scope_of(other) <==> one == other,
{
}

/// What a call waits for: first that its parameters are parsed, then that the handler ends,
/// then that the transaction is committed.
pub proof fn law_events_come_in_order<P, R>(
    state: CallState<R>,
    parsed: Result<P, String>,
    handled: Result<R, ApiError>,
    committed: bool,
)
    ensures
        state.expects(CallEvent::<P, R>::Parsed(parsed)) <==> state is Parsing,
        state.expects(CallEvent::<P, R>::Handled(handled)) <==> state is Handling,
        state.expects(CallEvent::<P, R>::Committed(committed)) <==> state is Committing,
{
}

/// Parameters that were parsed always reach the handler, as they are and with the scope of the
/// call; those that were not are answered by 400 and the parser's words.
pub proof fn law_parsed_parameters_reach_the_handler<P, R>(
    scope: DbScope,
    before: CallState<R>,
    event: CallEvent<P, R>,
    after: CallState<R>,
    action: CallAction<P, R>,
)
    requires
        before is Parsing,
        before.expects(event),
        call_step(scope, before, event, after, action),
    ensures
        event is Parsed,
        event matches CallEvent::Parsed(Ok(parsed)) ==> {
            &&& after is Handling
            &&& action matches CallAction::Handle { scope: seen, params }
            &&& seen == scope
            &&& params == parsed
        },
        event matches CallEvent::Parsed(Err(words)) ==> {
            &&& after is Answered
            &&& action matches CallAction::Answer(Err(error))
            &&& error.code == 400
            &&& error.message@ == words@
        },
{
}

/// What a handler that ended well has written is always committed; the error of one that did
/// not is the answer.
pub proof fn law_success_is_followed_by_a_commit<P, R>(
    scope: DbScope,
    before: CallState<R>,
    event: CallEvent<P, R>,
    after: CallState<R>,
    action: CallAction<P, R>,
)
    requires
        before is Handling,
        before.expects(event),
        call_step(scope, before, event, after, action),
    ensures
        event is Handled,
        event matches CallEvent::Handled(Ok(ret)) ==> {
            &&& action is Commit
            &&& after matches CallState::Committing(kept)
            &&& kept == ret
        },
        event matches CallEvent::Handled(Err(error)) ==> {
            &&& after is Answered
            &&& action matches CallAction::Answer(Err(told))
            &&& told == error
        },
{
}

/// Once the commit went through, the caller always gets what the handler returned, and if it
/// did not, an error of code 500.
pub proof fn law_commit_is_followed_by_the_answer<P, R>(
    scope: DbScope,
    before: CallState<R>,
    event: CallEvent<P, R>,
    after: CallState<R>,
    action: CallAction<P, R>,
)
    requires
        before is Committing,
        before.expects(event),
        call_step(scope, before, event, after, action),
    ensures
        event is Committed,
        after is Answered,
        event == CallEvent::<P, R>::Committed(true) ==> {
            &&& action matches CallAction::Answer(Ok(ret))
            &&& before == CallState::Committing(ret)
        },
        event == CallEvent::<P, R>::Committed(false) ==> {
            &&& action matches CallAction::Answer(Err(error))
            &&& error.code == 500
            &&& error.message@ == "Internal Server Error"@
        },
{
}

} // verus!
