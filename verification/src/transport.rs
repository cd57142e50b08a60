//! The transport selector: which of the tokens that discovery reports the
//! bridge binds a ceremony to.

use crate::error::Error;
use vstd::prelude::*;

verus! {

/// What discovery reports. `T` is a token that can be negotiated with, `I`
/// the identity of a token that went away.
pub enum TokenEvent<T, I> {
    Added(T),
    Removed(I),
    EnumerationComplete,
}

/// What the selector does next.
pub enum Selection<T> {
    /// Negotiate a session with this token and end with what that gives.
    Negotiate(T),
    /// Go on with the next event.
    Continue,
    /// End without a token.
    GiveUp,
}

/// What the selector does on one report of discovery, `None` standing for the
/// end of the reports: the first token that appears is negotiated with, a
/// removal is passed over, and the end of enumeration, like the end of the
/// reports, ends the search.
pub open spec fn selection<T, I>(event: Option<TokenEvent<T, I>>) -> Selection<T> {
    match event {
        Some(TokenEvent::Added(token)) => Selection::Negotiate(token),
        Some(TokenEvent::Removed(_)) => Selection::Continue,
        Some(TokenEvent::EnumerationComplete) => Selection::GiveUp,
        None => Selection::GiveUp,
    }
}

/// The token that a run of reports leads to: the first that appears, unless
/// enumeration completes before any does.
pub open spec fn first_token<T, I>(events: Seq<TokenEvent<T, I>>) -> Option<T>
    decreases events.len(),
{
    if events.len() == 0 {
        None
    } else {
        match selection(Some(events[0])) {
            Selection::Negotiate(token) => Some(token),
            Selection::Continue => first_token(events.skip(1)),
            Selection::GiveUp => None,
        }
    }
}

/// Whether the selector gets as far as the report at `index`: all reports
/// before it are removals.
pub open spec fn reaches<T, I>(events: Seq<TokenEvent<T, I>>, index: int) -> bool {
    &&& 0 <= index < events.len()
    &&& forall|j: int| 0 <= j < index ==> (#[trigger] events[j]) is Removed
}

/// Decides on one report of discovery.
pub fn next_step<T, I>(event: Option<TokenEvent<T, I>>) -> (step: Selection<T>)
    ensures
        step == selection(event),
{
    match event {
        Some(TokenEvent::Added(token)) => Selection::Negotiate(token),
        Some(TokenEvent::Removed(_)) => Selection::Continue,
        Some(TokenEvent::EnumerationComplete) => Selection::GiveUp,
        None => Selection::GiveUp,
    }
}

/// The end of a search that negotiated with a token: the session, or the
/// failure to create one. No other token is tried.
pub fn negotiated<A>(session: Option<A>) -> (bound: Result<A, Error>)
    ensures
        match session {
            Some(a) => bound == Ok::<A, Error>(a),
            None => bound == Err::<A, Error>(Error::Authenticator),
        },
{
    match session {
        Some(a) => Ok(a),
        None => Err(Error::Authenticator),
    }
}

/// The end of a search that found no token.
pub fn exhausted<A>() -> (bound: Result<A, Error>)
    ensures
        bound == Err::<A, Error>(Error::NoToken),
{
    Err(Error::NoToken)
}

/// Binds a ceremony to the first token of a finished run of reports.
/// `negotiate` opens a session with a token and is asked at most once: for the
/// first token that appears before enumeration completes. What it gives for
/// that token is the result; without such a token the result is `NoToken`.
pub fn select_transport<T, I, A, F: FnOnce(T) -> Option<A>>(
    events: Vec<TokenEvent<T, I>>,
    negotiate: F,
) -> (bound: Result<A, Error>)
    requires
        forall|token: T| call_requires(negotiate, (token,)),
    ensures
        match first_token(events@) {
            Some(token) => match bound {
                Ok(session) => call_ensures(negotiate, (token,), Some(session)),
                Err(e) => e == Error::Authenticator && call_ensures(
                    negotiate,
                    (token,),
                    None::<A>,
                ),
            },
            None => bound == Err::<A, Error>(Error::NoToken),
        },
{
    let mut rest = events;
    while rest.len() > 0
        invariant
            first_token(rest@) == first_token(events@),
            forall|token: T| call_requires(negotiate, (token,)),
        decreases rest.len(),
    {
        let event = rest.remove(0);
        match next_step(Some(event)) {
            Selection::Negotiate(token) => {
                return negotiated(negotiate(token));
            },
            Selection::Continue => {},
            Selection::GiveUp => {
                return exhausted();
            },
        }
    }
    exhausted()
}

/// The token that the selector binds to is the one of the first report that
/// is no removal, if that report is an appearance.
pub proof fn lemma_first_token_found<T, I>(events: Seq<TokenEvent<T, I>>, index: int)
    requires
        reaches(events, index),
        events[index] is Added,
    ensures
        first_token(events) == Some(events[index]->Added_0),
    decreases index,
{
    if index > 0 {
        let rest = events.skip(1);
        assert forall|j: int| 0 <= j < index - 1 implies (#[trigger] rest[j]) is Removed by {
            assert(rest[j] == events[j + 1]);
        }
        lemma_first_token_found(rest, index - 1);
    }
}

/// The selector binds to no token where enumeration completes before a token
/// appears: tokens that appear later are not considered.
pub proof fn lemma_enumeration_complete_ends_search<T, I>(
    events: Seq<TokenEvent<T, I>>,
    index: int,
)
    requires
        reaches(events, index),
        events[index] is EnumerationComplete,
    ensures
        first_token(events) is None,
    decreases index,
{
    if index > 0 {
        let rest = events.skip(1);
        assert forall|j: int| 0 <= j < index - 1 implies (#[trigger] rest[j]) is Removed by {
            assert(rest[j] == events[j + 1]);
        }
        lemma_enumeration_complete_ends_search(rest, index - 1);
    }
}

/// The selector binds to no token where the reports hold removals only.
pub proof fn lemma_removals_find_nothing<T, I>(events: Seq<TokenEvent<T, I>>)
    requires
        forall|j: int| 0 <= j < events.len() ==> (#[trigger] events[j]) is Removed,
    ensures
        first_token(events) is None,
    decreases events.len(),
{
    if events.len() > 0 {
        let rest = events.skip(1);
        assert forall|j: int| 0 <= j < rest.len() implies (#[trigger] rest[j]) is Removed by {
            assert(rest[j] == events[j + 1]);
        }
        lemma_removals_find_nothing(rest);
    }
}

} // verus!
