//! The order in which a route that changes data does its work: the check
//! that may refuse the request, then the write to the database, then the
//! event for the websocket service, then the answer.

use vstd::prelude::*;

verus! {

/// Where a request that changes data stands.
#[derive(Clone, Copy, PartialEq, Eq, Structural)]
pub enum RequestStage {
    /// The request is being checked (ownership, membership, access).
    Checking,
    /// The check passed and the change is being written.
    Writing,
    /// The change is written and its event is being published.
    Publishing,
    /// The request has been answered.
    Done,
}

/// What the route learned from the work it was asked to do.
pub enum RequestEvent<E> {
    /// The outcome of the check: passed, or refused with an error.
    Checked(Result<(), E>),
    /// The outcome of the write: done, or failed with an error.
    Written(Result<(), E>),
    /// The event was handed to the broker.
    Published,
}

/// What the route does next.
pub enum RequestAction<E> {
    /// Write the change to the database.
    Write,
    /// Publish the change's event.
    Publish,
    /// Answer with the error; nothing more is done.
    Refuse(E),
    /// Answer that the request succeeded.
    Succeed,
}

/// Whether `event` is the outcome of the work that `stage` asked for.
pub open spec fn event_fits<E>(stage: RequestStage, event: RequestEvent<E>) -> bool {
    match stage {
        RequestStage::Checking => event is Checked,
        RequestStage::Writing => event is Written,
        RequestStage::Publishing => event is Published,
        RequestStage::Done => false,
    }
}

/// The next stage and action for an event that fits the stage: a passed
/// check leads to the write; a written change leads to its event when the
/// route publishes one (`publishes`), and to the answer otherwise; a
/// published event leads to the answer; a refused check or a failed write
/// ends the request with its error.
pub open spec fn transition<E>(stage: RequestStage, event: RequestEvent<E>, publishes: bool) -> (RequestStage, RequestAction<E>)
    recommends
        event_fits(stage, event),
{
    match event {
        RequestEvent::Checked(Ok(_)) => (RequestStage::Writing, RequestAction::Write),
        RequestEvent::Checked(Err(e)) => (RequestStage::Done, RequestAction::Refuse(e)),
        RequestEvent::Written(Ok(_)) => if publishes {
            (RequestStage::Publishing, RequestAction::Publish)
        } else {
            (RequestStage::Done, RequestAction::Succeed)
        },
        RequestEvent::Written(Err(e)) => (RequestStage::Done, RequestAction::Refuse(e)),
        RequestEvent::Published => (RequestStage::Done, RequestAction::Succeed),
    }
}

/// The next stage and action of a request, from where it stands and the
/// outcome of the work it last did; `publishes` tells whether the route
/// publishes an event for its change.
pub fn next_step<E>(stage: RequestStage, event: RequestEvent<E>, publishes: bool) -> (next: (RequestStage, RequestAction<E>))
    requires
        event_fits(stage, event),
    ensures
        next == transition(stage, event, publishes),
        event matches RequestEvent::Checked(Err(e)) ==> next == (RequestStage::Done, RequestAction::Refuse(e)),
        event matches RequestEvent::Written(Err(e)) ==> next == (RequestStage::Done, RequestAction::Refuse(e)),
        event matches RequestEvent::Checked(Ok(_)) ==> next == (RequestStage::Writing, RequestAction::<E>::Write),
        next.1 is Succeed ==> (event is Published || (!publishes && event matches RequestEvent::Written(Ok(_)))),
        next.1 is Publish ==> (publishes && event matches RequestEvent::Written(Ok(_))),
{
    match event {
        RequestEvent::Checked(Ok(_)) => (RequestStage::Writing, RequestAction::Write),
        RequestEvent::Checked(Err(e)) => (RequestStage::Done, RequestAction::Refuse(e)),
        RequestEvent::Written(Ok(_)) => if publishes {
            (RequestStage::Publishing, RequestAction::Publish)
        } else {
            (RequestStage::Done, RequestAction::Succeed)
        },
        RequestEvent::Written(Err(e)) => (RequestStage::Done, RequestAction::Refuse(e)),
        RequestEvent::Published => (RequestStage::Done, RequestAction::Succeed),
    }
}

/// The actions a request takes from `stage` for the outcomes `events`, one
/// action per outcome, until it is answered.
pub open spec fn actions_of<E>(stage: RequestStage, events: Seq<RequestEvent<E>>, publishes: bool) -> Seq<RequestAction<E>>
    decreases events.len(),
{
    if events.len() == 0 || !event_fits(stage, events[0]) {
        Seq::<RequestAction<E>>::empty()
    } else {
        let (next, action) = transition(stage, events[0], publishes);
        seq![action] + actions_of(next, events.skip(1), publishes)
    }
}

/// A request whose check is refused is answered with the refusal at once:
/// it writes nothing to the database and publishes nothing, whatever else
/// happens.
pub proof fn lemma_refused_request_changes_nothing<E>(error: E, later: Seq<RequestEvent<E>>, publishes: bool)
    ensures
        actions_of(RequestStage::Checking, seq![RequestEvent::Checked(Err(error))] + later, publishes) == seq![
            RequestAction::Refuse(error),
        ],
{
    let events = seq![RequestEvent::Checked(Err(error))] + later;
    assert(events[0] == RequestEvent::<E>::Checked(Err(error)));
    assert(actions_of(RequestStage::Done, events.skip(1), publishes) =~= Seq::<RequestAction<E>>::empty());
    assert(actions_of(RequestStage::Checking, events, publishes) =~= seq![RequestAction::Refuse(error)]);
}

/// A write is only ever asked for after a passed check, and a publication
/// only after a successful write of a route that publishes; after a refusal
/// or a failure nothing more is done.
pub proof fn lemma_steps_in_order<E>(stage: RequestStage, event: RequestEvent<E>, publishes: bool)
    requires
        event_fits(stage, event),
    ensures
        transition(stage, event, publishes).1 is Write ==> stage == RequestStage::Checking && event matches RequestEvent::Checked(Ok(_)),
        transition(stage, event, publishes).1 is Publish ==> publishes && stage == RequestStage::Writing
            && event matches RequestEvent::Written(Ok(_)),
        transition(stage, event, publishes).1 is Refuse ==> transition(stage, event, publishes).0 == RequestStage::Done,
        transition(stage, event, publishes).1 is Succeed ==> transition(stage, event, publishes).0 == RequestStage::Done,
        forall|later: RequestEvent<E>| !event_fits(RequestStage::Done, later),
{
}

/// A refused check or a failed write ends the request with that very
/// error, whether or not the route publishes an event; a request is only
/// answered with success after its write succeeded (and, for a route that
/// publishes, after its event was published).
pub proof fn lemma_failures_refuse<E>(error: E, event: RequestEvent<E>, stage: RequestStage, publishes: bool)
    requires
        event_fits(stage, event),
    ensures
        transition(RequestStage::Checking, RequestEvent::Checked(Err(error)), publishes) == (
            RequestStage::Done,
            RequestAction::Refuse(error),
        ),
        transition(RequestStage::Writing, RequestEvent::Written(Err(error)), publishes) == (
            RequestStage::Done,
            RequestAction::Refuse(error),
        ),
        transition(stage, event, publishes).1 is Succeed ==> (event is Published || (!publishes
            && event matches RequestEvent::Written(Ok(_)))),
        transition(stage, event, publishes).1 matches RequestAction::Refuse(e) ==> (event matches RequestEvent::Checked(
            Err(x),
        ) && x == e) || (event matches RequestEvent::Written(Err(x)) && x == e),
{
}

/// A request of a publishing route whose check passes, whose write succeeds
/// and whose event is published is answered with success after exactly one
/// write and one publication, in that order.
pub proof fn lemma_accepted_request_writes_then_publishes<E>()
    ensures
        actions_of(
            RequestStage::Checking,
            seq![RequestEvent::<E>::Checked(Ok(())), RequestEvent::Written(Ok(())), RequestEvent::Published],
            true,
        ) == seq![RequestAction::<E>::Write, RequestAction::Publish, RequestAction::Succeed],
{
    let events = seq![RequestEvent::<E>::Checked(Ok(())), RequestEvent::Written(Ok(())), RequestEvent::Published];
    let e1 = events.skip(1);
    let e2 = e1.skip(1);
    let e3 = e2.skip(1);
    assert(e3 =~= Seq::<RequestEvent<E>>::empty());
    assert(e2[0] == RequestEvent::<E>::Published);
    assert(e1[0] == RequestEvent::<E>::Written(Ok(())));
    assert(actions_of(RequestStage::Done, e3, true) =~= Seq::<RequestAction<E>>::empty());
    assert(actions_of(RequestStage::Publishing, e2, true) =~= seq![RequestAction::<E>::Succeed]);
    assert(actions_of(RequestStage::Writing, e1, true) =~= seq![RequestAction::<E>::Publish, RequestAction::Succeed]);
    assert(actions_of(RequestStage::Checking, events, true) =~= seq![
        RequestAction::<E>::Write,
        RequestAction::Publish,
        RequestAction::Succeed,
    ]);
}

/// A request of a route that publishes nothing, whose check passes and
/// whose write succeeds, is answered with success after exactly one write.
pub proof fn lemma_accepted_request_writes_only<E>()
    ensures
        actions_of(
            RequestStage::Checking,
            seq![RequestEvent::<E>::Checked(Ok(())), RequestEvent::Written(Ok(()))],
            false,
        ) == seq![RequestAction::<E>::Write, RequestAction::Succeed],
{
    let events = seq![RequestEvent::<E>::Checked(Ok(())), RequestEvent::Written(Ok(()))];
    let e1 = events.skip(1);
    let e2 = e1.skip(1);
    assert(e2 =~= Seq::<RequestEvent<E>>::empty());
    assert(e1[0] == RequestEvent::<E>::Written(Ok(())));
    assert(actions_of(RequestStage::Done, e2, false) =~= Seq::<RequestAction<E>>::empty());
    assert(actions_of(RequestStage::Writing, e1, false) =~= seq![RequestAction::<E>::Succeed]);
    assert(actions_of(RequestStage::Checking, events, false) =~= seq![RequestAction::<E>::Write, RequestAction::Succeed]);
}

} // verus!
