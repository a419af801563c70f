use vstd::prelude::*;

verus! {

/// Where the start of a session stands. The steps run in this order; a session is
/// usable only once it is `Ready`, and a failed start is final.
#[derive(Debug, Clone, Copy, PartialEq, Eq, Structural)]
pub enum Startup {
    /// Bind the requested device.
    ResolveDevice,
    /// Fetch the weights and build the network on that device.
    LoadNetwork,
    /// Build the vector store client.
    Connect,
    /// Ask the store whether the collection exists.
    CheckCollection,
    /// Create the missing collection.
    CreateCollection,
    /// Every step succeeded.
    Ready,
    /// A step failed; nothing more is attempted.
    Failed,
}

/// What the step that was just carried out reported.
#[derive(Debug, Clone, Copy, PartialEq, Eq, Structural)]
pub enum StartupEvent {
    Succeeded,
    Failed,
    /// The answer to the existence check.
    CollectionExists(bool),
}

pub open spec fn spec_next(stage: Startup, event: StartupEvent) -> Startup {
    match (stage, event) {
        (Startup::ResolveDevice, StartupEvent::Succeeded) => Startup::LoadNetwork,
        (Startup::LoadNetwork, StartupEvent::Succeeded) => Startup::Connect,
        (Startup::Connect, StartupEvent::Succeeded) => Startup::CheckCollection,
        (Startup::CheckCollection, StartupEvent::CollectionExists(true)) => Startup::Ready,
        (Startup::CheckCollection, StartupEvent::CollectionExists(false)) => Startup::CreateCollection,
        (Startup::CreateCollection, StartupEvent::Succeeded) => Startup::Ready,
        (Startup::Ready, _) => Startup::Ready,
        _ => Startup::Failed,
    }
}

/// The stage that follows `stage` once its step reported `event`. An event that does
/// not answer the current step counts as a failure.
pub fn next(stage: Startup, event: StartupEvent) -> (r: Startup)
    ensures
        r == spec_next(stage, event),
{
    match (stage, event) {
        (Startup::ResolveDevice, StartupEvent::Succeeded) => Startup::LoadNetwork,
        (Startup::LoadNetwork, StartupEvent::Succeeded) => Startup::Connect,
        (Startup::Connect, StartupEvent::Succeeded) => Startup::CheckCollection,
        (Startup::CheckCollection, StartupEvent::CollectionExists(exists)) => {
            if exists {
                Startup::Ready
            } else {
                Startup::CreateCollection
            }
        },
        (Startup::CreateCollection, StartupEvent::Succeeded) => Startup::Ready,
        (Startup::Ready, _) => Startup::Ready,
        _ => Startup::Failed,
    }
}

/// The stage reached from the beginning after the steps reported `events`.
pub open spec fn run(events: Seq<StartupEvent>) -> Startup
    decreases events.len(),
{
    if events.len() == 0 {
        Startup::ResolveDevice
    } else {
        spec_next(run(events.drop_last()), events.last())
    }
}

/// The stages in which the store is called.
pub open spec fn calls_store(stage: Startup) -> bool {
    stage == Startup::Connect || stage == Startup::CheckCollection || stage
        == Startup::CreateCollection
}

/// The store is called, and a session becomes ready, only after the device was bound
/// and the network was built: those failures surface before any store call.
pub proof fn lemma_store_after_network(events: Seq<StartupEvent>)
    requires
        calls_store(run(events)) || run(events) == Startup::Ready,
    ensures
        events.len() >= 2,
        events[0] == StartupEvent::Succeeded,
        events[1] == StartupEvent::Succeeded,
    decreases events.len(),
{
    let prev = events.drop_last();
    if calls_store(run(prev)) || run(prev) == Startup::Ready {
        lemma_store_after_network(prev);
    } else {
        assert(run(prev) == Startup::LoadNetwork);
        assert(prev.len() > 0);
        let first = prev.drop_last();
        assert(run(first) == Startup::ResolveDevice);
        if first.len() > 0 {
            lemma_never_back_to_start(first);
        }
    }
}

/// Once under way, a start never returns to its first stage.
proof fn lemma_never_back_to_start(events: Seq<StartupEvent>)
    requires
        events.len() > 0,
    ensures
        run(events) != Startup::ResolveDevice,
{
}

/// A failed start stays failed, whatever is reported afterwards.
pub proof fn lemma_failure_is_final(events: Seq<StartupEvent>, more: Seq<StartupEvent>)
    requires
        run(events) == Startup::Failed,
    ensures
        run(events + more) == Startup::Failed,
    decreases more.len(),
{
    if more.len() > 0 {
        lemma_failure_is_final(events, more.drop_last());
        assert((events + more).drop_last() == events + more.drop_last());
    } else {
        assert(events + more == events);
    }
}

/// An existing collection is never created again: when the check finds it, the start
/// is complete.
pub proof fn lemma_existing_collection_is_kept(events: Seq<StartupEvent>)
    requires
        run(events) == Startup::CheckCollection,
    ensures
        run(events.push(StartupEvent::CollectionExists(true))) == Startup::Ready,
{
    assert(events.push(StartupEvent::CollectionExists(true)).drop_last() == events);
}

} // verus!
