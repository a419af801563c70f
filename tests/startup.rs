use search_image::startup::{next, Startup, StartupEvent};

fn run(events: &[StartupEvent]) -> Startup {
    events.iter().fold(Startup::ResolveDevice, |s, e| next(s, *e))
}

#[test]
fn start_with_a_new_collection() {
    let ok = StartupEvent::Succeeded;
    let events = [ok, ok, ok, StartupEvent::CollectionExists(false)];
    assert_eq!(run(&events), Startup::CreateCollection);
    assert_eq!(run(&[ok, ok, ok, StartupEvent::CollectionExists(false), ok]), Startup::Ready);
}

#[test]
fn start_with_an_existing_collection_creates_nothing() {
    let ok = StartupEvent::Succeeded;
    assert_eq!(run(&[ok, ok, ok, StartupEvent::CollectionExists(true)]), Startup::Ready);
}

#[test]
fn device_failure_stops_before_the_store() {
    assert_eq!(run(&[StartupEvent::Failed]), Startup::Failed);
    assert_eq!(
        run(&[StartupEvent::Failed, StartupEvent::Succeeded, StartupEvent::Succeeded]),
        Startup::Failed
    );
}

#[test]
fn network_failure_stops_before_the_store() {
    let ok = StartupEvent::Succeeded;
    assert_eq!(run(&[ok]), Startup::LoadNetwork);
    assert_eq!(run(&[ok, StartupEvent::Failed]), Startup::Failed);
    assert_eq!(run(&[ok, StartupEvent::Failed, ok, ok]), Startup::Failed);
}

#[test]
fn an_event_that_does_not_answer_the_step_fails() {
    assert_eq!(next(Startup::Connect, StartupEvent::CollectionExists(true)), Startup::Failed);
    assert_eq!(next(Startup::CheckCollection, StartupEvent::Succeeded), Startup::Failed);
    assert_eq!(next(Startup::Ready, StartupEvent::Failed), Startup::Ready);
}
