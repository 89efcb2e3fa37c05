use config_stack::controller::{Controller, Phase};
use config_stack::error::ConfigError;
use config_stack::handle::LoadState;
use config_stack::store::Store;
use config_stack::vehicle::VehicleConfig;

fn good_bytes(max_speed: i64) -> Vec<u8> {
    format!(
        "{{\"max_speed\": {}, \"acceleration\": 10, \"turn_speed\": 5}}",
        max_speed
    )
    .into_bytes()
}

fn fresh() -> (Store, Controller<VehicleConfig>) {
    let store = Store::new();
    let controller = Controller::new(VehicleConfig::default(), "cfg/vehicle.ron".to_string());
    (store, controller)
}

#[test]
fn default_before_load() {
    let (_, controller) = fresh();
    let current = controller.current();
    assert_eq!(current.max_speed, 100);
    assert_eq!(current.acceleration, 10);
    assert_eq!(current.turn_speed, 10);
    assert_eq!(controller.generation, 0);
    assert!(matches!(controller.phase, Phase::Uninitialized));
    assert!(controller.events.is_empty());
}

#[test]
fn one_event_per_completion() {
    let (mut store, mut controller) = fresh();
    controller.activate(&mut store);
    let h0 = controller.active.expect("activated");
    store.complete_load(h0, LoadState::Loaded(good_bytes(100)));
    controller.tick(&mut store);
    assert_eq!(controller.generation, 1);
    assert_eq!(controller.current().max_speed, 100);

    controller.request_reload(&mut store);
    let h1 = controller.active.expect("reloading");
    store.complete_load(h1, LoadState::Loaded(good_bytes(150)));
    controller.tick(&mut store);

    assert_eq!(controller.generation, 2);
    assert_eq!(controller.current().max_speed, 150);
    assert_eq!(controller.events.len(), 2);
    assert_eq!(controller.events[0].generation, 1);
    assert_eq!(controller.events[1].generation, 2);
    assert_eq!(controller.events[1].location, "cfg/vehicle.ron");
}

#[test]
fn failure_preserves_value() {
    let (mut store, mut controller) = fresh();
    controller.activate(&mut store);
    let h0 = controller.active.expect("activated");
    store.complete_load(h0, LoadState::Loaded(good_bytes(120)));
    controller.tick(&mut store);
    assert_eq!(controller.current().max_speed, 120);

    controller.request_reload(&mut store);
    let h1 = controller.active.expect("reloading");
    store.complete_load(h1, LoadState::Loaded(b"not valid at all".to_vec()));
    controller.tick(&mut store);

    assert_eq!(controller.current().max_speed, 120);
    assert_eq!(controller.generation, 1);
    assert_eq!(controller.events.len(), 1);
    assert_eq!(controller.errors.len(), 1);
    assert!(matches!(controller.phase, Phase::Ready));
}

#[test]
fn stale_handle_ignored() {
    let (mut store, mut controller) = fresh();
    controller.activate(&mut store);
    let h0 = controller.active.expect("activated");
    controller.request_reload(&mut store);
    let h1 = controller.active.expect("reloading");
    assert!(!store.is_current(h0));
    assert!(store.is_current(h1));

    store.complete_load(h0, LoadState::Loaded(good_bytes(90)));
    controller.tick(&mut store);
    assert_eq!(controller.generation, 0);
    assert_eq!(controller.current().max_speed, 100);
    assert!(controller.events.is_empty());
    assert!(controller.errors.is_empty());

    store.complete_load(h1, LoadState::Loaded(good_bytes(90)));
    controller.tick(&mut store);
    assert_eq!(controller.generation, 1);
    assert_eq!(controller.current().max_speed, 90);
}

#[test]
fn io_failure_reported() {
    let (mut store, mut controller) = fresh();
    controller.activate(&mut store);
    let h0 = controller.active.expect("activated");
    store.complete_load(h0, LoadState::Failed("permission denied".to_string()));
    controller.tick(&mut store);
    assert_eq!(controller.generation, 0);
    assert_eq!(controller.current().max_speed, 100);
    assert!(matches!(controller.phase, Phase::Loading));
    assert_eq!(controller.errors.len(), 1);
    match &controller.errors[0] {
        ConfigError::Io { message } => assert_eq!(message, "permission denied"),
        other => panic!("expected an I/O error, found {:?}", other.describe()),
    }
}

#[test]
fn subscriptions_are_broadcast() {
    let (mut store, mut controller) = fresh();
    controller.activate(&mut store);
    let h0 = controller.active.expect("activated");
    store.complete_load(h0, LoadState::Loaded(good_bytes(100)));
    controller.tick(&mut store);
    controller.request_reload(&mut store);
    let h1 = controller.active.expect("reloading");
    store.complete_load(h1, LoadState::Loaded(good_bytes(150)));
    controller.tick(&mut store);

    let mut first = controller.subscribe();
    let mut second = controller.subscribe();
    let seen_first: Vec<u64> = std::iter::from_fn(|| {
        controller.next_event(&mut first).map(|e| e.generation)
    })
    .collect();
    let seen_second: Vec<u64> = std::iter::from_fn(|| {
        controller.next_event(&mut second).map(|e| e.generation)
    })
    .collect();
    assert_eq!(seen_first, vec![1, 2]);
    assert_eq!(seen_second, vec![1, 2]);
}

#[test]
fn poll_drains_in_order() {
    let mut store = Store::new();
    let ha = store.request_load("a.ron".to_string());
    let hb = store.request_load("b.ron".to_string());
    store.complete_load(ha, LoadState::Loaded(vec![1]));
    store.complete_load(hb, LoadState::Failed("gone".to_string()));
    let events = store.poll_events();
    assert_eq!(events.len(), 2);
    assert_eq!(events[0].0, ha);
    assert!(matches!(events[0].1, LoadState::Loaded(ref b) if b == &vec![1]));
    assert_eq!(events[1].0, hb);
    assert!(matches!(events[1].1, LoadState::Failed(ref m) if m == "gone"));
    assert!(store.poll_events().is_empty());
}

#[test]
fn shutdown_discards_in_flight_work() {
    let (mut store, mut controller) = fresh();
    controller.activate(&mut store);
    let h0 = controller.active.expect("activated");
    store.complete_load(h0, LoadState::Loaded(good_bytes(100)));
    controller.tick(&mut store);
    assert_eq!(controller.generation, 1);

    controller.request_reload(&mut store);
    let h1 = controller.active.expect("reloading");
    controller.shutdown();
    assert!(controller.active.is_none());

    store.complete_load(h1, LoadState::Loaded(good_bytes(200)));
    controller.tick(&mut store);
    assert_eq!(controller.generation, 1);
    assert_eq!(controller.current().max_speed, 100);
    assert!(controller.errors.is_empty());
}

#[test]
fn vehicle_scenario() {
    let (mut store, mut controller) = fresh();
    controller.activate(&mut store);
    let h = controller.active.expect("activated");
    store.complete_load(
        h,
        LoadState::Loaded(
            b"{\"max_speed\": 100, \"acceleration\": 10, \"turn_speed\": 5}".to_vec(),
        ),
    );
    controller.tick(&mut store);
    assert_eq!(controller.current().max_speed, 100);
    assert_eq!(controller.generation, 1);
    let mut sub = controller.subscribe();
    let first = controller.next_event(&mut sub).expect("one event");
    assert_eq!(first.generation, 1);
    assert_eq!(first.location, "cfg/vehicle.ron");

    controller.request_reload(&mut store);
    let h = controller.active.expect("reloading");
    store.complete_load(
        h,
        LoadState::Loaded(
            b"{\"max_speed\": 150, \"acceleration\": 10, \"turn_speed\": 5}".to_vec(),
        ),
    );
    controller.tick(&mut store);
    assert_eq!(controller.current().max_speed, 150);
    assert_eq!(controller.generation, 2);
    let second = controller.next_event(&mut sub).expect("a second event");
    assert_eq!(second.generation, 2);

    controller.request_reload(&mut store);
    let h = controller.active.expect("reloading");
    store.complete_load(h, LoadState::Loaded(b"{\"max_speed\": oops".to_vec()));
    controller.tick(&mut store);
    assert_eq!(controller.current().max_speed, 150);
    assert_eq!(controller.generation, 2);
    assert!(controller.next_event(&mut sub).is_none());
    assert_eq!(controller.errors.len(), 1);
    assert!(matches!(controller.errors[0], ConfigError::Decode(_)));
}
