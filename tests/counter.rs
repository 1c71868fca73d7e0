use counter_shell::{greet, AppState, AppStateWrapper, CounterError, Mutation, StatePayload};

#[test]
fn greet_world() {
    assert_eq!(greet("World"), "Hello, World! You've been greeted from Rust!");
}

#[test]
fn greet_empty_name() {
    assert_eq!(greet(""), "Hello, ! You've been greeted from Rust!");
}

#[test]
fn greet_echoes_name_verbatim() {
    assert_eq!(greet("  Ada & Bob "), "Hello,   Ada & Bob ! You've been greeted from Rust!");
}

#[test]
fn new_state_is_zero() {
    assert_eq!(AppState::new().count, 0);
    assert_eq!(AppState::default().count, 0);
    assert_eq!(AppStateWrapper::new().get_initial_state(), 0);
}

#[test]
fn increment_announces_new_count() {
    let mut s = AppState::new();
    let p = s.increment().unwrap();
    assert_eq!(p.count(), 1);
    assert_eq!(s.get_initial_state(), 1);
}

#[test]
fn decrement_goes_below_zero() {
    let mut s = AppState::new();
    assert_eq!(s.decrement().unwrap(), StatePayload::new(-1));
    assert_eq!(s.decrement().unwrap(), StatePayload::new(-2));
    assert_eq!(s.count, -2);
}

#[test]
fn sequence_gives_net_change() {
    let mut s = AppState::new();
    let ops = [
        Mutation::Increment,
        Mutation::Increment,
        Mutation::Decrement,
        Mutation::Increment,
        Mutation::Decrement,
        Mutation::Decrement,
        Mutation::Decrement,
    ];
    for m in ops {
        s.apply(m).unwrap();
    }
    assert_eq!(s.count, -1);
}

#[test]
fn increment_at_max_is_refused() {
    let mut s = AppState { count: i32::MAX };
    assert_eq!(s.increment(), Err(CounterError::Overflow));
    assert_eq!(s.count, i32::MAX);
}

#[test]
fn decrement_at_min_is_refused() {
    let mut s = AppState { count: i32::MIN };
    assert_eq!(s.decrement(), Err(CounterError::Overflow));
    assert_eq!(s.count, i32::MIN);
}

#[test]
fn payload_matches_read_after_change() {
    let shared = AppStateWrapper::new();
    let p = shared.increment().unwrap();
    assert_eq!(p.count(), shared.get_initial_state());
    let q = shared.decrement().unwrap();
    assert_eq!(q.count(), shared.get_initial_state());
    assert_eq!(q.count(), 0);
}

#[test]
fn shared_counter_counts_every_call() {
    let shared = AppStateWrapper::new();
    for _ in 0..7 {
        shared.increment().unwrap();
    }
    for _ in 0..3 {
        shared.decrement().unwrap();
    }
    assert_eq!(shared.get_initial_state(), 4);
}

#[test]
fn guard_applies_to_what_it_read() {
    let shared = AppStateWrapper::new();
    {
        let mut g = shared.lock();
        assert_eq!(g.state().count, 0);
        assert_eq!(g.apply(Mutation::Increment).unwrap().count(), 1);
        assert_eq!(g.apply(Mutation::Increment).unwrap().count(), 2);
        assert_eq!(g.state().count, 2);
    }
    assert_eq!(shared.get_initial_state(), 2);
}

#[test]
fn lock_is_released_after_a_refused_change() {
    let shared = AppStateWrapper(parking_lot::Mutex::new(AppState { count: i32::MAX }));
    assert_eq!(shared.increment(), Err(CounterError::Overflow));
    assert_eq!(shared.decrement().unwrap().count(), i32::MAX - 1);
    assert!(shared.0.try_lock().is_some());
    assert_eq!(shared.get_initial_state(), i32::MAX - 1);
}
