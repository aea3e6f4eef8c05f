use rondos::singleton::{InitState, Singleton};

#[test]
fn first_touch_constructs_once() {
    // Three simulated callers race for the first touch of one shared
    // singleton.  Caller 0 wins the begin step; the others observe the
    // construction in progress, spin, and then proceed; everyone ends
    // up reading the same instance, and the constructor ran once.
    let mut shared: Singleton<u32> = Singleton::new();
    let mut constructions = 0;

    // Caller 0 attempts the atomic begin step and wins.
    assert!(shared.try_begin_init());

    // Callers 1 and 2 attempt it while construction runs: both fail and
    // observe the initialising state, so they spin.
    assert!(!shared.try_begin_init());
    assert!(!shared.try_begin_init());
    assert_eq!(shared.state(), InitState::Initializing);

    // Caller 0's constructor finishes.
    constructions += 1;
    shared.finish_init(42);
    assert_eq!(shared.state(), InitState::Initialized);

    // The spinners wake, observe the flag, and proceed; a late caller's
    // begin step changes nothing.
    assert!(!shared.try_begin_init());
    assert_eq!(shared.state(), InitState::Initialized);

    // All callers read the same instance.
    assert_eq!(*shared.get(), 42);
    assert_eq!(*shared.get(), 42);
    assert_eq!(*shared.get(), 42);
    assert_eq!(constructions, 1);
}

#[test]
fn whole_first_touch_keeps_existing_value() {
    let mut shared: Singleton<u32> = Singleton::new();
    shared.init(7);
    assert_eq!(shared.state(), InitState::Initialized);
    assert_eq!(*shared.get(), 7);
    // A second first touch runs no constructor: the value stays.
    shared.init(9);
    assert_eq!(*shared.get(), 7);
}
