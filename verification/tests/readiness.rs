use rdbg_launcher::readiness::ReadinessFlag;

#[test]
fn a_new_flag_is_lowered() {
    assert!(!ReadinessFlag::new().is_ready());
}

#[test]
fn set_ready_raises_the_flag() {
    let mut flag = ReadinessFlag::new();
    flag.set_ready();
    assert!(flag.is_ready());
}

#[test]
fn set_ready_twice_is_as_good_as_once() {
    let mut once = ReadinessFlag::new();
    once.set_ready();
    let mut twice = ReadinessFlag::new();
    twice.set_ready();
    twice.set_ready();
    assert!(twice.is_ready());
    assert_eq!(once, twice);
}

#[test]
fn a_raised_flag_stays_raised() {
    let mut flag = ReadinessFlag::new();
    for _ in 0..10 {
        flag.set_ready();
        assert!(flag.is_ready());
    }
}

#[test]
fn a_copy_taken_earlier_is_not_raised_with_it() {
    let mut flag = ReadinessFlag::new();
    let before = flag;
    flag.set_ready();
    assert!(!before.is_ready());
    assert_ne!(before, flag);
}
