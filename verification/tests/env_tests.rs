use kickmess::env::{EnvPos, REnv};

#[test]
fn release_env_waits_until_triggered() {
    let mut e = REnv::new();
    assert!(!e.active());
    assert_eq!(e.next(0, 3), EnvPos::Off);
    e.trigger(2);
    assert!(e.active());
    assert_eq!(e.next(0, 3), EnvPos::Off);
    assert_eq!(e.next(1, 3), EnvPos::Off);
}

#[test]
fn release_env_ramps_then_ends() {
    let mut e = REnv::new();
    e.trigger(1);
    assert_eq!(e.next(1, 3), EnvPos::Running(0, 3));
    assert_eq!(e.next(2, 99), EnvPos::Running(1, 3));
    assert_eq!(e.next(3, 99), EnvPos::Running(2, 3));
    assert_eq!(e.next(4, 99), EnvPos::End);
    assert!(!e.active());
    assert_eq!(e.next(5, 99), EnvPos::End);
}

#[test]
fn release_env_reset_and_retrigger() {
    let mut e = REnv::new();
    e.trigger(0);
    assert_eq!(e.next(0, 2), EnvPos::Running(0, 2));
    e.reset();
    assert!(!e.active());
    assert_eq!(e.next(0, 2), EnvPos::Off);
    e.trigger(0);
    assert_eq!(e.next(0, 1), EnvPos::Running(0, 1));
    assert_eq!(e.next(0, 1), EnvPos::End);
}

#[test]
fn release_env_zero_length_ends_at_once() {
    let mut e = REnv::new();
    e.trigger(7);
    assert_eq!(e.next(7, 0), EnvPos::End);
}
