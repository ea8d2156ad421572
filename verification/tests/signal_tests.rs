use sinit::signal::{SignalKind, SignalNumbers};

#[test]
fn new_accepts_three_different_numbers() {
    let numbers = SignalNumbers::new(17, 10, 2).expect("pairwise different");
    assert_eq!(numbers.child_exited, 17);
    assert_eq!(numbers.shutdown, 10);
    assert_eq!(numbers.interrupt, 2);
}

#[test]
fn new_refuses_equal_child_exited_and_shutdown() {
    assert_eq!(SignalNumbers::new(10, 10, 2), None);
}

#[test]
fn new_refuses_equal_child_exited_and_interrupt() {
    assert_eq!(SignalNumbers::new(2, 10, 2), None);
}

#[test]
fn new_refuses_equal_shutdown_and_interrupt() {
    assert_eq!(SignalNumbers::new(17, 2, 2), None);
}

#[test]
fn classify_tells_the_three_signals_apart() {
    let numbers = SignalNumbers::new(17, 10, 2).unwrap();
    assert_eq!(numbers.classify(17), SignalKind::ChildExited);
    assert_eq!(numbers.classify(10), SignalKind::Shutdown);
    assert_eq!(numbers.classify(2), SignalKind::Interrupt);
}

#[test]
fn classify_calls_every_other_number_other() {
    let numbers = SignalNumbers::new(17, 10, 2).unwrap();
    for number in [i32::MIN, -1, 0, 1, 3, 9, 11, 15, 16, 18, 64, i32::MAX] {
        assert_eq!(numbers.classify(number), SignalKind::Other);
    }
}

#[test]
fn platform_numbers_are_those_of_libc() {
    let numbers = SignalNumbers::platform().expect("the platform's signals differ");
    assert_eq!(numbers.child_exited, libc::SIGCHLD);
    assert_eq!(numbers.shutdown, libc::SIGUSR1);
    assert_eq!(numbers.interrupt, libc::SIGINT);
}

#[test]
fn platform_numbers_classify_the_signals_of_libc() {
    let numbers = SignalNumbers::platform().unwrap();
    assert_eq!(numbers.classify(libc::SIGCHLD), SignalKind::ChildExited);
    assert_eq!(numbers.classify(libc::SIGUSR1), SignalKind::Shutdown);
    assert_eq!(numbers.classify(libc::SIGINT), SignalKind::Interrupt);
    assert_eq!(numbers.classify(libc::SIGTERM), SignalKind::Other);
    assert_eq!(numbers.classify(libc::SIGHUP), SignalKind::Other);
    assert_eq!(numbers.classify(libc::SIGUSR2), SignalKind::Other);
}
