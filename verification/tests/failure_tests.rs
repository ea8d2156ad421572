use sinit::failure::{diagnostic, join_arguments, Failure};

fn strings(items: &[&str]) -> Vec<String> {
    items.iter().map(|s| s.to_string()).collect()
}

#[test]
fn joining_nothing_gives_an_empty_line() {
    assert_eq!(join_arguments(&vec![]), "");
}

#[test]
fn joining_one_argument_gives_it_back() {
    assert_eq!(join_arguments(&strings(&["/bin/rc.init"])), "/bin/rc.init");
}

#[test]
fn joining_puts_one_space_between_arguments() {
    assert_eq!(
        join_arguments(&strings(&["/bin/rc.shutdown", "poweroff"])),
        "/bin/rc.shutdown poweroff"
    );
    assert_eq!(join_arguments(&strings(&["a", "", "b"])), "a  b");
}

#[test]
fn joining_keeps_characters_outside_ascii() {
    assert_eq!(join_arguments(&strings(&["grüß", "дом", "家"])), "grüß дом 家");
}

#[test]
fn a_process_creation_failure_is_reported_by_its_description() {
    assert_eq!(
        diagnostic(
            Failure::ProcessCreation,
            &strings(&["/bin/rc.init"]),
            "Resource temporarily unavailable"
        ),
        "Resource temporarily unavailable"
    );
}

#[test]
fn a_mask_failure_names_the_mask_call() {
    assert_eq!(
        diagnostic(Failure::MaskSetup, &vec![], "Invalid argument"),
        "pthread_sigmask call failed: Invalid argument"
    );
}

#[test]
fn an_unmask_failure_names_the_mask_call() {
    assert_eq!(
        diagnostic(Failure::SignalUnmask, &strings(&["/bin/rc.init"]), "Invalid argument"),
        "pthread_sigmask call failed: Invalid argument"
    );
}

#[test]
fn a_session_failure_names_the_session_call() {
    assert_eq!(
        diagnostic(
            Failure::SessionCreation,
            &strings(&["/bin/rc.init"]),
            "Operation not permitted"
        ),
        "setsid call failed: Operation not permitted"
    );
}

#[test]
fn an_image_failure_names_the_command() {
    assert_eq!(
        diagnostic(
            Failure::ImageReplacement,
            &strings(&["/bin/rc.shutdown", "reboot"]),
            "No such file or directory"
        ),
        "ERROR: couldn't exec child process /bin/rc.shutdown reboot: No such file or directory"
    );
}

#[test]
fn an_empty_description_leaves_the_prefix() {
    assert_eq!(
        diagnostic(Failure::SessionCreation, &strings(&["x"]), ""),
        "setsid call failed: "
    );
    assert_eq!(
        diagnostic(Failure::ImageReplacement, &strings(&["x"]), ""),
        "ERROR: couldn't exec child process x: "
    );
}
