use sinit::config::{build_config, Command, Config};

fn strings(items: &[&str]) -> Vec<String> {
    items.iter().map(|s| s.to_string()).collect()
}

#[test]
fn build_config_names_the_installed_scripts() {
    let config = build_config();
    assert_eq!(config.arguments(Command::Startup), &strings(&["/bin/rc.init"]));
    assert_eq!(
        config.arguments(Command::Shutdown),
        &strings(&["/bin/rc.shutdown", "poweroff"])
    );
    assert_eq!(
        config.arguments(Command::Reboot),
        &strings(&["/bin/rc.shutdown", "reboot"])
    );
}

#[test]
fn with_scripts_takes_any_pair_of_paths() {
    let config = Config::with_scripts(
        "debug_init_scripts/rc.init",
        "debug_init_scripts/rc.shutdown",
    );
    assert_eq!(
        config.arguments(Command::Startup),
        &strings(&["debug_init_scripts/rc.init"])
    );
    assert_eq!(
        config.arguments(Command::Shutdown),
        &strings(&["debug_init_scripts/rc.shutdown", "poweroff"])
    );
    assert_eq!(
        config.arguments(Command::Reboot),
        &strings(&["debug_init_scripts/rc.shutdown", "reboot"])
    );
}

#[test]
fn startup_has_no_arguments_and_the_others_have_one() {
    let config = build_config();
    assert_eq!(config.arguments(Command::Startup).len(), 1);
    assert_eq!(config.arguments(Command::Shutdown).len(), 2);
    assert_eq!(config.arguments(Command::Reboot).len(), 2);
    assert_eq!(
        config.arguments(Command::Shutdown)[0],
        config.arguments(Command::Reboot)[0]
    );
}

#[test]
fn new_keeps_the_lists_it_is_given() {
    let config = Config::new(
        strings(&["/sbin/up", "--fast"]),
        strings(&["/sbin/halt"]),
        strings(&["/sbin/halt", "-r", "now"]),
    )
    .expect("three non-empty lists");
    assert_eq!(config.arguments(Command::Startup), &strings(&["/sbin/up", "--fast"]));
    assert_eq!(config.arguments(Command::Shutdown), &strings(&["/sbin/halt"]));
    assert_eq!(
        config.arguments(Command::Reboot),
        &strings(&["/sbin/halt", "-r", "now"])
    );
}

#[test]
fn new_refuses_an_empty_startup_command() {
    assert!(Config::new(vec![], strings(&["a"]), strings(&["b"])).is_none());
}

#[test]
fn new_refuses_an_empty_shutdown_command() {
    assert!(Config::new(strings(&["a"]), vec![], strings(&["b"])).is_none());
}

#[test]
fn new_refuses_an_empty_reboot_command() {
    assert!(Config::new(strings(&["a"]), strings(&["b"]), vec![]).is_none());
}

#[test]
fn new_accepts_an_empty_string_as_a_path() {
    let config = Config::new(strings(&[""]), strings(&[""]), strings(&[""]));
    assert!(config.is_some());
}
