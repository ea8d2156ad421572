//! The three commands that the init process runs, each as a list of arguments
//! whose first element is the path of the program.

use vstd::prelude::*;

verus! {

/// One of the three commands.
#[derive(Clone, Copy, Debug, PartialEq, Eq, Structural)]
pub enum Command {
    /// Brings the system up; run once, at the start.
    Startup,
    /// Powers the machine off.
    Shutdown,
    /// Reboots the machine.
    Reboot,
}

/// The argument lists of the three commands. None of them is empty.
#[derive(Debug)]
pub struct Config {
    startup_command: Vec<String>,
    shutdown_command: Vec<String>,
    reboot_command: Vec<String>,
}

/// What a [`Config`] holds, as sequences of character sequences.
pub struct ConfigView {
    pub startup_command: Seq<Seq<char>>,
    pub shutdown_command: Seq<Seq<char>>,
    pub reboot_command: Seq<Seq<char>>,
}

impl ConfigView {
    /// The argument list of `command`.
    pub open spec fn arguments(self, command: Command) -> Seq<Seq<char>> {
        match command {
            Command::Startup => self.startup_command,
            Command::Shutdown => self.shutdown_command,
            Command::Reboot => self.reboot_command,
        }
    }

    /// Every command names at least its program.
    pub open spec fn wf(self) -> bool {
        &&& self.startup_command.len() > 0
        &&& self.shutdown_command.len() > 0
        &&& self.reboot_command.len() > 0
    }

    /// The commands of a system with one startup script, run without
    /// arguments, and one shutdown script, run with `poweroff` to power off
    /// and with `reboot` to reboot.
    pub open spec fn of_scripts(startup: Seq<char>, shutdown: Seq<char>) -> ConfigView {
        ConfigView {
            startup_command: seq![startup],
            shutdown_command: seq![shutdown, "poweroff"@],
            reboot_command: seq![shutdown, "reboot"@],
        }
    }
}

impl View for Config {
    type V = ConfigView;

    closed spec fn view(&self) -> ConfigView {
        ConfigView {
            startup_command: self.startup_command.deep_view(),
            shutdown_command: self.shutdown_command.deep_view(),
            reboot_command: self.reboot_command.deep_view(),
        }
    }
}

impl Config {
    #[verifier::type_invariant]
    spec fn inv(self) -> bool {
        self@.wf()
    }

    /// Takes three argument lists, unless one of them is empty.
    pub fn new(
        startup_command: Vec<String>,
        shutdown_command: Vec<String>,
        reboot_command: Vec<String>,
    ) -> (r: Option<Config>)
        ensures
            r is Some <==> startup_command.len() > 0 && shutdown_command.len() > 0
                && reboot_command.len() > 0,
            r is Some ==> r->0@ == (ConfigView {
                startup_command: startup_command.deep_view(),
                shutdown_command: shutdown_command.deep_view(),
                reboot_command: reboot_command.deep_view(),
            }),
            r is Some ==> r->0@.wf(),
    {
        if startup_command.len() > 0 && shutdown_command.len() > 0 && reboot_command.len() > 0 {
            Some(Config { startup_command, shutdown_command, reboot_command })
        } else {
            None
        }
    }

    /// The commands of a system with the startup script `startup` and the
    /// shutdown script `shutdown`.
    pub fn with_scripts(startup: &str, shutdown: &str) -> (config: Config)
        ensures
            config@ == ConfigView::of_scripts(startup@, shutdown@),
            config@.wf(),
    {
        let startup_command = vec![String::from_str(startup)];
        let shutdown_command = vec![String::from_str(shutdown), String::from_str("poweroff")];
        let reboot_command = vec![String::from_str(shutdown), String::from_str("reboot")];
        proof {
            assert(startup_command.deep_view() =~= seq![startup@]);
            assert(shutdown_command.deep_view() =~= seq![shutdown@, "poweroff"@]);
            assert(reboot_command.deep_view() =~= seq![shutdown@, "reboot"@]);
        }
        Config { startup_command, shutdown_command, reboot_command }
    }

    /// The argument list of `command`: the program's path, then its arguments.
    pub fn arguments(&self, command: Command) -> (args: &Vec<String>)
        ensures
            args.deep_view() == self@.arguments(command),
            args.len() == self@.arguments(command).len(),
            forall|i: int|
                0 <= i < args.len() ==> (#[trigger] args[i])@ == self@.arguments(command)[i],
            args.len() > 0,
    {
        proof {
            use_type_invariant(self);
        }
        let args = match command {
            Command::Startup => &self.startup_command,
            Command::Shutdown => &self.shutdown_command,
            Command::Reboot => &self.reboot_command,
        };
        assert forall|i: int| 0 <= i < args.len() implies (#[trigger] args[i])@
            == self@.arguments(command)[i] by {
            assert(args.deep_view()[i] == args[i]@);
        }
        args
    }
}

/// The commands of an installed system: `/bin/rc.init` brings it up, and
/// `/bin/rc.shutdown` powers it off or reboots it.
pub fn build_config() -> (config: Config)
    ensures
        config@ == ConfigView::of_scripts("/bin/rc.init"@, "/bin/rc.shutdown"@),
        config@.wf(),
{
    Config::with_scripts("/bin/rc.init", "/bin/rc.shutdown")
}

} // verus!
