//! The operating-system failures that the init process can meet, and the
//! diagnostic line that reports each of them.

use vstd::prelude::*;

verus! {

/// The step at which the operating system refused to go on.
#[derive(Clone, Copy, Debug, PartialEq, Eq, Structural)]
pub enum Failure {
    /// The all-blocking signal mask could not be installed.
    MaskSetup,
    /// No new process could be created.
    ProcessCreation,
    /// A new child could not unblock its signals.
    SignalUnmask,
    /// A new child could not start a session of its own.
    SessionCreation,
    /// A new child could not replace its image with the command's.
    ImageReplacement,
}

/// The arguments of a command, one space between each two.
pub open spec fn joined(args: Seq<Seq<char>>) -> Seq<char>
    decreases args.len(),
{
    if args.len() == 0 {
        Seq::empty()
    } else if args.len() == 1 {
        args[0]
    } else {
        joined(args.drop_last()) + seq![' '] + args.last()
    }
}

/// The line that reports `failure`, met while running the command `args`,
/// with the operating system's own `description` of what went wrong.
pub open spec fn diagnostic_of(
    failure: Failure,
    args: Seq<Seq<char>>,
    description: Seq<char>,
) -> Seq<char> {
    match failure {
        Failure::MaskSetup | Failure::SignalUnmask => "pthread_sigmask call failed: "@
            + description,
        Failure::ProcessCreation => description,
        Failure::SessionCreation => "setsid call failed: "@ + description,
        Failure::ImageReplacement => "ERROR: couldn't exec child process "@ + joined(args) + ": "@
            + description,
    }
}

/// Writes the arguments of a command in one line, a space between each two.
pub fn join_arguments(args: &Vec<String>) -> (line: String)
    ensures
        line@ == joined(args.deep_view()),
{
    let mut line = String::new();
    let mut i: usize = 0;
    while i < args.len()
        invariant
            0 <= i <= args.len(),
            line@ == joined(args.deep_view().take(i as int)),
        decreases args.len() - i,
    {
        if i > 0 {
            line.append(" ");
        }
        line.append(args[i].as_str());
        proof {
            reveal_strlit(" ");
            let before = args.deep_view().take(i as int);
            let after = args.deep_view().take(i + 1);
            assert(after.drop_last() =~= before);
            assert(after.last() == args[i as int]@);
            assert(" "@ =~= seq![' ']);
        }
        i += 1;
    }
    proof {
        assert(args.deep_view().take(args.len() as int) =~= args.deep_view());
    }
    line
}

/// Writes the line that reports `failure`, met while running the command
/// `args`, with the operating system's own `description` of what went wrong.
pub fn diagnostic(failure: Failure, args: &Vec<String>, description: &str) -> (line: String)
    ensures
        line@ == diagnostic_of(failure, args.deep_view(), description@),
{
    match failure {
        Failure::MaskSetup | Failure::SignalUnmask => {
            String::from_str("pthread_sigmask call failed: ").concat(description)
        },
        Failure::ProcessCreation => String::from_str(description),
        Failure::SessionCreation => String::from_str("setsid call failed: ").concat(description),
        Failure::ImageReplacement => {
            let command = join_arguments(args);
            String::from_str("ERROR: couldn't exec child process ").concat(
                command.as_str(),
            ).concat(": ").concat(description)
        },
    }
}

} // verus!
