//! Obtaining higher privileges: which model a platform uses, and the command
//! that starts an elevated copy of the running program.

use vstd::prelude::*;
use vstd::string::StringExecFns;
use crate::platform::{ElevationModel, Platform};

verus! {

/// The program that shows the native elevation prompt.
pub const RELAUNCH_PROGRAM: &'static str = "powershell.exe";

/// The flag under which `RELAUNCH_PROGRAM` takes a script.
pub const RELAUNCH_FLAG: &'static str = "-command";

/// One forwarded argument, quoted so that it is still one argument after the
/// shell has parsed the script.
pub open spec fn quoted(arg: Seq<char>) -> Seq<char> {
    "'\""@ + arg + "\"'"@
}

/// The quoted arguments, separated by commas.
pub open spec fn quoted_list(args: Seq<Seq<char>>) -> Seq<char>
    decreases args.len(),
{
    if args.len() == 0 {
        Seq::empty()
    } else if args.len() == 1 {
        quoted(args[0])
    } else {
        quoted_list(args.drop_last()) + ","@ + quoted(args.last())
    }
}

/// The arguments that are forwarded: all of `argv` but the program's own name
/// at its head.
pub open spec fn forwarded(argv: Seq<Seq<char>>) -> Seq<Seq<char>> {
    if argv.len() <= 1 {
        Seq::empty()
    } else {
        argv.subrange(1, argv.len() as int)
    }
}

/// The script that starts `install` elevated with the forwarded arguments.
pub open spec fn relaunch_script(install: Seq<char>, argv: Seq<Seq<char>>) -> Seq<char> {
    "Start-Process -filepath '"@ + install + "' -verb runas -ArgumentList @("@ + quoted_list(
        forwarded(argv),
    ) + ")"@
}

/// A command that starts an elevated copy of the running program.
#[derive(Clone, Debug, PartialEq, Eq)]
pub struct RelaunchCommand {
    /// The program to start.
    pub program: &'static str,
    /// The flag that precedes the script.
    pub flag: &'static str,
    /// The script that the program runs.
    pub script: String,
}

/// The elevation model of `platform`: a relaunch through the native prompt
/// where the platform has one, a raise of the running process elsewhere.
pub fn elevate(platform: Platform) -> (model: ElevationModel)
    ensures
        model == platform.elevation_model(),
{
    match platform {
        Platform::PromptInstall => ElevationModel::Relaunch,
        Platform::DiskImage => ElevationModel::InPlace,
        Platform::NoManagedPath => ElevationModel::InPlace,
    }
}

/// Builds the command that starts the executable at `install` with elevated
/// rights. `argv` is the command line of the running process, its own name
/// first; every argument after that name is forwarded, quoted, in order.
pub fn reopen_as_elevated(install: &str, argv: &Vec<String>) -> (command: RelaunchCommand)
    ensures
        command.program@ == RELAUNCH_PROGRAM@,
        command.flag@ == RELAUNCH_FLAG@,
        command.script@ == relaunch_script(install@, argv.deep_view()),
{
    let ghost args = forwarded(argv.deep_view());
    let mut list = String::new();
    let mut i: usize = 1;
    while i < argv.len()
        invariant
            1 <= i,
            argv.len() >= 1 ==> i <= argv.len(),
            args == forwarded(argv.deep_view()),
            i <= argv.len() ==> list@ == quoted_list(args.subrange(0, i - 1)),
            argv.len() == 0 ==> list@ == Seq::<char>::empty(),
        decreases argv.len() - i,
    {
        let ghost before = args.subrange(0, i - 1);
        let ghost after = args.subrange(0, i as int);
        proof {
            assert(after.drop_last() == before);
            assert(after.last() == argv[i as int]@);
        }
        if i > 1 {
            list.append(",");
        }
        list.append("'\"");
        list.append(argv[i].as_str());
        list.append("\"'");
        proof {
            if i == 1 {
                assert(before.len() == 0);
                assert(list@ == quoted(after[0]));
            } else {
                assert(list@ == quoted_list(before) + ","@ + quoted(after.last()));
            }
        }
        i = i + 1;
    }
    proof {
        if argv.len() >= 1 {
            assert(args.subrange(0, argv.len() - 1) == args);
        }
    }
    let mut script = String::from_str("Start-Process -filepath '");
    script.append(install);
    script.append("' -verb runas -ArgumentList @(");
    script.append(list.as_str());
    script.append(")");
    RelaunchCommand { program: RELAUNCH_PROGRAM, flag: RELAUNCH_FLAG, script }
}

} // verus!
