use vstd::prelude::*;

verus! {

/// What the `quietwatch` command was asked to do.
#[derive(Clone, Copy, Debug, PartialEq, Eq, Structural)]
pub enum CliCommand {
    /// No arguments: show status and the default leveling settings.
    Status,
    /// `--help` or `-h`.
    Help,
    /// `--devices`: list the devices of the null backend.
    Devices,
    /// Anything else.
    Unrecognized,
}

/// The arguments as character sequences.
pub open spec fn argument_views(args: Seq<String>) -> Seq<Seq<char>> {
    args.map_values(|arg: String| arg@)
}

/// The command a list of arguments (program name excluded) selects.
pub open spec fn command_for(args: Seq<Seq<char>>) -> CliCommand {
    if args.len() == 0 {
        CliCommand::Status
    } else if args.len() == 1 && (args[0] == "--help"@ || args[0] == "-h"@) {
        CliCommand::Help
    } else if args.len() == 1 && args[0] == "--devices"@ {
        CliCommand::Devices
    } else {
        CliCommand::Unrecognized
    }
}

/// Picks the command for the arguments that follow the program name.
pub fn parse_command(args: &Vec<String>) -> (command: CliCommand)
    ensures
        command == command_for(argument_views(args@)),
        args@.len() == 0 <==> command == CliCommand::Status,
        args@.len() >= 2 ==> command == CliCommand::Unrecognized,
        command == CliCommand::Help <==> args@.len() == 1 && (args@[0]@ == "--help"@ || args@[0]@
            == "-h"@),
        command == CliCommand::Devices <==> args@.len() == 1 && args@[0]@ == "--devices"@,
{
    let ghost views = argument_views(args@);
    if args.len() == 0 {
        return CliCommand::Status;
    }
    if args.len() != 1 {
        return CliCommand::Unrecognized;
    }
    assert(views[0] == args@[0]@);
    proof {
        reveal_strlit("--devices");
        reveal_strlit("--help");
        reveal_strlit("-h");
        assert("--devices"@.len() == 9);
        assert("--help"@.len() == 6);
        assert("-h"@.len() == 2);
    }
    let first = &args[0];
    if *first == "--help".to_owned() || *first == "-h".to_owned() {
        CliCommand::Help
    } else if *first == "--devices".to_owned() {
        CliCommand::Devices
    } else {
        CliCommand::Unrecognized
    }
}

/// `parts` joined with single spaces.
pub open spec fn joined(parts: Seq<Seq<char>>) -> Seq<char>
    decreases parts.len(),
{
    if parts.len() == 0 {
        Seq::empty()
    } else if parts.len() == 1 {
        parts[0]
    } else {
        joined(parts.drop_last()) + " "@ + parts.last()
    }
}

/// The complaint printed for arguments the command does not understand.
pub fn unknown_arguments_message(args: &Vec<String>) -> (message: String)
    ensures
        message@ == "unknown arguments: "@ + joined(argument_views(args@)),
{
    let ghost views = argument_views(args@);
    let mut text = String::new();
    let mut i: usize = 0;
    while i < args.len()
        invariant
            0 <= i <= args@.len(),
            views == argument_views(args@),
            views.len() == args@.len(),
            text@ == joined(views.take(i as int)),
        decreases args@.len() - i,
    {
        let ghost before = text@;
        if i != 0 {
            text.append(" ");
        }
        text.append(args[i].as_str());
        proof {
            assert(views.take(i + 1).drop_last() =~= views.take(i as int));
            assert(views.take(i + 1).last() == args@[i as int]@);
            if i == 0 {
                assert(before =~= Seq::<char>::empty());
                assert(text@ =~= views.take(1)[0]);
            }
        }
        i = i + 1;
    }
    assert(views.take(args@.len() as int) =~= views);
    let mut message = "unknown arguments: ".to_owned();
    message.append(text.as_str());
    message
}

} // verus!
