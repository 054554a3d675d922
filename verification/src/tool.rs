//! The `rhispertool` command line: which mode the binary runs in, and the
//! command a client invocation sends to the daemon.
use vstd::prelude::*;

use crate::ipc::Command;
use crate::text::{chars_of, str_eq};

verus! {

/// Whether the binary runs as the daemon: invoked as `rhispertoold`, or
/// with `--daemon` as its first argument.
pub fn is_daemon(program: &str, first_arg: Option<&str>) -> (r: bool)
    ensures
        r == (program@ == "rhispertoold"@ || (match first_arg {
            Some(a) => a@ == "--daemon"@,
            None => false,
        })),
{
    if str_eq(program, "rhispertoold") {
        return true;
    }
    match first_arg {
        Some(a) => str_eq(a, "--daemon"),
        None => false,
    }
}

/// Why a client invocation sends nothing.
#[derive(Debug, Clone, PartialEq, Eq)]
pub enum ClientError {
    /// No command was given.
    MissingCommand,
    /// `type` needs exactly one ASCII character.
    TypeNeedsOneCharacter,
    /// The command is not one the daemon knows.
    UnknownCommand(String),
}

impl ClientError {
    /// The error line printed before the usage text, if any.
    pub fn message(&self) -> (r: Option<String>)
        ensures
            match self {
                ClientError::MissingCommand => r is None,
                ClientError::TypeNeedsOneCharacter => r matches Some(m) && m@
                    == "Error: 'type' requires exactly one character argument"@,
                ClientError::UnknownCommand(c) => r matches Some(m) && m@ == "Error: Unknown command '"@
                    + c@ + "'"@,
            },
    {
        match self {
            ClientError::MissingCommand => None,
            ClientError::TypeNeedsOneCharacter => Some(
                String::from_str("Error: 'type' requires exactly one character argument"),
            ),
            ClientError::UnknownCommand(c) => {
                let mut m = String::from_str("Error: Unknown command '");
                let cv = chars_of(c.as_str());
                crate::text::push_range(&mut m, &cv, 0, cv.len());
                m.push('\'');
                proof {
                    assert(cv@.subrange(0, cv@.len() as int) =~= cv@);
                    reveal_strlit("'");
                    assert(m@ =~= "Error: Unknown command '"@ + c@ + "'"@);
                }
                Some(m)
            },
        }
    }
}

/// What a client invocation amounts to.
pub enum ClientOutcome {
    Send(Command),
    MissingCommand,
    TypeNeedsOneCharacter,
    UnknownCommand(Seq<char>),
}

/// The outcome a result stands for.
pub open spec fn outcome_of(r: Result<Command, ClientError>) -> ClientOutcome {
    match r {
        Ok(c) => ClientOutcome::Send(c),
        Err(ClientError::MissingCommand) => ClientOutcome::MissingCommand,
        Err(ClientError::TypeNeedsOneCharacter) => ClientOutcome::TypeNeedsOneCharacter,
        Err(ClientError::UnknownCommand(c)) => ClientOutcome::UnknownCommand(c@),
    }
}

/// The command the arguments name (the program name first): the named key
/// commands, or `type` with exactly one further argument of one ASCII
/// character.
pub open spec fn client_outcome(args: Seq<Seq<char>>) -> ClientOutcome {
    if args.len() < 2 {
        ClientOutcome::MissingCommand
    } else {
        let c = args[1];
        if c == "paste"@ {
            ClientOutcome::Send(Command::Paste)
        } else if c == "backspace"@ {
            ClientOutcome::Send(Command::Backspace)
        } else if c == "rightalt"@ {
            ClientOutcome::Send(Command::RightAlt)
        } else if c == "leftalt"@ {
            ClientOutcome::Send(Command::LeftAlt)
        } else if c == "leftctrl"@ {
            ClientOutcome::Send(Command::LeftCtrl)
        } else if c == "rightctrl"@ {
            ClientOutcome::Send(Command::RightCtrl)
        } else if c == "leftshift"@ {
            ClientOutcome::Send(Command::LeftShift)
        } else if c == "rightshift"@ {
            ClientOutcome::Send(Command::RightShift)
        } else if c == "super"@ {
            ClientOutcome::Send(Command::Super)
        } else if c == "type"@ {
            if args.len() != 3 || args[2].len() != 1 || (args[2][0] as u32) >= 128 {
                ClientOutcome::TypeNeedsOneCharacter
            } else {
                ClientOutcome::Send(Command::Type((args[2][0] as u32) as u8))
            }
        } else {
            ClientOutcome::UnknownCommand(c)
        }
    }
}

/// The command a client invocation sends, from its arguments (the
/// program name first).
pub fn client_command(args: &Vec<String>) -> (r: Result<Command, ClientError>)
    ensures
        outcome_of(r) == client_outcome(args@.map_values(|s: String| s@)),
{
    let ghost views = args@.map_values(|s: String| s@);
    if args.len() < 2 {
        return Err(ClientError::MissingCommand);
    }
    let c = args[1].as_str();
    assert(views[1] == c@);
    if str_eq(c, "paste") {
        Ok(Command::Paste)
    } else if str_eq(c, "backspace") {
        Ok(Command::Backspace)
    } else if str_eq(c, "rightalt") {
        Ok(Command::RightAlt)
    } else if str_eq(c, "leftalt") {
        Ok(Command::LeftAlt)
    } else if str_eq(c, "leftctrl") {
        Ok(Command::LeftCtrl)
    } else if str_eq(c, "rightctrl") {
        Ok(Command::RightCtrl)
    } else if str_eq(c, "leftshift") {
        Ok(Command::LeftShift)
    } else if str_eq(c, "rightshift") {
        Ok(Command::RightShift)
    } else if str_eq(c, "super") {
        Ok(Command::Super)
    } else if str_eq(c, "type") {
        if args.len() != 3 {
            return Err(ClientError::TypeNeedsOneCharacter);
        }
        let arg = chars_of(args[2].as_str());
        assert(views[2] == arg@);
        if arg.len() != 1 || (arg[0] as u32) >= 128 {
            Err(ClientError::TypeNeedsOneCharacter)
        } else {
            Ok(Command::Type((arg[0] as u32) as u8))
        }
    } else {
        Err(ClientError::UnknownCommand(args[1].clone()))
    }
}

/// The name a key command has on the command line.
pub open spec fn command_name(c: Command) -> Seq<char> {
    match c {
        Command::Paste => "paste"@,
        Command::Type(_) => "type"@,
        Command::Backspace => "backspace"@,
        Command::RightAlt => "rightalt"@,
        Command::LeftAlt => "leftalt"@,
        Command::LeftCtrl => "leftctrl"@,
        Command::RightCtrl => "rightctrl"@,
        Command::LeftShift => "leftshift"@,
        Command::RightShift => "rightshift"@,
        Command::Super => "super"@,
    }
}

/// Naming a key command sends that command, whatever follows; `type`
/// with one ASCII character sends that character.
pub proof fn lemma_client_names(args: Seq<Seq<char>>, c: Command)
    requires
        args.len() >= 2,
        args[1] == command_name(c),
    ensures
        !(c is Type) ==> client_outcome(args) == ClientOutcome::Send(c),
        c is Type && args.len() == 3 && args[2].len() == 1 && (args[2][0] as u32) < 128 ==> client_outcome(args)
            == ClientOutcome::Send(Command::Type((args[2][0] as u32) as u8)),
{
    reveal_strlit("paste");
    reveal_strlit("backspace");
    reveal_strlit("rightalt");
    reveal_strlit("leftalt");
    reveal_strlit("leftctrl");
    reveal_strlit("rightctrl");
    reveal_strlit("leftshift");
    reveal_strlit("rightshift");
    reveal_strlit("super");
    reveal_strlit("type");
    match c {
        Command::Paste => {
            
        },
        Command::Backspace => {
            assert("backspace"@.len() != "paste"@.len());
            assert("backspace"@ != "paste"@);
        },
        Command::RightAlt => {
            assert("rightalt"@.len() != "paste"@.len());
            assert("rightalt"@ != "paste"@);
            assert("rightalt"@.len() != "backspace"@.len());
            assert("rightalt"@ != "backspace"@);
        },
        Command::LeftAlt => {
            assert("leftalt"@.len() != "paste"@.len());
            assert("leftalt"@ != "paste"@);
            assert("leftalt"@.len() != "backspace"@.len());
            assert("leftalt"@ != "backspace"@);
            assert("leftalt"@.len() != "rightalt"@.len());
            assert("leftalt"@ != "rightalt"@);
        },
        Command::LeftCtrl => {
            assert("leftctrl"@.len() != "paste"@.len());
            assert("leftctrl"@ != "paste"@);
            assert("leftctrl"@.len() != "backspace"@.len());
            assert("leftctrl"@ != "backspace"@);
            assert("leftctrl"@[0] != "rightalt"@[0]);
            assert("leftctrl"@ != "rightalt"@);
            assert("leftctrl"@.len() != "leftalt"@.len());
            assert("leftctrl"@ != "leftalt"@);
        },
        Command::RightCtrl => {
            assert("rightctrl"@.len() != "paste"@.len());
            assert("rightctrl"@ != "paste"@);
            assert("rightctrl"@[0] != "backspace"@[0]);
            assert("rightctrl"@ != "backspace"@);
            assert("rightctrl"@.len() != "rightalt"@.len());
            assert("rightctrl"@ != "rightalt"@);
            assert("rightctrl"@.len() != "leftalt"@.len());
            assert("rightctrl"@ != "leftalt"@);
            assert("rightctrl"@.len() != "leftctrl"@.len());
            assert("rightctrl"@ != "leftctrl"@);
        },
        Command::LeftShift => {
            assert("leftshift"@.len() != "paste"@.len());
            assert("leftshift"@ != "paste"@);
            assert("leftshift"@[0] != "backspace"@[0]);
            assert("leftshift"@ != "backspace"@);
            assert("leftshift"@.len() != "rightalt"@.len());
            assert("leftshift"@ != "rightalt"@);
            assert("leftshift"@.len() != "leftalt"@.len());
            assert("leftshift"@ != "leftalt"@);
            assert("leftshift"@.len() != "leftctrl"@.len());
            assert("leftshift"@ != "leftctrl"@);
            assert("leftshift"@[0] != "rightctrl"@[0]);
            assert("leftshift"@ != "rightctrl"@);
        },
        Command::RightShift => {
            assert("rightshift"@.len() != "paste"@.len());
            assert("rightshift"@ != "paste"@);
            assert("rightshift"@.len() != "backspace"@.len());
            assert("rightshift"@ != "backspace"@);
            assert("rightshift"@.len() != "rightalt"@.len());
            assert("rightshift"@ != "rightalt"@);
            assert("rightshift"@.len() != "leftalt"@.len());
            assert("rightshift"@ != "leftalt"@);
            assert("rightshift"@.len() != "leftctrl"@.len());
            assert("rightshift"@ != "leftctrl"@);
            assert("rightshift"@.len() != "rightctrl"@.len());
            assert("rightshift"@ != "rightctrl"@);
            assert("rightshift"@.len() != "leftshift"@.len());
            assert("rightshift"@ != "leftshift"@);
        },
        Command::Super => {
            assert("super"@[0] != "paste"@[0]);
            assert("super"@ != "paste"@);
            assert("super"@.len() != "backspace"@.len());
            assert("super"@ != "backspace"@);
            assert("super"@.len() != "rightalt"@.len());
            assert("super"@ != "rightalt"@);
            assert("super"@.len() != "leftalt"@.len());
            assert("super"@ != "leftalt"@);
            assert("super"@.len() != "leftctrl"@.len());
            assert("super"@ != "leftctrl"@);
            assert("super"@.len() != "rightctrl"@.len());
            assert("super"@ != "rightctrl"@);
            assert("super"@.len() != "leftshift"@.len());
            assert("super"@ != "leftshift"@);
            assert("super"@.len() != "rightshift"@.len());
            assert("super"@ != "rightshift"@);
        },
        Command::Type(_) => {
            assert("type"@.len() != "paste"@.len());
            assert("type"@ != "paste"@);
            assert("type"@.len() != "backspace"@.len());
            assert("type"@ != "backspace"@);
            assert("type"@.len() != "rightalt"@.len());
            assert("type"@ != "rightalt"@);
            assert("type"@.len() != "leftalt"@.len());
            assert("type"@ != "leftalt"@);
            assert("type"@.len() != "leftctrl"@.len());
            assert("type"@ != "leftctrl"@);
            assert("type"@.len() != "rightctrl"@.len());
            assert("type"@ != "rightctrl"@);
            assert("type"@.len() != "leftshift"@.len());
            assert("type"@ != "leftshift"@);
            assert("type"@.len() != "rightshift"@.len());
            assert("type"@ != "rightshift"@);
            assert("type"@.len() != "super"@.len());
            assert("type"@ != "super"@);
        },
    }
}

} // verus!
