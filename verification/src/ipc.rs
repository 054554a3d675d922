//! The command protocol spoken over the socket between the `rhisper` client
//! and the `rhispertoold` daemon: one byte per command, two for `Type`.
use vstd::prelude::*;

use crate::config::{join_path, joined};
use crate::literal::{decimal, push_decimal};
use crate::text::{chars_of, push_range};

verus! {

/// A command sent from the client to the daemon.
#[derive(Debug, Clone, Copy, PartialEq, Eq, Structural)]
pub enum Command {
    Paste,
    Type(u8),
    Backspace,
    RightAlt,
    LeftAlt,
    LeftCtrl,
    RightCtrl,
    LeftShift,
    RightShift,
    Super,
}

/// The tag byte of each command.
pub open spec fn tag_of(c: Command) -> u8 {
    match c {
        Command::Paste => 112,  // 'p'
        Command::Type(_) => 116,  // 't'
        Command::Backspace => 98,  // 'b'
        Command::RightAlt => 114,  // 'r'
        Command::LeftAlt => 76,  // 'L'
        Command::LeftCtrl => 67,  // 'C'
        Command::RightCtrl => 82,  // 'R'
        Command::LeftShift => 83,  // 'S'
        Command::RightShift => 84,  // 'T'
        Command::Super => 77,  // 'M'
    }
}

/// The two-byte buffer `encode` fills: the tag, then the typed character for
/// `Type` and 0 otherwise.
pub open spec fn encoding_of(c: Command) -> Seq<u8> {
    match c {
        Command::Type(b) => seq![tag_of(c), b],
        _ => seq![tag_of(c), 0u8],
    }
}

/// How many bytes of the encoding go on the wire.
pub open spec fn wire_len(c: Command) -> nat {
    match c {
        Command::Type(_) => 2,
        _ => 1,
    }
}

/// The bytes on the wire for `c`.
pub open spec fn wire_bytes(c: Command) -> Seq<u8> {
    encoding_of(c).take(wire_len(c) as int)
}

/// The command a received datagram stands for, if any.
pub open spec fn decoded(buf: Seq<u8>) -> Option<Command> {
    if buf.len() == 1 {
        let b = buf[0];
        if b == 112 {
            Some(Command::Paste)
        } else if b == 98 {
            Some(Command::Backspace)
        } else if b == 114 {
            Some(Command::RightAlt)
        } else if b == 76 {
            Some(Command::LeftAlt)
        } else if b == 67 {
            Some(Command::LeftCtrl)
        } else if b == 82 {
            Some(Command::RightCtrl)
        } else if b == 83 {
            Some(Command::LeftShift)
        } else if b == 84 {
            Some(Command::RightShift)
        } else if b == 77 {
            Some(Command::Super)
        } else {
            None
        }
    } else if buf.len() == 2 && buf[0] == 116 {
        Some(Command::Type(buf[1]))
    } else {
        None
    }
}

impl Command {
    /// The two-byte encoding of the command; only the first
    /// [`Command::encoded_len`] bytes are meaningful.
    pub fn encode(self) -> (r: [u8; 2])
        ensures
            r@ == encoding_of(self),
    {
        let r: [u8; 2] = match self {
            Command::Paste => [112u8, 0u8],
            Command::Type(c) => [116u8, c],
            Command::Backspace => [98u8, 0u8],
            Command::RightAlt => [114u8, 0u8],
            Command::LeftAlt => [76u8, 0u8],
            Command::LeftCtrl => [67u8, 0u8],
            Command::RightCtrl => [82u8, 0u8],
            Command::LeftShift => [83u8, 0u8],
            Command::RightShift => [84u8, 0u8],
            Command::Super => [77u8, 0u8],
        };
        assert(r@ =~= encoding_of(self));
        r
    }

    /// Number of meaningful bytes in `encode()`'s output for this command.
    pub fn encoded_len(self) -> (r: usize)
        ensures
            r == wire_len(self),
    {
        match self {
            Command::Type(_) => 2,
            _ => 1,
        }
    }

    /// The command a received datagram holds, or `None` for anything that
    /// is not exactly one encoded command.
    pub fn decode(buf: &[u8]) -> (r: Option<Command>)
        ensures
            r == decoded(buf@),
    {
        if buf.len() == 1 {
            let b = buf[0];
            if b == 112 {
                Some(Command::Paste)
            } else if b == 98 {
                Some(Command::Backspace)
            } else if b == 114 {
                Some(Command::RightAlt)
            } else if b == 76 {
                Some(Command::LeftAlt)
            } else if b == 67 {
                Some(Command::LeftCtrl)
            } else if b == 82 {
                Some(Command::RightCtrl)
            } else if b == 83 {
                Some(Command::LeftShift)
            } else if b == 84 {
                Some(Command::RightShift)
            } else if b == 77 {
                Some(Command::Super)
            } else {
                None
            }
        } else if buf.len() == 2 && buf[0] == 116 {
            Some(Command::Type(buf[1]))
        } else {
            None
        }
    }
}

/// Decoding the bytes a command puts on the wire gives back the command.
pub proof fn lemma_decode_encode(c: Command)
    ensures
        decoded(wire_bytes(c)) == Some(c),
{
}

/// The protocol is unambiguous: a datagram that decodes to `c` is exactly
/// the bytes `c` puts on the wire.
pub proof fn lemma_encode_decode(buf: Seq<u8>)
    ensures
        decoded(buf) matches Some(c) ==> wire_bytes(c) == buf,
{
    if let Some(c) = decoded(buf) {
        assert(wire_bytes(c) =~= buf);
    }
}

/// Where the socket lives: `rhisper.sock` in `$XDG_RUNTIME_DIR` when that is
/// set and not empty, else `/tmp/rhisper-<uid>.sock`.
pub open spec fn socket_path_of(runtime_dir: Option<Seq<char>>, uid: u32) -> Seq<char> {
    match runtime_dir {
        Some(d) if d.len() > 0 => joined(d, "rhisper.sock"@),
        _ => "/tmp/rhisper-"@ + decimal(uid as nat) + ".sock"@,
    }
}

/// The socket path, given `$XDG_RUNTIME_DIR` (`None` when unset) and the
/// user id.
pub fn socket_path(runtime_dir: Option<&str>, uid: u32) -> (r: String)
    ensures
        r@ == socket_path_of(
            match runtime_dir {
                Some(d) => Some(d@),
                None => None,
            },
            uid,
        ),
{
    match runtime_dir {
        Some(d) if !d.is_empty() => join_path(d, "rhisper.sock"),
        _ => {
            let mut out = String::from_str("/tmp/rhisper-");
            push_decimal(&mut out, uid as u64);
            let tail = chars_of(".sock");
            push_range(&mut out, &tail, 0, tail.len());
            proof {
                assert(tail@.subrange(0, tail@.len() as int) =~= tail@);
            }
            out
        },
    }
}

} // verus!
