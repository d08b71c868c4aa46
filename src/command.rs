//! Decoding of the one-byte wire commands.
use vstd::prelude::*;

verus! {

/// Which of the three output lines a command drives.
#[derive(Clone, Copy, Debug, PartialEq, Eq, Structural)]
pub enum Command {
    Up,
    Down,
    Stop,
}

/// The byte sent back to a client whose command was not understood.
pub const NACK: u8 = 1;

/// The command that a byte stands for: `1` or `'u'` is up, `2` or `'d'` is
/// down, `3` or `'s'` is stop; every other byte stands for nothing.
pub open spec fn command_of(b: u8) -> Option<Command> {
    if b == 1 || b == 0x75 {
        Some(Command::Up)
    } else if b == 2 || b == 0x64 {
        Some(Command::Down)
    } else if b == 3 || b == 0x73 {
        Some(Command::Stop)
    } else {
        None
    }
}

/// Maps one received byte to the command it stands for, if any
/// (`0x75`, `0x64` and `0x73` are `'u'`, `'d'` and `'s'`).
pub fn decode(b: u8) -> (r: Option<Command>)
    ensures
        r == command_of(b),
{
    match b {
        1 | 0x75 => Some(Command::Up),
        2 | 0x64 => Some(Command::Down),
        3 | 0x73 => Some(Command::Stop),
        _ => None,
    }
}

/// What the server does with the byte it read from a connection.
#[derive(Clone, Copy, Debug, PartialEq, Eq, Structural)]
pub enum Reaction {
    /// Send `reply` back and touch no pin.
    Reject { reply: u8 },
    /// Close the connection both ways, then pulse the line of the command.
    Actuate(Command),
}

/// Decides how to answer one received byte: a known command is acted on
/// without any reply; anything else gets the single byte `NACK` back.
pub fn react(b: u8) -> (r: Reaction)
    ensures
        match command_of(b) {
            Some(c) => r == Reaction::Actuate(c),
            None => r == (Reaction::Reject { reply: NACK }),
        },
{
    match decode(b) {
        Some(c) => Reaction::Actuate(c),
        None => Reaction::Reject { reply: NACK },
    }
}

/// Every byte decodes to exactly one outcome, as the wire table gives it:
/// `1` and `'u'` to up, `2` and `'d'` to down, `3` and `'s'` to stop, and all
/// other bytes to nothing.
pub proof fn lemma_decode_table(b: u8)
    ensures
        command_of(b) == Some(Command::Up) <==> (b == 1 || b == 0x75),
        command_of(b) == Some(Command::Down) <==> (b == 2 || b == 0x64),
        command_of(b) == Some(Command::Stop) <==> (b == 3 || b == 0x73),
        command_of(b) is None <==> !(b == 1 || b == 2 || b == 3 || b == 0x75 || b == 0x64
            || b == 0x73),
{
}

} // verus!
