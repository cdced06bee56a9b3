use vstd::prelude::*;

verus! {

/// A control command for the engine's blocking run loop, delivered by
/// writing one byte to the command descriptor of the cancellation channel.
#[derive(Debug, Clone, Copy, PartialEq, Eq, Structural)]
pub enum Command {
    Cancel,
    Detach,
    Pause,
    Stats,
}

/// The engine's command byte for each [`Command`], as its control protocol
/// defines them.
pub open spec fn command_byte(cmd: Command) -> u8 {
    match cmd {
        Command::Cancel => 120,
        Command::Detach => 68,
        Command::Pause => 112,
        Command::Stats => 83,
    }
}

impl Command {
    pub fn to_byte(&self) -> (r: u8)
        ensures
            r == command_byte(*self),
    {
        match *self {
            Command::Cancel => 120,
            Command::Detach => 68,
            Command::Pause => 112,
            Command::Stats => 83,
        }
    }
}

/// A pending write of one command byte to a command descriptor; the caller
/// owning the descriptor performs the write.
#[derive(Debug, Clone, Copy, PartialEq, Eq, Structural)]
pub struct CommandSend {
    pub fd: i32,
    pub byte: u8,
}

pub const SIGHUP: i32 = 1;

pub const SIGINT: i32 = 2;

pub const SIGUSR1: i32 = 10;

pub const SIGUSR2: i32 = 12;

pub const SIGTERM: i32 = 15;

/// Routing of process signals to engine commands: interrupt and terminate
/// cancel the session, hangup detaches it, and the two user signals pause it
/// or request statistics. Every other signal is ignored.
pub fn command_for_signal(sig: i32) -> (r: Option<Command>)
    ensures
        r == if sig == SIGINT || sig == SIGTERM {
            Some(Command::Cancel)
        } else if sig == SIGHUP {
            Some(Command::Detach)
        } else if sig == SIGUSR2 {
            Some(Command::Pause)
        } else if sig == SIGUSR1 {
            Some(Command::Stats)
        } else {
            None::<Command>
        },
{
    if sig == SIGINT || sig == SIGTERM {
        Some(Command::Cancel)
    } else if sig == SIGHUP {
        Some(Command::Detach)
    } else if sig == SIGUSR2 {
        Some(Command::Pause)
    } else if sig == SIGUSR1 {
        Some(Command::Stats)
    } else {
        None
    }
}

} // verus!
