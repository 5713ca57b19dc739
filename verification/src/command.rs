//! The commands a driver operation issues, and a model of what running them
//! does to the control lines.

use vstd::prelude::*;

verus! {

/// Electrical level of a control line.
#[derive(Clone, Copy, Debug, PartialEq, Eq, Structural)]
pub enum Level {
    Low,
    High,
}

/// The three discrete control lines of the shift register.
#[derive(Clone, Copy, Debug, PartialEq, Eq, Structural)]
pub enum Line {
    OutputEnable,
    Clear,
    Latch,
}

/// One hardware interaction. An operation of the driver is a sequence of
/// these; the layer that owns the pin, delay and bus handles performs them in
/// order and stops at the first fault.
#[derive(Clone, Debug, PartialEq, Eq)]
pub enum Command {
    /// Drive a control line to a level.
    SetLine { line: Line, level: Level },
    /// Suspend for at least this many microseconds.
    WaitMicros { micros: u32 },
    /// Write the bytes over the bus into the register's serial input.
    Write { data: Vec<u8> },
    /// Full-duplex bus transfer: shift the bytes in while sampling whatever
    /// the register shifts out into the caller's read buffer. How the two
    /// buffers' lengths are reconciled is the bus's own policy.
    Transfer { write: Vec<u8> },
}

/// Mathematical model of a [`Command`], with byte buffers as sequences.
pub enum CommandModel {
    SetLine { line: Line, level: Level },
    WaitMicros { micros: u32 },
    Write { data: Seq<u8> },
    Transfer { write: Seq<u8> },
}

impl View for Command {
    type V = CommandModel;

    open spec fn view(&self) -> CommandModel {
        match self {
            Command::SetLine { line, level } => CommandModel::SetLine {
                line: *line,
                level: *level,
            },
            Command::WaitMicros { micros } => CommandModel::WaitMicros { micros: *micros },
            Command::Write { data } => CommandModel::Write { data: data@ },
            Command::Transfer { write } => CommandModel::Transfer { write: write@ },
        }
    }
}

/// The models of a sequence of commands.
pub open spec fn models(cmds: Seq<Command>) -> Seq<CommandModel> {
    cmds.map_values(|c: Command| c@)
}

/// The level a control line holds after the commands run, given the level it
/// held before (`None` where it is unknown). Only `SetLine` on that very line
/// changes it; waits and bus traffic leave every line as it was.
pub open spec fn line_level_after(
    init: Option<Level>,
    cmds: Seq<CommandModel>,
    line: Line,
) -> Option<Level>
    decreases cmds.len(),
{
    if cmds.len() == 0 {
        init
    } else {
        let before = line_level_after(init, cmds.drop_last(), line);
        match cmds.last() {
            CommandModel::SetLine { line: l, level } => if l == line {
                Some(level)
            } else {
                before
            },
            _ => before,
        }
    }
}

} // verus!
