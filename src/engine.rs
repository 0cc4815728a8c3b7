use vstd::prelude::*;

verus! {

/// A scene's global force parameters, in hundredths: gravity acceleration `g`
/// and drag coefficient `c`. An absent value means that the force does not
/// apply in the scene at all.
#[derive(Debug, Clone, Copy, PartialEq, Eq, Structural)]
pub struct Variables {
    pub g: Option<i32>,
    pub c: Option<i32>,
}

impl Variables {
    pub fn new(g: Option<i32>, c: Option<i32>) -> (r: Variables)
        ensures
            r.g == g,
            r.c == c,
    {
        Variables { g, c }
    }
}

/// The two run-mode switches that the operator controls.
#[derive(Debug, Clone, Copy, PartialEq, Eq, Structural)]
pub struct RunMode {
    /// Suspends continuous motion.
    pub pause: bool,
    /// Bodies move only on explicit step commands.
    pub time_step_mode: bool,
}

/// A command given in time-step mode during one tick.
#[derive(Debug, Clone, Copy, PartialEq, Eq, Structural)]
pub enum StepCommand {
    Nothing,
    Forward,
    Backward,
}

/// How the bodies advance in one tick.
#[derive(Debug, Clone, Copy, PartialEq, Eq, Structural)]
pub enum Advance {
    /// Bodies do not move.
    Hold,
    /// One step of the frame time times the time multiplier.
    Frame,
    /// One step of the fixed increment.
    StepForward,
    /// One step of the negated fixed increment.
    StepBackward,
}

/// What the driver does in one tick. The collision sweep runs in every tick.
#[derive(Debug, Clone, Copy, PartialEq, Eq, Structural)]
pub struct TickPlan {
    pub advance: Advance,
    /// The elapsed-time counter grows by the frame time.
    pub clock_follows_frames: bool,
}

pub open spec fn spec_advance(mode: RunMode, command: StepCommand, backward_allowed: bool) -> Advance {
    if mode.time_step_mode {
        match command {
            StepCommand::Forward => Advance::StepForward,
            StepCommand::Backward => if backward_allowed {
                Advance::StepBackward
            } else {
                Advance::Hold
            },
            StepCommand::Nothing => Advance::Hold,
        }
    } else if mode.pause {
        Advance::Hold
    } else {
        Advance::Frame
    }
}

/// Decides one tick of the driver. In continuous mode bodies follow the frame
/// time unless paused, step commands are ignored, and the elapsed-time counter
/// follows the frames either way. In time-step mode the pause switch is
/// ignored, bodies and counter move only on step commands, and a backward step
/// is taken only where `backward_allowed` says that it keeps the counter from
/// going negative.
pub fn plan_tick(mode: RunMode, command: StepCommand, backward_allowed: bool) -> (r: TickPlan)
    ensures
        r.advance == spec_advance(mode, command, backward_allowed),
        r.clock_follows_frames == !mode.time_step_mode,
{
    let advance = if mode.time_step_mode {
        match command {
            StepCommand::Forward => Advance::StepForward,
            StepCommand::Backward => if backward_allowed {
                Advance::StepBackward
            } else {
                Advance::Hold
            },
            StepCommand::Nothing => Advance::Hold,
        }
    } else if mode.pause {
        Advance::Hold
    } else {
        Advance::Frame
    };
    TickPlan { advance, clock_follows_frames: !mode.time_step_mode }
}

} // verus!
