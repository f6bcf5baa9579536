//! The run of the camera from power-up to halt.
//!
//! The memory is identified and brought up, the sensor is identified and
//! configured, and then each shot takes a number, captures a frame and
//! writes it to the card. Nothing is tried twice: the first stage that
//! fails ends the run, and the status light tells which it was.

use vstd::prelude::*;

verus! {

/// What ended a run.
#[derive(Debug, Clone, Copy, PartialEq, Eq, Structural)]
pub enum Fault {
    /// The memory did not identify as a known good die, or did not come up.
    Memory,
    /// The sensor is not the one the firmware drives.
    UnknownSensor,
    /// The sensor could not be configured.
    SensorInit,
    /// The image counter could not be read or written.
    Counter,
    /// A capture failed.
    Capture,
    /// An image could not be written to the card.
    ImageWrite,
}

/// How many times the status light blinks for a fault.
pub open spec fn blinks_of(fault: Fault) -> u8 {
    match fault {
        Fault::Memory => 1,
        Fault::UnknownSensor => 2,
        Fault::SensorInit => 3,
        Fault::Counter => 4,
        Fault::Capture => 5,
        Fault::ImageWrite => 6,
    }
}

/// How many times the status light blinks for a fault.
pub fn blinks(fault: Fault) -> (count: u8)
    ensures
        count == blinks_of(fault),
        count >= 1,
{
    match fault {
        Fault::Memory => 1,
        Fault::UnknownSensor => 2,
        Fault::SensorInit => 3,
        Fault::Counter => 4,
        Fault::Capture => 5,
        Fault::ImageWrite => 6,
    }
}

/// The light tells the faults apart: no two blink the same number of times.
pub proof fn lemma_blinks_tell_apart(first: Fault, second: Fault)
    requires
        first != second,
    ensures
        blinks_of(first) != blinks_of(second),
{
}

/// Where a run stands.
#[derive(Debug, Clone, Copy, PartialEq, Eq, Structural)]
pub enum Stage {
    /// Read the memory's identity and check the mark of its die.
    CheckMemory,
    /// Bring the memory up.
    BringUpMemory,
    /// Read the sensor's chip version and compare it.
    CheckSensor,
    /// Configure the sensor.
    ConfigureSensor,
    /// Take the number of the shot from the image counter.
    TakeNumber { shot: usize },
    /// Capture the frame of the shot.
    Capture { shot: usize },
    /// Write the frame of the shot to the card.
    WriteImage { shot: usize },
    /// Every shot is on the card.
    Complete,
    /// The run has failed: blink and halt.
    Halted(Fault),
}

/// The fault that a failure in a stage is.
pub open spec fn fault_of(stage: Stage) -> Option<Fault> {
    match stage {
        Stage::CheckMemory => Some(Fault::Memory),
        Stage::BringUpMemory => Some(Fault::Memory),
        Stage::CheckSensor => Some(Fault::UnknownSensor),
        Stage::ConfigureSensor => Some(Fault::SensorInit),
        Stage::TakeNumber { .. } => Some(Fault::Counter),
        Stage::Capture { .. } => Some(Fault::Capture),
        Stage::WriteImage { .. } => Some(Fault::ImageWrite),
        Stage::Complete => None,
        Stage::Halted(_) => None,
    }
}

/// The stage that begins shot `shot` of `shots`, or the end of the run.
pub open spec fn shot_or_end(shot: int, shots: usize) -> Stage {
    if shot < shots {
        Stage::TakeNumber { shot: shot as usize }
    } else {
        Stage::Complete
    }
}

/// The stage that follows `stage` in a run of `shots` shots, given whether
/// `stage` went well. A stage that fails halts the run with its fault; a
/// run that is complete or halted stays so.
pub open spec fn following(stage: Stage, shots: usize, went_well: bool) -> Stage {
    match stage {
        Stage::Complete => stage,
        Stage::Halted(_) => stage,
        _ => if !went_well {
            Stage::Halted(fault_of(stage)->Some_0)
        } else {
            match stage {
                Stage::CheckMemory => Stage::BringUpMemory,
                Stage::BringUpMemory => Stage::CheckSensor,
                Stage::CheckSensor => Stage::ConfigureSensor,
                Stage::ConfigureSensor => shot_or_end(0, shots),
                Stage::TakeNumber { shot } => Stage::Capture { shot },
                Stage::Capture { shot } => Stage::WriteImage { shot },
                Stage::WriteImage { shot } => shot_or_end(shot + 1, shots),
                _ => stage,
            }
        },
    }
}

/// The run of the camera.
pub struct Session {
    stage: Stage,
    shots: usize,
}

impl Session {
    /// The stage the run is at.
    pub closed spec fn stage_of(&self) -> Stage {
        self.stage
    }

    /// The number of shots the run takes.
    pub closed spec fn shots_of(&self) -> usize {
        self.shots
    }

    /// A run of `shots` shots, at its first stage.
    pub fn new(shots: usize) -> (session: Self)
        ensures
            session.stage_of() == Stage::CheckMemory,
            session.shots_of() == shots,
    {
        Session { stage: Stage::CheckMemory, shots }
    }

    /// The stage the run is at.
    pub fn stage(&self) -> (stage: Stage)
        ensures
            stage == self.stage_of(),
    {
        self.stage
    }

    /// Takes how the stage went and moves the run on.
    pub fn advance(&mut self, went_well: bool) -> (stage: Stage)
        ensures
            stage == following(old(self).stage_of(), old(self).shots_of(), went_well),
            final(self).stage_of() == stage,
            final(self).shots_of() == old(self).shots_of(),
    {
        let shots = self.shots;
        let stage = match self.stage {
            Stage::Complete => Stage::Complete,
            Stage::Halted(fault) => Stage::Halted(fault),
            Stage::CheckMemory => if went_well {
                Stage::BringUpMemory
            } else {
                Stage::Halted(Fault::Memory)
            },
            Stage::BringUpMemory => if went_well {
                Stage::CheckSensor
            } else {
                Stage::Halted(Fault::Memory)
            },
            Stage::CheckSensor => if went_well {
                Stage::ConfigureSensor
            } else {
                Stage::Halted(Fault::UnknownSensor)
            },
            Stage::ConfigureSensor => if !went_well {
                Stage::Halted(Fault::SensorInit)
            } else if 0 < shots {
                Stage::TakeNumber { shot: 0 }
            } else {
                Stage::Complete
            },
            Stage::TakeNumber { shot } => if went_well {
                Stage::Capture { shot }
            } else {
                Stage::Halted(Fault::Counter)
            },
            Stage::Capture { shot } => if went_well {
                Stage::WriteImage { shot }
            } else {
                Stage::Halted(Fault::Capture)
            },
            Stage::WriteImage { shot } => if !went_well {
                Stage::Halted(Fault::ImageWrite)
            } else if shot < shots && shot + 1 < shots {
                Stage::TakeNumber { shot: shot + 1 }
            } else {
                Stage::Complete
            },
        };
        self.stage = stage;
        stage
    }
}

/// A run that has halted stays halted with the same fault, and a run goes
/// on only from a stage that went well: there is no second try and no way
/// past a failure.
pub proof fn lemma_failure_is_final(stage: Stage, shots: usize, first: bool, second: bool)
    ensures
        stage is Halted ==> following(stage, shots, first) == stage,
        stage is Complete ==> following(stage, shots, first) == stage,
        !first && !(stage is Complete) && !(stage is Halted) ==> following(stage, shots, first)
            == Stage::Halted(fault_of(stage)->Some_0),
        !first ==> following(following(stage, shots, first), shots, second) == following(
            stage,
            shots,
            first,
        ),
{
}

} // verus!
