//! Which motion the worker illustration shows for the current work.
use crate::text::same_text;
use vstd::prelude::*;

verus! {

/// The illustration's motion.
#[derive(Clone, Copy, Debug, PartialEq, Eq, Structural)]
pub enum Motion {
    Collect,
    Inspect,
    Remove,
    Rest,
    Still,
}

/// The motion for the work in progress: still when nothing runs, resting
/// during a cooldown, working while removing, walking while collecting,
/// sensing while checking activity, and resting otherwise.
pub open spec fn spec_from_work(active: bool, waiting: bool, phase: Seq<char>, removing: bool) -> Motion {
    if !active {
        Motion::Still
    } else if waiting {
        Motion::Rest
    } else if removing {
        Motion::Remove
    } else if phase == "following"@ || phase == "followers"@ {
        Motion::Collect
    } else if phase == "inspect"@ {
        Motion::Inspect
    } else {
        Motion::Rest
    }
}

impl Motion {
    pub fn from_work(active: bool, waiting: bool, phase: &str, removing: bool) -> (r: Self)
        ensures
            r == spec_from_work(active, waiting, phase@, removing),
    {
        if !active {
            Motion::Still
        } else if waiting {
            Motion::Rest
        } else if removing {
            Motion::Remove
        } else if same_text(phase, "following") || same_text(phase, "followers") {
            Motion::Collect
        } else if same_text(phase, "inspect") {
            Motion::Inspect
        } else {
            Motion::Rest
        }
    }

    /// The caption shown under the illustration.
    pub fn label(self) -> (r: &'static str)
        ensures
            r@ == match self {
                Motion::Collect => "WALKING"@,
                Motion::Inspect => "SENSING"@,
                Motion::Remove => "WORKING"@,
                Motion::Rest => "RESTING"@,
                Motion::Still => "STILL"@,
            },
    {
        match self {
            Motion::Collect => "WALKING",
            Motion::Inspect => "SENSING",
            Motion::Remove => "WORKING",
            Motion::Rest => "RESTING",
            Motion::Still => "STILL",
        }
    }
}

} // verus!
