use vstd::prelude::*;

use crate::building::{construction_time, BuildingType};
use crate::percent::{percentage, percentage_of};

verus! {

/// Progress after adding `speed` to `progress`, stopping at `time`.
pub open spec fn clamped_add(progress: u32, speed: u32, time: u32) -> u32 {
    if progress as int + speed as int <= time as int {
        (progress + speed) as u32
    } else {
        time
    }
}

/// Progress after a whole series of updates, one per speed, in order.
pub open spec fn progress_after(progress: u32, time: u32, speeds: Seq<u32>) -> u32
    decreases speeds.len(),
{
    if speeds.len() == 0 {
        progress
    } else {
        progress_after(clamped_add(progress, speeds[0], time), time, speeds.drop_first())
    }
}

/// The state of a construction process, as contracts see it.
pub struct ConstructionView {
    pub building_type: BuildingType,
    pub progress: u32,
    pub construction_time: u32,
}

impl ConstructionView {
    /// Progress never exceeds the construction time.
    pub open spec fn wf(&self) -> bool {
        self.progress <= self.construction_time
    }

    pub open spec fn is_complete(&self) -> bool {
        self.progress == self.construction_time
    }

    /// This state after one update at `speed`.
    pub open spec fn updated(&self, speed: u32) -> ConstructionView {
        ConstructionView {
            progress: clamped_add(self.progress, speed, self.construction_time),
            ..*self
        }
    }
}

/// A fresh process toward `b`.
pub open spec fn fresh_process(b: BuildingType) -> ConstructionView {
    ConstructionView { building_type: b, progress: 0, construction_time: construction_time(b) }
}

/// Progress toward completing one building.
#[derive(Debug, Clone, Copy, PartialEq, Eq, Structural)]
pub struct ConstructionProcess {
    building_type: BuildingType,
    progress: u32,
    construction_time: u32,
}

impl View for ConstructionProcess {
    type V = ConstructionView;

    closed spec fn view(&self) -> ConstructionView {
        ConstructionView {
            building_type: self.building_type,
            progress: self.progress,
            construction_time: self.construction_time,
        }
    }
}

impl ConstructionProcess {
    /// A fresh process toward `building_type`, with no progress yet.
    pub fn new(building_type: BuildingType) -> (r: ConstructionProcess)
        ensures
            r@ == fresh_process(building_type),
    {
        ConstructionProcess {
            building_type,
            progress: 0,
            construction_time: building_type.get_construction_time(),
        }
    }

    /// Advances the process by `construction_speed`, stopping at the
    /// construction time; returns whether the building is now complete.
    pub fn update(&mut self, construction_speed: u32) -> (r: bool)
        requires
            old(self)@.wf(),
        ensures
            final(self)@ == old(self)@.updated(construction_speed),
            final(self)@.wf(),
            r == final(self)@.is_complete(),
    {
        if construction_speed >= self.construction_time - self.progress {
            self.progress = self.construction_time;
        } else {
            self.progress = self.progress + construction_speed;
        }
        self.progress >= self.construction_time
    }

    /// Progress as a whole percentage, rounded down.
    pub fn get_percentage(&self) -> (r: u32)
        requires
            self@.wf(),
        ensures
            r == percentage_of(self@.progress, self@.construction_time),
            r <= 100,
    {
        percentage(self.progress, self.construction_time)
    }

    pub fn building_type(&self) -> (r: BuildingType)
        ensures
            r == self@.building_type,
    {
        self.building_type
    }

    pub fn progress(&self) -> (r: u32)
        ensures
            r == self@.progress,
    {
        self.progress
    }

    pub fn construction_time(&self) -> (r: u32)
        ensures
            r == self@.construction_time,
    {
        self.construction_time
    }
}

/// However many updates a well-formed process receives, and whatever their
/// speeds, its progress stays within `0 ..= construction_time`.
pub proof fn lemma_progress_stays_bounded(progress: u32, time: u32, speeds: Seq<u32>)
    requires
        progress <= time,
    ensures
        progress_after(progress, time, speeds) <= time,
    decreases speeds.len(),
{
    if speeds.len() > 0 {
        lemma_progress_stays_bounded(clamped_add(progress, speeds[0], time), time, speeds.drop_first());
    }
}

} // verus!
