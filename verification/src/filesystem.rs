//! Writing the single image of a boot to the card, under a short name.

use crate::sdmmc::Progress;
use crate::sdmmc::Step;
use crate::sdmmc::begin;
use crate::sdmmc::follow;
use crate::sdmmc::next;
use crate::sdmmc::short_name;
use crate::sdmmc::short_name_of;
use crate::sdmmc::start;
use vstd::prelude::*;

verus! {

/// The writer of the single image of a boot.
pub struct FileSystem {
    progress: Progress,
}

impl FileSystem {
    /// What the writer keeps.
    pub closed spec fn view(&self) -> Progress {
        self.progress
    }

    /// A writer with nothing under way.
    pub fn new() -> (writer: Self)
        ensures
            writer@ == (Progress { busy: false, cursor: 0, number: 0 }),
    {
        FileSystem { progress: Progress { busy: false, cursor: 0, number: 0 } }
    }

    /// Starts writing image `number`: the first step to take.
    pub fn write_new_image(&mut self, number: u16) -> (step: Step)
        ensures
            (final(self)@, step) == begin(number),
    {
        let (progress, step) = start(number);
        self.progress = progress;
        step
    }

    /// Takes how the last step went and says what to do next.
    pub fn advance(&mut self, done: bool) -> (step: Step)
        ensures
            (final(self)@, step) == next(old(self)@, done),
    {
        let (progress, step) = follow(self.progress, done);
        self.progress = progress;
        step
    }

    /// The name of the file that is being written, or was written last.
    pub fn file_name(&self) -> (name: Vec<u8>)
        ensures
            name@ == short_name_of(self@.number),
    {
        short_name(self.progress.number)
    }
}

} // verus!
