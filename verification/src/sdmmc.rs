//! Writing an image to the card.
//!
//! An image goes to a file of its own in the root directory of the first
//! volume, named after its number. The file is opened, created or cut to
//! nothing, written, flushed and closed; the first step that fails ends the
//! writing. This module names the file and the steps; the caller performs
//! them.

use vstd::prelude::*;

verus! {

/// The clock of the bus to the card, in hertz.
pub const SPI_FREQUENCY: u32 = 24_000_000;

/// The volume that images are written to.
pub const VOLUME: usize = 0;

/// The length of a file name.
pub const NAME_LENGTH: usize = 11;

/// The character of one decimal digit of `number`: the digit that counts
/// `scale`s.
pub open spec fn digit(number: int, scale: int) -> u8 {
    (0x30 + (number / scale) % 10) as u8
}

/// The name of the file of image `number`: `IM`, the number in five
/// digits, and `.RAW`.
pub open spec fn image_name_of(number: u16) -> Seq<u8> {
    seq![
        0x49u8,
        0x4Du8,
        digit(number as int, 10000),
        digit(number as int, 1000),
        digit(number as int, 100),
        digit(number as int, 10),
        digit(number as int, 1),
        0x2Eu8,
        0x52u8,
        0x41u8,
        0x57u8,
    ]
}

/// The short name of the file of image `number`: `IMG_`, the last three
/// digits of the number, and `.RAW`.
pub open spec fn short_name_of(number: u16) -> Seq<u8> {
    seq![
        0x49u8,
        0x4Du8,
        0x47u8,
        0x5Fu8,
        digit(number as int, 100),
        digit(number as int, 10),
        digit(number as int, 1),
        0x2Eu8,
        0x52u8,
        0x41u8,
        0x57u8,
    ]
}

fn digit_of(number: u16, scale: u16) -> (character: u8)
    requires
        scale > 0,
    ensures
        character == digit(number as int, scale as int),
        0x30 <= character <= 0x39,
{
    (0x30 + (number / scale) % 10) as u8
}

/// The name of the file of image `number`, in ASCII.
pub fn image_name(number: u16) -> (name: Vec<u8>)
    ensures
        name@ == image_name_of(number),
        name@.len() == NAME_LENGTH,
{
    let mut name: Vec<u8> = Vec::new();
    name.push(0x49);
    name.push(0x4D);
    name.push(digit_of(number, 10000));
    name.push(digit_of(number, 1000));
    name.push(digit_of(number, 100));
    name.push(digit_of(number, 10));
    name.push(digit_of(number, 1));
    name.push(0x2E);
    name.push(0x52);
    name.push(0x41);
    name.push(0x57);
    name
}

/// The short name of the file of image `number`, in ASCII.
pub fn short_name(number: u16) -> (name: Vec<u8>)
    ensures
        name@ == short_name_of(number),
        name@.len() == NAME_LENGTH,
{
    let mut name: Vec<u8> = Vec::new();
    name.push(0x49);
    name.push(0x4D);
    name.push(0x47);
    name.push(0x5F);
    name.push(digit_of(number, 100));
    name.push(digit_of(number, 10));
    name.push(digit_of(number, 1));
    name.push(0x2E);
    name.push(0x52);
    name.push(0x41);
    name.push(0x57);
    name
}

/// Every character of a name is a capital letter, a digit, a full stop or
/// an underscore.
pub proof fn lemma_name_characters(number: u16, index: int)
    requires
        0 <= index < 11,
    ensures
        ({
            let c = image_name_of(number)[index];
            (0x41 <= c <= 0x5A) || (0x30 <= c <= 0x39) || c == 0x2E
        }),
        ({
            let c = short_name_of(number)[index];
            (0x41 <= c <= 0x5A) || (0x30 <= c <= 0x39) || c == 0x2E || c == 0x5F
        }),
{
}

/// A number is what its five decimal digits say.
proof fn lemma_digits(x: int)
    requires
        0 <= x < 65536,
    ensures
        x == (x / 10000) * 10000 + ((x / 1000) % 10) * 1000 + ((x / 100) % 10) * 100 + ((x / 10)
            % 10) * 10 + x % 10,
        (x / 10000) % 10 == x / 10000,
{
    let tens = x / 10;
    let hundreds = x / 100;
    let thousands = x / 1000;
    assert(hundreds == tens / 10);
    assert(thousands == hundreds / 10);
    assert(x / 10000 == thousands / 10);
    assert(x == tens * 10 + x % 10);
    assert(tens == hundreds * 10 + tens % 10);
    assert(hundreds == thousands * 10 + hundreds % 10);
    assert(thousands == (x / 10000) * 10 + thousands % 10);
}

/// Images whose numbers differ have files whose names differ.
pub proof fn lemma_image_names_differ(first: u16, second: u16)
    requires
        first != second,
    ensures
        image_name_of(first) != image_name_of(second),
{
    let a = image_name_of(first);
    let b = image_name_of(second);
    if a == b {
        assert(a[2] == b[2] && a[3] == b[3] && a[4] == b[4] && a[5] == b[5] && a[6] == b[6]);
        lemma_digits(first as int);
        lemma_digits(second as int);
    }
}

/// One thing for the caller to do with the card.
#[derive(Debug, Clone, Copy, PartialEq, Eq, Structural)]
pub enum Step {
    /// Open this volume of the card.
    OpenVolume { index: usize },
    /// Open the root directory of the volume.
    OpenRootDir,
    /// Open the file in the directory, to read and write; create it if it
    /// is not there, and cut it to nothing if it is.
    OpenFile,
    /// Write the bytes of the image to the file.
    Write,
    /// Flush the file.
    Flush,
    /// Close the file.
    Close,
    /// The image is on the card.
    Written,
    /// The step at this place failed, and the writing is over.
    Failed { place: usize },
    /// Nothing is being written.
    Idle,
}

/// The steps that write one image, in order.
pub open spec fn steps() -> Seq<Step> {
    seq![
        Step::OpenVolume { index: VOLUME },
        Step::OpenRootDir,
        Step::OpenFile,
        Step::Write,
        Step::Flush,
        Step::Close,
    ]
}

/// All that a writer keeps.
#[derive(Debug, Clone, Copy, PartialEq, Eq, Structural)]
pub struct Progress {
    /// An image is being written.
    pub busy: bool,
    /// How many steps have been issued.
    pub cursor: usize,
    /// The number of the image.
    pub number: u16,
}

/// The start of the writing of image `number`.
pub open spec fn begin(number: u16) -> (Progress, Step) {
    (Progress { busy: true, cursor: 1, number }, steps()[0])
}

/// One step of the writing: after a step that went well comes the next, or
/// the end; a step that failed is the end, and nothing is retried.
pub open spec fn next(progress: Progress, done: bool) -> (Progress, Step) {
    if !progress.busy || progress.cursor == 0 || progress.cursor > steps().len() {
        (progress, Step::Idle)
    } else if !done {
        (
            Progress { busy: false, cursor: 0, ..progress },
            Step::Failed { place: (progress.cursor - 1) as usize },
        )
    } else if progress.cursor == steps().len() {
        (Progress { busy: false, cursor: 0, ..progress }, Step::Written)
    } else {
        (
            Progress { cursor: (progress.cursor + 1) as usize, ..progress },
            steps()[progress.cursor as int],
        )
    }
}

fn step_at(index: usize) -> (step: Step)
    requires
        index < 6,
    ensures
        step == steps()[index as int],
{
    if index == 0 {
        Step::OpenVolume { index: VOLUME }
    } else if index == 1 {
        Step::OpenRootDir
    } else if index == 2 {
        Step::OpenFile
    } else if index == 3 {
        Step::Write
    } else if index == 4 {
        Step::Flush
    } else {
        Step::Close
    }
}

pub(crate) fn start(number: u16) -> (started: (Progress, Step))
    ensures
        started == begin(number),
{
    (Progress { busy: true, cursor: 1, number }, step_at(0))
}

pub(crate) fn follow(progress: Progress, done: bool) -> (followed: (Progress, Step))
    ensures
        followed == next(progress, done),
{
    if !progress.busy || progress.cursor == 0 || progress.cursor > 6 {
        (progress, Step::Idle)
    } else if !done {
        (
            Progress { busy: false, cursor: 0, ..progress },
            Step::Failed { place: progress.cursor - 1 },
        )
    } else if progress.cursor == 6 {
        (Progress { busy: false, cursor: 0, ..progress }, Step::Written)
    } else {
        (Progress { cursor: progress.cursor + 1, ..progress }, step_at(progress.cursor))
    }
}

/// The writer of the numbered images of the sweep.
pub struct Sdmmc {
    progress: Progress,
}

impl Sdmmc {
    /// What the writer keeps.
    pub closed spec fn view(&self) -> Progress {
        self.progress
    }

    /// A writer with nothing under way.
    pub fn new() -> (writer: Self)
        ensures
            writer@ == (Progress { busy: false, cursor: 0, number: 0 }),
    {
        Sdmmc { progress: Progress { busy: false, cursor: 0, number: 0 } }
    }

    /// Starts writing image `image_num`: the first step to take.
    pub fn write_image(&mut self, image_num: u16) -> (step: Step)
        ensures
            (final(self)@, step) == begin(image_num),
    {
        let (progress, step) = start(image_num);
        self.progress = progress;
        step
    }

    /// Takes how the last step went and says what to do next.
    pub fn advance(&mut self, done: bool) -> (step: Step)
        ensures
            (final(self)@, step) == next(old(self)@, done),
    {
        let (progress, step) = follow(self.progress, done);
        self.progress = progress;
        step
    }

    /// The name of the file that is being written, or was written last.
    pub fn file_name(&self) -> (name: Vec<u8>)
        ensures
            name@ == image_name_of(self@.number),
    {
        image_name(self.progress.number)
    }
}

} // verus!
