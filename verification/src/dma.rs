//! Moving a frame from the capture state machine's receive queue into
//! memory.
//!
//! A frame that fits one transfer is moved in one piece. Otherwise two
//! small buffers take turns: while one is filled the other is queued, and
//! each buffer that comes back full is copied to its place in the frame
//! before it is queued again. The manager says which buffer to start, to
//! queue and to wait for, and does the copying.

use vstd::prelude::*;

verus! {

/// Pixels that one word of the frame holds.
pub const PIXELS_PER_WORD: usize = 3;

/// Columns that each row is padded by.
pub const PAD: usize = 2;

/// Bytes in one word of the frame.
pub const WORD_SIZE: usize = 4;

/// The length of a frame of `width` by `height` pixels, in words: the
/// padded pixels divided by the pixels in a word, rounded up.
pub open spec fn frame_words_of(width: int, height: int) -> int {
    ((width + PAD) * height + (PIXELS_PER_WORD - 1)) / (PIXELS_PER_WORD as int)
}

/// The length of a frame, in words.
pub fn frame_words(width: u16, height: u16) -> (words: usize)
    ensures
        words == frame_words_of(width as int, height as int),
        words <= 0x5555_5555,
{
    let padded: u64 = width as u64 + 2;
    assert(padded * (height as u64) <= 65537 * 65535) by (nonlinear_arith)
        requires
            padded <= 65537,
            height <= 65535,
    ;
    let pixels: u64 = padded * (height as u64);
    ((pixels + 2) / 3) as usize
}

/// The length of a frame, in bytes, as it is written out.
pub fn frame_bytes(width: u16, height: u16) -> (bytes: u64)
    ensures
        bytes == frame_words_of(width as int, height as int) * WORD_SIZE,
{
    (frame_words(width, height) as u64) * 4
}

/// Whether a region of `region` words takes a whole frame in one transfer.
pub fn region_holds(region: usize, width: u16, height: u16) -> (holds: bool)
    ensures
        holds == (frame_words_of(width as int, height as int) <= region),
{
    frame_words(width, height) <= region
}

/// One thing for the caller to do with the transfer engine.
#[derive(Debug, Clone, Copy, PartialEq, Eq, Structural)]
pub enum Step {
    /// Start a transfer from the receive queue into this buffer.
    Start { buffer: usize },
    /// Queue this buffer to be filled next, after the one being filled.
    Queue { buffer: usize },
    /// Wait until this buffer is full, then hand it to `accept`.
    Wait { buffer: usize },
    /// The frame is whole.
    Finish,
    /// Nothing is asked for: the call came out of turn.
    Idle,
}

/// Where the manager stands.
#[derive(Debug, Clone, Copy, PartialEq, Eq, Structural)]
pub enum Stage {
    /// Nothing has been started.
    Fresh,
    /// A buffer has been handed to the engine; its acknowledgement is due.
    Arming,
    /// A full buffer is due.
    Waiting,
    /// The frame is whole.
    Done,
}

/// All that the manager keeps.
#[derive(Debug, Clone, Copy, PartialEq, Eq, Structural)]
pub struct Plan {
    /// The length of each segment, in words.
    pub segment: usize,
    /// The number of segments in the frame.
    pub segments: usize,
    /// How many segments have been handed to the engine.
    pub armed: usize,
    /// How many segments have come back and been copied.
    pub completed: usize,
    /// Where the manager stands.
    pub stage: Stage,
}

/// What to do next, once the last step is over. A further segment is handed
/// to the engine while the frame needs one and the engine holds fewer than
/// two; it goes to the buffer that is not being filled. Otherwise the next
/// full buffer is waited for, or the frame is whole.
pub open spec fn decide(plan: Plan) -> (Plan, Step) {
    if plan.armed < plan.segments && plan.armed < plan.completed + 2 {
        (
            Plan { armed: (plan.armed + 1) as usize, stage: Stage::Arming, ..plan },
            if plan.armed == plan.completed {
                Step::Start { buffer: plan.armed % 2 }
            } else {
                Step::Queue { buffer: plan.armed % 2 }
            },
        )
    } else if plan.completed < plan.segments {
        (Plan { stage: Stage::Waiting, ..plan }, Step::Wait { buffer: plan.completed % 2 })
    } else {
        (Plan { stage: Stage::Done, ..plan }, Step::Finish)
    }
}

/// The manager of a frame of `segments` segments of `segment` words, with
/// nothing started.
pub open spec fn fresh(segment: usize, segments: usize) -> Plan {
    Plan { segment, segments, armed: 0, completed: 0, stage: Stage::Fresh }
}

/// What holds of the manager at every moment: the engine holds at most two
/// segments, none beyond the frame, and while a full buffer is due it holds
/// as many as it may.
pub open spec fn sound(plan: Plan) -> bool {
    &&& plan.segment * plan.segments <= usize::MAX
    &&& plan.completed <= plan.armed <= plan.segments
    &&& plan.armed <= plan.completed + 2
    &&& plan.stage is Fresh ==> plan.armed == 0
    &&& plan.stage is Arming ==> plan.armed > plan.completed
    &&& plan.stage is Waiting ==> plan.completed < plan.segments && (plan.armed == plan.segments
        || plan.armed == plan.completed + 2)
    &&& plan.stage is Done ==> plan.completed == plan.segments
}

/// `destination` with `segment` written over it from `offset` on.
pub open spec fn placed(destination: Seq<u32>, offset: int, segment: Seq<u32>) -> Seq<u32> {
    destination.subrange(0, offset) + segment + destination.subrange(
        offset + segment.len(),
        destination.len() as int,
    )
}

/// `destination` once the segments of `parts`, each `length` words long,
/// have been copied to their places in the order they were issued in.
pub open spec fn assembled(destination: Seq<u32>, parts: Seq<Seq<u32>>, length: nat) -> Seq<u32>
    decreases parts.len(),
{
    if parts.len() == 0 {
        destination
    } else {
        placed(
            assembled(destination, parts.drop_last(), length),
            (parts.len() - 1) * length,
            parts.last(),
        )
    }
}

/// The segments of `parts` laid end to end.
pub open spec fn joined(parts: Seq<Seq<u32>>) -> Seq<u32>
    decreases parts.len(),
{
    if parts.len() == 0 {
        seq![]
    } else {
        joined(parts.drop_last()) + parts.last()
    }
}

/// The manager of the two buffers.
pub struct DoubleBuffer {
    plan: Plan,
}

impl DoubleBuffer {
    #[verifier::type_invariant]
    spec fn kept(self) -> bool {
        sound(self.plan)
    }

    /// What the manager keeps.
    pub closed spec fn view(&self) -> Plan {
        self.plan
    }

    /// A manager for a frame of `segments` segments of `segment` words
    /// each; none where the frame's length does not fit the machine.
    pub fn new(segment: usize, segments: usize) -> (manager: Option<Self>)
        ensures
            manager is Some <==> segment * segments <= usize::MAX,
            manager matches Some(m) ==> m@ == fresh(segment, segments) && sound(m@),
    {
        match segment.checked_mul(segments) {
            Some(_) => Some(
                DoubleBuffer {
                    plan: Plan { segment, segments, armed: 0, completed: 0, stage: Stage::Fresh },
                },
            ),
            None => None,
        }
    }

    /// The length of the frame, in words.
    pub fn length(&self) -> (words: usize)
        ensures
            words == self@.segment * self@.segments,
            sound(self@),
    {
        proof {
            use_type_invariant(self);
        }
        self.plan.segment * self.plan.segments
    }

    /// How many segments have come back and been copied.
    pub fn completed(&self) -> (count: usize)
        ensures
            count == self@.completed,
            sound(self@),
    {
        proof {
            use_type_invariant(self);
        }
        self.plan.completed
    }

    /// Starts the frame: the first step to take.
    pub fn begin(&mut self) -> (step: Step)
        ensures
            (final(self)@, step) == decide(fresh(old(self)@.segment, old(self)@.segments)),
            sound(final(self)@),
    {
        proof {
            use_type_invariant(&*self);
        }
        let plan = Plan { armed: 0, completed: 0, stage: Stage::Fresh, ..self.plan };
        let (plan, step) = choose_step(plan);
        *self = DoubleBuffer { plan };
        step
    }

    /// Takes the engine's acknowledgement of a buffer handed to it and
    /// says what to do next. Out of turn, nothing changes.
    pub fn advance(&mut self) -> (step: Step)
        ensures
            (final(self)@, step) == (if old(self)@.stage is Arming {
                decide(old(self)@)
            } else {
                (old(self)@, Step::Idle)
            }),
            sound(final(self)@),
    {
        proof {
            use_type_invariant(&*self);
        }
        match self.plan.stage {
            Stage::Arming => {
                let (plan, step) = choose_step(self.plan);
                *self = DoubleBuffer { plan };
                step
            },
            _ => Step::Idle,
        }
    }

    /// Takes a buffer that came back full, copies it to the place of its
    /// segment in `destination`, and says what to do next. Out of turn,
    /// nothing changes and nothing is copied.
    pub fn accept(&mut self, filled: &[u32], destination: &mut [u32]) -> (step: Step)
        requires
            filled@.len() == old(self)@.segment,
            old(destination)@.len() >= old(self)@.segment * old(self)@.segments,
        ensures
            old(self)@.stage is Waiting ==> {
                &&& final(destination)@ == placed(
                    old(destination)@,
                    old(self)@.completed * old(self)@.segment,
                    filled@,
                )
                &&& (final(self)@, step) == decide(
                    Plan { completed: (old(self)@.completed + 1) as usize, ..old(self)@ },
                )
            },
            !(old(self)@.stage is Waiting) ==> {
                &&& final(destination)@ == old(destination)@
                &&& final(self)@ == old(self)@
                &&& step == Step::Idle
            },
            sound(final(self)@),
    {
        proof {
            use_type_invariant(&*self);
        }
        let plan = self.plan;
        match plan.stage {
            Stage::Waiting => {},
            _ => {
                return Step::Idle;
            },
        }
        let length = plan.segment;
        assert(plan.completed * length + length <= plan.segments * length) by (nonlinear_arith)
            requires
                plan.completed < plan.segments,
                length >= 0,
        ;
        assert(plan.segments * length == plan.segment * plan.segments) by (nonlinear_arith)
            requires
                length == plan.segment,
        ;
        let offset = plan.completed * length;
        let total = destination.len();
        let mut copied: usize = 0;
        while copied < length
            invariant
                copied <= length,
                destination@.len() == total,
                length == filled@.len(),
                offset + length <= destination@.len(),
                destination@.len() == old(destination)@.len(),
                forall|i: int| 0 <= i < offset ==> destination@[i] == old(destination)@[i],
                forall|i: int| offset <= i < offset + copied ==> destination@[i] == filled@[i - offset],
                forall|i: int|
                    offset + copied <= i < destination@.len() ==> destination@[i] == old(
                        destination,
                    )@[i],
            decreases length - copied,
        {
            destination[offset + copied] = filled[copied];
            copied = copied + 1;
        }
        let (plan, step) = choose_step(Plan { completed: plan.completed + 1, ..plan });
        *self = DoubleBuffer { plan };
        step
    }
}

fn choose_step(plan: Plan) -> (next: (Plan, Step))
    requires
        plan.segment * plan.segments <= usize::MAX,
        plan.completed <= plan.armed <= plan.segments,
        plan.armed <= plan.completed + 2,
        plan.stage is Waiting ==> plan.armed == plan.segments || plan.armed == plan.completed + 1,
        plan.stage is Fresh ==> plan.armed == 0,
    ensures
        next == decide(plan),
        sound(next.0),
{
    if plan.armed < plan.segments && plan.armed - plan.completed < 2 {
        let step = if plan.armed == plan.completed {
            Step::Start { buffer: plan.armed % 2 }
        } else {
            Step::Queue { buffer: plan.armed % 2 }
        };
        (Plan { armed: plan.armed + 1, stage: Stage::Arming, ..plan }, step)
    } else if plan.completed < plan.segments {
        (Plan { stage: Stage::Waiting, ..plan }, Step::Wait { buffer: plan.completed % 2 })
    } else {
        (Plan { stage: Stage::Done, ..plan }, Step::Finish)
    }
}

/// One transfer at a time fills a buffer, and a buffer is handed to the
/// engine only once it is free. Whenever the manager hands a buffer over,
/// the engine holds at most one other segment, the one being filled, and
/// that segment is in the other buffer; a buffer is handed over again only
/// after the segment it held came back. A start is issued only when the
/// engine holds nothing at all.
pub proof fn lemma_one_in_flight(plan: Plan)
    requires
        sound(plan),
    ensures
        decide(plan).1 matches Step::Queue { buffer } ==> {
            &&& plan.armed == plan.completed + 1
            &&& buffer != plan.completed % 2
            &&& buffer == plan.armed % 2
        },
        decide(plan).1 matches Step::Start { buffer } ==> plan.armed == plan.completed,
        decide(plan).1 matches Step::Wait { buffer } ==> {
            &&& buffer == plan.completed % 2
            &&& plan.armed > plan.completed
        },
        decide(plan).1 is Finish ==> plan.completed == plan.segments && plan.armed
            == plan.segments,
{
}

/// Segments come back in the order they were issued in, and land end to
/// end. Once the segments of `parts`, each `length` words long, have been
/// copied to their places, the frame begins with the segments laid end to
/// end in that order, and the rest of the destination is as it was.
pub proof fn lemma_assembled_is_joined(destination: Seq<u32>, parts: Seq<Seq<u32>>, length: nat)
    requires
        forall|i: int| 0 <= i < parts.len() ==> (#[trigger] parts[i]).len() == length,
        parts.len() * length <= destination.len(),
    ensures
        assembled(destination, parts, length).len() == destination.len(),
        joined(parts).len() == parts.len() * length,
        assembled(destination, parts, length).subrange(0, (parts.len() * length) as int) == joined(
            parts,
        ),
        assembled(destination, parts, length).subrange(
            (parts.len() * length) as int,
            destination.len() as int,
        ) == destination.subrange((parts.len() * length) as int, destination.len() as int),
    decreases parts.len(),
{
    let count = parts.len() as int;
    if count > 0 {
        let earlier = parts.drop_last();
        assert((count - 1) * length + length == count * length) by (nonlinear_arith);
        assert((count - 1) * length >= 0) by (nonlinear_arith)
            requires
                count >= 1,
                length >= 0,
        ;
        lemma_assembled_is_joined(destination, earlier, length);
        let before = assembled(destination, earlier, length);
        let offset = (count - 1) * length;
        let after = placed(before, offset, parts.last());
        assert(after.subrange(count * length, destination.len() as int) =~= destination.subrange(
            count * length,
            destination.len() as int,
        )) by {
            assert forall|i: int| count * length <= i < destination.len() implies after[i]
                == destination[i] by {
                assert(before[i] == before.subrange(offset, destination.len() as int)[i - offset]);
                assert(destination[i] == destination.subrange(offset, destination.len() as int)[i
                    - offset]);
            }
        }
    }
}

/// The bytes of a list of words as they lie in memory and in the file,
/// least significant byte of each word first.
pub open spec fn bytes_of(words: Seq<u32>) -> Seq<u8> {
    Seq::new(
        4 * words.len(),
        |i: int|
            if i % 4 == 0 {
                (words[i / 4] % 256) as u8
            } else if i % 4 == 1 {
                ((words[i / 4] / 256) % 256) as u8
            } else if i % 4 == 2 {
                ((words[i / 4] / 65536) % 256) as u8
            } else {
                (words[i / 4] / 16777216) as u8
            },
    )
}

/// Laying words end to end lays their bytes end to end: a frame assembled
/// word for word is assembled byte for byte.
pub proof fn lemma_bytes_of_concat(first: Seq<u32>, second: Seq<u32>)
    ensures
        bytes_of(first + second) == bytes_of(first) + bytes_of(second),
{
}

/// The bytes of the segments of `parts`, laid end to end.
pub open spec fn joined_bytes(parts: Seq<Seq<u32>>) -> Seq<u8>
    decreases parts.len(),
{
    if parts.len() == 0 {
        seq![]
    } else {
        joined_bytes(parts.drop_last()) + bytes_of(parts.last())
    }
}

/// The bytes of the segments laid end to end are the bytes of each segment
/// laid end to end, in the same order: the assembled frame is the segments
/// byte for byte.
pub proof fn lemma_joined_byte_for_byte(parts: Seq<Seq<u32>>)
    ensures
        bytes_of(joined(parts)) == joined_bytes(parts),
    decreases parts.len(),
{
    if parts.len() > 0 {
        lemma_joined_byte_for_byte(parts.drop_last());
    }
}

/// The bytes of a frame, for the file: four for every word.
pub fn payload(words: &[u32]) -> (bytes: Vec<u8>)
    requires
        4 * words@.len() <= usize::MAX,
    ensures
        bytes@ == bytes_of(words@),
        bytes@.len() == WORD_SIZE * words@.len(),
{
    let mut bytes: Vec<u8> = Vec::new();
    let mut index: usize = 0;
    while index < words.len()
        invariant
            index <= words@.len(),
            4 * words@.len() <= usize::MAX,
            bytes@ == bytes_of(words@.subrange(0, index as int)),
        decreases words@.len() - index,
    {
        let word: u32 = words[index];
        bytes.push((word % 256) as u8);
        bytes.push(((word / 256) % 256) as u8);
        bytes.push(((word / 65536) % 256) as u8);
        bytes.push((word / 16777216) as u8);
        index = index + 1;
    }
    bytes
}

} // verus!
