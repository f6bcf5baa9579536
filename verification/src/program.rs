//! The capture state machine and the program it runs.
//!
//! The program waits for an edge on the line that marks a valid sample and
//! shifts the sample in from the data pins; after as many samples as a word
//! holds it fills the word up, so that the state machine, which pushes a
//! word to its receive queue whenever a word's worth of bits has been
//! shifted in, pushes whole pixels only. Then it starts over. The
//! controller sets the state machine up and, before each capture, brings it
//! back to where it was when it was first started.

use pio::InSource;
use pio::InstructionOperands;
use pio::WaitSource::GPIO;
use vstd::prelude::*;

verus! {

/// The bits in a word of the receive queue.
pub const WORD_BITS: u8 = 32;

/// The instructions that the state machine's memory holds.
pub const PROGRAM_SPACE: usize = 32;

/// What an `In` shifts in.
#[derive(Debug, Clone, Copy, PartialEq, Eq, Structural)]
pub enum Source {
    /// The input pins.
    Pins,
    /// Zeroes.
    Null,
}

/// An instruction of the program. There are two kinds.
#[derive(Debug, Clone, Copy, PartialEq, Eq, Structural)]
pub enum Instruction {
    /// Stall until pin `gpio` is high (`level`) or low.
    Wait { level: bool, gpio: u8 },
    /// Shift `bits` bits in from `source`.
    In { source: Source, bits: u8 },
}

/// Whether an instruction can be encoded: a pin below 32, and from 1 to 32
/// bits.
pub open spec fn encodable(instruction: Instruction) -> bool {
    match instruction {
        Instruction::Wait { level, gpio } => gpio < 32,
        Instruction::In { source, bits } => 1 <= bits <= 32,
    }
}

/// The machine word of an instruction, with no delay and no side-set. The
/// top three bits tell the kind, the next five are clear, and then come the
/// operands: for a wait the level, two clear bits for a wait on a pin by
/// its number, and the pin; for a shift the source and the count, with 32
/// written as 0.
pub open spec fn encoding(instruction: Instruction) -> u16 {
    match instruction {
        Instruction::Wait { level, gpio } => (0x2000 + (if level {
            0x80int
        } else {
            0int
        }) + gpio) as u16,
        Instruction::In { source, bits } => (0x4000 + (match source {
            Source::Pins => 0x00int,
            Source::Null => 0x60int,
        }) + bits % 32) as u16,
    }
}

/// `pio::InstructionOperands::encode`, for a `WAIT` on a GPIO that is not
/// relative and for an `IN` from the pins or from null. Not proved: that
/// the word it returns is `encoding`. The pin must be below 32, or it would
/// run into the bits of the source; the count must be from 1 to 32, or the
/// encoder panics.
#[verifier::external_body]
fn encode(instruction: Instruction) -> (word: u16)
    requires
        encodable(instruction),
    ensures
        word == encoding(instruction),
{
    let operands = match instruction {
        Instruction::Wait { level, gpio } => {
            InstructionOperands::WAIT { polarity: level as u8, source: GPIO, index: gpio, relative: false }
        },
        Instruction::In { source: Source::Pins, bits } => {
            InstructionOperands::IN { source: InSource::PINS, bit_count: bits }
        },
        Instruction::In { source: Source::Null, bits } => {
            InstructionOperands::IN { source: InSource::NULL, bit_count: bits }
        },
    };
    operands.encode()
}

/// How the state machine is set up.
#[derive(Debug, Clone, Copy, PartialEq, Eq, Structural)]
pub struct CaptureConfig {
    /// The pin of the line that marks a valid sample.
    pub valid_pin: u8,
    /// The first data pin.
    pub in_base: u8,
    /// The bits of one sample: the width of the bus.
    pub sample_bits: u8,
    /// The number of input pins: the data lines and the line that marks a
    /// valid sample.
    pub input_pins: u8,
    /// The whole part of the clock divisor.
    pub divisor: u16,
    /// The fraction of the clock divisor, in 256ths.
    pub divisor_fraction: u8,
    /// The number of bits shifted in that makes the state machine push.
    pub push_threshold: u8,
    /// The state machine pushes by itself.
    pub autopush: bool,
    /// The pixels that one word holds.
    pub pixels_per_word: u8,
    /// The bits of a word that no pixel takes.
    pub padding_bits: u8,
}

/// The setup for a bus of `bus_width` data lines from pin `in_base` on,
/// with samples marked valid on `valid_pin`: one input pin more than the
/// bus is wide, the state machine clocked as fast as the system, and a push
/// for every whole word.
pub open spec fn config_of(valid_pin: u8, in_base: u8, bus_width: u8) -> CaptureConfig {
    CaptureConfig {
        valid_pin,
        in_base,
        sample_bits: bus_width,
        input_pins: (bus_width + 1) as u8,
        divisor: 1,
        divisor_fraction: 0,
        push_threshold: WORD_BITS,
        autopush: true,
        pixels_per_word: (WORD_BITS / bus_width) as u8,
        padding_bits: (WORD_BITS % bus_width) as u8,
    }
}

/// The buses that can be set up for: at least three lines, so that the
/// program fits the state machine, at most as many as a word has bits, and
/// a valid line among the first 32 pins.
pub open spec fn supported(valid_pin: u8, bus_width: u8) -> bool {
    3 <= bus_width <= WORD_BITS && valid_pin < 32
}

/// The setup for a bus of `bus_width` data lines from pin `in_base` on;
/// none for a bus that is not supported.
pub fn capture_config(valid_pin: u8, in_base: u8, bus_width: u8) -> (config: Option<CaptureConfig>)
    ensures
        config == (if supported(valid_pin, bus_width) {
            Some(config_of(valid_pin, in_base, bus_width))
        } else {
            None
        }),
{
    if bus_width < 3 || bus_width > WORD_BITS || valid_pin >= 32 {
        None
    } else {
        Some(
            CaptureConfig {
                valid_pin,
                in_base,
                sample_bits: bus_width,
                input_pins: bus_width + 1,
                divisor: 1,
                divisor_fraction: 0,
                push_threshold: WORD_BITS,
                autopush: true,
                pixels_per_word: WORD_BITS / bus_width,
                padding_bits: WORD_BITS % bus_width,
            },
        )
    }
}

/// What holds of every setup that `capture_config` gives.
pub open spec fn sound(config: CaptureConfig) -> bool {
    &&& 3 <= config.sample_bits <= WORD_BITS
    &&& config.valid_pin < 32
    &&& config.push_threshold == WORD_BITS
    &&& config.pixels_per_word == WORD_BITS / config.sample_bits
    &&& config.padding_bits == WORD_BITS % config.sample_bits
}

/// The instructions that take one sample: an edge on the valid line, low
/// and then high, and the shift of the sample.
pub open spec fn sample(config: CaptureConfig) -> Seq<Instruction> {
    seq![
        Instruction::Wait { level: false, gpio: config.valid_pin },
        Instruction::Wait { level: true, gpio: config.valid_pin },
        Instruction::In { source: Source::Pins, bits: config.sample_bits },
    ]
}

/// The instructions that take `count` samples.
pub open spec fn samples(config: CaptureConfig, count: nat) -> Seq<Instruction>
    decreases count,
{
    if count == 0 {
        seq![]
    } else {
        samples(config, (count - 1) as nat) + sample(config)
    }
}

/// The program: the samples of one word, and the bits that fill the word
/// up where the samples leave some. It wraps from its end to its start.
pub open spec fn program_of(config: CaptureConfig) -> Seq<Instruction> {
    samples(config, config.pixels_per_word as nat) + (if config.padding_bits > 0 {
        seq![Instruction::In { source: Source::Null, bits: config.padding_bits }]
    } else {
        seq![]
    })
}

/// The number of bits that a list of instructions shifts in.
pub open spec fn shifted(instructions: Seq<Instruction>) -> nat
    decreases instructions.len(),
{
    if instructions.len() == 0 {
        0
    } else {
        shifted(instructions.drop_last()) + (match instructions.last() {
            Instruction::In { source, bits } => bits as nat,
            _ => 0,
        })
    }
}

/// The machine words of a list of instructions.
pub open spec fn words_of(instructions: Seq<Instruction>) -> Seq<u16> {
    Seq::new(instructions.len(), |i: int| encoding(instructions[i]))
}

/// The program for a setup.
pub fn capture_program(config: &CaptureConfig) -> (program: Vec<Instruction>)
    requires
        sound(*config),
    ensures
        program@ == program_of(*config),
        program@.len() <= PROGRAM_SPACE,
        forall|i: int| 0 <= i < program@.len() ==> encodable(#[trigger] program@[i]),
{
    let mut program: Vec<Instruction> = Vec::new();
    let mut taken: u8 = 0;
    proof {
        lemma_pixels(*config);
    }
    while taken < config.pixels_per_word
        invariant
            sound(*config),
            taken <= config.pixels_per_word <= 10,
            program@ == samples(*config, taken as nat),
            program@.len() == 3 * taken,
            forall|i: int| 0 <= i < program@.len() ==> encodable(#[trigger] program@[i]),
        decreases config.pixels_per_word - taken,
    {
        program.push(Instruction::Wait { level: false, gpio: config.valid_pin });
        program.push(Instruction::Wait { level: true, gpio: config.valid_pin });
        program.push(Instruction::In { source: Source::Pins, bits: config.sample_bits });
        taken = taken + 1;
    }
    if config.padding_bits > 0 {
        program.push(Instruction::In { source: Source::Null, bits: config.padding_bits });
    }
    program
}

/// The machine words of a program, for the state machine's memory.
pub fn machine_code(program: &Vec<Instruction>) -> (words: Vec<u16>)
    requires
        forall|i: int| 0 <= i < program@.len() ==> encodable(#[trigger] program@[i]),
    ensures
        words@ == words_of(program@),
{
    let mut words: Vec<u16> = Vec::new();
    let mut index: usize = 0;
    while index < program.len()
        invariant
            index <= program@.len(),
            forall|i: int| 0 <= i < program@.len() ==> encodable(#[trigger] program@[i]),
            words@ == words_of(program@.subrange(0, index as int)),
        decreases program@.len() - index,
    {
        words.push(encode(program[index]));
        index = index + 1;
    }
    words
}

/// A word holds as many whole pixels as fit in it, at most ten; what is
/// left of the word is less than a pixel. On a bus of ten lines that is
/// three pixels and two bits.
pub proof fn lemma_pixels(config: CaptureConfig)
    requires
        sound(config),
    ensures
        1 <= config.pixels_per_word <= 10,
        config.pixels_per_word * config.sample_bits + config.padding_bits == WORD_BITS,
        config.padding_bits < config.sample_bits,
        config.sample_bits == 10 ==> config.pixels_per_word == 3 && config.padding_bits == 2,
{
    let width = config.sample_bits as int;
    let pixels = 32int / width;
    assert(pixels * width + 32int % width == 32 && 0 <= 32int % width < width && 1 <= pixels
        <= 10) by (nonlinear_arith)
        requires
            pixels == 32int / width,
            3 <= width <= 32,
    ;
    if width == 10 {
        assert(32int / 10 == 3 && 32int % 10 == 2);
    }
}

/// Taking `count` samples takes three instructions each and shifts in
/// `count` samples' worth of bits.
pub proof fn lemma_samples(config: CaptureConfig, count: nat)
    ensures
        samples(config, count).len() == 3 * count,
        shifted(samples(config, count)) == count * config.sample_bits,
        forall|i: int|
            0 <= i < count ==> {
                &&& #[trigger] samples(config, count)[3 * i] == (Instruction::Wait {
                    level: false,
                    gpio: config.valid_pin,
                })
                &&& samples(config, count)[3 * i + 1] == (Instruction::Wait {
                    level: true,
                    gpio: config.valid_pin,
                })
                &&& samples(config, count)[3 * i + 2] == (Instruction::In {
                    source: Source::Pins,
                    bits: config.sample_bits,
                })
            },
    decreases count,
{
    if count > 0 {
        let earlier = (count - 1) as nat;
        lemma_samples(config, earlier);
        let before = samples(config, earlier);
        let all = samples(config, count);
        let one = before.push(sample(config)[0]);
        let two = one.push(sample(config)[1]);
        let three = two.push(sample(config)[2]);
        assert(three =~= all);
        assert(three.drop_last() =~= two);
        assert(two.drop_last() =~= one);
        assert(one.drop_last() =~= before);
        assert(shifted(two) == shifted(one));
        assert(count * config.sample_bits == earlier * config.sample_bits + config.sample_bits)
            by (nonlinear_arith)
            requires
                count == earlier + 1,
        ;
    }
}

/// Every push is one whole word of whole pixels. One pass of the program
/// shifts in exactly as many bits as make the state machine push; it takes
/// as many samples as a word holds pixels, each after an edge on the valid
/// line; and the program fits the state machine's memory.
pub proof fn lemma_program_fills_words(config: CaptureConfig)
    requires
        sound(config),
    ensures
        shifted(program_of(config)) == config.push_threshold,
        program_of(config).len() == 3 * config.pixels_per_word + (if config.padding_bits > 0 {
            1int
        } else {
            0int
        }),
        program_of(config).len() <= PROGRAM_SPACE,
        forall|i: int|
            0 <= i < config.pixels_per_word ==> {
                &&& #[trigger] program_of(config)[3 * i] == (Instruction::Wait {
                    level: false,
                    gpio: config.valid_pin,
                })
                &&& program_of(config)[3 * i + 1] == (Instruction::Wait {
                    level: true,
                    gpio: config.valid_pin,
                })
                &&& program_of(config)[3 * i + 2] == (Instruction::In {
                    source: Source::Pins,
                    bits: config.sample_bits,
                })
            },
{
    let count = config.pixels_per_word as nat;
    lemma_pixels(config);
    lemma_samples(config, count);
    let taken = samples(config, count);
    if config.padding_bits > 0 {
        let fill = Instruction::In { source: Source::Null, bits: config.padding_bits };
        assert(program_of(config) =~= taken.push(fill));
        assert(taken.push(fill).drop_last() =~= taken);
    }
}

/// What of the state machine decides how it goes on.
pub struct Machine {
    /// It is running.
    pub enabled: bool,
    /// The instruction it is at.
    pub counter: nat,
    /// The bits it has shifted in and not yet pushed.
    pub shifted: Seq<bool>,
    /// The words in its receive queue.
    pub queue: Seq<u32>,
}

/// One thing the controller does to the state machine.
pub enum Control {
    /// Run, or stop.
    Enable(bool),
    /// Empty the queues.
    ClearQueues,
    /// Go back to the first instruction with nothing shifted in.
    Restart,
}

/// The state machine after the controller has acted on it.
pub open spec fn control(machine: Machine, act: Control) -> Machine {
    match act {
        Control::Enable(on) => Machine { enabled: on, ..machine },
        Control::ClearQueues => Machine { queue: seq![], ..machine },
        Control::Restart => Machine { counter: 0, shifted: seq![], ..machine },
    }
}

/// The state machine as it is just after it was loaded and first enabled.
pub open spec fn started() -> Machine {
    Machine { enabled: true, counter: 0, shifted: seq![], queue: seq![] }
}

/// The program can be started again. Whatever state the state machine is
/// in, stopping it, emptying its queue, restarting it and enabling it
/// leaves it as it was when first started; and so does enabling a stopped
/// state machine first and emptying and restarting it after, which is the
/// order a capture takes.
pub proof fn lemma_restartable(machine: Machine)
    ensures
        control(
            control(
                control(control(machine, Control::Enable(false)), Control::ClearQueues),
                Control::Restart,
            ),
            Control::Enable(true),
        ) == started(),
        control(
            control(
                control(control(machine, Control::Enable(false)), Control::Enable(true)),
                Control::ClearQueues,
            ),
            Control::Restart,
        ) == started(),
{
}

} // verus!
