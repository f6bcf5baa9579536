//! Bringing up the APS6404L pseudo-static RAM behind the quad memory
//! interface.
//!
//! The memory starts in an unknown mode. It is talked to byte by byte in
//! the interface's direct mode, reset, switched to quad mode, and the
//! interface is then programmed so that ordinary loads and stores reach it.
//! This module names the commands, in order; the caller performs them, with
//! interrupts off and from code that does not run out of the memory being
//! set up.

use vstd::prelude::*;

verus! {

/// The highest clock the memory takes, in hertz.
pub const MAX_PSRAM_FREQ: u32 = 133_000_000;

/// The shortest time chip select must stay high between bursts, in
/// nanoseconds.
pub const MIN_CPH_NS: u32 = 18;

/// The longest time chip select may stay low, in nanoseconds.
pub const MAX_CEM_NS: u32 = 8000;

/// The command that switches the memory to quad mode.
pub const ENTER_QUAD_MODE: u8 = 0x35;

/// The command that switches the memory back to serial mode.
pub const EXIT_QUAD_MODE: u8 = 0xF5;

/// The command that reads the memory's identity.
pub const READ_ID: u8 = 0x9F;

/// The command that lets a reset through.
pub const RESET_ENABLE: u8 = 0x66;

/// The command that resets the memory.
pub const RESET: u8 = 0x99;

/// The command of reads through the window.
pub const FAST_QUAD_READ: u8 = 0xEB;

/// The command of writes through the window.
pub const QUAD_WRITE: u8 = 0x38;

/// Where the memory appears in the address space.
pub const BASE_ADDRESS: usize = 0x11000000;

/// The size of the memory, in bytes.
pub const SIZE: usize = 0x800000;

/// The manufacturer's identifier that a sound part reports.
pub const MANUFACTURER: u8 = 0x0D;

/// The mark of a die that passed the manufacturer's test.
pub const KNOWN_GOOD_DIE: u8 = 0x5D;

/// The clock divider used while the memory's mode is unknown.
pub const BRING_UP_DIVIDER: u8 = 30;

/// How long the memory needs after a reset, in nanoseconds.
pub const RESET_RECOVERY_NS: u32 = 50;

/// How long the bring-up waits after a reset, in nanoseconds.
pub const RESET_PAUSE_NS: u32 = 100;

/// The largest value of the field for the longest select.
pub const MAX_SELECT_LIMIT: u8 = 63;

/// The largest value of the field for the shortest deselect.
pub const MIN_DESELECT_LIMIT: u8 = 31;

/// The largest value of the field for the receive delay.
pub const RX_DELAY_LIMIT: u8 = 7;

/// The highest system clock that the window can be timed for: above it the
/// receive delay does not fit its field.
pub const MAX_SYSTEM_FREQ: u32 = 931_000_000;

/// The timing of the memory window.
#[derive(Debug, Clone, Copy, PartialEq, Eq, Structural)]
pub struct Timing {
    /// Clock periods the interface idles before it ends a burst.
    pub cooldown: u8,
    /// The boundary, in bytes, that no burst crosses.
    pub page_break: u16,
    /// The longest chip select may stay low, in units of 64 clock periods.
    pub max_select: u8,
    /// The shortest chip select stays high, in clock periods.
    pub min_deselect: u8,
    /// The delay of the receive sampling, in clock periods.
    pub rx_delay: u8,
    /// The divider from the system clock to the memory's clock.
    pub divider: u8,
}

/// How a read or a write is put on the bus once the window is in use.
#[derive(Debug, Clone, Copy, PartialEq, Eq, Structural)]
pub struct Format {
    /// The command byte that opens the transfer.
    pub command: u8,
    /// Command, address, dummy and data all go out four bits at a time.
    pub quad: bool,
    /// The length of the command, in bits.
    pub prefix_bits: u8,
    /// The dummy phase between address and data, in bits.
    pub dummy_bits: u8,
}

/// One thing for the caller to do to the interface.
#[derive(Debug, Clone, Copy, PartialEq, Eq, Structural)]
pub enum Command {
    /// Enable direct mode at this clock divider and wait until the
    /// interface is no longer busy.
    Direct { divider: u8 },
    /// Assert the memory's chip select.
    Select,
    /// Wait for room, send one byte (four bits at a time if `quad`), wait
    /// until the interface is no longer busy, and take the byte received.
    Exchange { data: u8, quad: bool },
    /// Deassert the memory's chip select.
    Deselect,
    /// Spin for at least this many nanoseconds.
    Pause { nanos: u32 },
    /// Program the timing of the memory window.
    Timing(Timing),
    /// Program the format and command of reads through the window.
    ReadFormat(Format),
    /// Program the format and command of writes through the window.
    WriteFormat(Format),
    /// Leave direct mode, turn automatic chip select on, and wait until the
    /// interface is no longer busy.
    Automatic,
    /// Deassert chip select and leave direct mode.
    Release,
}

/// What the memory says of itself.
#[derive(Debug, Clone, Copy, PartialEq, Eq, Structural)]
pub struct Identity {
    /// The manufacturer's identifier.
    pub manufacturer: u8,
    /// The mark that the manufacturer's test left on the die.
    pub known_good_die: u8,
    /// The byte that tells the density of the part.
    pub density: u8,
}

impl Identity {
    /// Whether the part may be used: only a die marked as known good is.
    pub fn is_known_good(&self) -> (good: bool)
        ensures
            good == (self.known_good_die == KNOWN_GOOD_DIE),
    {
        self.known_good_die == KNOWN_GOOD_DIE
    }
}

/// The divider that brings a system clock of `frequency` down to what the
/// memory takes: the quotient of the two, rounded up.
pub open spec fn divider_of(frequency: int) -> int {
    (frequency + MAX_PSRAM_FREQ - 1) / (MAX_PSRAM_FREQ as int)
}

/// The longest chip select may stay low, in units of 64 clock periods of
/// a system clock of `frequency`, rounded down, and no more than the field
/// holds.
pub open spec fn max_select_of(frequency: int) -> int {
    let units = (MAX_CEM_NS * frequency) / 64_000_000_000;
    if units > MAX_SELECT_LIMIT {
        MAX_SELECT_LIMIT as int
    } else {
        units
    }
}

/// Whether a timing fits the fields of the interface.
pub open spec fn representable(timing: Timing) -> bool {
    &&& timing.cooldown <= 3
    &&& timing.max_select <= MAX_SELECT_LIMIT
    &&& timing.min_deselect <= MIN_DESELECT_LIMIT
    &&& timing.rx_delay <= RX_DELAY_LIMIT
}

/// The shortest chip select stays high, in clock periods of a system clock
/// of `frequency`: the memory's minimum in clock periods, rounded up, and
/// one more.
pub open spec fn min_deselect_of(frequency: int) -> int {
    (MIN_CPH_NS * frequency + 999_999_999) / 1_000_000_000 + 1
}

/// The timing of the memory window for a system clock of `frequency`.
pub open spec fn timing_of(frequency: u32) -> Timing {
    Timing {
        cooldown: 1,
        page_break: 1024,
        max_select: max_select_of(frequency as int) as u8,
        min_deselect: min_deselect_of(frequency as int) as u8,
        rx_delay: divider_of(frequency as int) as u8,
        divider: divider_of(frequency as int) as u8,
    }
}

/// The format of reads: fast quad read, with six dummy clocks.
pub open spec fn read_format() -> Format {
    Format { command: FAST_QUAD_READ, quad: true, prefix_bits: 8, dummy_bits: 24 }
}

/// The format of writes: quad write, with no dummy phase.
pub open spec fn write_format() -> Format {
    Format { command: QUAD_WRITE, quad: true, prefix_bits: 8, dummy_bits: 0 }
}

/// One command byte sent to the memory on its own.
pub open spec fn transaction(data: u8, quad: bool) -> Seq<Command> {
    seq![Command::Select, Command::Exchange { data, quad }, Command::Deselect]
}

/// The commands that read the memory's identity. The memory is first told
/// to leave quad mode, in case it is in it; then the read command goes out,
/// three address bytes follow, and the next three exchanges bring the
/// manufacturer, the known-good-die mark and the density.
pub open spec fn read_id_script() -> Seq<Command> {
    seq![Command::Direct { divider: BRING_UP_DIVIDER }] + transaction(EXIT_QUAD_MODE, true) + seq![
        Command::Select,
        Command::Exchange { data: READ_ID, quad: false },
        Command::Exchange { data: 0, quad: false },
        Command::Exchange { data: 0, quad: false },
        Command::Exchange { data: 0, quad: false },
        Command::Exchange { data: 0, quad: false },
        Command::Exchange { data: 0, quad: false },
        Command::Exchange { data: 0, quad: false },
        Command::Release,
    ]
}

/// The commands that reset the memory and switch it to quad mode.
pub open spec fn reset_script() -> Seq<Command> {
    transaction(RESET_ENABLE, false) + transaction(RESET, false) + seq![
        Command::Pause { nanos: RESET_PAUSE_NS },
    ] + transaction(ENTER_QUAD_MODE, false)
}

/// The commands that program the window and hand the memory over to
/// ordinary loads and stores.
pub open spec fn window_script(frequency: u32) -> Seq<Command> {
    seq![
        Command::Timing(timing_of(frequency)),
        Command::ReadFormat(read_format()),
        Command::WriteFormat(write_format()),
        Command::Automatic,
    ]
}

/// The commands that bring the memory up, for a system clock of
/// `frequency`. Where the memory may be in quad mode already, it is told to
/// leave it first.
pub open spec fn init_script(frequency: u32, may_be_quad: bool) -> Seq<Command> {
    seq![Command::Direct { divider: BRING_UP_DIVIDER }] + (if may_be_quad {
        transaction(EXIT_QUAD_MODE, true)
    } else {
        seq![]
    }) + reset_script() + window_script(frequency)
}

/// The identity in the bytes that the exchanges of `read_id_script`
/// brought, in order: the sixth, seventh and eighth of eight.
pub open spec fn identity_of(replies: Seq<u8>) -> Option<Identity> {
    if replies.len() == 8 {
        Some(Identity { manufacturer: replies[5], known_good_die: replies[6], density: replies[7] })
    } else {
        None
    }
}

/// The timing of the memory window for a system clock of `frequency`.
pub fn timing(frequency: u32) -> (timing: Timing)
    ensures
        timing == timing_of(frequency),
{
    let frequency: u64 = frequency as u64;
    let divider: u64 = (frequency + 132_999_999) / 133_000_000;
    let units: u64 = (8000 * frequency) / 64_000_000_000;
    let max_select: u64 = if units > 63 {
        63
    } else {
        units
    };
    let min_deselect: u64 = (18 * frequency + 999_999_999) / 1_000_000_000 + 1;
    Timing {
        cooldown: 1,
        page_break: 1024,
        max_select: max_select as u8,
        min_deselect: min_deselect as u8,
        rx_delay: divider as u8,
        divider: divider as u8,
    }
}

/// The timing is on the safe side of the memory's limits: its clock is no
/// faster than the memory takes, chip select stays low no longer than the
/// maximum and high for longer than the minimum, by one clock period more
/// than the least number of whole periods that covers the minimum. Up to the highest system
/// clock that the window can be timed for, it fits the interface's fields.
pub proof fn lemma_timing_is_safe(frequency: u32)
    requires
        frequency > 0,
    ensures
        ({
            let timing = timing_of(frequency);
            &&& timing.divider >= 1
            &&& frequency <= timing.divider * MAX_PSRAM_FREQ
            &&& timing.max_select * 64 * 1_000_000_000 <= MAX_CEM_NS * frequency
            &&& timing.min_deselect * 1_000_000_000 > MIN_CPH_NS * frequency
            &&& (timing.min_deselect - 1) * 1_000_000_000 >= MIN_CPH_NS * frequency
            &&& (timing.min_deselect - 2) * 1_000_000_000 < MIN_CPH_NS * frequency
            &&& timing.rx_delay == timing.divider
            &&& frequency <= MAX_SYSTEM_FREQ <==> representable(timing)
        }),
{
}

/// Whether the window can be timed for a system clock of `frequency`.
pub fn can_time(frequency: u32) -> (possible: bool)
    ensures
        possible == (0 < frequency <= MAX_SYSTEM_FREQ),
{
    0 < frequency && frequency <= MAX_SYSTEM_FREQ
}

fn push_transaction(commands: &mut Vec<Command>, data: u8, quad: bool)
    ensures
        final(commands)@ == old(commands)@ + transaction(data, quad),
{
    commands.push(Command::Select);
    commands.push(Command::Exchange { data, quad });
    commands.push(Command::Deselect);
}

/// The commands that read the memory's identity, in order.
pub fn read_id() -> (commands: Vec<Command>)
    ensures
        commands@ == read_id_script(),
{
    let mut commands: Vec<Command> = Vec::new();
    commands.push(Command::Direct { divider: BRING_UP_DIVIDER });
    push_transaction(&mut commands, EXIT_QUAD_MODE, true);
    commands.push(Command::Select);
    commands.push(Command::Exchange { data: READ_ID, quad: false });
    let mut sent: usize = 0;
    while sent < 6
        invariant
            sent <= 6,
            commands@ == read_id_script().subrange(0, 6 + sent),
        decreases 6 - sent,
    {
        commands.push(Command::Exchange { data: 0, quad: false });
        sent = sent + 1;
    }
    commands.push(Command::Release);
    commands
}

/// The identity in the bytes that the exchanges of `read_id` brought, in
/// order; nothing unless there are eight of them.
pub fn identity(replies: &[u8]) -> (identity: Option<Identity>)
    ensures
        identity == identity_of(replies@),
{
    if replies.len() == 8 {
        Some(Identity { manufacturer: replies[5], known_good_die: replies[6], density: replies[7] })
    } else {
        None
    }
}

/// The commands that bring the memory up, in order.
pub fn init(system_clock_freq: u32, may_be_quad: bool) -> (commands: Vec<Command>)
    ensures
        commands@ == init_script(system_clock_freq, may_be_quad),
{
    let mut commands: Vec<Command> = Vec::new();
    commands.push(Command::Direct { divider: BRING_UP_DIVIDER });
    if may_be_quad {
        push_transaction(&mut commands, EXIT_QUAD_MODE, true);
    }
    push_transaction(&mut commands, RESET_ENABLE, false);
    push_transaction(&mut commands, RESET, false);
    commands.push(Command::Pause { nanos: RESET_PAUSE_NS });
    push_transaction(&mut commands, ENTER_QUAD_MODE, false);
    commands.push(Command::Timing(timing(system_clock_freq)));
    commands.push(
        Command::ReadFormat(
            Format { command: FAST_QUAD_READ, quad: true, prefix_bits: 8, dummy_bits: 24 },
        ),
    );
    commands.push(
        Command::WriteFormat(
            Format { command: QUAD_WRITE, quad: true, prefix_bits: 8, dummy_bits: 0 },
        ),
    );
    commands.push(Command::Automatic);
    commands
}

} // verus!
