//! A model of the memory and of the interface in front of it, to hold the
//! bring-up against.
//!
//! The model keeps what decides how the two react to a command: the mode
//! the memory is in, whether a reset is armed or still being recovered
//! from, what the selected memory has been sent so far, and what the
//! interface has been programmed with. It is ghost: nothing of it runs.

use crate::psram::BASE_ADDRESS;
use crate::psram::Command;
use crate::psram::ENTER_QUAD_MODE;
use crate::psram::EXIT_QUAD_MODE;
use crate::psram::Format;
use crate::psram::Identity;
use crate::psram::KNOWN_GOOD_DIE;
use crate::psram::MANUFACTURER;
use crate::psram::MAX_CEM_NS;
use crate::psram::MAX_PSRAM_FREQ;
use crate::psram::MAX_SYSTEM_FREQ;
use crate::psram::MIN_CPH_NS;
use crate::psram::READ_ID;
use crate::psram::RESET;
use crate::psram::RESET_ENABLE;
use crate::psram::RESET_RECOVERY_NS;
use crate::psram::SIZE;
use crate::psram::Timing;
use crate::psram::identity_of;
use crate::psram::init_script;
use crate::psram::read_format;
use crate::psram::read_id_script;
use crate::psram::representable;
use crate::psram::reset_script;
use crate::psram::timing_of;
use crate::psram::transaction;
use crate::psram::window_script;
use crate::psram::write_format;
use vstd::prelude::*;

verus! {

/// The memory and the interface.
pub struct Device {
    /// The memory takes its commands four bits at a time.
    pub quad: bool,
    /// The memory has been told that a reset follows.
    pub reset_enabled: bool,
    /// The memory has been reset and has not had time to recover.
    pub recovering: bool,
    /// The memory's chip select is asserted.
    pub selected: bool,
    /// How many bytes the memory has been sent since it was selected.
    pub count: nat,
    /// The memory is answering a request for its identity.
    pub identifying: bool,
    /// The density that the part reports.
    pub density: u8,
    /// The interface is in direct mode.
    pub direct: bool,
    /// The interface selects the memory by itself for loads and stores.
    pub automatic: bool,
    /// The timing the interface was programmed with.
    pub timing: Option<Timing>,
    /// The read format the interface was programmed with.
    pub read_format: Option<Format>,
    /// The write format the interface was programmed with.
    pub write_format: Option<Format>,
    /// The bytes that the exchanges have brought, in order.
    pub heard: Seq<u8>,
    /// What the memory holds.
    pub memory: Map<int, u8>,
}

/// What the lines read when the memory drives nothing.
pub open spec fn floating() -> u8 {
    0xFF
}

/// The memory once it has taken the command byte `data`, sent in the mode
/// that it is in: the modes are entered and left, a reset takes effect only
/// when it was enabled by the command just before, and leaves the memory in
/// serial mode and in need of recovery.
pub open spec fn decode(device: Device, data: u8) -> Device {
    if data == EXIT_QUAD_MODE && device.quad {
        Device { quad: false, reset_enabled: false, identifying: false, ..device }
    } else if data == ENTER_QUAD_MODE && !device.quad {
        Device { quad: true, reset_enabled: false, identifying: false, ..device }
    } else if data == RESET_ENABLE {
        Device { reset_enabled: true, identifying: false, ..device }
    } else if data == RESET && device.reset_enabled {
        Device { quad: false, reset_enabled: false, recovering: true, identifying: false, ..device }
    } else if data == READ_ID && !device.quad {
        Device { reset_enabled: false, identifying: true, ..device }
    } else {
        Device { reset_enabled: false, identifying: false, ..device }
    }
}

/// The byte that a memory that is answering for its identity gives in its
/// `count`-th exchange after the command: three address bytes pass, then
/// come the manufacturer, the mark of the die and the density.
pub open spec fn identity_byte(device: Device, count: nat) -> u8 {
    if count == 4 {
        MANUFACTURER
    } else if count == 5 {
        KNOWN_GOOD_DIE
    } else if count == 6 {
        device.density
    } else {
        floating()
    }
}

/// The device after one byte has been exchanged. The first byte after
/// select is a command; the memory takes it only if it comes in the mode
/// that the memory is in, and not while it recovers from a reset.
pub open spec fn exchange(device: Device, data: u8, quad: bool) -> Device {
    if !device.direct || !device.selected {
        Device { heard: device.heard.push(floating()), ..device }
    } else if device.count == 0 {
        let taken = if quad == device.quad && !device.recovering {
            decode(device, data)
        } else {
            Device { identifying: false, ..device }
        };
        Device { count: 1, heard: device.heard.push(floating()), ..taken }
    } else {
        let byte = if device.identifying {
            identity_byte(device, device.count)
        } else {
            floating()
        };
        Device { count: device.count + 1, heard: device.heard.push(byte), ..device }
    }
}

/// The device after one command of the bring-up.
pub open spec fn respond(device: Device, command: Command) -> Device {
    match command {
        Command::Direct { divider } => Device { direct: true, automatic: false, ..device },
        Command::Select => if device.direct {
            Device { selected: true, count: 0, identifying: false, ..device }
        } else {
            device
        },
        Command::Exchange { data, quad } => exchange(device, data, quad),
        Command::Deselect => Device { selected: false, identifying: false, ..device },
        Command::Pause { nanos } => if nanos >= RESET_RECOVERY_NS {
            Device { recovering: false, ..device }
        } else {
            device
        },
        Command::Timing(timing) => Device { timing: Some(timing), ..device },
        Command::ReadFormat(format) => Device { read_format: Some(format), ..device },
        Command::WriteFormat(format) => Device { write_format: Some(format), ..device },
        Command::Automatic => Device {
            direct: false,
            automatic: true,
            selected: false,
            identifying: false,
            ..device
        },
        Command::Release => Device {
            direct: false,
            selected: false,
            identifying: false,
            ..device
        },
    }
}

/// The device after a list of commands, performed in order.
pub open spec fn play(device: Device, commands: Seq<Command>) -> Device
    decreases commands.len(),
{
    if commands.len() == 0 {
        device
    } else {
        respond(play(device, commands.drop_last()), commands.last())
    }
}

/// A device that nothing is going on with: not selected, and recovered
/// from any reset.
pub open spec fn quiet(device: Device) -> bool {
    !device.selected && !device.recovering
}

/// The memory answers loads and stores at a system clock of `frequency`:
/// it is in quad mode, the interface selects it by itself, reads and writes
/// go out in the formats of the memory's quad commands, and the timing fits
/// the interface's fields and is within the memory's limits.
pub open spec fn linear(device: Device, frequency: u32) -> bool {
    &&& device.quad
    &&& quiet(device)
    &&& !device.direct
    &&& device.automatic
    &&& device.read_format == Some(read_format())
    &&& device.write_format == Some(write_format())
    &&& device.timing matches Some(timing) && {
        &&& representable(timing)
        &&& timing.divider >= 1
        &&& frequency <= timing.divider * MAX_PSRAM_FREQ
        &&& timing.max_select * 64 * 1_000_000_000 <= MAX_CEM_NS * frequency
        &&& timing.min_deselect * 1_000_000_000 > MIN_CPH_NS * frequency
    }
}

/// Whether an address lies in the memory's window.
pub open spec fn in_window(address: int) -> bool {
    BASE_ADDRESS <= address < BASE_ADDRESS + SIZE
}

/// The device after a store of one byte through the window. A store
/// reaches the memory only where it answers, and only inside the window.
pub open spec fn stored(device: Device, frequency: u32, address: int, value: u8) -> Device {
    if linear(device, frequency) && in_window(address) {
        Device { memory: device.memory.insert(address - BASE_ADDRESS, value), ..device }
    } else {
        device
    }
}

/// The byte that a load through the window brings.
pub open spec fn loaded(device: Device, frequency: u32, address: int) -> u8 {
    if linear(device, frequency) && in_window(address) && device.memory.dom().contains(
        address - BASE_ADDRESS,
    ) {
        device.memory[address - BASE_ADDRESS]
    } else {
        floating()
    }
}

/// Performing one more command is responding to it last.
pub proof fn lemma_play_push(device: Device, commands: Seq<Command>, command: Command)
    ensures
        play(device, commands.push(command)) == respond(play(device, commands), command),
{
    assert(commands.push(command).drop_last() =~= commands);
}

/// Performing two lists end to end is performing the second where the
/// first left the device.
pub proof fn lemma_play_concat(device: Device, first: Seq<Command>, second: Seq<Command>)
    ensures
        play(device, first + second) == play(play(device, first), second),
    decreases second.len(),
{
    if second.len() > 0 {
        lemma_play_concat(device, first, second.drop_last());
        assert((first + second).drop_last() =~= first + second.drop_last());
    }
}

/// What one command byte sent on its own does: the memory is selected,
/// takes the byte, and is released; one byte is heard.
pub proof fn lemma_play_transaction(device: Device, data: u8, quad: bool)
    ensures
        play(device, transaction(data, quad)) == respond(
            respond(respond(device, Command::Select), Command::Exchange { data, quad }),
            Command::Deselect,
        ),
{
    let none: Seq<Command> = seq![];
    lemma_play_push(device, none, Command::Select);
    let selected = none.push(Command::Select);
    lemma_play_push(device, selected, Command::Exchange { data, quad });
    let sent = selected.push(Command::Exchange { data, quad });
    lemma_play_push(device, sent, Command::Deselect);
    assert(sent.push(Command::Deselect) == transaction(data, quad));
}

/// After the defensive exit from quad mode, a quiet memory behind an
/// interface in direct mode is in serial mode, whatever mode it was in.
pub proof fn lemma_exit_quad(device: Device)
    requires
        quiet(device),
        device.direct,
    ensures
        ({
            let after = play(device, transaction(EXIT_QUAD_MODE, true));
            &&& !after.quad
            &&& quiet(after)
            &&& after.direct
            &&& after.heard == device.heard.push(floating())
            &&& after.density == device.density
            &&& after.memory == device.memory
        }),
{
    lemma_play_transaction(device, EXIT_QUAD_MODE, true);
}

/// Reading the identity of a sound part finds the mark of a known good
/// die, whatever mode the memory was in: the bytes that the exchanges of
/// `read_id_script` bring hold the manufacturer, the mark and the density.
pub proof fn lemma_read_id_known_good(device: Device)
    requires
        quiet(device),
        device.heard.len() == 0,
    ensures
        identity_of(play(device, read_id_script()).heard) == Some(
            Identity {
                manufacturer: MANUFACTURER,
                known_good_die: KNOWN_GOOD_DIE,
                density: device.density,
            },
        ),
{
    let none: Seq<Command> = seq![];
    let opening = seq![Command::Direct { divider: crate::psram::BRING_UP_DIVIDER }];
    let zero = Command::Exchange { data: 0, quad: false };
    let reading = seq![
        Command::Select,
        Command::Exchange { data: READ_ID, quad: false },
        zero,
        zero,
        zero,
        zero,
        zero,
        zero,
        Command::Release,
    ];
    lemma_play_concat(device, opening + transaction(EXIT_QUAD_MODE, true), reading);
    lemma_play_concat(device, opening, transaction(EXIT_QUAD_MODE, true));
    lemma_play_push(device, none, Command::Direct { divider: crate::psram::BRING_UP_DIVIDER });
    let opened = play(device, opening);
    lemma_exit_quad(opened);
    let serial = play(opened, transaction(EXIT_QUAD_MODE, true));
    let r0 = none;
    lemma_play_push(serial, r0, Command::Select);
    let r1 = r0.push(Command::Select);
    lemma_play_push(serial, r1, Command::Exchange { data: READ_ID, quad: false });
    let r2 = r1.push(Command::Exchange { data: READ_ID, quad: false });
    lemma_play_push(serial, r2, zero);
    let r3 = r2.push(zero);
    lemma_play_push(serial, r3, zero);
    let r4 = r3.push(zero);
    lemma_play_push(serial, r4, zero);
    let r5 = r4.push(zero);
    lemma_play_push(serial, r5, zero);
    let r6 = r5.push(zero);
    lemma_play_push(serial, r6, zero);
    let r7 = r6.push(zero);
    lemma_play_push(serial, r7, zero);
    let r8 = r7.push(zero);
    lemma_play_push(serial, r8, Command::Release);
    assert(r8.push(Command::Release) == reading);
}

/// After the reset commands, a quiet memory in serial mode behind an
/// interface in direct mode is in quad mode and has recovered.
pub proof fn lemma_reset_enters_quad(device: Device)
    requires
        quiet(device),
        device.direct,
        !device.quad,
    ensures
        ({
            let after = play(device, reset_script());
            &&& after.quad
            &&& quiet(after)
            &&& after.direct
            &&& after.memory == device.memory
        }),
{
    let pause = seq![Command::Pause { nanos: crate::psram::RESET_PAUSE_NS }];
    let a = transaction(RESET_ENABLE, false);
    let b = transaction(RESET, false);
    let c = transaction(ENTER_QUAD_MODE, false);
    lemma_play_concat(device, a + b + pause, c);
    lemma_play_concat(device, a + b, pause);
    lemma_play_concat(device, a, b);
    lemma_play_transaction(device, RESET_ENABLE, false);
    let armed = play(device, a);
    lemma_play_transaction(armed, RESET, false);
    let reset = play(armed, b);
    let none: Seq<Command> = seq![];
    lemma_play_push(reset, none, Command::Pause { nanos: crate::psram::RESET_PAUSE_NS });
    let recovered = play(reset, pause);
    lemma_play_transaction(recovered, ENTER_QUAD_MODE, false);
}

/// The bring-up leaves the memory answering loads and stores, with what it
/// holds untouched. It does so from any mode when it is told that the
/// memory may be in quad mode, and from serial mode otherwise.
pub proof fn lemma_init_makes_linear(device: Device, frequency: u32, may_be_quad: bool)
    requires
        quiet(device),
        0 < frequency <= MAX_SYSTEM_FREQ,
        may_be_quad || !device.quad,
    ensures
        linear(play(device, init_script(frequency, may_be_quad)), frequency),
        play(device, init_script(frequency, may_be_quad)).memory == device.memory,
{
    let none: Seq<Command> = seq![];
    let opening = seq![Command::Direct { divider: crate::psram::BRING_UP_DIVIDER }];
    let leaving = if may_be_quad {
        transaction(EXIT_QUAD_MODE, true)
    } else {
        none
    };
    lemma_play_concat(device, opening + leaving + reset_script(), window_script(frequency));
    lemma_play_concat(device, opening + leaving, reset_script());
    lemma_play_concat(device, opening, leaving);
    lemma_play_push(device, none, Command::Direct { divider: crate::psram::BRING_UP_DIVIDER });
    let opened = play(device, opening);
    if may_be_quad {
        lemma_exit_quad(opened);
    }
    let serial = play(opened, leaving);
    lemma_reset_enters_quad(serial);
    let ready = play(serial, reset_script());
    let w0 = none;
    lemma_play_push(ready, w0, Command::Timing(timing_of(frequency)));
    let w1 = w0.push(Command::Timing(timing_of(frequency)));
    lemma_play_push(ready, w1, Command::ReadFormat(read_format()));
    let w2 = w1.push(Command::ReadFormat(read_format()));
    lemma_play_push(ready, w2, Command::WriteFormat(write_format()));
    let w3 = w2.push(Command::WriteFormat(write_format()));
    lemma_play_push(ready, w3, Command::Automatic);
    assert(w3.push(Command::Automatic) == window_script(frequency));
}

/// A byte stored through the window of a memory that answers is the byte
/// that a load from the same address brings; the memory goes on answering,
/// and no other address changes.
pub proof fn lemma_store_then_load(device: Device, frequency: u32, address: int, value: u8)
    requires
        linear(device, frequency),
        in_window(address),
    ensures
        loaded(stored(device, frequency, address, value), frequency, address) == value,
        linear(stored(device, frequency, address, value), frequency),
        forall|other: int|
            other != address ==> loaded(stored(device, frequency, address, value), frequency, other)
                == loaded(device, frequency, other),
{
}

/// After the bring-up, anything written anywhere in the window is read
/// back unchanged.
pub proof fn lemma_init_then_round_trip(
    device: Device,
    frequency: u32,
    may_be_quad: bool,
    address: int,
    value: u8,
)
    requires
        quiet(device),
        0 < frequency <= MAX_SYSTEM_FREQ,
        may_be_quad || !device.quad,
        in_window(address),
    ensures
        loaded(
            stored(play(device, init_script(frequency, may_be_quad)), frequency, address, value),
            frequency,
            address,
        ) == value,
{
    lemma_init_makes_linear(device, frequency, may_be_quad);
}

} // verus!
