//! The sensor controller.
//!
//! An operation on the sensor is a fixed list of actions on its lines, its
//! registers and the capture machinery, the script. The controller issues
//! the script one action at a time: the caller performs the action, reports
//! how it went, and is told the next one, until the operation finishes.
//!
//! Every operation wakes the sensor first and puts it to sleep last. When a
//! transfer on the bus fails, the rest of the operation is skipped: the
//! controller still puts the sensor to sleep and then reports the first
//! failure. A capture is the exception: it stops where it failed and leaves
//! the sensor awake.

use crate::exposure::MAX_GAIN;
use crate::exposure::gain_code;
use crate::exposure::gain_code_of;
use crate::exposure::shutter_width;
use crate::exposure::shutter_width_of;
use crate::fields::MANUAL_CALIBRATION;
use crate::fields::SNAPSHOT_OPTIONS;
use crate::fields::chip_enable_bits;
use crate::mt9m001::BusReply;
use crate::mt9m001::BusRequest;
use crate::mt9m001::Error;
use crate::mt9m001::MT9M001;
use crate::mt9m001::Progress;
use crate::mt9m001::next;
use crate::mt9m001::select;
use crate::mt9m001::store;
use crate::registers;
use vstd::prelude::*;

verus! {

/// The height of the window, in rows.
pub const HEIGHT: u16 = 1048;

/// The width of the window: the column size that the sensor is given. It
/// is odd, as a column size must be.
pub const WIDTH: u16 = 1311;

/// The frequency of the clock that the sensor is given, in hertz.
pub const FREQUENCY: u32 = 5_800_000;

/// What the chip version register of an MT9M001 holds.
pub const KNOWN_VERSION: u16 = 0x8431;

/// The correction written to the analog offset of even rows, odd columns.
pub const OFFSET_CORRECTION: u16 = 2;

/// How long the sensor is given to settle after chip enable changes, in
/// milliseconds.
pub const SETTLE_MILLIS: u32 = 1;

/// The number of words in the frame that a capture fills.
pub const FRAME_WORDS: usize = 458_675;

/// The place, in the script of an operation that reads one register, of
/// the fetch of that register.
pub const READING_PLACE: usize = 5;

/// The place in a capture's script of the write of the gain.
pub const GAIN_PLACE: usize = 7;

/// The place in a capture's script of the fetch of the shutter delay.
pub const DELAY_PLACE: usize = 10;

/// The place in a capture's script of the fetch of the column size.
pub const COLUMNS_PLACE: usize = 12;

/// The place in a capture's script of the fetch of the horizontal blanking.
pub const BLANKING_PLACE: usize = 14;

/// The place in a capture's script of the write of the shutter width.
pub const WIDTH_PLACE: usize = 15;

/// The place in a capture's script where the transfer is armed.
pub const ARM_PLACE: usize = 16;

/// The place in a capture's script where the transfer is awaited.
pub const AWAIT_PLACE: usize = 19;

/// The place in a capture's script where the state machine is stopped.
pub const STOP_PLACE: usize = 20;

/// One thing for the caller to do.
#[derive(Debug, Clone, Copy, PartialEq, Eq, Structural)]
pub enum Action {
    /// Switch the clock output to the sensor on or off.
    Clock(bool),
    /// Assert the standby line (`true`) or deassert it.
    Standby(bool),
    /// Wait at least `SETTLE_MILLIS`.
    Settle,
    /// Perform a transfer on the two-wire bus and report its reply.
    Bus(BusRequest),
    /// Enable the capture state machine (`true`) or stop it.
    Machine(bool),
    /// Empty the queues of the capture state machine.
    ClearQueues,
    /// Restart the capture state machine from its first instruction.
    Restart,
    /// Arm a transfer of `words` words from the receive queue into the frame.
    Arm { words: usize },
    /// Drive the trigger line high (`true`) or low.
    Trigger(bool),
    /// Wait until the armed transfer has completed.
    Await,
    /// The operation is over, with this result. Nothing is left to do.
    Finish(Outcome),
    /// No operation is under way.
    Idle,
    /// An operation is under way, and no other can begin before it is over.
    Busy,
}

/// How an operation ended.
#[derive(Debug, Clone, Copy, PartialEq, Eq, Structural)]
pub enum Outcome {
    /// The chip version was read; it is the known one or not.
    Known(bool),
    /// The sensor is configured.
    Configured,
    /// The frame is filled.
    Captured,
    /// The size that was asked for.
    Size(u16),
    /// The operation failed with this error, the first that it met.
    Failed(Error),
}

/// The operations of the controller.
#[derive(Debug, Clone, Copy, PartialEq, Eq, Structural)]
pub enum Task {
    /// None is under way.
    Rest,
    /// Read the chip version and compare it.
    Identify,
    /// Reset the sensor and program the window and the modes.
    Configure,
    /// Expose one frame and move it into memory.
    Capture,
    /// Read the window's width.
    Width,
    /// Read the window's height.
    Height,
}

/// Where the controller stands.
#[derive(Debug, Clone, Copy, PartialEq, Eq, Structural)]
pub enum State {
    /// No operation is under way, and the sensor sleeps.
    Asleep,
    /// The sensor is being woken.
    Waking,
    /// Registers are being read or written, or the capture machinery is
    /// being made ready.
    Configuring,
    /// The transfer of the frame is armed.
    Armed,
    /// The sensor has been triggered, and the frame is on its way.
    Capturing,
    /// The frame is in memory, and the capture machinery is being stopped.
    Draining,
    /// The sensor is being put to sleep.
    Sleeping,
    /// A capture has failed and has left the sensor awake.
    Faulted,
}

/// All that the controller keeps.
#[derive(Debug, Clone, Copy, PartialEq, Eq, Structural)]
pub struct Run {
    /// The operation under way.
    pub task: Task,
    /// How many actions of its script have been issued.
    pub cursor: usize,
    /// The action issued last, whose reply is awaited.
    pub last: Action,
    /// The first failure of an operation that is being wound up.
    pub fault: Option<Error>,
    /// Whether a capture has failed since the last operation began.
    pub faulted: bool,
    /// The numerator of the shutter time in seconds.
    pub numerator: u32,
    /// The denominator of the shutter time in seconds.
    pub denominator: u32,
    /// The gain, in thousandths.
    pub gain: u32,
    /// The numerator of the shutter time of the operation under way.
    pub shot_numerator: u32,
    /// The denominator of the shutter time of the operation under way.
    pub shot_denominator: u32,
    /// The gain of the operation under way.
    pub shot_gain: u32,
    /// The shutter delay that the capture under way has read.
    pub shutter_delay: u16,
    /// The column size that the capture under way has read.
    pub column_size: u16,
    /// The horizontal blanking that the capture under way has read.
    pub horizontal_blanking: u16,
    /// What an operation that reads one register has read.
    pub reading: u16,
}

/// The actions that wake the sensor: clock on, standby deasserted, chip
/// enable set, then time to settle.
pub open spec fn wake_script() -> Seq<Action> {
    seq![
        Action::Clock(true),
        Action::Standby(false),
        Action::Bus(store(registers::OUTPUT_CONTROL, chip_enable_bits(true))),
        Action::Settle,
    ]
}

/// The actions that put the sensor to sleep: chip enable cleared, time to
/// settle, standby asserted, clock off.
pub open spec fn sleep_script() -> Seq<Action> {
    seq![
        Action::Bus(store(registers::OUTPUT_CONTROL, chip_enable_bits(false))),
        Action::Settle,
        Action::Standby(true),
        Action::Clock(false),
    ]
}

/// The shutter width that a capture writes, from the shutter time that was
/// set when it began and the three registers that it has read.
pub open spec fn capture_width(run: Run) -> int {
    shutter_width_of(
        run.shot_numerator,
        run.shot_denominator,
        FREQUENCY,
        run.shutter_delay,
        run.column_size,
        run.horizontal_blanking,
    )
}

/// What an operation does between waking the sensor and putting it to
/// sleep.
pub open spec fn body(run: Run) -> Seq<Action> {
    match run.task {
        Task::Rest => seq![],
        Task::Identify => seq![
            Action::Bus(select(registers::CHIP_VERSION)),
            Action::Bus(BusRequest::Fetch),
        ],
        Task::Configure => seq![
            Action::Bus(store(registers::RESET, 1)),
            Action::Bus(store(registers::RESET, 0)),
            Action::Bus(store(registers::READ_OPTIONS_1, SNAPSHOT_OPTIONS)),
            Action::Bus(store(registers::CAL_CTRL, MANUAL_CALIBRATION)),
            Action::Bus(store(registers::COLUMN_START, 0)),
            Action::Bus(store(registers::COLUMN_SIZE, WIDTH)),
            Action::Bus(store(registers::ROW_START, 0)),
            Action::Bus(store(registers::ROW_SIZE, HEIGHT)),
            Action::Bus(store(registers::HORIZONTAL_BLANKING, 0)),
            Action::Bus(store(registers::VERTICAL_BLANKING, 0)),
        ],
        Task::Capture => seq![
            Action::Machine(true),
            Action::ClearQueues,
            Action::Restart,
            Action::Bus(
                store(registers::GLOBAL_GAIN, gain_code_of(run.shot_gain as int) as u16),
            ),
            Action::Bus(
                store(registers::ANALOG_OFFSET_CORRECTION_EVEN_ROW_ODD_COLUMN, OFFSET_CORRECTION),
            ),
            Action::Bus(select(registers::SHUTTER_DELAY)),
            Action::Bus(BusRequest::Fetch),
            Action::Bus(select(registers::COLUMN_SIZE)),
            Action::Bus(BusRequest::Fetch),
            Action::Bus(select(registers::HORIZONTAL_BLANKING)),
            Action::Bus(BusRequest::Fetch),
            Action::Bus(store(registers::SHUTTER_WIDTH, capture_width(run) as u16)),
            Action::Arm { words: FRAME_WORDS },
            Action::Trigger(true),
            Action::Trigger(false),
            Action::Await,
            Action::Machine(false),
        ],
        Task::Width => seq![
            Action::Bus(select(registers::COLUMN_SIZE)),
            Action::Bus(BusRequest::Fetch),
        ],
        Task::Height => seq![
            Action::Bus(select(registers::ROW_SIZE)),
            Action::Bus(BusRequest::Fetch),
        ],
    }
}

/// The whole of an operation: wake, body, sleep.
pub open spec fn script(run: Run) -> Seq<Action> {
    wake_script() + body(run) + sleep_script()
}

/// The number of actions in the body of an operation.
pub open spec fn body_len(task: Task) -> nat {
    match task {
        Task::Rest => 0,
        Task::Identify => 2,
        Task::Configure => 10,
        Task::Capture => 17,
        Task::Width => 2,
        Task::Height => 2,
    }
}

/// The place in the script where the sensor is put to sleep.
pub open spec fn sleep_start(task: Task) -> nat {
    4 + body_len(task)
}

/// The number of actions in the script of an operation.
pub open spec fn script_len(task: Task) -> nat {
    8 + body_len(task)
}

/// Why the action at `index` cannot be issued, if it cannot: a capture
/// whose shutter width does not fit the register is refused before the
/// width is written.
pub open spec fn refusal(run: Run, index: nat) -> Option<Error> {
    if run.task is Capture && index == WIDTH_PLACE && capture_width(run) > 0x3FFF {
        Some(Error::Value)
    } else {
        None
    }
}

/// The action at `index` of the script, or the refusal that it meets.
pub open spec fn planned(run: Run, index: nat) -> Result<Action, Error> {
    match refusal(run, index) {
        Some(error) => Err(error),
        None => Ok(script(run)[index as int]),
    }
}

/// The failure that a reply to `last` reports, if it reports one.
pub open spec fn failure(last: Action, reply: BusReply) -> Option<Error> {
    match last {
        Action::Bus(request) => match next(request, reply) {
            Progress::Failed(error) => Some(error),
            _ => None,
        },
        _ => None,
    }
}

/// The controller once it has taken in what a reply to its last action
/// brought: the value of the register that was read.
pub open spec fn absorb(run: Run, reply: BusReply) -> Run {
    match run.last {
        Action::Bus(request) => match next(request, reply) {
            Progress::Value(value) => if run.task is Capture {
                if run.cursor == DELAY_PLACE + 1 {
                    Run { shutter_delay: value, ..run }
                } else if run.cursor == COLUMNS_PLACE + 1 {
                    Run { column_size: value, ..run }
                } else {
                    Run { horizontal_blanking: value, ..run }
                }
            } else {
                Run { reading: value, ..run }
            },
            _ => run,
        },
        _ => run,
    }
}

/// The controller at rest, with the exposure that is set kept, and taken
/// as the exposure of the operation that begins next.
pub open spec fn rested(run: Run, faulted: bool) -> Run {
    Run {
        task: Task::Rest,
        cursor: 0,
        last: Action::Idle,
        fault: None,
        faulted,
        numerator: run.numerator,
        denominator: run.denominator,
        gain: run.gain,
        shot_numerator: run.numerator,
        shot_denominator: run.denominator,
        shot_gain: run.gain,
        shutter_delay: 0,
        column_size: 0,
        horizontal_blanking: 0,
        reading: 0,
    }
}

/// What an operation that has run through its script reports.
pub open spec fn outcome(run: Run) -> Outcome {
    match run.fault {
        Some(error) => Outcome::Failed(error),
        None => match run.task {
            Task::Identify => Outcome::Known(run.reading == KNOWN_VERSION),
            Task::Capture => Outcome::Captured,
            Task::Width => Outcome::Size(run.reading),
            Task::Height => Outcome::Size(run.reading),
            _ => Outcome::Configured,
        },
    }
}

/// The end of an operation that has run through its script.
pub open spec fn finish(run: Run) -> (Run, Action) {
    (rested(run, false), Action::Finish(outcome(run)))
}

/// The controller with `action` issued as the entry at `index`.
pub open spec fn issue(run: Run, index: nat, action: Action) -> (Run, Action) {
    (Run { cursor: (index + 1) as usize, last: action, ..run }, action)
}

/// What happens when an operation fails with `error`. A capture ends at
/// once and leaves the sensor as it is. Any other operation goes on with
/// putting the sensor to sleep, from the start of that or from where it
/// already is, and keeps the first error for the end.
pub open spec fn fail(run: Run, error: Error) -> (Run, Action) {
    if run.task is Capture {
        (rested(run, true), Action::Finish(Outcome::Failed(error)))
    } else {
        let first = if run.fault is Some {
            run.fault
        } else {
            Some(error)
        };
        let at = if run.cursor <= sleep_start(run.task) {
            sleep_start(run.task)
        } else {
            run.cursor as nat
        };
        let kept = Run { fault: first, ..run };
        if at >= script_len(run.task) {
            finish(kept)
        } else {
            issue(kept, at, script(run)[at as int])
        }
    }
}

/// What happens when the last action went well: the next entry of the
/// script is issued, or refused, or the script is at its end.
pub open spec fn proceed(run: Run) -> (Run, Action) {
    if run.cursor >= script_len(run.task) {
        finish(run)
    } else {
        match planned(run, run.cursor as nat) {
            Ok(action) => issue(run, run.cursor as nat, action),
            Err(error) => fail(run, error),
        }
    }
}

/// One step of the controller: from where it stands and the reply to its
/// last action, to where it stands next and the action to perform.
pub open spec fn step(run: Run, reply: BusReply) -> (Run, Action) {
    if run.task is Rest || run.cursor == 0 || run.cursor > script_len(run.task) {
        (run, Action::Idle)
    } else {
        let heard = absorb(run, reply);
        match failure(run.last, reply) {
            Some(error) => fail(heard, error),
            None => proceed(heard),
        }
    }
}

/// The start of an operation: the first action of the script is issued.
/// While an operation is under way nothing begins and nothing changes: an
/// operation, once begun, is not called off.
pub open spec fn begin(run: Run, task: Task) -> (Run, Action) {
    if run.task is Rest {
        issue(Run { task, ..rested(run, false) }, 0, Action::Clock(true))
    } else {
        (run, Action::Busy)
    }
}

/// The state that the controller is in.
pub open spec fn phase(run: Run) -> State {
    if run.task is Rest || run.cursor == 0 {
        if run.faulted {
            State::Faulted
        } else {
            State::Asleep
        }
    } else if run.cursor <= 4 {
        State::Waking
    } else if run.cursor > sleep_start(run.task) {
        State::Sleeping
    } else if run.task is Capture && run.cursor == ARM_PLACE + 1 {
        State::Armed
    } else if run.task is Capture && ARM_PLACE + 1 < run.cursor <= AWAIT_PLACE + 1 {
        State::Capturing
    } else if run.task is Capture && run.cursor == STOP_PLACE + 1 {
        State::Draining
    } else {
        State::Configuring
    }
}

/// The controller of one sensor.
pub struct Sensor {
    mt9m001: MT9M001,
    run: Run,
}

impl Sensor {
    #[verifier::type_invariant]
    spec fn sound(self) -> bool {
        &&& self.run.denominator != 0
        &&& self.run.gain <= MAX_GAIN
        &&& self.run.shot_denominator != 0
        &&& self.run.shot_gain <= MAX_GAIN
    }

    /// What the controller keeps.
    pub closed spec fn view(&self) -> Run {
        self.run
    }

    /// A controller at rest, with a shutter time of a tenth of a second and
    /// a gain of one.
    pub fn new() -> (sensor: Self)
        ensures
            sensor@.task is Rest,
            sensor@.cursor == 0,
            !sensor@.faulted,
            sensor@.numerator == 1,
            sensor@.denominator == 10,
            sensor@.gain == 1000,
            sensor@ == rested(sensor@, false),
    {
        Sensor {
            mt9m001: MT9M001::new(),
            run: Run {
                task: Task::Rest,
                cursor: 0,
                last: Action::Idle,
                fault: None,
                faulted: false,
                numerator: 1,
                denominator: 10,
                gain: 1000,
                shot_numerator: 1,
                shot_denominator: 10,
                shot_gain: 1000,
                shutter_delay: 0,
                column_size: 0,
                horizontal_blanking: 0,
                reading: 0,
            },
        }
    }

    /// Sets the shutter time of the captures to come to
    /// `numerator / denominator` seconds. Nothing is sent to the sensor, and
    /// a capture that is under way keeps the shutter time it began with.
    pub fn set_shutter_speed(&mut self, numerator: u32, denominator: u32)
        requires
            denominator != 0,
        ensures
            final(self)@ == (Run { numerator, denominator, ..old(self)@ }),
    {
        proof {
            use_type_invariant(&*self);
        }
        let run = Run { numerator, denominator, ..self.run };
        *self = Sensor { mt9m001: self.mt9m001, run };
    }

    /// Sets the gain of the captures to come, in thousandths. Nothing is
    /// sent to the sensor, and a capture that is under way keeps the gain it
    /// began with.
    pub fn set_gain(&mut self, gain: u32)
        requires
            gain <= MAX_GAIN,
        ensures
            final(self)@ == (Run { gain, ..old(self)@ }),
    {
        proof {
            use_type_invariant(&*self);
        }
        let run = Run { gain, ..self.run };
        *self = Sensor { mt9m001: self.mt9m001, run };
    }

    /// The shutter time, numerator and denominator.
    pub fn shutter_speed(&self) -> (shutter: (u32, u32))
        ensures
            shutter.0 == self@.numerator,
            shutter.1 == self@.denominator,
            shutter.1 != 0,
    {
        proof {
            use_type_invariant(self);
        }
        (self.run.numerator, self.run.denominator)
    }

    /// The gain, in thousandths.
    pub fn gain(&self) -> (gain: u32)
        ensures
            gain == self@.gain,
            gain <= MAX_GAIN,
    {
        proof {
            use_type_invariant(self);
        }
        self.run.gain
    }

    /// The state that the controller is in.
    pub fn state(&self) -> (state: State)
        ensures
            state == phase(self@),
    {
        let run = self.run;
        let start = sleep_place(run.task);
        let capture = matches!(run.task, Task::Capture);
        if matches!(run.task, Task::Rest) || run.cursor == 0 {
            if run.faulted {
                State::Faulted
            } else {
                State::Asleep
            }
        } else if run.cursor <= 4 {
            State::Waking
        } else if run.cursor > start {
            State::Sleeping
        } else if capture && run.cursor == ARM_PLACE + 1 {
            State::Armed
        } else if capture && ARM_PLACE + 1 < run.cursor && run.cursor <= AWAIT_PLACE + 1 {
            State::Capturing
        } else if capture && run.cursor == STOP_PLACE + 1 {
            State::Draining
        } else {
            State::Configuring
        }
    }

    /// Starts reading the chip version. The operation ends with
    /// `Known(true)` if the sensor is an MT9M001, with `Known(false)` if it
    /// is not.
    pub fn is_known_sensor(&mut self) -> (action: Action)
        ensures
            (final(self)@, action) == begin(old(self)@, Task::Identify),
    {
        self.start(Task::Identify)
    }

    /// Starts configuring the sensor: a reset pulse, snapshot mode, manual
    /// black level, the window at its full size and no blanking.
    pub fn init(&mut self) -> (action: Action)
        ensures
            (final(self)@, action) == begin(old(self)@, Task::Configure),
    {
        self.start(Task::Configure)
    }

    /// Starts the capture of one frame, with the shutter time and gain
    /// that are set. The frame takes `FRAME_WORDS` words.
    pub fn capture(&mut self) -> (action: Action)
        ensures
            (final(self)@, action) == begin(old(self)@, Task::Capture),
    {
        self.start(Task::Capture)
    }

    /// Starts reading the width that the sensor's window is set to.
    pub fn width(&mut self) -> (action: Action)
        ensures
            (final(self)@, action) == begin(old(self)@, Task::Width),
    {
        self.start(Task::Width)
    }

    /// Starts reading the height that the sensor's window is set to.
    pub fn height(&mut self) -> (action: Action)
        ensures
            (final(self)@, action) == begin(old(self)@, Task::Height),
    {
        self.start(Task::Height)
    }

    /// Takes the reply to the action issued last and issues the next one.
    /// The reply to an action that is no transfer on the bus says nothing
    /// and is passed over.
    pub fn advance(&mut self, reply: BusReply) -> (action: Action)
        ensures
            (final(self)@, action) == step(old(self)@, reply),
    {
        proof {
            use_type_invariant(&*self);
        }
        let run = self.run;
        if matches!(run.task, Task::Rest) || run.cursor == 0 || run.cursor > script_size(run.task) {
            return Action::Idle;
        }
        let mut heard = run;
        let mut failed: Option<Error> = None;
        if let Action::Bus(request) = run.last {
            match self.mt9m001.resume(request, reply) {
                Progress::Value(value) => {
                    heard = record(run, value);
                },
                Progress::Failed(error) => {
                    failed = Some(error);
                },
                _ => {},
            }
        }
        let (after, action) = match failed {
            Some(error) => self.fail(heard, error),
            None => self.proceed(heard),
        };
        *self = Sensor { mt9m001: self.mt9m001, run: after };
        action
    }

    fn start(&mut self, task: Task) -> (action: Action)
        ensures
            (final(self)@, action) == begin(old(self)@, task),
    {
        proof {
            use_type_invariant(&*self);
        }
        if !matches!(self.run.task, Task::Rest) {
            return Action::Busy;
        }
        let action = Action::Clock(true);
        let run = Run { task, cursor: 1, last: action, ..at_rest(self.run, false) };
        *self = Sensor { mt9m001: self.mt9m001, run };
        action
    }

    fn proceed(&self, run: Run) -> (next: (Run, Action))
        requires
            run.denominator != 0,
            run.gain <= MAX_GAIN,
            run.shot_denominator != 0,
            run.shot_gain <= MAX_GAIN,
            run.cursor <= script_len(run.task),
        ensures
            next == proceed(run),
            next.0.numerator == run.numerator,
            next.0.denominator == run.denominator,
            next.0.gain == run.gain,
            next.0.shot_denominator != 0,
            next.0.shot_gain <= MAX_GAIN,
    {
        if run.cursor >= script_size(run.task) {
            (at_rest(run, false), Action::Finish(result(run)))
        } else {
            match self.entry(run, run.cursor) {
                Ok(action) => (Run { cursor: run.cursor + 1, last: action, ..run }, action),
                Err(error) => self.fail(run, error),
            }
        }
    }

    fn fail(&self, run: Run, error: Error) -> (next: (Run, Action))
        requires
            run.denominator != 0,
            run.gain <= MAX_GAIN,
            run.shot_denominator != 0,
            run.shot_gain <= MAX_GAIN,
            run.cursor <= script_len(run.task),
        ensures
            next == fail(run, error),
            next.0.numerator == run.numerator,
            next.0.denominator == run.denominator,
            next.0.gain == run.gain,
            next.0.shot_denominator != 0,
            next.0.shot_gain <= MAX_GAIN,
    {
        if matches!(run.task, Task::Capture) {
            return (at_rest(run, true), Action::Finish(Outcome::Failed(error)));
        }
        let first = match run.fault {
            Some(earlier) => Some(earlier),
            None => Some(error),
        };
        let start = sleep_place(run.task);
        let at = if run.cursor <= start {
            start
        } else {
            run.cursor
        };
        let kept = Run { fault: first, ..run };
        if at >= script_size(run.task) {
            (at_rest(kept, false), Action::Finish(result(kept)))
        } else {
            let action = self.sleep_entry(at - start);
            (Run { cursor: at + 1, last: action, ..kept }, action)
        }
    }

    /// The `index`-th action that puts the sensor to sleep.
    fn sleep_entry(&self, index: usize) -> (action: Action)
        requires
            index < 4,
        ensures
            action == sleep_script()[index as int],
    {
        if index == 0 {
            Action::Bus(self.mt9m001.set_output_control(false, false, false))
        } else if index == 1 {
            Action::Settle
        } else if index == 2 {
            Action::Standby(true)
        } else {
            Action::Clock(false)
        }
    }

    /// The `index`-th action that wakes the sensor.
    fn wake_entry(&self, index: usize) -> (action: Action)
        requires
            index < 4,
        ensures
            action == wake_script()[index as int],
    {
        if index == 0 {
            Action::Clock(true)
        } else if index == 1 {
            Action::Standby(false)
        } else if index == 2 {
            Action::Bus(self.mt9m001.set_output_control(false, true, false))
        } else {
            Action::Settle
        }
    }

    /// The action at `index` of the script, or the refusal that it meets.
    fn entry(&self, run: Run, index: usize) -> (entry: Result<Action, Error>)
        requires
            run.shot_denominator != 0,
            run.shot_gain <= MAX_GAIN,
            index < script_len(run.task),
        ensures
            entry == planned(run, index as nat),
    {
        proof {
            lemma_script_parts(run);
        }
        let start = sleep_place(run.task);
        if index < 4 {
            Ok(self.wake_entry(index))
        } else if index >= start {
            Ok(self.sleep_entry(index - start))
        } else {
            self.body_entry(run, index - 4)
        }
    }

    /// The action at `index` of the body, or the refusal that it meets.
    fn body_entry(&self, run: Run, index: usize) -> (entry: Result<Action, Error>)
        requires
            run.shot_denominator != 0,
            run.shot_gain <= MAX_GAIN,
            index < body_len(run.task),
        ensures
            entry == (match refusal(run, (index + 4) as nat) {
                Some(error) => Err::<Action, Error>(error),
                None => Ok(body(run)[index as int]),
            }),
    {
        let driver = &self.mt9m001;
        match run.task {
            Task::Rest => Ok(Action::Idle),
            Task::Identify => if index == 0 {
                Ok(Action::Bus(driver.get_chip_version()))
            } else {
                Ok(Action::Bus(BusRequest::Fetch))
            },
            Task::Width => if index == 0 {
                Ok(Action::Bus(driver.get_column_size()))
            } else {
                Ok(Action::Bus(BusRequest::Fetch))
            },
            Task::Height => if index == 0 {
                Ok(Action::Bus(driver.get_row_size()))
            } else {
                Ok(Action::Bus(BusRequest::Fetch))
            },
            Task::Configure => if index == 0 {
                Ok(Action::Bus(driver.set_reset(true)))
            } else if index == 1 {
                Ok(Action::Bus(driver.set_reset(false)))
            } else if index == 2 {
                Ok(Action::Bus(driver.set_read_options_1(SNAPSHOT_OPTIONS)))
            } else if index == 3 {
                Ok(Action::Bus(driver.set_cal_ctrl(MANUAL_CALIBRATION)))
            } else if index == 4 {
                on_bus(driver.set_column_start(0))
            } else if index == 5 {
                on_bus(driver.set_column_size(WIDTH))
            } else if index == 6 {
                Ok(Action::Bus(driver.set_row_start(0)))
            } else if index == 7 {
                on_bus(driver.set_row_size(HEIGHT))
            } else if index == 8 {
                on_bus(driver.set_horizontal_blanking(0))
            } else {
                on_bus(driver.set_vertical_blanking(0))
            },
            Task::Capture => if index == 0 {
                Ok(Action::Machine(true))
            } else if index == 1 {
                Ok(Action::ClearQueues)
            } else if index == 2 {
                Ok(Action::Restart)
            } else if index == 3 {
                Ok(Action::Bus(driver.set_global_gain(gain_code(run.shot_gain))))
            } else if index == 4 {
                Ok(
                    Action::Bus(
                        driver.set_analog_offset_correction_even_row_odd_column(OFFSET_CORRECTION),
                    ),
                )
            } else if index == 5 {
                Ok(Action::Bus(driver.get_shutter_delay()))
            } else if index == 7 {
                Ok(Action::Bus(driver.get_column_size()))
            } else if index == 9 {
                Ok(Action::Bus(driver.get_horizontal_blanking()))
            } else if index == 6 || index == 8 || index == 10 {
                Ok(Action::Bus(BusRequest::Fetch))
            } else if index == 11 {
                let width: u64 = shutter_width(
                    run.shot_numerator,
                    run.shot_denominator,
                    FREQUENCY,
                    run.shutter_delay,
                    run.column_size,
                    run.horizontal_blanking,
                );
                if width > 0xFFFF {
                    Err(Error::Value)
                } else {
                    on_bus(driver.set_shutter_width(width as u16))
                }
            } else if index == 12 {
                Ok(Action::Arm { words: FRAME_WORDS })
            } else if index == 13 {
                Ok(Action::Trigger(true))
            } else if index == 14 {
                Ok(Action::Trigger(false))
            } else if index == 15 {
                Ok(Action::Await)
            } else {
                Ok(Action::Machine(false))
            },
        }
    }
}

/// A transfer that the driver accepted, as an action; its refusal otherwise.
fn on_bus(request: Result<BusRequest, Error>) -> (entry: Result<Action, Error>)
    ensures
        entry == (match request {
            Ok(transfer) => Ok::<Action, Error>(Action::Bus(transfer)),
            Err(error) => Err(error),
        }),
{
    match request {
        Ok(transfer) => Ok(Action::Bus(transfer)),
        Err(error) => Err(error),
    }
}

fn body_size(task: Task) -> (len: usize)
    ensures
        len == body_len(task),
{
    match task {
        Task::Rest => 0,
        Task::Identify => 2,
        Task::Configure => 10,
        Task::Capture => 17,
        Task::Width => 2,
        Task::Height => 2,
    }
}

fn sleep_place(task: Task) -> (place: usize)
    ensures
        place == sleep_start(task),
{
    4 + body_size(task)
}

fn script_size(task: Task) -> (len: usize)
    ensures
        len == script_len(task),
{
    8 + body_size(task)
}

fn at_rest(run: Run, faulted: bool) -> (rest: Run)
    ensures
        rest == rested(run, faulted),
{
    Run {
        task: Task::Rest,
        cursor: 0,
        last: Action::Idle,
        fault: None,
        faulted,
        numerator: run.numerator,
        denominator: run.denominator,
        gain: run.gain,
        shot_numerator: run.numerator,
        shot_denominator: run.denominator,
        shot_gain: run.gain,
        shutter_delay: 0,
        column_size: 0,
        horizontal_blanking: 0,
        reading: 0,
    }
}

fn result(run: Run) -> (result: Outcome)
    ensures
        result == outcome(run),
{
    match run.fault {
        Some(error) => Outcome::Failed(error),
        None => match run.task {
            Task::Identify => Outcome::Known(run.reading == KNOWN_VERSION),
            Task::Capture => Outcome::Captured,
            Task::Width => Outcome::Size(run.reading),
            Task::Height => Outcome::Size(run.reading),
            _ => Outcome::Configured,
        },
    }
}

/// The controller with a value that was read put where it belongs.
fn record(run: Run, value: u16) -> (heard: Run)
    ensures
        heard == (if run.task is Capture {
            if run.cursor == DELAY_PLACE + 1 {
                Run { shutter_delay: value, ..run }
            } else if run.cursor == COLUMNS_PLACE + 1 {
                Run { column_size: value, ..run }
            } else {
                Run { horizontal_blanking: value, ..run }
            }
        } else {
            Run { reading: value, ..run }
        }),
{
    if matches!(run.task, Task::Capture) {
        if run.cursor == DELAY_PLACE + 1 {
            Run { shutter_delay: value, ..run }
        } else if run.cursor == COLUMNS_PLACE + 1 {
            Run { column_size: value, ..run }
        } else {
            Run { horizontal_blanking: value, ..run }
        }
    } else {
        Run { reading: value, ..run }
    }
}

/// A script is its three parts laid end to end: the wake actions come
/// first, the sleep actions last, and the body lies between them.
pub proof fn lemma_script_parts(run: Run)
    ensures
        script(run).len() == script_len(run.task),
        body(run).len() == body_len(run.task),
        forall|i: int| 0 <= i < 4 ==> script(run)[i] == wake_script()[i],
        forall|i: int|
            4 <= i < sleep_start(run.task) ==> #[trigger] script(run)[i] == body(run)[i - 4],
        forall|i: int|
            sleep_start(run.task) <= i < script_len(run.task) ==> #[trigger] script(run)[i]
                == sleep_script()[i - sleep_start(run.task)],
{
}

/// What the sensor's lines and its chip enable bit were last told.
pub struct Lines {
    /// The clock output is on.
    pub clock: bool,
    /// The standby line is asserted.
    pub standby: bool,
    /// The last write to output control had chip enable set.
    pub enabled: bool,
}

/// Whether a transfer writes the output control register.
pub open spec fn writes_output_control(request: BusRequest) -> bool {
    request matches BusRequest::Store { register, .. } && register == registers::OUTPUT_CONTROL
}

/// The lines once `action` has been performed.
pub open spec fn drive(lines: Lines, action: Action) -> Lines {
    match action {
        Action::Clock(on) => Lines { clock: on, ..lines },
        Action::Standby(on) => Lines { standby: on, ..lines },
        Action::Bus(BusRequest::Store { register, high, low }) => if register
            == registers::OUTPUT_CONTROL {
            Lines { enabled: (low / 2) % 2 == 1, ..lines }
        } else {
            lines
        },
        _ => lines,
    }
}

/// The sensor is awake: clocked, out of standby, enabled.
pub open spec fn awake(lines: Lines) -> bool {
    lines.clock && !lines.standby && lines.enabled
}

/// The sensor is asleep: disabled, in standby, not clocked.
pub open spec fn asleep(lines: Lines) -> bool {
    !lines.clock && lines.standby && !lines.enabled
}

/// What must hold of the lines when `action` is issued in the course of
/// `task`. A transfer on the bus finds the sensor clocked and out of
/// standby, and, unless it is itself a write to output control, enabled.
/// An operation finishes with the sensor asleep, unless it is a capture
/// that failed.
pub open spec fn paired(task: Task, action: Action, lines: Lines) -> bool {
    match action {
        Action::Bus(request) => lines.clock && !lines.standby && (lines.enabled
            || writes_output_control(request)),
        Action::Finish(outcome) => asleep(lines) || (task is Capture && outcome is Failed),
        _ => true,
    }
}

/// The lines that go with each place in a script.
pub open spec fn lines_at(task: Task, cursor: nat, lines: Lines) -> bool {
    let start = sleep_start(task);
    if cursor <= 1 {
        lines.clock
    } else if cursor == 2 {
        lines.clock && !lines.standby
    } else if cursor <= start {
        awake(lines)
    } else if cursor <= start + 2 {
        lines.clock && !lines.standby && !lines.enabled
    } else if cursor == start + 3 {
        lines.clock && lines.standby && !lines.enabled
    } else {
        asleep(lines)
    }
}

/// What holds of the controller and the lines together while an operation
/// runs: the controller is within its script, a transfer is awaited only
/// between the write that enables the sensor and the write that disables
/// it, and the lines are those of the place it has reached.
pub open spec fn follows(run: Run, lines: Lines) -> bool {
    run.task is Rest || {
        &&& 1 <= run.cursor <= script_len(run.task)
        &&& run.last is Bus ==> 3 <= run.cursor <= sleep_start(run.task) + 1
        &&& lines_at(run.task, run.cursor as nat, lines)
    }
}

/// One step keeps the controller and the lines together, and the action it
/// issues finds the lines as `paired` asks.
pub proof fn lemma_step_keeps_pairing(run: Run, lines: Lines, reply: BusReply)
    requires
        follows(run, lines),
    ensures
        paired(run.task, step(run, reply).1, lines),
        follows(step(run, reply).0, drive(lines, step(run, reply).1)),
        step(run, reply).0.task == run.task || step(run, reply).0.task is Rest,
{
}

/// No action in the body of an operation changes the lines.
pub proof fn lemma_body_leaves_lines(run: Run, index: int, lines: Lines)
    requires
        0 <= index < body_len(run.task),
    ensures
        drive(lines, body(run)[index]) == lines,
{
}

/// The controller once it has taken the first `count` of `replies`.
pub open spec fn after(run: Run, replies: Seq<BusReply>, count: nat) -> Run
    decreases count,
{
    if count == 0 {
        run
    } else {
        step(after(run, replies, (count - 1) as nat), replies[count - 1]).0
    }
}

/// The action that answers the reply at `index`.
pub open spec fn issued(run: Run, replies: Seq<BusReply>, index: nat) -> Action {
    step(after(run, replies, index), replies[index as int]).1
}

/// The lines as the action that answers the reply at `index` finds them:
/// `lines` with all the actions issued before it performed.
pub open spec fn lines_before(lines: Lines, run: Run, replies: Seq<BusReply>, index: nat) -> Lines
    decreases index,
{
    if index == 0 {
        lines
    } else {
        drive(
            lines_before(lines, run, replies, (index - 1) as nat),
            issued(run, replies, (index - 1) as nat),
        )
    }
}

/// Wake and sleep are paired in every operation, whatever the replies.
///
/// Take any operation from its start, with the lines in any state, and any
/// replies. Every transfer on the bus is issued with the sensor clocked and
/// out of standby, and after the write that enables it. The operation
/// finishes only once the sensor has been disabled, put in standby and
/// taken off its clock, after the last transfer; the one exception is a
/// capture that fails, which finishes at once.
pub proof fn lemma_wake_sleep_pairing(
    rest: Run,
    task: Task,
    lines: Lines,
    replies: Seq<BusReply>,
    index: nat,
)
    requires
        rest.task is Rest,
        task !is Rest,
    ensures
        ({
            let started = begin(rest, task).0;
            let first = drive(lines, begin(rest, task).1);
            &&& begin(rest, task).1 == Action::Clock(true)
            &&& paired(
                task,
                issued(started, replies, index),
                lines_before(first, started, replies, index),
            )
        }),
{
    let started = begin(rest, task).0;
    let first = drive(lines, begin(rest, task).1);
    lemma_pairing_holds(started, first, replies, index);
    lemma_step_keeps_pairing(
        after(started, replies, index),
        lines_before(first, started, replies, index),
        replies[index as int],
    );
}

/// The controller and the lines stay together through any replies.
proof fn lemma_pairing_holds(started: Run, first: Lines, replies: Seq<BusReply>, count: nat)
    requires
        follows(started, first),
    ensures
        follows(after(started, replies, count), lines_before(first, started, replies, count)),
        after(started, replies, count).task == started.task || after(
            started,
            replies,
            count,
        ).task is Rest,
    decreases count,
{
    if count > 0 {
        let earlier = (count - 1) as nat;
        lemma_pairing_holds(started, first, replies, earlier);
        lemma_step_keeps_pairing(
            after(started, replies, earlier),
            lines_before(first, started, replies, earlier),
            replies[earlier as int],
        );
    }
}

/// The controller reads a register as the driver asks: wherever a script
/// selects a register, the transfer that follows is the fetch, and nothing
/// refuses it.
pub proof fn lemma_select_then_fetch(run: Run, index: nat)
    requires
        index < script_len(run.task),
        script(run)[index as int] matches Action::Bus(request) && request is Select,
    ensures
        index + 1 < script_len(run.task),
        planned(run, index + 1) == Ok::<Action, Error>(Action::Bus(BusRequest::Fetch)),
        next(script(run)[index as int]->Bus_0, BusReply::Done) == Progress::Request(
            BusRequest::Fetch,
        ),
{
}

/// The window that `init` programs is one that the driver takes: its width
/// is odd and at least 3, its height is at least 2, it starts at an even
/// column, and no blanking fits eleven bits. So nothing that `init` writes
/// is refused.
pub proof fn lemma_window_is_accepted(run: Run, index: nat)
    requires
        run.task is Configure,
        index < script_len(run.task),
    ensures
        crate::mt9m001::column_size_accepted(WIDTH),
        crate::mt9m001::row_size_accepted(HEIGHT),
        crate::mt9m001::column_start_accepted(0),
        crate::mt9m001::eleven_bits(0),
        script(run)[9] == Action::Bus(store(registers::COLUMN_SIZE, WIDTH)),
        script(run)[11] == Action::Bus(store(registers::ROW_SIZE, HEIGHT)),
        planned(run, index) == Ok::<Action, Error>(script(run)[index as int]),
{
}

/// The frame that a capture fills has the number of words that the window
/// asks for: its padded pixels, three to a word.
pub proof fn lemma_frame_words()
    ensures
        FRAME_WORDS == crate::dma::frame_words_of(WIDTH as int, HEIGHT as int),
{
    assert((1311 + 2) * 1048 == 1_376_024) by (nonlinear_arith);
}

/// A capture arms one transfer and awaits it: the transfer is armed after
/// the state machine was enabled, emptied and restarted and after the
/// exposure was written; the trigger is pulsed while it is armed; and it is
/// awaited before the state machine is stopped. Nothing else in any script
/// arms or awaits a transfer.
pub proof fn lemma_one_transfer(run: Run, index: int)
    requires
        0 <= index < script_len(run.task),
    ensures
        script(run)[index] is Arm <==> run.task is Capture && index == ARM_PLACE,
        script(run)[index] is Await <==> run.task is Capture && index == AWAIT_PLACE,
        run.task is Capture ==> {
            &&& script(run)[4] == Action::Machine(true)
            &&& script(run)[5] == Action::ClearQueues
            &&& script(run)[6] == Action::Restart
            &&& script(run)[ARM_PLACE as int] == Action::Arm { words: FRAME_WORDS }
            &&& script(run)[ARM_PLACE + 1] == Action::Trigger(true)
            &&& script(run)[ARM_PLACE + 2] == Action::Trigger(false)
            &&& script(run)[AWAIT_PLACE as int] == Action::Await
            &&& script(run)[STOP_PLACE as int] == Action::Machine(false)
        },
{
    if run.task is Capture {
        assert(body(run)[14] == script(run)[18]);
        assert(body(run)[15] == script(run)[19]);
    }
}

/// No reply among the first `count` reports a failure to the action it
/// answers, and nothing is refused.
pub open spec fn clean(started: Run, replies: Seq<BusReply>, count: nat) -> bool {
    forall|i: nat|
        i < count ==> {
            let now = #[trigger] after(started, replies, i);
            failure(now.last, replies[i as int]) is None && refusal(
                absorb(now, replies[i as int]),
                now.cursor as nat,
            ) is None
        }
}

/// The value that a reply brought, where it brought one.
pub open spec fn value_of(reply: BusReply) -> u16 {
    match reply {
        BusReply::Data { high, low } => crate::mt9m001::word(high, low),
        _ => 0,
    }
}

/// When nothing fails, an operation issues its script, action by action,
/// and then finishes with its result. The exposure that was set stays as it
/// is, and what the operation has read is what the replies to its fetches
/// brought.
pub proof fn lemma_clean_run(rest: Run, task: Task, replies: Seq<BusReply>, count: nat)
    requires
        rest.task is Rest,
        task !is Rest,
        count < script_len(task),
        clean(begin(rest, task).0, replies, count),
    ensures
        ({
            let started = begin(rest, task).0;
            let now = after(started, replies, count);
            &&& now.task == task
            &&& now.cursor == count + 1
            &&& now.fault is None
            &&& now.last == script(now)[count as int]
            &&& now.shot_numerator == rest.numerator
            &&& now.shot_denominator == rest.denominator
            &&& now.shot_gain == rest.gain
            &&& count > 0 ==> issued(started, replies, (count - 1) as nat) == script(now)[count as int]
            &&& count + 1 == script_len(task) ==> issued(started, replies, count)
                == Action::Finish(outcome(now))
            &&& task is Capture && count > DELAY_PLACE ==> now.shutter_delay == value_of(
                replies[DELAY_PLACE as int],
            )
            &&& task is Capture && count > COLUMNS_PLACE ==> now.column_size == value_of(
                replies[COLUMNS_PLACE as int],
            )
            &&& task is Capture && count > BLANKING_PLACE ==> now.horizontal_blanking
                == value_of(replies[BLANKING_PLACE as int])
            &&& (task is Identify || task is Width || task is Height) && count > READING_PLACE
                ==> now.reading == value_of(replies[READING_PLACE as int])
        }),
    decreases count,
{
    let started = begin(rest, task).0;
    if count > 0 {
        let earlier = (count - 1) as nat;
        assert(clean(started, replies, earlier)) by {
            assert forall|i: nat| i < earlier implies {
                let now = #[trigger] after(started, replies, i);
                failure(now.last, replies[i as int]) is None && refusal(
                    absorb(now, replies[i as int]),
                    now.cursor as nat,
                ) is None
            } by {
                assert(i < count);
            }
        }
        lemma_clean_run(rest, task, replies, earlier);
        let before = after(started, replies, earlier);
        let now = after(started, replies, count);
        let heard = absorb(before, replies[earlier as int]);
        lemma_script_parts(now);
        assert(script(now) =~= script(heard)) by {
            assert(body(now) == body(heard));
        }
    }
    let now = after(started, replies, count);
    if count + 1 == script_len(task) {
        assert(script(now)[count as int] == sleep_script()[3]);
    }
}

/// What a capture writes for the exposure, when nothing fails: the code of
/// the gain that is set, and the shutter width for the shutter time that is
/// set and for the shutter delay, the column size and the horizontal
/// blanking that the sensor answered with.
pub proof fn lemma_capture_exposure(rest: Run, replies: Seq<BusReply>)
    requires
        rest.task is Rest,
        clean(begin(rest, Task::Capture).0, replies, WIDTH_PLACE as nat),
    ensures
        ({
            let started = begin(rest, Task::Capture).0;
            &&& issued(started, replies, (GAIN_PLACE - 1) as nat) == Action::Bus(
                store(registers::GLOBAL_GAIN, gain_code_of(rest.gain as int) as u16),
            )
            &&& issued(started, replies, (WIDTH_PLACE - 1) as nat) == Action::Bus(
                store(
                    registers::SHUTTER_WIDTH,
                    shutter_width_of(
                        rest.numerator,
                        rest.denominator,
                        FREQUENCY,
                        value_of(replies[DELAY_PLACE as int]),
                        value_of(replies[COLUMNS_PLACE as int]),
                        value_of(replies[BLANKING_PLACE as int]),
                    ) as u16,
                ),
            )
        }),
{
    let started = begin(rest, Task::Capture).0;
    assert(clean(started, replies, 7)) by {
        assert forall|i: nat| i < 7 implies {
            let now = #[trigger] after(started, replies, i);
            failure(now.last, replies[i as int]) is None && refusal(
                absorb(now, replies[i as int]),
                now.cursor as nat,
            ) is None
        } by {
            assert(i < 15);
        }
    }
    lemma_clean_run(rest, Task::Capture, replies, 7);
    lemma_clean_run(rest, Task::Capture, replies, 15);
}

/// What the operations that read one register report, when nothing fails:
/// whether the chip version that the sensor answered with is the known
/// one, or the size that it answered with.
pub proof fn lemma_reading_outcome(rest: Run, task: Task, replies: Seq<BusReply>)
    requires
        rest.task is Rest,
        task is Identify || task is Width || task is Height,
        clean(begin(rest, task).0, replies, 9),
    ensures
        issued(begin(rest, task).0, replies, 9) == Action::Finish(
            if task is Identify {
                Outcome::Known(value_of(replies[READING_PLACE as int]) == KNOWN_VERSION)
            } else {
                Outcome::Size(value_of(replies[READING_PLACE as int]))
            },
        ),
{
    lemma_clean_run(rest, task, replies, 9);
}

} // verus!
