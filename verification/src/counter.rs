//! The image counter.
//!
//! A 64-bit count is kept in the ferroelectric memory, at address 0. Each
//! capture takes the count as its number and leaves the next one in the
//! memory: the count is read, the write is enabled, the count plus one is
//! written, and only then is the number given out. So a number that was
//! given out is never given out again, whenever the power fails.

use crate::fram::FM25L16B;
use crate::fram::Frame;
use crate::fram::NativeByteOrder;
use crate::fram::READ_MEMORY;
use crate::fram::WRITE_ENABLE;
use crate::fram::WRITE_MEMORY;
use crate::fram::addressed;
use vstd::prelude::*;

verus! {

/// Where the count is kept.
pub const COUNTER_ADDRESS: u16 = 0;

/// Why a count could not be taken.
#[derive(Debug, Clone, Copy, PartialEq, Eq, Structural)]
pub enum Fault {
    /// An exchange with the memory failed.
    Bus,
    /// The count has reached the largest value and cannot go on.
    Exhausted,
}

/// One thing for the caller to do with the memory.
#[derive(Debug, Clone, Copy, PartialEq, Eq, Structural)]
pub enum Request {
    /// Read the count.
    Read,
    /// Enable the write that follows.
    Enable,
    /// Write this count.
    Write { value: u64 },
    /// The cycle is over, and this is the number taken.
    Taken { number: u64 },
    /// The cycle is over, and no number was taken.
    Refused(Fault),
    /// No cycle is under way.
    Idle,
}

/// How an exchange ended.
#[derive(Debug, Clone, Copy, PartialEq, Eq, Structural)]
pub enum Reply {
    /// It completed and brought nothing back.
    Done,
    /// It completed and brought this count back.
    Value(u64),
    /// It failed.
    Failed,
}

/// Where a cycle stands.
#[derive(Debug, Clone, Copy, PartialEq, Eq, Structural)]
pub enum Stage {
    /// No cycle is under way.
    Rest,
    /// The count is being read.
    Reading,
    /// The write is being enabled.
    Enabling,
    /// The next count is being written.
    Writing,
}

/// All that the counter keeps.
#[derive(Debug, Clone, Copy, PartialEq, Eq, Structural)]
pub struct Cycle {
    /// Where the cycle stands.
    pub stage: Stage,
    /// The count that was read.
    pub value: u64,
}

/// A counter with no cycle under way.
pub open spec fn rest() -> Cycle {
    Cycle { stage: Stage::Rest, value: 0 }
}

/// The start of a cycle.
pub open spec fn begin() -> (Cycle, Request) {
    (Cycle { stage: Stage::Reading, value: 0 }, Request::Read)
}

/// One step of a cycle. The count read is the number to give out, unless
/// it is the largest there is; the write is enabled, then the count plus
/// one is written, and when that write is done the number is given out. A
/// failed exchange ends the cycle, and so does a read that brings no count.
pub open spec fn step(cycle: Cycle, reply: Reply) -> (Cycle, Request) {
    match cycle.stage {
        Stage::Rest => (cycle, Request::Idle),
        Stage::Reading => match reply {
            Reply::Value(value) => if value == u64::MAX {
                (rest(), Request::Refused(Fault::Exhausted))
            } else {
                (Cycle { stage: Stage::Enabling, value }, Request::Enable)
            },
            _ => (rest(), Request::Refused(Fault::Bus)),
        },
        Stage::Enabling => if reply is Failed {
            (rest(), Request::Refused(Fault::Bus))
        } else {
            (
                Cycle { stage: Stage::Writing, ..cycle },
                Request::Write { value: (cycle.value + 1) as u64 },
            )
        },
        Stage::Writing => if reply is Failed {
            (rest(), Request::Refused(Fault::Bus))
        } else {
            (rest(), Request::Taken { number: cycle.value })
        },
    }
}

/// The number of an image in the name of its file: the count, wrapped at
/// sixteen bits.
pub open spec fn image_number_of(count: u64) -> u16 {
    (count % 65536) as u16
}

/// The number of an image in the name of its file.
pub fn image_number(count: u64) -> (number: u16)
    ensures
        number == image_number_of(count),
{
    (count % 65536) as u16
}

/// The counter.
pub struct Counter {
    fram: FM25L16B,
    cycle: Cycle,
}

impl Counter {
    #[verifier::type_invariant]
    spec fn kept(self) -> bool {
        !(self.cycle.stage is Rest) && !(self.cycle.stage is Reading) ==> self.cycle.value
            < u64::MAX
    }

    /// What the counter keeps.
    pub closed spec fn view(&self) -> Cycle {
        self.cycle
    }

    /// A counter with no cycle under way.
    pub fn new() -> (counter: Self)
        ensures
            counter@ == rest(),
    {
        Counter { fram: FM25L16B::new(), cycle: Cycle { stage: Stage::Rest, value: 0 } }
    }

    /// Starts a cycle, dropping any that was under way.
    pub fn begin(&mut self) -> (request: Request)
        ensures
            (final(self)@, request) == begin(),
    {
        *self = Counter { fram: self.fram, cycle: Cycle { stage: Stage::Reading, value: 0 } };
        Request::Read
    }

    /// Takes the reply to the request made last and makes the next one.
    pub fn advance(&mut self, reply: Reply) -> (request: Request)
        ensures
            (final(self)@, request) == step(old(self)@, reply),
    {
        proof {
            use_type_invariant(&*self);
        }
        let cycle = self.cycle;
        let idle = Cycle { stage: Stage::Rest, value: 0 };
        let (after, request) = match cycle.stage {
            Stage::Rest => (cycle, Request::Idle),
            Stage::Reading => match reply {
                Reply::Value(value) => if value == u64::MAX {
                    (idle, Request::Refused(Fault::Exhausted))
                } else {
                    (Cycle { stage: Stage::Enabling, value }, Request::Enable)
                },
                _ => (idle, Request::Refused(Fault::Bus)),
            },
            Stage::Enabling => match reply {
                Reply::Failed => (idle, Request::Refused(Fault::Bus)),
                _ => (
                    Cycle { stage: Stage::Writing, ..cycle },
                    Request::Write { value: cycle.value + 1 },
                ),
            },
            Stage::Writing => match reply {
                Reply::Failed => (idle, Request::Refused(Fault::Bus)),
                _ => (idle, Request::Taken { number: cycle.value }),
            },
        };
        *self = Counter { fram: self.fram, cycle: after };
        request
    }

    /// The exchange with the memory that carries out `request`; none for a
    /// request that asks nothing of the memory. A write is requested only
    /// once its enabling went well, so its exchange is there to give.
    pub fn frame(&self, request: Request) -> (frame: Option<Frame>)
        ensures
            match request {
                Request::Read => frame matches Some(f) && f.write@ == addressed(
                    READ_MEMORY,
                    COUNTER_ADDRESS,
                ) && f.read == 8,
                Request::Enable => frame matches Some(f) && f.write@ == seq![WRITE_ENABLE]
                    && f.read == 0,
                Request::Write { value } => frame matches Some(f) && f.write@ == addressed(
                    WRITE_MEMORY,
                    COUNTER_ADDRESS,
                ) + value.encoding() && f.read == 0,
                _ => frame is None,
            },
    {
        match request {
            Request::Read => Some(self.fram.read::<u64>(COUNTER_ADDRESS)),
            Request::Enable => {
                let (enable, _) = self.fram.write::<u64>(COUNTER_ADDRESS, 0);
                Some(enable)
            },
            Request::Write { value } => {
                let (_, write) = self.fram.write::<u64>(COUNTER_ADDRESS, value);
                write.proceed(true)
            },
            _ => None,
        }
    }

    /// The reply that the bytes brought by a read stand for: the count, or
    /// a failure where they are not eight.
    pub fn heard(&self, bytes: &[u8]) -> (reply: Reply)
        ensures
            reply == (if bytes@.len() == 8 {
                Reply::Value(u64::decoding(bytes@))
            } else {
                Reply::Failed
            }),
    {
        if bytes.len() == 8 {
            Reply::Value(<u64 as NativeByteOrder>::from_ne_bytes(bytes))
        } else {
            Reply::Failed
        }
    }
}

/// The memory as the counter sees it.
pub struct Store {
    /// The count it holds.
    pub count: u64,
    /// A write has been enabled and not yet used.
    pub enabled: bool,
}

/// The memory after it has served a request, and its reply. A write takes
/// effect only if it was enabled, and uses the enabling up.
pub open spec fn serve(store: Store, request: Request) -> (Store, Reply) {
    match request {
        Request::Read => (store, Reply::Value(store.count)),
        Request::Enable => (Store { enabled: true, ..store }, Reply::Done),
        Request::Write { value } => (
            if store.enabled {
                Store { count: value, enabled: false }
            } else {
                store
            },
            Reply::Done,
        ),
        _ => (store, Reply::Done),
    }
}

/// A cycle run against the memory from `request` on, with power for
/// `power` more exchanges: the memory as the cycle leaves it, and the
/// number given out, if the cycle got that far.
pub open spec fn run(cycle: Cycle, request: Request, store: Store, power: nat) -> (
    Store,
    Option<u64>,
)
    decreases power,
{
    match request {
        Request::Taken { number } => (store, Some(number)),
        Request::Refused(_) => (store, None),
        Request::Idle => (store, None),
        _ => if power == 0 {
            (store, None)
        } else {
            let served = serve(store, request);
            let stepped = step(cycle, served.1);
            run(stepped.0, stepped.1, served.0, (power - 1) as nat)
        },
    }
}

/// One whole cycle against the memory, with power for `power` exchanges.
pub open spec fn cycle(store: Store, power: nat) -> (Store, Option<u64>) {
    run(begin().0, begin().1, store, power)
}

/// What one cycle does, whenever the power fails. If it gives out a
/// number, that number is the count it found, and the memory then holds
/// the next. If it gives out none, the memory holds the count it found or
/// the next. With power for three exchanges and room to count, it gives
/// out a number.
pub proof fn lemma_cycle(store: Store, power: nat)
    ensures
        ({
            let (after, number) = cycle(store, power);
            &&& number matches Some(n) ==> n == store.count && after.count == n + 1
            &&& number is None ==> after.count == store.count || after.count == store.count + 1
            &&& power >= 3 && store.count < u64::MAX ==> number is Some
        }),
{
    reveal_with_fuel(run, 5);
}

/// The memory after the first `count` of a row of cycles, each with the
/// power that `powers` gives it.
pub open spec fn store_after(store: Store, powers: Seq<nat>, count: nat) -> Store
    decreases count,
{
    if count == 0 {
        store
    } else {
        cycle(store_after(store, powers, (count - 1) as nat), powers[count - 1]).0
    }
}

/// The number that the cycle at `index` of a row of cycles gives out.
pub open spec fn number_at(store: Store, powers: Seq<nat>, index: nat) -> Option<u64> {
    cycle(store_after(store, powers, index), powers[index as int]).1
}

/// The count in the memory never goes down, and stands above every number
/// given out so far.
pub proof fn lemma_count_grows(store: Store, powers: Seq<nat>, earlier: nat, later: nat)
    requires
        earlier <= later,
    ensures
        store_after(store, powers, earlier).count <= store_after(store, powers, later).count,
        earlier < later ==> (number_at(store, powers, earlier) matches Some(n) ==> n < store_after(
            store,
            powers,
            later,
        ).count),
    decreases later,
{
    if earlier < later {
        let before = (later - 1) as nat;
        lemma_count_grows(store, powers, earlier, before);
        lemma_cycle(store_after(store, powers, before), powers[before as int]);
    }
}

/// Every number given out is greater than every number given out before
/// it, through any row of cycles and any failures of power among them.
pub proof fn lemma_counter_monotonic(store: Store, powers: Seq<nat>, earlier: nat, later: nat)
    requires
        earlier < later,
        number_at(store, powers, earlier) is Some,
        number_at(store, powers, later) is Some,
    ensures
        number_at(store, powers, earlier)->Some_0 < number_at(store, powers, later)->Some_0,
{
    lemma_count_grows(store, powers, earlier, later);
    lemma_cycle(store_after(store, powers, later), powers[later as int]);
}

} // verus!
