//! What the driver asks of the I2C bus and of the delay source.
//!
//! The driver never touches a bus. Every operation hands back a [`BusPlan`]: the writes, reads
//! and waits that realise it, in order. Whoever owns the bus performs them one after the other
//! and stops at the first one that fails.

use vstd::prelude::*;

verus! {

/// One step on the bus or the delay source, as a mathematical value.
pub enum BusOp {
    /// Write `bytes` to the device at `address` in one transaction.
    Write { address: u8, bytes: Seq<u8> },
    /// Read one byte from the device at `address`.
    Read { address: u8 },
    /// Wait that many milliseconds.
    DelayMs(u32),
    /// Wait that many microseconds.
    DelayUs(u32),
}

/// One step on the bus or the delay source.
#[derive(Debug, Clone, PartialEq, Eq)]
pub enum BusAction {
    /// Write `bytes` to the device at `address` in one transaction.
    Write { address: u8, bytes: Vec<u8> },
    /// Read one byte from the device at `address`.
    Read { address: u8 },
    /// Wait that many milliseconds.
    DelayMs(u32),
    /// Wait that many microseconds.
    DelayUs(u32),
}

impl View for BusAction {
    type V = BusOp;

    open spec fn view(&self) -> BusOp {
        match *self {
            BusAction::Write { address, bytes } => BusOp::Write { address, bytes: bytes@ },
            BusAction::Read { address } => BusOp::Read { address },
            BusAction::DelayMs(ms) => BusOp::DelayMs(ms),
            BusAction::DelayUs(us) => BusOp::DelayUs(us),
        }
    }
}

/// The steps of `actions`, each taken as a mathematical value.
pub open spec fn ops_of(actions: Seq<BusAction>) -> Seq<BusOp> {
    Seq::new(actions.len(), |i: int| actions[i]@)
}

/// An ordered list of bus steps.
#[derive(Debug, Clone, PartialEq, Eq)]
pub struct BusPlan {
    actions: Vec<BusAction>,
}

impl View for BusPlan {
    type V = Seq<BusOp>;

    closed spec fn view(&self) -> Seq<BusOp> {
        ops_of(self.actions@)
    }
}

impl BusPlan {
    /// The plan with no step.
    pub fn new() -> (plan: Self)
        ensures
            plan@ == Seq::<BusOp>::empty(),
    {
        let plan = BusPlan { actions: Vec::new() };
        assert(plan@ =~= Seq::<BusOp>::empty());
        plan
    }

    /// Adds one step at the end.
    pub fn push(&mut self, action: BusAction)
        ensures
            final(self)@ == old(self)@.push(action@),
    {
        self.actions.push(action);
        assert(self@ =~= old(self)@.push(action@));
    }

    /// Adds a write of one byte at the end.
    pub fn write_byte(&mut self, address: u8, byte: u8)
        ensures
            final(self)@ == old(self)@.push(BusOp::Write { address, bytes: seq![byte] }),
    {
        let mut bytes: Vec<u8> = Vec::new();
        bytes.push(byte);
        assert(bytes@ =~= seq![byte]);
        self.push(BusAction::Write { address, bytes });
    }

    /// Adds a write of two bytes at the end.
    pub fn write_pair(&mut self, address: u8, first: u8, second: u8)
        ensures
            final(self)@ == old(self)@.push(BusOp::Write { address, bytes: seq![first, second] }),
    {
        let mut bytes: Vec<u8> = Vec::new();
        bytes.push(first);
        bytes.push(second);
        assert(bytes@ =~= seq![first, second]);
        self.push(BusAction::Write { address, bytes });
    }

    /// Adds a write of `bytes` at the end.
    pub fn write(&mut self, address: u8, bytes: Vec<u8>)
        ensures
            final(self)@ == old(self)@.push(BusOp::Write { address, bytes: bytes@ }),
    {
        self.push(BusAction::Write { address, bytes });
    }

    /// Adds a read of one byte at the end.
    pub fn read(&mut self, address: u8)
        ensures
            final(self)@ == old(self)@.push(BusOp::Read { address }),
    {
        self.push(BusAction::Read { address });
    }

    /// Adds a wait of `ms` milliseconds at the end.
    pub fn delay_ms(&mut self, ms: u32)
        ensures
            final(self)@ == old(self)@.push(BusOp::DelayMs(ms)),
    {
        self.push(BusAction::DelayMs(ms));
    }

    /// Adds a wait of `us` microseconds at the end.
    pub fn delay_us(&mut self, us: u32)
        ensures
            final(self)@ == old(self)@.push(BusOp::DelayUs(us)),
    {
        self.push(BusAction::DelayUs(us));
    }

    /// Adds the steps of `other` at the end, in their order.
    pub fn extend(&mut self, other: BusPlan)
        ensures
            final(self)@ == old(self)@ + other@,
    {
        let mut other = other;
        let ghost tail = other.actions@;
        self.actions.append(&mut other.actions);
        assert(self@ =~= old(self)@ + ops_of(tail));
    }

    /// The number of steps.
    pub fn len(&self) -> (n: usize)
        ensures
            n == self@.len(),
    {
        self.actions.len()
    }

    /// The steps, in order.
    pub fn actions(&self) -> (actions: &Vec<BusAction>)
        ensures
            ops_of(actions@) == self@,
    {
        &self.actions
    }

    /// The steps, in order, as an owned list.
    pub fn into_actions(self) -> (actions: Vec<BusAction>)
        ensures
            ops_of(actions@) == self@,
    {
        self.actions
    }
}

} // verus!
