//! The vocabulary shared by the drivers and the platform: single bus
//! operations, and transactions made of them.

use vstd::prelude::*;

verus! {

/// One thing the platform is asked to do: a transfer on the I2C bus, or a
/// pause between transfers.
#[derive(Clone, Copy, Debug, PartialEq, Eq, Structural)]
pub enum BusOp {
    /// Write the single byte `byte` to the device at `address`.
    Write { address: u8, byte: u8 },
    /// Write the two bytes `[register, value]` to the device at `address`.
    WriteRegister { address: u8, register: u8, value: u8 },
    /// Write `[register]` to the device at `address` and, without letting go
    /// of the bus, read `count` bytes back.
    ReadRegisters { address: u8, register: u8, count: u8 },
    /// Wait at least this many milliseconds.
    DelayMs(u32),
    /// Wait at least this many microseconds.
    DelayUs(u32),
}

impl BusOp {
    /// Whether the operation puts anything on the bus (a delay does not).
    pub open spec fn is_transfer(self) -> bool {
        !(self is DelayMs) && !(self is DelayUs)
    }

    /// The bytes that the operation writes to the device, in order.
    pub open spec fn wire(self) -> Seq<u8> {
        match self {
            BusOp::Write { byte, .. } => seq![byte],
            BusOp::WriteRegister { register, value, .. } => seq![register, value],
            BusOp::ReadRegisters { register, .. } => seq![register],
            BusOp::DelayMs(_) => Seq::empty(),
            BusOp::DelayUs(_) => Seq::empty(),
        }
    }

    /// The bytes that the operation writes to the device, in order.
    pub fn wire_bytes(&self) -> (bytes: Vec<u8>)
        ensures
            bytes@ == self.wire(),
    {
        let mut bytes: Vec<u8> = Vec::new();
        match self {
            BusOp::Write { byte, .. } => {
                bytes.push(*byte);
            },
            BusOp::WriteRegister { register, value, .. } => {
                bytes.push(*register);
                bytes.push(*value);
            },
            BusOp::ReadRegisters { register, .. } => {
                bytes.push(*register);
            },
            BusOp::DelayMs(_) => {},
            BusOp::DelayUs(_) => {},
        }
        assert(bytes@ =~= self.wire());
        bytes
    }

    /// Whether the operation puts anything on the bus.
    pub fn touches_bus(&self) -> (b: bool)
        ensures
            b == self.is_transfer(),
    {
        match self {
            BusOp::DelayMs(_) => false,
            BusOp::DelayUs(_) => false,
            _ => true,
        }
    }
}

/// The transfers among `ops`, in their order: what an observer of the bus
/// sees of a plan, the pauses left out.
pub open spec fn transfers(ops: Seq<BusOp>) -> Seq<BusOp>
    decreases ops.len(),
{
    if ops.len() == 0 {
        Seq::empty()
    } else if ops.last().is_transfer() {
        transfers(ops.drop_last()).push(ops.last())
    } else {
        transfers(ops.drop_last())
    }
}

/// What becomes of a transaction when one of its transfers fails.
#[derive(Clone, Copy, Debug, PartialEq, Eq, Structural)]
pub enum OnFailure {
    /// The transaction stops at the failed transfer and the error goes to
    /// the caller.
    Abort,
    /// The failure is dropped and the remaining operations are still
    /// carried out.
    Continue,
}

/// A logical transaction: operations that belong together and must reach the
/// bus in this order, under one lease, with nothing of another device's
/// traffic in between.
#[derive(Debug)]
pub struct Transaction {
    pub ops: Vec<BusOp>,
    pub on_failure: OnFailure,
}

impl Transaction {
    /// What the caller of the transaction gets to see of one operation's
    /// `outcome`: the error itself where the transaction aborts on failure,
    /// success in any case where it carries on.
    pub fn settle<E>(&self, outcome: Result<(), E>) -> (seen: Result<(), E>)
        ensures
            self.on_failure == OnFailure::Abort ==> seen == outcome,
            self.on_failure == OnFailure::Continue ==> seen is Ok,
    {
        match self.on_failure {
            OnFailure::Abort => outcome,
            OnFailure::Continue => Ok(()),
        }
    }

    /// The transfers of the transaction, without its pauses.
    pub fn transfers(&self) -> (out: Vec<BusOp>)
        ensures
            out@ == transfers(self.ops@),
    {
        let mut out: Vec<BusOp> = Vec::new();
        let n: usize = self.ops.len();
        let mut i: usize = 0;
        while i < n
            invariant
                n == self.ops@.len(),
                i <= n,
                out@ == transfers(self.ops@.take(i as int)),
            decreases n - i,
        {
            let op: BusOp = self.ops[i];
            proof {
                let upto = self.ops@.take(i + 1);
                assert(upto.drop_last() == self.ops@.take(i as int));
                assert(upto.last() == op);
            }
            if op.touches_bus() {
                out.push(op);
            }
            i = i + 1;
        }
        proof {
            assert(self.ops@.take(n as int) == self.ops@);
        }
        out
    }
}

} // verus!
