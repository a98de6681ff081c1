//! Driver for the ADXL345 three-axis accelerometer.
//!
//! The sensor is set up with two register writes and then read in bursts of
//! six bytes, two for each axis, low byte first.

use vstd::prelude::*;
use crate::bus::{BusOp, OnFailure, Transaction};

verus! {

/// Bus address of the sensor.
pub const ADDR: u8 = 0x53;

/// Power-control register.
pub const POWER_CTL: u8 = 0x2D;

/// Data-format register.
pub const DATA_FORMAT: u8 = 0x31;

/// First of the six data registers: X0, X1, Y0, Y1, Z0, Z1.
pub const DATAX0: u8 = 0x32;

/// Power-control value that starts measuring.
pub const MEASURE: u8 = 0x08;

/// Data-format value for full resolution at a range of +-16 g.
pub const FULL_RES_16G: u8 = 0x0B;

/// Number of bytes in one reading.
pub const SAMPLE_LEN: u8 = 6;

/// One reading: acceleration along x, y and z in the sensor's raw units.
pub type AccelSample = (i16, i16, i16);

/// The signed 16-bit number whose two's-complement form has the low byte
/// `lo` and the high byte `hi`.
pub open spec fn le_i16(lo: u8, hi: u8) -> int {
    if hi < 128 {
        lo + 256 * hi
    } else {
        lo + 256 * hi - 65536
    }
}

/// The reading that six bytes off the wire stand for.
pub open spec fn sample_of(data: Seq<u8>) -> AccelSample
    recommends
        data.len() == 6,
{
    (
        le_i16(data[0], data[1]) as i16,
        le_i16(data[2], data[3]) as i16,
        le_i16(data[4], data[5]) as i16,
    )
}

/// The two register writes that set the sensor up: measuring on, then full
/// resolution at +-16 g.
pub open spec fn init_ops() -> Seq<BusOp> {
    seq![
        BusOp::WriteRegister { address: ADDR, register: POWER_CTL, value: MEASURE },
        BusOp::WriteRegister { address: ADDR, register: DATA_FORMAT, value: FULL_RES_16G },
    ]
}

/// The burst read of one reading: the first data register is addressed and
/// six bytes are read in the same transfer.
pub open spec fn read_ops() -> Seq<BusOp> {
    seq![BusOp::ReadRegisters { address: ADDR, register: DATAX0, count: SAMPLE_LEN }]
}

/// Puts a low and a high byte together to a signed 16-bit number.
fn i16_from_le(lo: u8, hi: u8) -> (v: i16)
    ensures
        v == le_i16(lo, hi),
{
    if hi < 128 {
        lo as i16 + 256 * (hi as i16)
    } else {
        lo as i16 + 256 * (hi as i16 - 256)
    }
}

/// Decodes the six bytes of a reading. Any other number of bytes is refused.
pub fn unpack_i16x3(data: &[u8]) -> (r: Result<AccelSample, &'static str>)
    ensures
        data@.len() == 6 ==> r == Ok::<AccelSample, &'static str>(sample_of(data@)),
        data@.len() != 6 ==> r is Err && r->Err_0@ == "Data length must be 6 bytes"@,
{
    if data.len() != 6 {
        return Err("Data length must be 6 bytes");
    }
    let x: i16 = i16_from_le(data[0], data[1]);
    let y: i16 = i16_from_le(data[2], data[3]);
    let z: i16 = i16_from_le(data[4], data[5]);

    Ok((x, y, z))
}

/// Driver of one sensor. There is nothing to remember about the sensor once
/// it has been set up, so the driver has no state of its own.
#[derive(Debug)]
pub struct Adxl345 {}

impl Adxl345 {
    /// A driver, and the transaction that sets its sensor up.
    ///
    /// Setting up is best effort: a write that fails is dropped, the other
    /// one is still made, and the driver is usable either way.
    pub fn new() -> (r: (Adxl345, Transaction))
        ensures
            r.1.ops@ == init_ops(),
            r.1.on_failure == OnFailure::Continue,
    {
        let sensor = Adxl345 {  };
        let setup = sensor.init();
        (sensor, setup)
    }

    /// The transaction that sets the sensor up.
    fn init(&self) -> (setup: Transaction)
        ensures
            setup.ops@ == init_ops(),
            setup.on_failure == OnFailure::Continue,
    {
        let mut ops: Vec<BusOp> = Vec::new();
        ops.push(BusOp::WriteRegister { address: ADDR, register: POWER_CTL, value: MEASURE });
        ops.push(
            BusOp::WriteRegister { address: ADDR, register: DATA_FORMAT, value: FULL_RES_16G },
        );
        assert(ops@ =~= init_ops());
        Transaction { ops, on_failure: OnFailure::Continue }
    }

    /// The transaction that fetches one reading.
    pub fn read_request(&self) -> (request: Transaction)
        ensures
            request.ops@ == read_ops(),
            request.on_failure == OnFailure::Abort,
    {
        let mut ops: Vec<BusOp> = Vec::new();
        ops.push(BusOp::ReadRegisters { address: ADDR, register: DATAX0, count: SAMPLE_LEN });
        assert(ops@ =~= read_ops());
        Transaction { ops, on_failure: OnFailure::Abort }
    }

    /// Turns the `outcome` of a read request into a reading: the six bytes
    /// decoded, or the bus error as it came.
    pub fn read_acceleration<E>(&self, outcome: Result<[u8; 6], E>) -> (r: Result<AccelSample, E>)
        ensures
            match outcome {
                Ok(data) => r == Ok::<AccelSample, E>(sample_of(data@)),
                Err(e) => r == Err::<AccelSample, E>(e),
            },
    {
        match outcome {
            Ok(data) => {
                let x: i16 = i16_from_le(data[0], data[1]);
                let y: i16 = i16_from_le(data[2], data[3]);
                let z: i16 = i16_from_le(data[4], data[5]);
                Ok((x, y, z))
            },
            Err(e) => Err(e),
        }
    }
}

} // verus!
