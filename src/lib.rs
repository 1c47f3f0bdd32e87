//! Driver logic for the bq34z100-G1 fuel gauge.
//!
//! The library holds everything the gauge's protocol decides: how commands
//! and register accesses are framed on the bus, how a 32-byte data-flash
//! block is patched and checksummed, the write-and-verify sequence used by
//! every configuration parameter, the calibration-mode handshakes, the
//! sampling guard of the gain calibrations and the Xemics encoding of
//! their gain constants. Each multi-step procedure is a
//! state machine: it hands out a batch of bus operations, the caller runs
//! them on its transport and hands back the bytes of the last read.
use vstd::prelude::*;

pub mod block;
pub mod bus;
pub mod config;
pub mod calibration;
pub mod codec;
pub mod sampling;

verus! {

/// What can go wrong when talking to the gauge.
#[derive(Debug)]
pub enum Bq34Z100Error<E> {
    /// A value written to data flash did not read back as written.
    NotStored,
    /// The bus transfer failed.
    I2C { error: E },
}

impl<E> From<E> for Bq34Z100Error<E> {
    fn from(value: E) -> (r: Self)
        ensures
            r == (Bq34Z100Error::I2C { error: value }),
    {
        Bq34Z100Error::I2C { error: value }
    }
}

impl<E> vstd::std_specs::convert::FromSpecImpl<E> for Bq34Z100Error<E> {
    open spec fn obeys_from_spec() -> bool {
        true
    }

    open spec fn from_spec(v: E) -> Self {
        Bq34Z100Error::I2C { error: v }
    }
}

/// A gauge on a bus: the transport, the delay source, and the last data
/// flash block read from it.
pub struct Bq34z100g1Driver<I2C, Delay> {
    pub i2c: I2C,
    pub delay: Delay,
    pub flash_block_data: [u8; 32],
}

impl<I2C, Delay> Bq34z100g1Driver<I2C, Delay> {
    /// A driver over `i2c` and `delay`, with an all-zero block buffer.
    pub fn new(i2c: I2C, delay: Delay) -> (r: Self)
        ensures
            r.i2c == i2c,
            r.delay == delay,
            r.flash_block_data@ == Seq::new(32, |i: int| 0u8),
    {
        let r = Bq34z100g1Driver { i2c, delay, flash_block_data: [0u8; 32] };
        proof {
            assert(r.flash_block_data@ =~= Seq::new(32, |i: int| 0u8));
        }
        r
    }
}

/// The decoded bits of the flags register.
#[derive(PartialEq, Eq, Structural, Clone, Copy, Debug)]
pub struct Flags {
    pub fast_charge_allowed: bool,
    pub full_chage: bool,
    pub charging_not_allowed: bool,
    pub charge_inhibit: bool,
    pub bat_low: bool,
    pub bat_high: bool,
    pub over_temp_discharge: bool,
    pub over_temp_charge: bool,
    pub discharge: bool,
    pub state_of_charge_f: bool,
    pub state_of_charge_1: bool,
    pub cf: bool,
    pub ocv_taken: bool,
}

/// Whether bit `n` of `w` is set.
pub open spec fn bit(w: u16, n: u16) -> bool {
    (w >> n) & 1 == 1
}

impl Flags {
    /// Decodes the flags register word.
    pub fn from_register(flags: u16) -> (r: Flags)
        ensures
            r.fast_charge_allowed == bit(flags, 0),
            r.full_chage == bit(flags, 1),
            r.charging_not_allowed == bit(flags, 2),
            r.charge_inhibit == bit(flags, 3),
            r.bat_low == bit(flags, 4),
            r.bat_high == bit(flags, 5),
            r.over_temp_discharge == bit(flags, 6),
            r.over_temp_charge == bit(flags, 7),
            r.discharge == bit(flags, 8),
            r.state_of_charge_f == bit(flags, 9),
            r.state_of_charge_1 == bit(flags, 10),
            r.cf == bit(flags, 12),
            r.ocv_taken == bit(flags, 15),
    {
        Flags {
            fast_charge_allowed: (flags >> 0u16) & 1 == 1,
            full_chage: (flags >> 1u16) & 1 == 1,
            charging_not_allowed: (flags >> 2u16) & 1 == 1,
            charge_inhibit: (flags >> 3u16) & 1 == 1,
            bat_low: (flags >> 4u16) & 1 == 1,
            bat_high: (flags >> 5u16) & 1 == 1,
            over_temp_discharge: (flags >> 6u16) & 1 == 1,
            over_temp_charge: (flags >> 7u16) & 1 == 1,
            discharge: (flags >> 8u16) & 1 == 1,
            state_of_charge_f: (flags >> 9u16) & 1 == 1,
            state_of_charge_1: (flags >> 10u16) & 1 == 1,
            cf: (flags >> 12u16) & 1 == 1,
            ocv_taken: (flags >> 15u16) & 1 == 1,
        }
    }
}

} // verus!
