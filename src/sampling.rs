//! The gain calibrations: a series of register samples, a noise guard,
//! and the data-flash write that rescales the gain.
use vstd::prelude::*;
use crate::block::{
    block_from_bytes, checksum_of, flash_block_checksum, patch_block, patched, BLOCK_LEN,
};
use crate::bus::{
    in_len, last_read_len, lemma_fixed_replies, lemma_last_read_len_concat, lemma_trailing_delay,
    control_seq, le_word, push_control, push_read_block, push_unseal, read_block_seq,
    unseal_seq, word_from_reply, BusOp, Step, CMD_RESET, REG_BLOCK_CHECKSUM, REG_BLOCK_DATA,
    REG_CURRENT, REG_VOLTAGE,
};
use crate::codec::{rescale_cc_gain, rescaled_words};
use crate::config::{hi, lo, push_register_writes, register_writes, SUBCLASS_CALIBRATION};

verus! {

/// Number of samples taken before a calibration.
pub const SAMPLE_COUNT: usize = 50;
/// Pause after each sample.
pub const SAMPLE_MS: u32 = 150;
/// Pause after a calibration write, and on each side of a reset.
pub const WRITE_SETTLE_MS: u32 = 150;
/// Largest standard deviation, in register units, of a usable sample series.
pub const MAX_DEVIATION: i64 = 100;
/// Largest magnitude of one sample: a 16-bit register.
pub const SAMPLE_LIMIT: i32 = 65535;

/// Sum of the samples.
pub open spec fn total(s: Seq<i32>) -> int
    decreases s.len(),
{
    if s.len() == 0 {
        0
    } else {
        total(s.drop_last()) + s.last() as int
    }
}

/// Sum of the squares of the samples.
pub open spec fn total_sq(s: Seq<i32>) -> int
    decreases s.len(),
{
    if s.len() == 0 {
        0
    } else {
        total_sq(s.drop_last()) + s.last() as int * s.last() as int
    }
}

/// Whether the population standard deviation of `s` exceeds
/// `MAX_DEVIATION`. With `n` samples the population variance is
/// `(n * total_sq - total^2) / n^2`, so the deviation exceeds the bound
/// exactly when `n * total_sq - total^2 > MAX_DEVIATION^2 * n^2`.
pub open spec fn too_noisy(s: Seq<i32>) -> bool {
    s.len() * total_sq(s) - total(s) * total(s) > MAX_DEVIATION * MAX_DEVIATION * (s.len()
        * s.len())
}

/// Every sample fits a 16-bit register.
pub open spec fn samples_in_range(s: Seq<i32>) -> bool {
    forall|i: int| 0 <= i < s.len() ==> -SAMPLE_LIMIT <= #[trigger] s[i] <= SAMPLE_LIMIT
}

/// Sums the samples and their squares.
fn sums(samples: &Vec<i32>) -> (r: (i64, i64))
    requires
        samples@.len() <= SAMPLE_COUNT,
        samples_in_range(samples@),
    ensures
        r.0 == total(samples@),
        r.1 == total_sq(samples@),
        -SAMPLE_LIMIT * samples@.len() <= r.0 <= SAMPLE_LIMIT * samples@.len(),
        0 <= r.1 <= 4294836225 * samples@.len(),
{
    let mut sum: i64 = 0;
    let mut sq: i64 = 0;
    let mut i: usize = 0;
    while i < samples.len()
        invariant
            i <= samples@.len() <= SAMPLE_COUNT,
            samples_in_range(samples@),
            sum == total(samples@.take(i as int)),
            sq == total_sq(samples@.take(i as int)),
            -65535 * i <= sum <= 65535 * i,
            0 <= sq <= 4294836225 * i,
        decreases samples@.len() - i,
    {
        let x = samples[i];
        assert(-65535 <= samples@[i as int] <= 65535);
        proof {
            assert(samples@.take(i as int + 1).drop_last() =~= samples@.take(i as int));
        }
        let wide = x as i64;
        assert(0 <= wide * wide <= 4294836225) by (nonlinear_arith)
            requires
                -65535 <= wide <= 65535,
        ;
        sum = sum + wide;
        sq = sq + wide * wide;
        i = i + 1;
    }
    proof {
        assert(samples@.take(samples@.len() as int) =~= samples@);
    }
    (sum, sq)
}

/// Whether a series of samples is too noisy to calibrate against.
pub fn sample_is_noisy(samples: &Vec<i32>) -> (r: bool)
    requires
        samples@.len() <= SAMPLE_COUNT,
        samples_in_range(samples@),
    ensures
        r == too_noisy(samples@),
{
    let (sum, sq) = sums(samples);
    let n = samples.len() as i64;
    proof {
        assert(0 <= n * sq <= 50 * (4294836225 * 50)) by (nonlinear_arith)
            requires
                0 <= n <= 50,
                0 <= sq <= 4294836225 * n,
        ;
        assert(-3276750 <= sum <= 3276750);
        assert(0 <= sum * sum <= 3276750 * 3276750) by (nonlinear_arith)
            requires
                -3276750 <= sum <= 3276750,
        ;
        assert(0 <= n * n <= 2500) by (nonlinear_arith)
            requires
                0 <= n <= 50,
        ;
    }
    n * sq - sum * sum > MAX_DEVIATION * MAX_DEVIATION * (n * n)
}

/// Read a register sample, then pause.
pub open spec fn sample_seq(reg: u8) -> Seq<BusOp> {
    seq![BusOp::ReadWord { reg }, BusOp::Delay { ms: SAMPLE_MS }]
}

/// Unseal and read the calibration block.
pub open spec fn calibration_block_seq() -> Seq<BusOp> {
    unseal_seq() + read_block_seq(SUBCLASS_CALIBRATION, 0)
}

/// A sample batch hands back the register word; the calibration block
/// batch hands back the block.
proof fn lemma_sampling_replies(reg: u8)
    ensures
        last_read_len(sample_seq(reg)) == 2,
        last_read_len(calibration_block_seq()) == BLOCK_LEN,
{
    let r = seq![BusOp::ReadWord { reg }];
    assert(r.last() == BusOp::ReadWord { reg });
    assert(in_len(r.last()) == 2);
    lemma_trailing_delay(r, SAMPLE_MS);
    assert(sample_seq(reg) =~= r + seq![BusOp::Delay { ms: SAMPLE_MS }]);
    lemma_fixed_replies(CMD_RESET, SUBCLASS_CALIBRATION, 0);
    lemma_last_read_len_concat(unseal_seq(), read_block_seq(SUBCLASS_CALIBRATION, 0));
}

fn push_sample(ops: &mut Vec<BusOp>, reg: u8)
    ensures
        final(ops)@ == old(ops)@ + sample_seq(reg),
{
    ops.push(BusOp::ReadWord { reg });
    ops.push(BusOp::Delay { ms: SAMPLE_MS });
    proof {
        assert(final(ops)@ =~= old(ops)@ + sample_seq(reg));
    }
}

fn calibration_block_ops() -> (r: Vec<BusOp>)
    ensures
        r@ == calibration_block_seq(),
{
    let mut ops: Vec<BusOp> = Vec::new();
    push_unseal(&mut ops);
    push_read_block(&mut ops, SUBCLASS_CALIBRATION, 0);
    ops
}

/// Where a gain calibration stands.
#[derive(PartialEq, Eq, Structural, Clone, Copy, Debug)]
pub enum GainPhase {
    Start,
    /// Collecting samples.
    Sampling,
    /// The calibration block has been asked for.
    AwaitBlock,
    /// The new gain has been written (after a sense-resistor write, the
    /// read-back of the closing reset is the reply).
    Committing,
    Finished,
}

/// Offset of the big-endian voltage-divider word in the calibration block.
pub const DIVIDER_OFFSET: u8 = 14;

/// The rescaled voltage divider: the old divider times the applied voltage
/// over the mean of the `SAMPLE_COUNT` readings whose sum is `sum`, rounded
/// down, saturated to 16 bits. An infinite ratio saturates; an undefined
/// one (nothing over nothing) gives 0.
pub open spec fn rescaled_divider(applied_voltage: u16, divider: u16, sum: int) -> u16 {
    if sum <= 0 {
        if applied_voltage > 0 && divider > 0 {
            0xffff
        } else {
            0
        }
    } else {
        let v = applied_voltage as int * divider as int * SAMPLE_COUNT as int / sum;
        if v > 0xffff {
            0xffff
        } else {
            v as u16
        }
    }
}

/// The divider word stored in a calibration block.
pub open spec fn divider_in(block: Seq<u8>) -> u16 {
    (block[DIVIDER_OFFSET as int] as int * 256 + block[DIVIDER_OFFSET + 1] as int) as u16
}

/// The new divider bytes for the block `block`.
pub open spec fn divider_writes(applied_voltage: u16, sum: int, block: Seq<u8>) -> Seq<(u8, u8)> {
    let d = rescaled_divider(applied_voltage, divider_in(block), sum);
    seq![(DIVIDER_OFFSET, hi(d)), ((DIVIDER_OFFSET + 1) as u8, lo(d))]
}

/// Write the two divider bytes and the checksum, then pause.
pub open spec fn divider_commit_seq(applied_voltage: u16, sum: int, block: Seq<u8>) -> Seq<BusOp> {
    let w = divider_writes(applied_voltage, sum, block);
    seq![
        BusOp::WriteReg { reg: (REG_BLOCK_DATA + w[0].0) as u8, value: w[0].1 },
        BusOp::WriteReg { reg: (REG_BLOCK_DATA + w[1].0) as u8, value: w[1].1 },
        BusOp::WriteReg { reg: REG_BLOCK_CHECKSUM, value: checksum_of(patched(block, w)) },
        BusOp::Delay { ms: WRITE_SETTLE_MS },
    ]
}

fn rescale_divider(applied_voltage: u16, divider: u16, sum: i64) -> (r: u16)
    requires
        -SAMPLE_LIMIT * SAMPLE_COUNT <= sum <= SAMPLE_LIMIT * SAMPLE_COUNT,
    ensures
        r == rescaled_divider(applied_voltage, divider, sum as int),
{
    if sum <= 0 {
        if applied_voltage > 0 && divider > 0 {
            0xffff
        } else {
            0
        }
    } else {
        assert(applied_voltage as int * divider as int <= 65535 * 65535) by (nonlinear_arith)
            requires
                applied_voltage <= 65535,
                divider <= 65535,
        ;
        let product: u64 = applied_voltage as u64 * divider as u64;
        assert(product <= 4294836225);
        let count: u64 = SAMPLE_COUNT as u64;
        assert(product * count <= 4294836225 * 50) by (nonlinear_arith)
            requires
                product <= 4294836225,
                count == 50,
        ;
        let num: u64 = product * count;
        let v: u64 = num / (sum as u64);
        if v > 0xffff {
            0xffff
        } else {
            v as u16
        }
    }
}

/// A voltage-divider calibration in progress: the applied voltage in mV
/// and the voltage samples collected so far.
#[derive(Debug)]
pub struct VoltageDividerCal {
    pub applied_voltage: u16,
    pub samples: Vec<i32>,
    pub phase: GainPhase,
}

/// The divider write reads nothing back.
proof fn lemma_divider_reply(applied_voltage: u16, sum: int, block: Seq<u8>)
    ensures
        last_read_len(divider_commit_seq(applied_voltage, sum, block)) == 0,
{
    let c = divider_commit_seq(applied_voltage, sum, block);
    let c1 = c.drop_last();
    let c2 = c1.drop_last();
    let c3 = c2.drop_last();
    assert(c3.len() == 1);
    assert(c3.drop_last() =~= Seq::<BusOp>::empty());
    assert(last_read_len(c3.drop_last()) == 0);
    assert(in_len(c3.last()) == 0);
    assert(last_read_len(c3) == 0);
    assert(in_len(c2.last()) == 0);
    assert(last_read_len(c2) == 0);
    assert(in_len(c1.last()) == 0);
    assert(last_read_len(c1) == 0);
    assert(in_len(c.last()) == 0);
}

impl VoltageDividerCal {
    pub open spec fn wf(&self) -> bool {
        &&& samples_in_range(self.samples@)
        &&& (self.phase == GainPhase::Start ==> self.samples@.len() == 0)
        &&& (self.phase == GainPhase::Sampling ==> self.samples@.len() < SAMPLE_COUNT)
        &&& (self.phase != GainPhase::Start && self.phase != GainPhase::Sampling
            ==> self.samples@.len() == SAMPLE_COUNT)
    }

    /// The length of the reply the next step expects.
    pub open spec fn expected_reply(&self) -> nat {
        match self.phase {
            GainPhase::Sampling => 2,
            GainPhase::AwaitBlock => BLOCK_LEN as nat,
            _ => 0,
        }
    }

    /// The number of reply bytes the next step expects.
    pub fn reply_len(&self) -> (r: usize)
        ensures
            r == self.expected_reply(),
    {
        match self.phase {
            GainPhase::Sampling => 2,
            GainPhase::AwaitBlock => BLOCK_LEN,
            _ => 0,
        }
    }

    /// Advances the calibration with the bytes read by the previous batch.
    pub fn step(&mut self, reply: &[u8]) -> (r: Step)
        requires
            old(self).wf(),
            reply@.len() == old(self).expected_reply(),
        ensures
            final(self).wf(),
            final(self).applied_voltage == old(self).applied_voltage,
            old(self).phase == GainPhase::Start ==> r is Run && r->ops@ == sample_seq(REG_VOLTAGE)
                && final(self).phase == GainPhase::Sampling,
            old(self).phase == GainPhase::Sampling ==> ({
                let s = old(self).samples@.push(le_word(reply@) as i32);
                &&& final(self).samples@ == s
                &&& s.len() < SAMPLE_COUNT ==> r is Run && r->ops@ == sample_seq(REG_VOLTAGE)
                    && final(self).phase == GainPhase::Sampling
                &&& s.len() == SAMPLE_COUNT && too_noisy(s) ==> r == Step::Done
                    && final(self).phase == GainPhase::Finished
                &&& s.len() == SAMPLE_COUNT && !too_noisy(s) ==> r is Run && r->ops@
                    == calibration_block_seq() && final(self).phase == GainPhase::AwaitBlock
            }),
            old(self).phase == GainPhase::AwaitBlock ==> r is Run && r->ops@ == divider_commit_seq(
                old(self).applied_voltage,
                total(old(self).samples@),
                reply@,
            ) && final(self).phase == GainPhase::Committing,
            old(self).phase != GainPhase::Start && old(self).phase != GainPhase::Sampling
                && old(self).phase != GainPhase::AwaitBlock ==> r == Step::Done
                && final(self).phase == GainPhase::Finished,
            r is Run ==> last_read_len(r->ops@) == final(self).expected_reply(),
    {
        proof {
            lemma_sampling_replies(REG_VOLTAGE);
            lemma_divider_reply(self.applied_voltage, total(self.samples@), reply@);
        }
        match self.phase {
            GainPhase::Start => {
                let mut ops: Vec<BusOp> = Vec::new();
                push_sample(&mut ops, REG_VOLTAGE);
                self.phase = GainPhase::Sampling;
                Step::Run { ops }
            },
            GainPhase::Sampling => {
                let v = word_from_reply(reply);
                self.samples.push(v as i32);
                if self.samples.len() < SAMPLE_COUNT {
                    let mut ops: Vec<BusOp> = Vec::new();
                    push_sample(&mut ops, REG_VOLTAGE);
                    Step::Run { ops }
                } else if sample_is_noisy(&self.samples) {
                    self.phase = GainPhase::Finished;
                    Step::Done
                } else {
                    self.phase = GainPhase::AwaitBlock;
                    Step::Run { ops: calibration_block_ops() }
                }
            },
            GainPhase::AwaitBlock => {
                let (sum, _) = sums(&self.samples);
                let mut block = block_from_bytes(reply);
                let divider: u16 = block[14] as u16 * 256 + block[15] as u16;
                let d = rescale_divider(self.applied_voltage, divider, sum);
                let writes = vec![(DIVIDER_OFFSET, (d / 256) as u8), (DIVIDER_OFFSET + 1, (d % 256) as u8)];
                proof {
                    assert(writes@ =~= divider_writes(self.applied_voltage, sum as int, reply@));
                }
                patch_block(&mut block, &writes);
                let checksum = flash_block_checksum(&block);
                let ops = vec![
                    BusOp::WriteReg { reg: REG_BLOCK_DATA + DIVIDER_OFFSET, value: (d / 256) as u8 },
                    BusOp::WriteReg { reg: REG_BLOCK_DATA + DIVIDER_OFFSET + 1, value: (d % 256) as u8 },
                    BusOp::WriteReg { reg: REG_BLOCK_CHECKSUM, value: checksum },
                    BusOp::Delay { ms: WRITE_SETTLE_MS },
                ];
                self.phase = GainPhase::Committing;
                Step::Run { ops }
            },
            _ => {
                self.phase = GainPhase::Finished;
                Step::Done
            },
        }
    }
}

/// Samples the pack voltage, and unless the samples are too noisy,
/// rescales the voltage divider so that the mean reading matches
/// `applied_voltage` (mV). Nothing is reset or read back afterwards.
pub fn calibrate_voltage_divider(applied_voltage: u16) -> (r: VoltageDividerCal)
    ensures
        r.wf(),
        r.applied_voltage == applied_voltage,
        r.phase == GainPhase::Start,
{
    VoltageDividerCal { applied_voltage, samples: Vec::new(), phase: GainPhase::Start }
}

} // verus!

verus! {

/// Number of bytes of the two gain words (CC gain, CC delta) at the start
/// of the calibration block.
pub const GAIN_BYTES: usize = 8;

/// The big-endian word of the four bytes of `s` from `at`.
pub open spec fn be_u32_at(s: Seq<u8>, at: int) -> u32 {
    (s[at] as int * 0x1000000 + s[at + 1] as int * 0x10000 + s[at + 2] as int * 0x100 + s[at
        + 3] as int) as u32
}

/// The gain bytes handed back, as `(offset, byte)` writes at the start of the block.
pub open spec fn gain_writes(gains: Seq<u8>) -> Seq<(u8, u8)> {
    Seq::new(GAIN_BYTES as nat, |i: int| (i as u8, gains[i]))
}

/// Write the eight gain bytes and the checksum, then reset the gauge
/// between two pauses.
pub open spec fn gain_commit_seq(block: Seq<u8>, gains: Seq<u8>) -> Seq<BusOp> {
    register_writes(gain_writes(gains)) + seq![
        BusOp::WriteReg {
            reg: REG_BLOCK_CHECKSUM,
            value: checksum_of(patched(block, gain_writes(gains))),
        },
        BusOp::Delay { ms: WRITE_SETTLE_MS },
    ] + control_seq(CMD_RESET) + seq![BusOp::Delay { ms: WRITE_SETTLE_MS }]
}

fn signed_word(w: u16) -> (r: i16)
    ensures
        r == w as i16,
{
    #[verifier::truncate]
    (w as i16)
}

/// The four big-endian bytes of a word.
pub open spec fn word_bytes(w: u32) -> Seq<u8> {
    seq![
        (w / 0x1000000) as u8,
        (w / 0x10000 % 0x100) as u8,
        (w / 0x100 % 0x100) as u8,
        (w % 0x100) as u8,
    ]
}

/// The commit of the gain words `w` into the calibration block `block`.
pub open spec fn gains_commit(block: Seq<u8>, w: (u32, u32)) -> Seq<BusOp> {
    gain_commit_seq(block, word_bytes(w.0) + word_bytes(w.1))
}

/// The gain write hands back the read-back of its closing reset.
proof fn lemma_gains_reply(block: Seq<u8>, w: (u32, u32))
    ensures
        last_read_len(gains_commit(block, w)) == 2,
{
    let gains = word_bytes(w.0) + word_bytes(w.1);
    let head = register_writes(gain_writes(gains)) + seq![
        BusOp::WriteReg {
            reg: REG_BLOCK_CHECKSUM,
            value: checksum_of(patched(block, gain_writes(gains))),
        },
        BusOp::Delay { ms: WRITE_SETTLE_MS },
    ];
    lemma_fixed_replies(CMD_RESET, 0, 0);
    lemma_trailing_delay(head + control_seq(CMD_RESET), WRITE_SETTLE_MS);
    lemma_last_read_len_concat(head, control_seq(CMD_RESET));
}

/// A sense-resistor calibration in progress: the applied current in mA
/// and the current samples collected so far.
#[derive(Debug)]
pub struct SenseResistorCal {
    pub applied_current: i16,
    pub samples: Vec<i32>,
    pub phase: GainPhase,
}

impl SenseResistorCal {
    pub open spec fn wf(&self) -> bool {
        &&& samples_in_range(self.samples@)
        &&& (self.phase == GainPhase::Start ==> self.samples@.len() == 0)
        &&& (self.phase == GainPhase::Sampling ==> self.samples@.len() < SAMPLE_COUNT)
        &&& (self.phase != GainPhase::Start && self.phase != GainPhase::Sampling
            ==> self.samples@.len() == SAMPLE_COUNT)
    }

    /// The length of the reply the next step expects.
    pub open spec fn expected_reply(&self) -> nat {
        match self.phase {
            GainPhase::Sampling | GainPhase::Committing => 2,
            GainPhase::AwaitBlock => BLOCK_LEN as nat,
            _ => 0,
        }
    }

    /// The number of reply bytes the next step expects.
    pub fn reply_len(&self) -> (r: usize)
        ensures
            r == self.expected_reply(),
    {
        match self.phase {
            GainPhase::Sampling | GainPhase::Committing => 2,
            GainPhase::AwaitBlock => BLOCK_LEN,
            _ => 0,
        }
    }

    /// Advances the calibration with the bytes read by the previous batch.
    pub fn step(&mut self, reply: &[u8]) -> (r: Step)
        requires
            old(self).wf(),
            reply@.len() == old(self).expected_reply(),
        ensures
            final(self).wf(),
            final(self).applied_current == old(self).applied_current,
            old(self).phase == GainPhase::Start ==> r is Run && r->ops@ == sample_seq(REG_CURRENT)
                && final(self).phase == GainPhase::Sampling,
            old(self).phase == GainPhase::Sampling ==> ({
                let s = old(self).samples@.push(le_word(reply@) as i16 as i32);
                &&& final(self).samples@ == s
                &&& s.len() < SAMPLE_COUNT ==> r is Run && r->ops@ == sample_seq(REG_CURRENT)
                    && final(self).phase == GainPhase::Sampling
                &&& s.len() == SAMPLE_COUNT && too_noisy(s) ==> r == Step::Done
                    && final(self).phase == GainPhase::Finished
                &&& s.len() == SAMPLE_COUNT && !too_noisy(s) ==> r is Run && r->ops@
                    == calibration_block_seq() && final(self).phase == GainPhase::AwaitBlock
            }),
            old(self).phase == GainPhase::AwaitBlock && total(old(self).samples@) == 0 ==> r
                == Step::Done && final(self).phase == GainPhase::Finished,
            old(self).phase == GainPhase::AwaitBlock && total(old(self).samples@) != 0 ==> r is Run
                && final(self).phase == GainPhase::Committing && exists|w: (u32, u32)|
                rescaled_words(
                    be_u32_at(reply@, 0),
                    total(old(self).samples@),
                    old(self).applied_current as int,
                    w,
                ) && r->ops@ == #[trigger] gains_commit(reply@, w),
            old(self).phase == GainPhase::Committing || old(self).phase == GainPhase::Finished
                ==> r == Step::Done && final(self).phase == GainPhase::Finished,
            r is Run ==> last_read_len(r->ops@) == final(self).expected_reply(),
    {
        proof {
            lemma_sampling_replies(REG_CURRENT);
            assert forall|w: (u32, u32)| last_read_len(#[trigger] gains_commit(reply@, w)) == 2 by {
                lemma_gains_reply(reply@, w);
            }
        }
        match self.phase {
            GainPhase::Start => {
                let mut ops: Vec<BusOp> = Vec::new();
                push_sample(&mut ops, REG_CURRENT);
                self.phase = GainPhase::Sampling;
                Step::Run { ops }
            },
            GainPhase::Sampling => {
                let v = signed_word(word_from_reply(reply));
                self.samples.push(v as i32);
                if self.samples.len() < SAMPLE_COUNT {
                    let mut ops: Vec<BusOp> = Vec::new();
                    push_sample(&mut ops, REG_CURRENT);
                    Step::Run { ops }
                } else if sample_is_noisy(&self.samples) {
                    self.phase = GainPhase::Finished;
                    Step::Done
                } else {
                    self.phase = GainPhase::AwaitBlock;
                    Step::Run { ops: calibration_block_ops() }
                }
            },
            GainPhase::AwaitBlock => {
                let (sum, _) = sums(&self.samples);
                let cc_gain: u32 = reply[0] as u32 * 0x1000000 + reply[1] as u32 * 0x10000
                    + reply[2] as u32 * 0x100 + reply[3] as u32;
                match rescale_cc_gain(cc_gain, sum, self.applied_current) {
                    None => {
                        self.phase = GainPhase::Finished;
                        Step::Done
                    },
                    Some(w) => {
                        let ops = gain_commit_ops(reply, w);
                        self.phase = GainPhase::Committing;
                        Step::Run { ops }
                    },
                }
            },
            _ => {
                self.phase = GainPhase::Finished;
                Step::Done
            },
        }
    }
}

/// The commit of two gain words into the block read in `block`.
fn gain_commit_ops(block: &[u8], w: (u32, u32)) -> (r: Vec<BusOp>)
    requires
        block@.len() == BLOCK_LEN,
    ensures
        r@ == gains_commit(block@, w),
{
    let (g, d) = w;
    let gains: [u8; 8] = [
        (g / 0x1000000) as u8,
        (g / 0x10000 % 0x100) as u8,
        (g / 0x100 % 0x100) as u8,
        (g % 0x100) as u8,
        (d / 0x1000000) as u8,
        (d / 0x10000 % 0x100) as u8,
        (d / 0x100 % 0x100) as u8,
        (d % 0x100) as u8,
    ];
    proof {
        assert(gains@ =~= word_bytes(g) + word_bytes(d));
    }
    let mut writes: Vec<(u8, u8)> = Vec::new();
    let mut i: usize = 0;
    while i < GAIN_BYTES
        invariant
            i <= GAIN_BYTES,
            gains@.len() == GAIN_BYTES,
            writes@ == gain_writes(gains@).take(i as int),
        decreases GAIN_BYTES - i,
    {
        writes.push((i as u8, gains[i]));
        i = i + 1;
        proof {
            assert(writes@ =~= gain_writes(gains@).take(i as int));
        }
    }
    proof {
        assert(writes@ =~= gain_writes(gains@));
    }
    let mut patched_block = block_from_bytes(block);
    patch_block(&mut patched_block, &writes);
    let checksum = flash_block_checksum(&patched_block);
    let mut ops: Vec<BusOp> = Vec::new();
    push_register_writes(&mut ops, &writes);
    ops.push(BusOp::WriteReg { reg: REG_BLOCK_CHECKSUM, value: checksum });
    ops.push(BusOp::Delay { ms: WRITE_SETTLE_MS });
    push_control(&mut ops, CMD_RESET);
    ops.push(BusOp::Delay { ms: WRITE_SETTLE_MS });
    proof {
        assert(ops@ =~= gain_commit_seq(block@, gains@));
    }
    ops
}

/// Samples the current, and unless the samples are too noisy (or sum to
/// zero), rescales the coulomb-counter gain words so that the mean reading
/// matches `applied_current` (mA), writes them and resets the gauge.
pub fn calibrate_sense_resistor(applied_current: i16) -> (r: SenseResistorCal)
    ensures
        r.wf(),
        r.applied_current == applied_current,
        r.phase == GainPhase::Start,
{
    SenseResistorCal { applied_current, samples: Vec::new(), phase: GainPhase::Start }
}

} // verus!
