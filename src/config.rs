//! The write-and-verify protocol shared by every data-flash parameter.
use vstd::prelude::*;
use crate::block::{
    block_from_bytes, block_holds, checksum_of, flash_block_checksum, holds_all,
    offsets_in_block, patch_block, patched, BLOCK_LEN,
};
use crate::bus::{
    last_read_len, lemma_fixed_replies, lemma_last_read_len_concat, control_seq, push_control, push_read_block, push_unseal, read_block_seq, unseal_seq, BusOp,
    Step, CMD_RESET, REG_BLOCK_CHECKSUM, REG_BLOCK_DATA,
};

verus! {

/// Pause before and after the reset that reloads data flash.
pub const SETTLE_MS: u32 = 150;

/// One data-flash parameter change: the subclass it lives in, the bytes
/// of block 0 to write, and the bytes that must read back after a reset.
#[derive(Debug)]
pub struct BlockUpdate {
    pub sub_class: u8,
    pub writes: Vec<(u8, u8)>,
    pub verify: Vec<(u8, u8)>,
}

impl BlockUpdate {
    pub open spec fn wf(&self) -> bool {
        offsets_in_block(self.writes@) && offsets_in_block(self.verify@)
    }
}

/// The register writes that send each patched byte to the gauge.
pub open spec fn register_writes(writes: Seq<(u8, u8)>) -> Seq<BusOp> {
    writes.map_values(|w: (u8, u8)| BusOp::WriteReg { reg: (REG_BLOCK_DATA + w.0) as u8, value: w.1 })
}

/// Unseal, then read the block that holds the parameter.
pub open spec fn begin_seq(u: BlockUpdate) -> Seq<BusOp> {
    unseal_seq() + read_block_seq(u.sub_class, 0)
}

/// Write the touched bytes of the patched block and its checksum, reset
/// the gauge between two pauses, then unseal and read the block again.
pub open spec fn commit_seq(u: BlockUpdate, block: Seq<u8>) -> Seq<BusOp> {
    register_writes(u.writes@) + seq![
        BusOp::WriteReg {
            reg: REG_BLOCK_CHECKSUM,
            value: checksum_of(patched(block, u.writes@)),
        },
        BusOp::Delay { ms: SETTLE_MS },
    ] + control_seq(CMD_RESET) + seq![BusOp::Delay { ms: SETTLE_MS }] + unseal_seq()
        + read_block_seq(u.sub_class, 0)
}

/// Where a parameter update stands.
#[derive(PartialEq, Eq, Structural, Clone, Copy, Debug)]
pub enum WritePhase {
    /// Nothing has been sent yet.
    Start,
    /// The current block has been asked for.
    AwaitBlock,
    /// The block has been written and asked for again.
    AwaitReread,
    /// The outcome has been given.
    Finished,
}

/// A parameter update in progress.
#[derive(Debug)]
pub struct ConfigWriter {
    pub update: BlockUpdate,
    pub phase: WritePhase,
}

impl ConfigWriter {
    pub open spec fn wf(&self) -> bool {
        self.update.wf()
    }

    /// The length of the reply the next step expects.
    pub open spec fn expected_reply(&self) -> nat {
        match self.phase {
            WritePhase::AwaitBlock | WritePhase::AwaitReread => BLOCK_LEN as nat,
            _ => 0,
        }
    }

    /// A writer about to apply `update`.
    pub fn new(update: BlockUpdate) -> (r: Self)
        requires
            update.wf(),
        ensures
            r.wf(),
            r.update == update,
            r.phase == WritePhase::Start,
    {
        ConfigWriter { update, phase: WritePhase::Start }
    }

    /// The number of reply bytes the next step expects.
    pub fn reply_len(&self) -> (r: usize)
        ensures
            r == self.expected_reply(),
    {
        match self.phase {
            WritePhase::AwaitBlock | WritePhase::AwaitReread => BLOCK_LEN,
            _ => 0,
        }
    }

    /// Advances the update with the bytes read by the previous batch.
    pub fn step(&mut self, reply: &[u8]) -> (r: Step)
        requires
            old(self).wf(),
            reply@.len() == old(self).expected_reply(),
        ensures
            final(self).wf(),
            final(self).update == old(self).update,
            old(self).phase == WritePhase::Start ==> (r is Run && r->ops@ == begin_seq(
                old(self).update,
            ) && final(self).phase == WritePhase::AwaitBlock),
            old(self).phase == WritePhase::AwaitBlock ==> (r is Run && r->ops@ == commit_seq(
                old(self).update,
                reply@,
            ) && final(self).phase == WritePhase::AwaitReread),
            old(self).phase == WritePhase::AwaitReread ==> final(self).phase == WritePhase::Finished
                && r == (if holds_all(reply@, old(self).update.verify@) {
                Step::Done
            } else {
                Step::NotStored
            }),
            old(self).phase == WritePhase::Finished ==> r == Step::Done && final(self).phase
                == WritePhase::Finished,
            r is Run ==> last_read_len(r->ops@) == final(self).expected_reply(),
    {
        proof {
            lemma_fixed_replies(CMD_RESET, self.update.sub_class, 0);
            lemma_last_read_len_concat(unseal_seq(), read_block_seq(self.update.sub_class, 0));
            if self.phase == WritePhase::AwaitBlock && reply@.len() == BLOCK_LEN {
                let c = commit_seq(self.update, reply@);
                let tail = read_block_seq(self.update.sub_class, 0);
                assert(c =~= c.subrange(0, c.len() - tail.len()) + tail);
                lemma_last_read_len_concat(c.subrange(0, c.len() - tail.len()), tail);
            }
        }
        match self.phase {
            WritePhase::Start => {
                let mut ops: Vec<BusOp> = Vec::new();
                push_unseal(&mut ops);
                push_read_block(&mut ops, self.update.sub_class, 0);
                self.phase = WritePhase::AwaitBlock;
                Step::Run { ops }
            },
            WritePhase::AwaitBlock => {
                let ops = commit_ops(&self.update, reply);
                self.phase = WritePhase::AwaitReread;
                Step::Run { ops }
            },
            WritePhase::AwaitReread => {
                self.phase = WritePhase::Finished;
                if block_holds(reply, &self.update.verify) {
                    Step::Done
                } else {
                    Step::NotStored
                }
            },
            WritePhase::Finished => Step::Done,
        }
    }
}

/// Appends the register writes of each patched byte.
pub fn push_register_writes(ops: &mut Vec<BusOp>, writes: &Vec<(u8, u8)>)
    requires
        offsets_in_block(writes@),
    ensures
        final(ops)@ == old(ops)@ + register_writes(writes@),
{
    let ghost start = old(ops)@;
    let mut i: usize = 0;
    while i < writes.len()
        invariant
            i <= writes@.len(),
            offsets_in_block(writes@),
            ops@ == start + register_writes(writes@.take(i as int)),
        decreases writes@.len() - i,
    {
        let (offset, value) = writes[i];
        assert(writes@[i as int].0 < BLOCK_LEN);
        ops.push(BusOp::WriteReg { reg: REG_BLOCK_DATA + offset, value });
        i = i + 1;
        proof {
            assert(register_writes(writes@.take(i as int)) =~= register_writes(
                writes@.take(i as int - 1),
            ).push(BusOp::WriteReg { reg: (REG_BLOCK_DATA + offset) as u8, value }));
            assert(ops@ =~= start + register_writes(writes@.take(i as int)));
        }
    }
    proof {
        assert(writes@.take(writes@.len() as int) =~= writes@);
    }
}

/// The operations that commit an update to the block read in `reply`.
fn commit_ops(u: &BlockUpdate, reply: &[u8]) -> (r: Vec<BusOp>)
    requires
        u.wf(),
        reply@.len() == BLOCK_LEN,
    ensures
        r@ == commit_seq(*u, reply@),
{
    let mut block = block_from_bytes(reply);
    patch_block(&mut block, &u.writes);
    let checksum = flash_block_checksum(&block);
    let mut ops: Vec<BusOp> = Vec::new();
    push_register_writes(&mut ops, &u.writes);
    ops.push(BusOp::WriteReg { reg: REG_BLOCK_CHECKSUM, value: checksum });
    ops.push(BusOp::Delay { ms: SETTLE_MS });
    push_control(&mut ops, CMD_RESET);
    ops.push(BusOp::Delay { ms: SETTLE_MS });
    push_unseal(&mut ops);
    push_read_block(&mut ops, u.sub_class, 0);
    proof {
        assert(ops@ =~= commit_seq(*u, reply@));
    }
    ops
}

} // verus!

verus! {

/// Data-flash subclass of the charge-termination parameters.
pub const SUBCLASS_CHARGE_TERMINATION: u8 = 36;
/// Data-flash subclass of capacity, energy and charge-voltage parameters.
pub const SUBCLASS_DATA: u8 = 48;
/// Data-flash subclass of the pack configuration, LED mode and cell count.
pub const SUBCLASS_REGISTERS: u8 = 64;
/// Data-flash subclass of the Q-max state.
pub const SUBCLASS_IT_STATE: u8 = 82;
/// Data-flash subclass of the calibration constants.
pub const SUBCLASS_CALIBRATION: u8 = 104;

/// High byte of a big-endian 16-bit field.
pub open spec fn hi(v: u16) -> u8 {
    (v / 256) as u8
}

/// Low byte of a big-endian 16-bit field.
pub open spec fn lo(v: u16) -> u8 {
    (v % 256) as u8
}

/// Copies a list of `(offset, byte)` pairs.
fn copy_pairs(v: &Vec<(u8, u8)>) -> (r: Vec<(u8, u8)>)
    ensures
        r@ == v@,
{
    let mut r: Vec<(u8, u8)> = Vec::new();
    let mut i: usize = 0;
    while i < v.len()
        invariant
            i <= v@.len(),
            r@ == v@.take(i as int),
        decreases v@.len() - i,
    {
        r.push(v[i]);
        i = i + 1;
        proof {
            assert(r@ =~= v@.take(i as int));
        }
    }
    proof {
        assert(v@.take(v@.len() as int) =~= v@);
    }
    r
}

/// The two's-complement bits of a signed word.
fn word_bits(v: i16) -> (r: u16)
    ensures
        r == v as u16,
{
    #[verifier::truncate]
    (v as u16)
}

/// The two's-complement bits of a signed byte.
fn signed_byte(v: i8) -> (r: u8)
    ensures
        r == v as u8,
{
    #[verifier::truncate]
    (v as u8)
}

fn hi_byte(v: u16) -> (r: u8)
    ensures
        r == hi(v),
{
    (v / 256) as u8
}

fn lo_byte(v: u16) -> (r: u8)
    ensures
        r == lo(v),
{
    (v % 256) as u8
}

/// Sets the design capacity (bytes 11-12 of subclass 48), the CC threshold
/// to the same value (bytes 8-9) and clears the cycle count (bytes 6-7).
pub fn update_design_capacity(capacity: u16) -> (r: ConfigWriter)
    ensures
        r.wf(),
        r.phase == WritePhase::Start,
        distinct_offsets(r.update.writes@),
        verifies_written(r.update),
        r.update.sub_class == SUBCLASS_DATA,
        r.update.writes@ == seq![
            (6u8, 0u8),
            (7u8, 0u8),
            (8u8, hi(capacity)),
            (9u8, lo(capacity)),
            (11u8, hi(capacity)),
            (12u8, lo(capacity)),
        ],
        r.update.verify@ == r.update.writes@,
{
    let h = hi_byte(capacity);
    let l = lo_byte(capacity);
    let writes = vec![(6u8, 0u8), (7u8, 0u8), (8u8, h), (9u8, l), (11u8, h), (12u8, l)];
    let verify = copy_pairs(&writes);
    ConfigWriter::new(BlockUpdate { sub_class: SUBCLASS_DATA, writes, verify })
}

/// Sets Q-max (bytes 0-1 of subclass 82) and clears its cycle count
/// (bytes 2-3); Q-max itself is what must read back.
pub fn update_q_max(capacity: i16) -> (r: ConfigWriter)
    ensures
        r.wf(),
        r.phase == WritePhase::Start,
        distinct_offsets(r.update.writes@),
        verifies_written(r.update),
        r.update.sub_class == SUBCLASS_IT_STATE,
        r.update.writes@ == seq![
            (0u8, hi(capacity as u16)),
            (1u8, lo(capacity as u16)),
            (2u8, 0u8),
            (3u8, 0u8),
        ],
        r.update.verify@ == seq![(0u8, hi(capacity as u16)), (1u8, lo(capacity as u16))],
{
    let h = hi_byte(word_bits(capacity));
    let l = lo_byte(word_bits(capacity));
    let writes = vec![(0u8, h), (1u8, l), (2u8, 0u8), (3u8, 0u8)];
    let verify = vec![(0u8, h), (1u8, l)];
    ConfigWriter::new(BlockUpdate { sub_class: SUBCLASS_IT_STATE, writes, verify })
}

/// Sets the design energy (bytes 13-14 of subclass 48) and its scale (byte 30).
pub fn update_design_energy(energy: i16, energy_scale: u8) -> (r: ConfigWriter)
    ensures
        r.wf(),
        r.phase == WritePhase::Start,
        distinct_offsets(r.update.writes@),
        verifies_written(r.update),
        r.update.sub_class == SUBCLASS_DATA,
        r.update.writes@ == seq![
            (13u8, hi(energy as u16)),
            (14u8, lo(energy as u16)),
            (30u8, energy_scale),
        ],
        r.update.verify@ == r.update.writes@,
{
    let writes = vec![
        (13u8, hi_byte(word_bits(energy))),
        (14u8, lo_byte(word_bits(energy))),
        (30u8, energy_scale),
    ];
    let verify = copy_pairs(&writes);
    ConfigWriter::new(BlockUpdate { sub_class: SUBCLASS_DATA, writes, verify })
}

/// Sets the three cell charge voltages T1-T2, T2-T3 and T3-T4 (bytes 17-22
/// of subclass 48).
pub fn update_cell_charge_voltage_range(t1_t2: u16, t2_t3: u16, t3_t4: u16) -> (r: ConfigWriter)
    ensures
        r.wf(),
        r.phase == WritePhase::Start,
        distinct_offsets(r.update.writes@),
        verifies_written(r.update),
        r.update.sub_class == SUBCLASS_DATA,
        r.update.writes@ == seq![
            (17u8, hi(t1_t2)),
            (18u8, lo(t1_t2)),
            (19u8, hi(t2_t3)),
            (20u8, lo(t2_t3)),
            (21u8, hi(t3_t4)),
            (22u8, lo(t3_t4)),
        ],
        r.update.verify@ == r.update.writes@,
{
    let writes = vec![
        (17u8, hi_byte(t1_t2)),
        (18u8, lo_byte(t1_t2)),
        (19u8, hi_byte(t2_t3)),
        (20u8, lo_byte(t2_t3)),
        (21u8, hi_byte(t3_t4)),
        (22u8, lo_byte(t3_t4)),
    ];
    let verify = copy_pairs(&writes);
    ConfigWriter::new(BlockUpdate { sub_class: SUBCLASS_DATA, writes, verify })
}

/// Sets the LED mode (byte 4 of subclass 64).
pub fn set_led_mode(led_config: u8) -> (r: ConfigWriter)
    ensures
        r.wf(),
        r.phase == WritePhase::Start,
        distinct_offsets(r.update.writes@),
        verifies_written(r.update),
        r.update.sub_class == SUBCLASS_REGISTERS,
        r.update.writes@ == seq![(4u8, led_config)],
        r.update.verify@ == r.update.writes@,
{
    let writes = vec![(4u8, led_config)];
    let verify = vec![(4u8, led_config)];
    proof {
        assert(verify@ =~= writes@);
    }
    ConfigWriter::new(BlockUpdate { sub_class: SUBCLASS_REGISTERS, writes, verify })
}

/// Sets the number of series cells (byte 7 of subclass 64).
pub fn update_number_of_series_cells(cells: u8) -> (r: ConfigWriter)
    ensures
        r.wf(),
        r.phase == WritePhase::Start,
        distinct_offsets(r.update.writes@),
        verifies_written(r.update),
        r.update.sub_class == SUBCLASS_REGISTERS,
        r.update.writes@ == seq![(7u8, cells)],
        r.update.verify@ == r.update.writes@,
{
    let writes = vec![(7u8, cells)];
    let verify = vec![(7u8, cells)];
    proof {
        assert(verify@ =~= writes@);
    }
    ConfigWriter::new(BlockUpdate { sub_class: SUBCLASS_REGISTERS, writes, verify })
}

/// Sets the pack configuration (bytes 0-1 of subclass 64).
pub fn update_pack_configuration(config: u16) -> (r: ConfigWriter)
    ensures
        r.wf(),
        r.phase == WritePhase::Start,
        distinct_offsets(r.update.writes@),
        verifies_written(r.update),
        r.update.sub_class == SUBCLASS_REGISTERS,
        r.update.writes@ == seq![(0u8, hi(config)), (1u8, lo(config))],
        r.update.verify@ == r.update.writes@,
{
    let writes = vec![(0u8, hi_byte(config)), (1u8, lo_byte(config))];
    let verify = copy_pairs(&writes);
    ConfigWriter::new(
        BlockUpdate { sub_class: SUBCLASS_REGISTERS, writes, verify },
    )
}

/// Sets the charge-termination parameters (bytes 0-10 of subclass 36):
/// taper current, minimum taper capacity, cell taper voltage (big-endian
/// words), the taper window, and the four TCA/FC set and clear thresholds.
pub fn update_charge_termination_parameters(
    taper_current: i16,
    min_taper_capacity: i16,
    cell_taper_voltage: i16,
    taper_window: u8,
    tca_set: i8,
    tca_clear: i8,
    fc_set: i8,
    fc_clear: i8,
) -> (r: ConfigWriter)
    ensures
        r.wf(),
        r.phase == WritePhase::Start,
        distinct_offsets(r.update.writes@),
        verifies_written(r.update),
        r.update.sub_class == SUBCLASS_CHARGE_TERMINATION,
        r.update.writes@ == seq![
            (0u8, hi(taper_current as u16)),
            (1u8, lo(taper_current as u16)),
            (2u8, hi(min_taper_capacity as u16)),
            (3u8, lo(min_taper_capacity as u16)),
            (4u8, hi(cell_taper_voltage as u16)),
            (5u8, lo(cell_taper_voltage as u16)),
            (6u8, taper_window),
            (7u8, tca_set as u8),
            (8u8, tca_clear as u8),
            (9u8, fc_set as u8),
            (10u8, fc_clear as u8),
        ],
        r.update.verify@ == r.update.writes@,
{
    let writes = vec![
        (0u8, hi_byte(word_bits(taper_current))),
        (1u8, lo_byte(word_bits(taper_current))),
        (2u8, hi_byte(word_bits(min_taper_capacity))),
        (3u8, lo_byte(word_bits(min_taper_capacity))),
        (4u8, hi_byte(word_bits(cell_taper_voltage))),
        (5u8, lo_byte(word_bits(cell_taper_voltage))),
        (6u8, taper_window),
        (7u8, signed_byte(tca_set)),
        (8u8, signed_byte(tca_clear)),
        (9u8, signed_byte(fc_set)),
        (10u8, signed_byte(fc_clear)),
    ];
    let verify = copy_pairs(&writes);
    ConfigWriter::new(
        BlockUpdate { sub_class: SUBCLASS_CHARGE_TERMINATION, writes, verify },
    )
}

} // verus!

verus! {

/// No two pairs of `writes` touch the same offset.
pub open spec fn distinct_offsets(writes: Seq<(u8, u8)>) -> bool {
    forall|i: int, j: int|
        0 <= i < j < writes.len() ==> (#[trigger] writes[i]).0 != (#[trigger] writes[j]).0
}

/// Every pair to verify is one of the pairs written.
pub open spec fn verifies_written(u: BlockUpdate) -> bool {
    forall|i: int| 0 <= i < u.verify@.len() ==> u.writes@.contains(#[trigger] u.verify@[i])
}

proof fn lemma_patched_holds_write(block: Seq<u8>, writes: Seq<(u8, u8)>, j: int)
    requires
        block.len() == BLOCK_LEN,
        offsets_in_block(writes),
        distinct_offsets(writes),
        0 <= j < writes.len(),
    ensures
        patched(block, writes).len() == BLOCK_LEN,
        patched(block, writes)[writes[j].0 as int] == writes[j].1,
    decreases writes.len(),
{
    let init = writes.drop_last();
    assert(offsets_in_block(init)) by {
        assert forall|i: int| 0 <= i < init.len() implies (#[trigger] init[i]).0 < BLOCK_LEN by {
            assert(init[i] == writes[i]);
        }
    }
    assert(distinct_offsets(init)) by {
        assert forall|i: int, k: int| 0 <= i < k < init.len() implies (#[trigger] init[i]).0
            != (#[trigger] init[k]).0 by {
            assert(init[i] == writes[i] && init[k] == writes[k]);
        }
    }
    assert(writes.last().0 < BLOCK_LEN);
    if j == writes.len() - 1 {
        if init.len() > 0 {
            lemma_patched_holds_write(block, init, 0);
        }
    } else {
        assert(init[j] == writes[j]);
        lemma_patched_holds_write(block, init, j);
        assert(writes[j].0 != writes[writes.len() - 1].0);
    }
}

/// A gauge that keeps every byte written to it passes verification: when
/// the block read back is the block first read with each write applied,
/// it holds every value that is checked.
pub proof fn lemma_kept_writes_verify(u: BlockUpdate, block: Seq<u8>)
    requires
        u.wf(),
        block.len() == BLOCK_LEN,
        distinct_offsets(u.writes@),
        verifies_written(u),
    ensures
        holds_all(patched(block, u.writes@), u.verify@),
{
    assert forall|i: int| 0 <= i < u.verify@.len() implies patched(block, u.writes@)[(
    #[trigger] u.verify@[i]).0 as int] == u.verify@[i].1 by {
        assert(u.writes@.contains(u.verify@[i]));
        let j = choose|j: int| 0 <= j < u.writes@.len() && u.writes@[j] == u.verify@[i];
        lemma_patched_holds_write(block, u.writes@, j);
    }
}

} // verus!
