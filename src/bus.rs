//! Bus operations, their framing, and the fixed command sequences.
use vstd::prelude::*;

verus! {

/// Seven-bit bus address of the gauge.
pub const DEVICE_ADDRESS: u8 = 0x55;

/// Register through which control subcommands are written and read back.
pub const REG_CONTROL: u8 = 0x00;
/// Block-control register of the data-flash interface.
pub const REG_BLOCK_CONTROL: u8 = 0x61;
/// Subclass-selection register of the data-flash interface.
pub const REG_FLASH_CLASS: u8 = 0x3e;
/// Block-index register of the data-flash interface.
pub const REG_FLASH_BLOCK: u8 = 0x3f;
/// First register of the 32-byte block data window.
pub const REG_BLOCK_DATA: u8 = 0x40;
/// Register that takes the block checksum.
pub const REG_BLOCK_CHECKSUM: u8 = 0x60;

pub const CMD_CONTROL_STATUS: u16 = 0x0000;
pub const CMD_DEVICE_TYPE: u16 = 0x0001;
pub const CMD_FW_VERSION: u16 = 0x0002;
pub const CMD_HW_VERSION: u16 = 0x0003;
pub const CMD_RESET_DATA: u16 = 0x0005;
pub const CMD_PREV_MACWRITE: u16 = 0x0007;
pub const CMD_CHEM_ID: u16 = 0x0008;
pub const CMD_BOARD_OFFSET: u16 = 0x0009;
pub const CMD_CC_OFFSET: u16 = 0x000a;
pub const CMD_CC_OFFSET_SAVE: u16 = 0x000b;
pub const CMD_DF_VERSION: u16 = 0x000c;
pub const CMD_SET_FULLSLEEP: u16 = 0x0010;
pub const CMD_STATIC_CHEM_CHKSUM: u16 = 0x0017;
pub const CMD_IT_ENABLE: u16 = 0x0021;
pub const CMD_CAL_ENABLE: u16 = 0x002d;
pub const CMD_RESET: u16 = 0x0041;
pub const CMD_EXIT_CAL: u16 = 0x0080;
pub const CMD_ENTER_CAL: u16 = 0x0081;
pub const CMD_OFFSET_CAL: u16 = 0x0082;
/// First and second halves of the unseal key.
pub const UNSEAL_KEY_1: u16 = 0x0414;
pub const UNSEAL_KEY_2: u16 = 0x3672;

/// One transfer on the bus, or a pause.
#[derive(PartialEq, Eq, Clone, Copy, Debug)]
pub enum BusOp {
    /// Writes `value` to the one-byte register `reg`.
    WriteReg { reg: u8, value: u8 },
    /// Writes a control subcommand: `[0x00, code_lsb, code_msb]`.
    Command { code: u16 },
    /// Writes the register address, then reads two bytes (little-endian word).
    ReadWord { reg: u8 },
    /// Writes the register address, then reads one byte.
    ReadByte { reg: u8 },
    /// Writes only a register address, positioning the next plain read.
    SetAddress { reg: u8 },
    /// Reads a whole 32-byte block from the current position.
    ReadBlock,
    /// Writes a whole block into the block data window.
    WriteBlock { data: [u8; 32] },
    /// Blocks for the given number of milliseconds.
    Delay { ms: u32 },
}

/// The bytes that an operation writes on the bus (empty for a pure read
/// or a pause).
pub open spec fn out_bytes(op: BusOp) -> Seq<u8> {
    match op {
        BusOp::WriteReg { reg, value } => seq![reg, value],
        BusOp::Command { code } => seq![REG_CONTROL, (code % 256) as u8, (code / 256) as u8],
        BusOp::ReadWord { reg } => seq![reg],
        BusOp::ReadByte { reg } => seq![reg],
        BusOp::SetAddress { reg } => seq![reg],
        BusOp::ReadBlock => seq![],
        BusOp::WriteBlock { data } => seq![REG_BLOCK_DATA] + data@,
        BusOp::Delay { .. } => seq![],
    }
}

/// The number of bytes that an operation reads back.
pub open spec fn in_len(op: BusOp) -> nat {
    match op {
        BusOp::ReadWord { .. } => 2,
        BusOp::ReadByte { .. } => 1,
        BusOp::ReadBlock => 32,
        _ => 0,
    }
}

impl BusOp {
    /// The bytes written on the bus by this operation.
    pub fn bytes_out(&self) -> (r: Vec<u8>)
        ensures
            r@ == out_bytes(*self),
    {
        match *self {
            BusOp::WriteReg { reg, value } => vec![reg, value],
            BusOp::Command { code } => vec![REG_CONTROL, (code % 256) as u8, (code / 256) as u8],
            BusOp::ReadWord { reg } => vec![reg],
            BusOp::ReadByte { reg } => vec![reg],
            BusOp::SetAddress { reg } => vec![reg],
            BusOp::ReadBlock => Vec::new(),
            BusOp::WriteBlock { data } => {
                let mut v: Vec<u8> = Vec::new();
                v.push(REG_BLOCK_DATA);
                let mut i: usize = 0;
                while i < 32
                    invariant
                        i <= 32,
                        v@ == seq![REG_BLOCK_DATA] + data@.take(i as int),
                    decreases 32 - i,
                {
                    v.push(data[i]);
                    i = i + 1;
                    proof {
                        assert(v@ =~= seq![REG_BLOCK_DATA] + data@.take(i as int));
                    }
                }
                proof {
                    assert(data@.take(32) =~= data@);
                }
                v
            },
            BusOp::Delay { .. } => Vec::new(),
        }
    }

    /// The number of bytes read back by this operation.
    pub fn read_len(&self) -> (r: usize)
        ensures
            r == in_len(*self),
    {
        match *self {
            BusOp::ReadWord { .. } => 2,
            BusOp::ReadByte { .. } => 1,
            BusOp::ReadBlock => 32,
            _ => 0,
        }
    }

    /// Whether this operation is a pause rather than a transfer.
    pub fn is_delay(&self) -> (r: bool)
        ensures
            r == (self is Delay),
    {
        matches!(*self, BusOp::Delay { .. })
    }
}

/// The little-endian word held by the first two bytes of `s`.
pub open spec fn le_word(s: Seq<u8>) -> u16
    recommends
        s.len() >= 2,
{
    (s[0] as int + 256 * s[1] as int) as u16
}

/// Decodes the little-endian word of a two-byte reply.
pub fn word_from_reply(reply: &[u8]) -> (r: u16)
    requires
        reply@.len() >= 2,
    ensures
        r == le_word(reply@),
{
    reply[0] as u16 + 256 * (reply[1] as u16)
}

/// Issuing a control subcommand and reading its 16-bit result.
pub open spec fn control_seq(code: u16) -> Seq<BusOp> {
    seq![BusOp::Command { code }, BusOp::ReadWord { reg: REG_CONTROL }]
}

/// The two key writes that unseal the gauge.
pub open spec fn unseal_seq() -> Seq<BusOp> {
    seq![BusOp::Command { code: UNSEAL_KEY_1 }, BusOp::Command { code: UNSEAL_KEY_2 }]
}

/// Selecting a subclass and the block that holds byte `offset` of it.
pub open spec fn select_seq(sub_class: u8, offset: u8) -> Seq<BusOp> {
    seq![
        BusOp::WriteReg { reg: REG_BLOCK_CONTROL, value: 0 },
        BusOp::WriteReg { reg: REG_FLASH_CLASS, value: sub_class },
        BusOp::WriteReg { reg: REG_FLASH_BLOCK, value: offset / 32 },
    ]
}

/// Selecting a block and reading it whole.
pub open spec fn read_block_seq(sub_class: u8, offset: u8) -> Seq<BusOp> {
    select_seq(sub_class, offset) + seq![
        BusOp::SetAddress { reg: REG_BLOCK_DATA },
        BusOp::ReadBlock,
    ]
}

/// Appends the operations of a control subcommand with its read-back.
pub fn push_control(ops: &mut Vec<BusOp>, code: u16)
    ensures
        final(ops)@ == old(ops)@ + control_seq(code),
{
    ops.push(BusOp::Command { code });
    ops.push(BusOp::ReadWord { reg: REG_CONTROL });
    proof {
        assert(final(ops)@ =~= old(ops)@ + control_seq(code));
    }
}

/// Appends the unseal key sequence.
pub fn push_unseal(ops: &mut Vec<BusOp>)
    ensures
        final(ops)@ == old(ops)@ + unseal_seq(),
{
    ops.push(BusOp::Command { code: UNSEAL_KEY_1 });
    ops.push(BusOp::Command { code: UNSEAL_KEY_2 });
    proof {
        assert(final(ops)@ =~= old(ops)@ + unseal_seq());
    }
}

/// Appends the selection of a subclass and block.
pub fn push_select(ops: &mut Vec<BusOp>, sub_class: u8, offset: u8)
    ensures
        final(ops)@ == old(ops)@ + select_seq(sub_class, offset),
{
    ops.push(BusOp::WriteReg { reg: REG_BLOCK_CONTROL, value: 0 });
    ops.push(BusOp::WriteReg { reg: REG_FLASH_CLASS, value: sub_class });
    ops.push(BusOp::WriteReg { reg: REG_FLASH_BLOCK, value: offset / 32 });
    proof {
        assert(final(ops)@ =~= old(ops)@ + select_seq(sub_class, offset));
    }
}

/// Appends the selection and whole read of a block.
pub fn push_read_block(ops: &mut Vec<BusOp>, sub_class: u8, offset: u8)
    ensures
        final(ops)@ == old(ops)@ + read_block_seq(sub_class, offset),
{
    push_select(ops, sub_class, offset);
    ops.push(BusOp::SetAddress { reg: REG_BLOCK_DATA });
    ops.push(BusOp::ReadBlock);
    proof {
        assert(final(ops)@ =~= old(ops)@ + read_block_seq(sub_class, offset));
    }
}

/// Operations of a control subcommand whose 16-bit result is the reply.
pub fn read_control(address_lsb: u8, address_msb: u8) -> (r: Vec<BusOp>)
    ensures
        r@ == control_seq((address_lsb as int + 256 * address_msb as int) as u16),
{
    let mut ops: Vec<BusOp> = Vec::new();
    push_control(&mut ops, address_lsb as u16 + 256 * (address_msb as u16));
    ops
}

/// Operations that read a little-endian word register.
pub fn read_2_register_as_u16(address: u8) -> (r: Vec<BusOp>)
    ensures
        r@ == seq![BusOp::ReadWord { reg: address }],
{
    vec![BusOp::ReadWord { reg: address }]
}

/// Operations that read a one-byte register.
pub fn read_1_register_as_u8(address: u8) -> (r: Vec<BusOp>)
    ensures
        r@ == seq![BusOp::ReadByte { reg: address }],
{
    vec![BusOp::ReadByte { reg: address }]
}

/// Operations that write one byte register.
pub fn write_reg(address: u8, value: u8) -> (r: Vec<BusOp>)
    ensures
        r@ == seq![BusOp::WriteReg { reg: address, value }],
{
    vec![BusOp::WriteReg { reg: address, value }]
}

/// Operations that unseal the gauge.
pub fn unsealed() -> (r: Vec<BusOp>)
    ensures
        r@ == unseal_seq(),
{
    let mut ops: Vec<BusOp> = Vec::new();
    push_unseal(&mut ops);
    ops
}

/// Operations that unseal the gauge and enable impedance tracking; the
/// reply is the result of the enable command.
pub fn ready() -> (r: Vec<BusOp>)
    ensures
        r@ == unseal_seq() + control_seq(CMD_IT_ENABLE),
{
    let mut ops: Vec<BusOp> = Vec::new();
    push_unseal(&mut ops);
    push_control(&mut ops, CMD_IT_ENABLE);
    ops
}

/// Operations that select a block and read it; the reply is the block.
pub fn read_flash_block(sub_class: u8, offset: u8) -> (r: Vec<BusOp>)
    ensures
        r@ == read_block_seq(sub_class, offset),
{
    let mut ops: Vec<BusOp> = Vec::new();
    push_read_block(&mut ops, sub_class, offset);
    ops
}

/// Operations that select a block and write it whole.
pub fn write_flash_block(sub_class: u8, offset: u8, data: &[u8; 32]) -> (r: Vec<BusOp>)
    ensures
        r@ == select_seq(sub_class, offset) + seq![BusOp::WriteBlock { data: *data }],
{
    let mut ops: Vec<BusOp> = Vec::new();
    push_select(&mut ops, sub_class, offset);
    ops.push(BusOp::WriteBlock { data: *data });
    proof {
        assert(ops@ =~= select_seq(sub_class, offset) + seq![BusOp::WriteBlock { data: *data }]);
    }
    ops
}

} // verus!

verus! {

/// What a procedure asks of its caller next.
#[derive(PartialEq, Eq, Debug)]
pub enum Step {
    /// Run these operations in order, stopping at the first bus error, and
    /// hand the bytes read by the last reading operation to the next step
    /// (no bytes when none of them reads).
    Run { ops: Vec<BusOp> },
    /// The procedure ended successfully.
    Done,
    /// A value written to data flash did not read back as written.
    NotStored,
}

} // verus!

verus! {

pub const REG_STATE_OF_CHARGE: u8 = 0x02;
pub const REG_MAX_ERROR: u8 = 0x03;
pub const REG_REMAINING_CAPACITY: u8 = 0x04;
pub const REG_FULL_CHARGE_CAPACITY: u8 = 0x06;
/// Register holding the pack voltage in mV.
pub const REG_VOLTAGE: u8 = 0x08;
pub const REG_AVERAGE_CURRENT: u8 = 0x0a;
pub const REG_TEMPERATURE: u8 = 0x0c;
pub const REG_FLAGS: u8 = 0x0e;
/// Register holding the instantaneous current in mA (signed).
pub const REG_CURRENT: u8 = 0x10;
pub const REG_FLAGS_B: u8 = 0x12;
pub const REG_AVERAGE_TIME_TO_EMPTY: u8 = 0x18;
pub const REG_AVERAGE_TIME_TO_FULL: u8 = 0x1a;
pub const REG_PASSED_CHARGE: u8 = 0x1c;
pub const REG_DOD0_TIME: u8 = 0x1e;
pub const REG_AVAILABLE_ENERGY: u8 = 0x24;
pub const REG_AVERAGE_POWER: u8 = 0x26;
pub const REG_SERIAL_NUMBER: u8 = 0x28;
pub const REG_INTERNAL_TEMPERATURE: u8 = 0x2a;
pub const REG_CYCLE_COUNT: u8 = 0x2c;
pub const REG_STATE_OF_HEALTH: u8 = 0x2e;
pub const REG_CHARGE_VOLTAGE: u8 = 0x30;
pub const REG_CHARGE_CURRENT: u8 = 0x32;
pub const REG_PACK_CONFIGURATION: u8 = 0x3a;
pub const REG_DESIGN_CAPACITY: u8 = 0x3c;
pub const REG_GRID_NUMBER: u8 = 0x62;
pub const REG_LEARNED_STATUS: u8 = 0x63;
pub const REG_DOD_AT_EOC: u8 = 0x64;
pub const REG_Q_START: u8 = 0x66;
pub const REG_TRUE_FCC: u8 = 0x6a;
pub const REG_STATE_TIME: u8 = 0x6c;
pub const REG_Q_MAX_PASSED_Q: u8 = 0x6e;
pub const REG_DOD0: u8 = 0x70;
pub const REG_Q_MAX_DOD0: u8 = 0x72;
pub const REG_Q_MAX_TIME: u8 = 0x74;

} // verus!

verus! {

/// The number of bytes read by the last reading operation of `ops` (none
/// when nothing in `ops` reads): the reply that a batch hands back.
pub open spec fn last_read_len(ops: Seq<BusOp>) -> nat
    decreases ops.len(),
{
    if ops.len() == 0 {
        0
    } else if in_len(ops.last()) > 0 {
        in_len(ops.last())
    } else {
        last_read_len(ops.drop_last())
    }
}

/// The reply of two batches run one after the other is that of the second,
/// unless the second reads nothing.
pub proof fn lemma_last_read_len_concat(a: Seq<BusOp>, b: Seq<BusOp>)
    ensures
        last_read_len(a + b) == if last_read_len(b) > 0 {
            last_read_len(b)
        } else {
            last_read_len(a)
        },
    decreases b.len(),
{
    if b.len() == 0 {
        assert(a + b =~= a);
    } else {
        assert((a + b).drop_last() =~= a + b.drop_last());
        assert((a + b).last() == b.last());
        lemma_last_read_len_concat(a, b.drop_last());
    }
}

/// A trailing pause does not change the reply.
pub proof fn lemma_trailing_delay(a: Seq<BusOp>, ms: u32)
    ensures
        last_read_len(a + seq![BusOp::Delay { ms }]) == last_read_len(a),
{
    let d = seq![BusOp::Delay { ms }];
    assert(d.drop_last() =~= Seq::<BusOp>::empty());
    assert(last_read_len(d.drop_last()) == 0);
    assert(d.last() == BusOp::Delay { ms });
    assert(in_len(d.last()) == 0);
    assert(last_read_len(d) == 0);
    lemma_last_read_len_concat(a, d);
}

/// The replies of the fixed sequences.
pub proof fn lemma_fixed_replies(code: u16, sub_class: u8, offset: u8)
    ensures
        last_read_len(control_seq(code)) == 2,
        last_read_len(unseal_seq()) == 0,
        last_read_len(select_seq(sub_class, offset)) == 0,
        last_read_len(read_block_seq(sub_class, offset)) == 32,
{
    let u = unseal_seq();
    assert(u.drop_last().drop_last() =~= Seq::<BusOp>::empty());
    assert(last_read_len(u.drop_last().drop_last()) == 0);
    assert(u.drop_last().last() == BusOp::Command { code: UNSEAL_KEY_1 });
    assert(last_read_len(u.drop_last()) == 0);
    let s = select_seq(sub_class, offset);
    assert(s.drop_last().drop_last().drop_last() =~= Seq::<BusOp>::empty());
    assert(last_read_len(s.drop_last().drop_last().drop_last()) == 0);
    assert(s.drop_last().drop_last().last() == s[0]);
    assert(last_read_len(s.drop_last().drop_last()) == 0);
    assert(s.drop_last().last() == s[1]);
    assert(last_read_len(s.drop_last()) == 0);
    lemma_last_read_len_concat(s, seq![BusOp::SetAddress { reg: REG_BLOCK_DATA }, BusOp::ReadBlock]);
}

} // verus!
