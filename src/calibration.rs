//! Calibration mode: entering and leaving it, and the offset captures made
//! inside it. Every wait is a poll of the control-status word.
use vstd::prelude::*;
use crate::bus::{
    last_read_len, lemma_fixed_replies, lemma_last_read_len_concat, lemma_trailing_delay,
    control_seq, le_word, push_control, push_unseal, unseal_seq, word_from_reply, BusOp, Step,
    CMD_BOARD_OFFSET, CMD_CAL_ENABLE, CMD_CC_OFFSET, CMD_CC_OFFSET_SAVE, CMD_CONTROL_STATUS,
    CMD_ENTER_CAL, CMD_EXIT_CAL, CMD_RESET,
};

verus! {

/// Control-status bit set while the gauge is in calibration mode.
pub const STATUS_CALIBRATION_MODE: u16 = 0x1000;
/// Control-status bit set while a coulomb-counter offset capture runs.
pub const STATUS_CC_OFFSET_ACTIVE: u16 = 0x0800;
/// Control-status bits set while a board (and coulomb-counter) offset capture runs.
pub const STATUS_BOARD_OFFSET_ACTIVE: u16 = 0x0c00;
/// Pause between a calibration command and the next status poll.
pub const POLL_MS: u32 = 1000;
/// Pause on each side of the reset that ends calibration mode.
pub const RESET_SETTLE_MS: u32 = 150;

/// Which calibration procedure runs.
#[derive(PartialEq, Eq, Structural, Clone, Copy, Debug)]
pub enum CalTask {
    /// Unseal and enter calibration mode.
    Enter,
    /// Leave calibration mode and reset.
    Exit,
    /// Enter, capture the coulomb-counter offset, save it, leave.
    CcOffset,
    /// Enter, capture the board offset, save it, leave.
    BoardOffset,
}

/// Where a calibration procedure stands.
#[derive(PartialEq, Eq, Structural, Clone, Copy, Debug)]
pub enum CalPhase {
    Start,
    /// Polling until calibration mode is on.
    Entering,
    /// Polling until the offset capture has started.
    Capturing,
    /// Polling until the offset capture has ended.
    Draining,
    /// Polling until calibration mode is off.
    Exiting,
    /// The closing reset has been sent; its read-back is the reply.
    Closing,
    Finished,
}

/// A calibration procedure in progress.
#[derive(Debug)]
pub struct CalibrationRun {
    pub task: CalTask,
    pub phase: CalPhase,
}

/// Whether a status word reports calibration mode.
pub open spec fn in_calibration(status: u16) -> bool {
    status & STATUS_CALIBRATION_MODE != 0
}

/// The status bits that show the offset capture of `task` running.
pub open spec fn capture_mask(task: CalTask) -> u16 {
    if task == CalTask::BoardOffset {
        STATUS_BOARD_OFFSET_ACTIVE
    } else {
        STATUS_CC_OFFSET_ACTIVE
    }
}

/// The subcommand that starts the offset capture of `task`.
pub open spec fn capture_command(task: CalTask) -> u16 {
    if task == CalTask::BoardOffset {
        CMD_BOARD_OFFSET
    } else {
        CMD_CC_OFFSET
    }
}

/// Enable calibration, ask to enter it, wait, and read the status.
pub open spec fn enter_poll_seq() -> Seq<BusOp> {
    control_seq(CMD_CAL_ENABLE) + control_seq(CMD_ENTER_CAL) + seq![BusOp::Delay { ms: POLL_MS }]
        + control_seq(CMD_CONTROL_STATUS)
}

/// Ask to leave calibration, wait, and read the status.
pub open spec fn exit_poll_seq() -> Seq<BusOp> {
    control_seq(CMD_EXIT_CAL) + seq![BusOp::Delay { ms: POLL_MS }] + control_seq(CMD_CONTROL_STATUS)
}

/// Start an offset capture, wait, and read the status.
pub open spec fn capture_poll_seq(task: CalTask) -> Seq<BusOp> {
    control_seq(capture_command(task)) + seq![BusOp::Delay { ms: POLL_MS }] + control_seq(
        CMD_CONTROL_STATUS,
    )
}

/// Wait, and read the status.
pub open spec fn drain_poll_seq() -> Seq<BusOp> {
    seq![BusOp::Delay { ms: POLL_MS }] + control_seq(CMD_CONTROL_STATUS)
}

/// Reset the gauge between two pauses.
pub open spec fn closing_seq() -> Seq<BusOp> {
    seq![BusOp::Delay { ms: RESET_SETTLE_MS }] + control_seq(CMD_RESET) + seq![
        BusOp::Delay { ms: RESET_SETTLE_MS },
    ]
}

/// The phase that follows `phase` of `task` on the status word `status`.
pub open spec fn next_phase(task: CalTask, phase: CalPhase, status: u16) -> CalPhase {
    match phase {
        CalPhase::Start => if task == CalTask::Exit {
            CalPhase::Exiting
        } else {
            CalPhase::Entering
        },
        CalPhase::Entering => if !in_calibration(status) {
            CalPhase::Entering
        } else if task == CalTask::Enter {
            CalPhase::Finished
        } else {
            CalPhase::Capturing
        },
        CalPhase::Capturing => if status & capture_mask(task) != 0 {
            CalPhase::Draining
        } else {
            CalPhase::Capturing
        },
        CalPhase::Draining => if status & capture_mask(task) == 0 {
            CalPhase::Exiting
        } else {
            CalPhase::Draining
        },
        CalPhase::Exiting => if in_calibration(status) {
            CalPhase::Exiting
        } else {
            CalPhase::Closing
        },
        _ => CalPhase::Finished,
    }
}

/// The operations asked for when `phase` of `task` meets `status`;
/// `None` when the procedure ends there.
pub open spec fn next_ops(task: CalTask, phase: CalPhase, status: u16) -> Option<Seq<BusOp>> {
    match next_phase(task, phase, status) {
        CalPhase::Entering => if phase == CalPhase::Start {
            Some(unseal_seq() + enter_poll_seq())
        } else {
            Some(enter_poll_seq())
        },
        CalPhase::Capturing => Some(capture_poll_seq(task)),
        CalPhase::Draining => Some(drain_poll_seq()),
        CalPhase::Exiting => if phase == CalPhase::Draining {
            Some(control_seq(CMD_CC_OFFSET_SAVE) + exit_poll_seq())
        } else {
            Some(exit_poll_seq())
        },
        CalPhase::Closing => Some(closing_seq()),
        _ => None,
    }
}

/// Every batch of a calibration procedure ends by reading a status or
/// command result word.
proof fn lemma_poll_replies(task: CalTask)
    ensures
        last_read_len(enter_poll_seq()) == 2,
        last_read_len(unseal_seq() + enter_poll_seq()) == 2,
        last_read_len(exit_poll_seq()) == 2,
        last_read_len(capture_poll_seq(task)) == 2,
        last_read_len(drain_poll_seq()) == 2,
        last_read_len(control_seq(CMD_CC_OFFSET_SAVE) + exit_poll_seq()) == 2,
        last_read_len(closing_seq()) == 2,
{
    lemma_fixed_replies(CMD_CONTROL_STATUS, 0, 0);
    lemma_fixed_replies(CMD_RESET, 0, 0);
    let status = control_seq(CMD_CONTROL_STATUS);
    let delay = seq![BusOp::Delay { ms: POLL_MS }];
    lemma_last_read_len_concat(
        control_seq(CMD_CAL_ENABLE) + control_seq(CMD_ENTER_CAL) + delay,
        status,
    );
    lemma_last_read_len_concat(unseal_seq(), enter_poll_seq());
    lemma_last_read_len_concat(control_seq(CMD_EXIT_CAL) + delay, status);
    lemma_last_read_len_concat(control_seq(capture_command(task)) + delay, status);
    lemma_last_read_len_concat(delay, status);
    lemma_last_read_len_concat(control_seq(CMD_CC_OFFSET_SAVE), exit_poll_seq());
    lemma_trailing_delay(seq![BusOp::Delay { ms: RESET_SETTLE_MS }] + control_seq(CMD_RESET), RESET_SETTLE_MS);
    lemma_last_read_len_concat(seq![BusOp::Delay { ms: RESET_SETTLE_MS }], control_seq(CMD_RESET));
}

impl CalibrationRun {
    /// The length of the reply the next step expects.
    pub open spec fn expected_reply(&self) -> nat {
        match self.phase {
            CalPhase::Start | CalPhase::Finished => 0,
            _ => 2,
        }
    }

    /// The status word carried by a reply of the expected length.
    pub open spec fn status_in(&self, reply: Seq<u8>) -> u16 {
        if self.expected_reply() == 2 {
            le_word(reply)
        } else {
            0
        }
    }

    /// The number of reply bytes the next step expects.
    pub fn reply_len(&self) -> (r: usize)
        ensures
            r == self.expected_reply(),
    {
        match self.phase {
            CalPhase::Start | CalPhase::Finished => 0,
            _ => 2,
        }
    }

    /// Advances the procedure with the bytes read by the previous batch.
    pub fn step(&mut self, reply: &[u8]) -> (r: Step)
        requires
            reply@.len() == old(self).expected_reply(),
        ensures
            final(self).task == old(self).task,
            final(self).phase == next_phase(
                old(self).task,
                old(self).phase,
                old(self).status_in(reply@),
            ),
            match next_ops(old(self).task, old(self).phase, old(self).status_in(reply@)) {
                Some(ops) => r is Run && r->ops@ == ops,
                None => r == Step::Done,
            },
            r is Run ==> last_read_len(r->ops@) == final(self).expected_reply(),
    {
        proof {
            lemma_poll_replies(self.task);
        }
        let status: u16 = if self.reply_len() == 2 {
            word_from_reply(reply)
        } else {
            0
        };
        let task = self.task;
        let mut ops: Vec<BusOp> = Vec::new();
        match self.phase {
            CalPhase::Start => {
                if task == CalTask::Exit {
                    push_exit_poll(&mut ops);
                    self.phase = CalPhase::Exiting;
                } else {
                    push_unseal(&mut ops);
                    push_enter_poll(&mut ops);
                    self.phase = CalPhase::Entering;
                }
            },
            CalPhase::Entering => {
                if status & STATUS_CALIBRATION_MODE == 0 {
                    push_enter_poll(&mut ops);
                } else if task == CalTask::Enter {
                    self.phase = CalPhase::Finished;
                    return Step::Done;
                } else {
                    push_capture_poll(&mut ops, task);
                    self.phase = CalPhase::Capturing;
                }
            },
            CalPhase::Capturing => {
                if status & mask_of(task) != 0 {
                    push_drain_poll(&mut ops);
                    self.phase = CalPhase::Draining;
                } else {
                    push_capture_poll(&mut ops, task);
                }
            },
            CalPhase::Draining => {
                if status & mask_of(task) == 0 {
                    push_control(&mut ops, CMD_CC_OFFSET_SAVE);
                    push_exit_poll(&mut ops);
                    self.phase = CalPhase::Exiting;
                } else {
                    push_drain_poll(&mut ops);
                }
            },
            CalPhase::Exiting => {
                if status & STATUS_CALIBRATION_MODE != 0 {
                    push_exit_poll(&mut ops);
                } else {
                    ops.push(BusOp::Delay { ms: RESET_SETTLE_MS });
                    push_control(&mut ops, CMD_RESET);
                    ops.push(BusOp::Delay { ms: RESET_SETTLE_MS });
                    proof {
                        assert(ops@ =~= closing_seq());
                    }
                    self.phase = CalPhase::Closing;
                }
            },
            _ => {
                self.phase = CalPhase::Finished;
                return Step::Done;
            },
        }
        proof {
            assert(ops@ =~= next_ops(task, old(self).phase, old(self).status_in(reply@))->Some_0);
        }
        Step::Run { ops }
    }
}

fn mask_of(task: CalTask) -> (r: u16)
    ensures
        r == capture_mask(task),
{
    if task == CalTask::BoardOffset {
        STATUS_BOARD_OFFSET_ACTIVE
    } else {
        STATUS_CC_OFFSET_ACTIVE
    }
}

fn push_enter_poll(ops: &mut Vec<BusOp>)
    ensures
        final(ops)@ == old(ops)@ + enter_poll_seq(),
{
    push_control(ops, CMD_CAL_ENABLE);
    push_control(ops, CMD_ENTER_CAL);
    ops.push(BusOp::Delay { ms: POLL_MS });
    push_control(ops, CMD_CONTROL_STATUS);
    proof {
        assert(final(ops)@ =~= old(ops)@ + enter_poll_seq());
    }
}

fn push_exit_poll(ops: &mut Vec<BusOp>)
    ensures
        final(ops)@ == old(ops)@ + exit_poll_seq(),
{
    push_control(ops, CMD_EXIT_CAL);
    ops.push(BusOp::Delay { ms: POLL_MS });
    push_control(ops, CMD_CONTROL_STATUS);
    proof {
        assert(final(ops)@ =~= old(ops)@ + exit_poll_seq());
    }
}

fn push_capture_poll(ops: &mut Vec<BusOp>, task: CalTask)
    ensures
        final(ops)@ == old(ops)@ + capture_poll_seq(task),
{
    let cmd = if task == CalTask::BoardOffset {
        CMD_BOARD_OFFSET
    } else {
        CMD_CC_OFFSET
    };
    push_control(ops, cmd);
    ops.push(BusOp::Delay { ms: POLL_MS });
    push_control(ops, CMD_CONTROL_STATUS);
    proof {
        assert(final(ops)@ =~= old(ops)@ + capture_poll_seq(task));
    }
}

fn push_drain_poll(ops: &mut Vec<BusOp>)
    ensures
        final(ops)@ == old(ops)@ + drain_poll_seq(),
{
    ops.push(BusOp::Delay { ms: POLL_MS });
    push_control(ops, CMD_CONTROL_STATUS);
    proof {
        assert(final(ops)@ =~= old(ops)@ + drain_poll_seq());
    }
}

/// Unseals the gauge and polls until calibration mode is on.
pub fn enter_calibration() -> (r: CalibrationRun)
    ensures
        r.task == CalTask::Enter && r.phase == CalPhase::Start,
{
    CalibrationRun { task: CalTask::Enter, phase: CalPhase::Start }
}

/// Polls until calibration mode is off, then resets the gauge.
pub fn exit_calibration() -> (r: CalibrationRun)
    ensures
        r.task == CalTask::Exit && r.phase == CalPhase::Start,
{
    CalibrationRun { task: CalTask::Exit, phase: CalPhase::Start }
}

/// Captures and saves the coulomb-counter offset inside calibration mode.
pub fn calibrate_cc_offset() -> (r: CalibrationRun)
    ensures
        r.task == CalTask::CcOffset && r.phase == CalPhase::Start,
{
    CalibrationRun { task: CalTask::CcOffset, phase: CalPhase::Start }
}

/// Captures and saves the board offset inside calibration mode.
pub fn calibrate_board_offset() -> (r: CalibrationRun)
    ensures
        r.task == CalTask::BoardOffset && r.phase == CalPhase::Start,
{
    CalibrationRun { task: CalTask::BoardOffset, phase: CalPhase::Start }
}

} // verus!
