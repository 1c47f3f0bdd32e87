use std::collections::HashMap;

use bq34z100::block::flash_block_checksum;
use bq34z100::bus::{ready, unsealed, write_reg, read_control, read_flash_block, word_from_reply, write_flash_block, BusOp, Step};
use bq34z100::calibration::{
    calibrate_board_offset, calibrate_cc_offset, enter_calibration, exit_calibration,
    CalibrationRun,
};
use bq34z100::codec::{encode_ratio, rescale_cc_gain, xemics_parts};
use bq34z100::config::{
    set_led_mode, update_cell_charge_voltage_range, update_charge_termination_parameters,
    update_design_energy, update_number_of_series_cells, update_design_capacity,
    update_pack_configuration, update_q_max, ConfigWriter,
};
use bq34z100::sampling::{
    calibrate_sense_resistor, calibrate_voltage_divider, sample_is_noisy, SenseResistorCal,
    VoltageDividerCal,
};
use bq34z100::{Bq34Z100Error, Flags};

/// A gauge simulated at the level of bus operations.
struct SimGauge {
    flash: HashMap<(u8, u8), [u8; 32]>,
    class: u8,
    window: [u8; 32],
    block: u8,
    keep_writes: bool,
    statuses: Vec<u16>,
    status_reads: usize,
    last_command: u16,
    samples: Vec<u16>,
    sample_reads: usize,
    log: Vec<BusOp>,
}

impl SimGauge {
    fn new(keep_writes: bool) -> SimGauge {
        SimGauge {
            flash: HashMap::new(),
            class: 0,
            window: [0; 32],
            block: 0,
            keep_writes,
            statuses: vec![0],
            status_reads: 0,
            last_command: 0,
            samples: vec![0],
            sample_reads: 0,
            log: Vec::new(),
        }
    }

    fn stored(&self, class: u8) -> [u8; 32] {
        *self.flash.get(&(class, 0)).unwrap_or(&[0; 32])
    }

    fn word(&mut self, reg: u8) -> u16 {
        match reg {
            0x00 => {
                if self.last_command == 0x0000 {
                    let i = self.status_reads.min(self.statuses.len() - 1);
                    self.status_reads += 1;
                    self.statuses[i]
                } else {
                    0
                }
            }
            0x08 | 0x10 => {
                let v = self.samples[self.sample_reads % self.samples.len()];
                self.sample_reads += 1;
                v
            }
            0x3c => {
                let b = self.stored(48);
                u16::from_be_bytes([b[11], b[12]])
            }
            _ => 0,
        }
    }

    fn run(&mut self, ops: &[BusOp]) -> Vec<u8> {
        let mut reply = Vec::new();
        for op in ops {
            self.log.push(*op);
            match *op {
                BusOp::WriteReg { reg, value } => match reg {
                    0x3e => self.class = value,
                    0x3f => {
                        self.block = value;
                        self.window = *self.flash.get(&(self.class, value)).unwrap_or(&[0; 32]);
                    }
                    0x40..=0x5f => self.window[(reg - 0x40) as usize] = value,
                    0x60 => {
                        if self.keep_writes && flash_block_checksum(&self.window) == value {
                            self.flash.insert((self.class, self.block), self.window);
                        }
                    }
                    _ => {}
                },
                BusOp::Command { code } => self.last_command = code,
                BusOp::ReadWord { reg } => reply = self.word(reg).to_le_bytes().to_vec(),
                BusOp::ReadByte { .. } => reply = vec![0],
                BusOp::SetAddress { .. } => {}
                BusOp::ReadBlock => reply = self.window.to_vec(),
                BusOp::WriteBlock { .. } => {}
                BusOp::Delay { .. } => {}
            }
        }
        reply
    }

    fn count(&self, op: BusOp) -> usize {
        self.log.iter().filter(|o| **o == op).count()
    }

    fn writes(&self) -> usize {
        self.log.iter().filter(|o| matches!(o, BusOp::WriteReg { .. })).count()
    }
}

fn drive_writer(dev: &mut SimGauge, w: &mut ConfigWriter) -> Step {
    let mut reply = Vec::new();
    loop {
        assert_eq!(reply.len(), w.reply_len());
        match w.step(&reply) {
            Step::Run { ops } => reply = dev.run(&ops),
            other => return other,
        }
    }
}

fn drive_calibration(dev: &mut SimGauge, c: &mut CalibrationRun) -> (Step, usize) {
    let mut reply = Vec::new();
    let mut batches = 0;
    loop {
        assert_eq!(reply.len(), c.reply_len());
        match c.step(&reply) {
            Step::Run { ops } => {
                batches += 1;
                reply = dev.run(&ops);
            }
            other => return (other, batches),
        }
    }
}

fn drive_divider(dev: &mut SimGauge, c: &mut VoltageDividerCal) -> Step {
    let mut reply = Vec::new();
    loop {
        assert_eq!(reply.len(), c.reply_len());
        match c.step(&reply) {
            Step::Run { ops } => reply = dev.run(&ops),
            other => return other,
        }
    }
}

fn drive_sense(dev: &mut SimGauge, c: &mut SenseResistorCal) -> Step {
    let mut reply = Vec::new();
    loop {
        assert_eq!(reply.len(), c.reply_len());
        match c.step(&reply) {
            Step::Run { ops } => reply = dev.run(&ops),
            other => return other,
        }
    }
}

#[test]
fn checksum_complements_byte_sum() {
    let mut block = [0u8; 32];
    for (i, b) in block.iter_mut().enumerate() {
        *b = (i as u8).wrapping_mul(37).wrapping_add(11);
    }
    let sum = block.iter().fold(0u8, |a, b| a.wrapping_add(*b));
    assert_eq!(flash_block_checksum(&block).wrapping_add(sum), 255);
    assert_eq!(flash_block_checksum(&[0u8; 32]), 255);
    assert_eq!(flash_block_checksum(&[0xffu8; 32]), 255 - 224);
}

#[test]
fn read_control_status_frames() {
    let ops = read_control(0x00, 0x00);
    assert_eq!(ops, vec![BusOp::Command { code: 0 }, BusOp::ReadWord { reg: 0x00 }]);
    assert_eq!(ops[0].bytes_out(), vec![0x00, 0x00, 0x00]);
    assert_eq!(ops[0].read_len(), 0);
    assert_eq!(ops[1].bytes_out(), vec![0x00]);
    assert_eq!(ops[1].read_len(), 2);
    let reset = read_control(0x41, 0x00);
    assert_eq!(reset[0].bytes_out(), vec![0x00, 0x41, 0x00]);
}

#[test]
fn block_operations_frames() {
    let ops = read_flash_block(48, 40);
    assert_eq!(ops[2], BusOp::WriteReg { reg: 0x3f, value: 1 });
    assert_eq!(ops[3].bytes_out(), vec![0x40]);
    assert_eq!(ops[4].read_len(), 32);
    let data = [7u8; 32];
    let w = write_flash_block(64, 0, &data);
    let bytes = w[3].bytes_out();
    assert_eq!(bytes.len(), 33);
    assert_eq!(bytes[0], 0x40);
    assert_eq!(bytes[32], 7);
    assert!(BusOp::Delay { ms: 5 }.is_delay());
}

#[test]
fn reply_word_is_little_endian() {
    assert_eq!(word_from_reply(&[0x34, 0x12]), 0x1234);
}

#[test]
fn design_capacity_write_verifies() {
    let mut dev = SimGauge::new(true);
    let mut w = update_design_capacity(1500);
    assert_eq!(drive_writer(&mut dev, &mut w), Step::Done);
    assert_eq!(dev.word(0x3c), 1500);
    let b = dev.stored(48);
    assert_eq!(&b[6..13], &[0, 0, 0x05, 0xdc, 0, 0x05, 0xdc]);
    assert_eq!(dev.count(BusOp::Command { code: 0x0041 }), 1);
    assert_eq!(dev.count(BusOp::Command { code: 0x0414 }), 2);
}

#[test]
fn design_capacity_discarded_is_not_stored() {
    let mut dev = SimGauge::new(false);
    let mut w = update_design_capacity(1500);
    assert_eq!(drive_writer(&mut dev, &mut w), Step::NotStored);
    assert_eq!(dev.word(0x3c), 0);
}

#[test]
fn design_capacity_high_values_verify() {
    let mut dev = SimGauge::new(true);
    let mut w = update_design_capacity(40000);
    assert_eq!(drive_writer(&mut dev, &mut w), Step::Done);
    assert_eq!(dev.word(0x3c), 40000);
}

#[test]
fn write_keeps_untouched_bytes() {
    let mut dev = SimGauge::new(true);
    let mut old = [0u8; 32];
    old[5] = 0xaa;
    old[31] = 0x55;
    dev.flash.insert((64, 0), old);
    let mut w = set_led_mode(3);
    assert_eq!(drive_writer(&mut dev, &mut w), Step::Done);
    let b = dev.stored(64);
    assert_eq!(b[4], 3);
    assert_eq!(b[5], 0xaa);
    assert_eq!(b[31], 0x55);
    assert_eq!(dev.writes(), 3 + 1 + 1 + 3);
}

#[test]
fn pack_configuration_settles_like_the_others() {
    let mut dev = SimGauge::new(true);
    let mut w = update_pack_configuration(0x2961);
    assert_eq!(drive_writer(&mut dev, &mut w), Step::Done);
    assert_eq!(&dev.stored(64)[0..2], &[0x29, 0x61]);
    assert_eq!(dev.count(BusOp::Delay { ms: 1000 }), 0);
    assert_eq!(dev.count(BusOp::Delay { ms: 150 }), 2);
}

#[test]
fn q_max_and_termination_bytes() {
    let w = update_q_max(-2);
    assert_eq!(w.update.writes, vec![(0, 0xff), (1, 0xfe), (2, 0), (3, 0)]);
    assert_eq!(w.update.verify, vec![(0, 0xff), (1, 0xfe)]);
    let t = update_charge_termination_parameters(-1, 0x0102, 300, 40, -1, 2, -3, 4);
    assert_eq!(t.update.sub_class, 36);
    assert_eq!(
        t.update.writes,
        vec![(0, 0xff), (1, 0xff), (2, 1), (3, 2), (4, 1), (5, 44), (6, 40), (7, 0xff), (8, 2), (9, 0xfd), (10, 4)]
    );
}

#[test]
fn enter_calibration_polls_three_times() {
    let mut dev = SimGauge::new(true);
    dev.statuses = vec![0, 0, 0x1000];
    let mut c = enter_calibration();
    let (end, batches) = drive_calibration(&mut dev, &mut c);
    assert_eq!(end, Step::Done);
    assert_eq!(batches, 3);
    assert_eq!(dev.status_reads, 3);
    assert_eq!(dev.count(BusOp::Command { code: 0x002d }), 3);
    assert_eq!(dev.count(BusOp::Command { code: 0x0081 }), 3);
}

#[test]
fn exit_calibration_resets_after_mode_clears() {
    let mut dev = SimGauge::new(true);
    dev.statuses = vec![0x1000, 0x0000];
    let mut c = exit_calibration();
    let (end, batches) = drive_calibration(&mut dev, &mut c);
    assert_eq!(end, Step::Done);
    assert_eq!(batches, 3);
    assert_eq!(dev.count(BusOp::Command { code: 0x0080 }), 2);
    assert_eq!(dev.count(BusOp::Command { code: 0x0041 }), 1);
    assert_eq!(dev.count(BusOp::Delay { ms: 150 }), 2);
}

#[test]
fn cc_offset_runs_whole_handshake() {
    let mut dev = SimGauge::new(true);
    dev.statuses = vec![0x1000, 0x1000, 0x1800, 0x1800, 0x1000, 0x0000];
    let mut c = calibrate_cc_offset();
    let (end, _) = drive_calibration(&mut dev, &mut c);
    assert_eq!(end, Step::Done);
    assert_eq!(dev.count(BusOp::Command { code: 0x000a }), 2);
    assert_eq!(dev.count(BusOp::Command { code: 0x000b }), 1);
    assert_eq!(dev.count(BusOp::Command { code: 0x0041 }), 1);
}

#[test]
fn board_offset_uses_combined_mask() {
    let mut dev = SimGauge::new(true);
    dev.statuses = vec![0x1000, 0x1400, 0x1000, 0x0000];
    let mut c = calibrate_board_offset();
    let (end, _) = drive_calibration(&mut dev, &mut c);
    assert_eq!(end, Step::Done);
    assert_eq!(dev.count(BusOp::Command { code: 0x0009 }), 1);
    assert_eq!(dev.count(BusOp::Command { code: 0x000b }), 1);
}

#[test]
fn noisy_voltage_leaves_block_alone() {
    let mut dev = SimGauge::new(true);
    dev.samples = vec![3000, 3300];
    let mut c = calibrate_voltage_divider(3150);
    assert_eq!(drive_divider(&mut dev, &mut c), Step::Done);
    assert_eq!(dev.writes(), 0);
    assert_eq!(dev.sample_reads, 50);
    assert!(dev.flash.is_empty());
}

#[test]
fn noisy_current_leaves_block_alone() {
    let mut dev = SimGauge::new(true);
    dev.samples = vec![(-500i16) as u16, 500];
    let mut c = calibrate_sense_resistor(1000);
    assert_eq!(drive_sense(&mut dev, &mut c), Step::Done);
    assert_eq!(dev.writes(), 0);
}

#[test]
fn deviation_bound_is_inclusive() {
    let edge: Vec<i32> = (0..50).map(|i| if i % 2 == 0 { 900 } else { 1100 }).collect();
    assert!(!sample_is_noisy(&edge));
    let over: Vec<i32> = (0..50).map(|i| if i % 2 == 0 { 899 } else { 1101 }).collect();
    assert!(sample_is_noisy(&over));
    assert!(!sample_is_noisy(&Vec::new()));
}

#[test]
fn voltage_divider_is_rescaled() {
    let mut dev = SimGauge::new(true);
    dev.samples = vec![4000];
    let mut block = [0u8; 32];
    block[14] = 0x12;
    block[15] = 0x34;
    dev.flash.insert((104, 0), block);
    let mut c = calibrate_voltage_divider(4200);
    assert_eq!(drive_divider(&mut dev, &mut c), Step::Done);
    let b = dev.stored(104);
    // 4660 * 4200 / 4000 = 4893
    assert_eq!(u16::from_be_bytes([b[14], b[15]]), 4893);
    assert_eq!(dev.count(BusOp::Command { code: 0x0041 }), 0);
}

#[test]
fn sense_resistor_rescales_gain() {
    let mut dev = SimGauge::new(true);
    dev.samples = vec![(-980i16) as u16];
    let mut block = [0u8; 32];
    block[0..4].copy_from_slice(&[0x81, 0x11, 0x22, 0x33]);
    block[20] = 9;
    dev.flash.insert((104, 0), block);
    let mut c = calibrate_sense_resistor(-1000);
    assert_eq!(drive_sense(&mut dev, &mut c), Step::Done);
    let b = dev.stored(104);
    assert_eq!(&b[0..4], &0x8114_1872u32.to_be_bytes());
    assert_eq!(&b[4..8], &0x9528_2c87u32.to_be_bytes());
    assert_eq!(b[20], 9);
    assert_eq!(dev.count(BusOp::Command { code: 0x0041 }), 1);
}

#[test]
fn sense_resistor_skips_zero_mean() {
    let mut dev = SimGauge::new(true);
    dev.samples = vec![0];
    let mut c = calibrate_sense_resistor(500);
    assert_eq!(drive_sense(&mut dev, &mut c), Step::Done);
    assert!(dev.flash.is_empty());
    assert!(!dev.log.iter().any(|o| matches!(o, BusOp::WriteReg { reg: 0x40..=0x60, .. })));
}

#[test]
fn rescale_of_zero_current_uses_stand_in() {
    assert_eq!(rescale_cc_gain(0x8100_0000, 1000, 0), Some((0x7027_c5ac, 0x7027_c5ac)));
    assert_eq!(rescale_cc_gain(0x8100_0000, 0, 10), None);
}

#[test]
fn rescale_keeps_sign_rules() {
    // gain 1.0, mean current 20, applied 20: the gain stays 1.0
    let (g, _) = rescale_cc_gain(0x8100_0000, 1000, 20).unwrap();
    assert_eq!(g, 0x8100_0000);
    // a negative applied current with a positive mean flips the sign bit on
    let (n, _) = rescale_cc_gain(0x8100_0000, 1000, -20).unwrap();
    assert_eq!(n, 0x8180_0000);
}

#[test]
fn xemics_known_words() {
    assert_eq!(encode_ratio(false, 1, 1, 152), 0x8100_0000);
    assert_eq!(encode_ratio(false, 100, 1, 152), 0x8748_0000);
    assert_eq!(encode_ratio(false, 1, 100000, 152), 0x7027_c5ac);
    assert_eq!(encode_ratio(true, 1, 1, 152), 0x8180_0000);
    assert_eq!(xemics_parts(0x8180_0000), (true, 0x81, 0x80_0000));
    assert_eq!(xemics_parts(0x8748_0000), (false, 0x87, 0xc8_0000));
}

#[test]
fn xemics_round_trip_is_close() {
    for &(p, q) in &[(1u128, 1000u128), (1, 1), (314159, 100000), (100, 1), (7, 3), (12345, 1000)] {
        let x = p as f64 / q as f64;
        let (negative, e, m) = xemics_parts(encode_ratio(false, p, q, 152));
        assert!(!negative);
        let back = m as f64 * 2f64.powi(e as i32 - 152);
        assert!((back - x).abs() < 0.01 * x.max(1.0), "{} came back as {}", x, back);
    }
}

#[test]
fn flags_decode_bits() {
    let f = Flags::from_register(0x8001);
    assert!(f.fast_charge_allowed);
    assert!(f.ocv_taken);
    assert!(!f.discharge);
    let g = Flags::from_register(0x1702);
    assert!(g.full_chage && g.discharge && g.state_of_charge_f && g.state_of_charge_1 && g.cf);
    assert!(!g.bat_low && !g.ocv_taken);
}

#[test]
fn transport_error_converts() {
    let e: Bq34Z100Error<u8> = Bq34Z100Error::from(7u8);
    assert!(matches!(e, Bq34Z100Error::I2C { error: 7 }));
}

#[test]
fn unseal_and_register_write_frames() {
    let ops = unsealed();
    assert_eq!(ops[0].bytes_out(), vec![0x00, 0x14, 0x04]);
    assert_eq!(ops[1].bytes_out(), vec![0x00, 0x72, 0x36]);
    assert_eq!(write_reg(0x61, 0)[0].bytes_out(), vec![0x61, 0x00]);
}

#[test]
fn other_parameters_round_trip() {
    let mut dev = SimGauge::new(true);
    assert_eq!(drive_writer(&mut dev, &mut update_design_energy(-300, 2)), Step::Done);
    assert_eq!(drive_writer(&mut dev, &mut update_cell_charge_voltage_range(4100, 4150, 4200)), Step::Done);
    assert_eq!(drive_writer(&mut dev, &mut update_number_of_series_cells(4)), Step::Done);
    let data = dev.stored(48);
    assert_eq!(&data[13..15], &(-300i16).to_be_bytes());
    assert_eq!(data[30], 2);
    assert_eq!(&data[17..23], &[0x10, 0x04, 0x10, 0x36, 0x10, 0x68]);
    assert_eq!(dev.stored(64)[7], 4);
}

#[test]
fn zero_voltage_readings_saturate_divider() {
    let mut dev = SimGauge::new(true);
    dev.samples = vec![0];
    let mut block = [0u8; 32];
    block[15] = 1;
    dev.flash.insert((104, 0), block);
    let mut c = calibrate_voltage_divider(5000);
    assert_eq!(drive_divider(&mut dev, &mut c), Step::Done);
    assert_eq!(&dev.stored(104)[14..16], &[0xff, 0xff]);
}

#[test]
fn ready_unseals_then_enables_tracking() {
    let ops = ready();
    assert_eq!(
        ops,
        vec![
            BusOp::Command { code: 0x0414 },
            BusOp::Command { code: 0x3672 },
            BusOp::Command { code: 0x0021 },
            BusOp::ReadWord { reg: 0x00 },
        ]
    );
}
