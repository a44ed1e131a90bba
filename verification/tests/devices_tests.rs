use msp_fw::devices::apds9960::Apds9960;
use msp_fw::devices::error::{poll_step, Error, PollStep};
use msp_fw::devices::font::digit_glyph;
use msp_fw::devices::isqrt::isqrt;
use msp_fw::devices::known::{known, known_entry, KNOWN_COUNT};
use msp_fw::devices::mc6470::{WakeRead, WAKE_TRIES, i16_from_le, sum_sq_fits, Accel, MagField, Mc6470, Mc6470Mag};
use msp_fw::devices::si7021::{crc8, Reading};
use msp_fw::devices::tof_script::{BusOp, Fault, Reply, Step, TofScript};
use msp_fw::devices::ssd1306::{glyph, panel_128x32, panel_128x64, Oled, CMD, DATA};
use msp_fw::devices::vl53l0x::{
    select_ref_spads, Attention, Ids, RangeTracker, Vl53l0x, Vl53l0xRanging, NO_TARGET_MM,
};

#[test]
fn isqrt_exact_and_floor_values() {
    assert_eq!(isqrt(0), 0);
    assert_eq!(isqrt(1), 1);
    assert_eq!(isqrt(15), 3);
    assert_eq!(isqrt(16), 4);
    assert_eq!(isqrt(1_048_576), 1024);
    assert_eq!(isqrt(u32::MAX), 65535);
}

#[test]
fn crc8_matches_the_sensor_checksum() {
    assert_eq!(crc8(&[]), 0x00);
    assert_eq!(crc8(&[0x68, 0x3A]), 0x7C);
    assert_eq!(crc8(&[0x7C, 0x80]), 0xF5);
    assert_eq!(crc8(&[0x66, 0x4C]), 0x4F);
}

#[test]
fn a_word_followed_by_its_checksum_checks_to_zero() {
    assert_eq!(crc8(&[0x7C, 0x80, 0xF5]), 0);
    assert_eq!(crc8(&[0x68, 0x3A, 0x7C]), 0);
    assert_eq!(crc8(&[0x66, 0x4C, 0x4F]), 0);
    assert_ne!(crc8(&[0x68, 0x3A, 0x7D]), 0);
    assert_ne!(crc8(&[0x66, 0x4C, 0x00]), 0);
}

#[test]
fn si7021_conversion_in_hundredths() {
    let r: Reading = Reading::from_raw([0x7C, 0x80, 0xF5], [0x66, 0x4C, 0x4F]);
    assert_eq!(r.rh_centi, 5479);
    assert_eq!(r.temp_c_centi, 2336);
    assert!(r.crc_ok);
    let bad = Reading::from_raw([0x7C, 0x80, 0x00], [0x66, 0x4C, 0x4F]);
    assert!(!bad.crc_ok);
}

#[test]
fn si7021_humidity_is_clamped() {
    let low = Reading::from_raw([0x00, 0x00, 0x00], [0x66, 0x4C, 0x4F]);
    assert_eq!(low.rh_centi, 0);
    let high = Reading::from_raw([0xFF, 0xFF, 0x00], [0x66, 0x4C, 0x4F]);
    assert_eq!(high.rh_centi, 10000);
}

#[test]
fn accel_at_rest_reads_one_g() {
    let a = Accel::from_bytes([0x00, 0x00, 0x00, 0x00, 0x00, 0x04]);
    assert_eq!((a.x, a.y, a.z), (0, 0, 1024));
    assert_eq!(a.sumsq(), 1_048_576);
    assert_eq!(a.magnitude_mg(), 1000);
    assert!(a.is_gravity());
    assert_eq!(a.awake_axes(), 1);
}

#[test]
fn accel_far_from_gravity_is_rejected() {
    let zero = Accel { x: 0, y: 0, z: 0 };
    assert!(!zero.is_gravity());
    assert_eq!(zero.magnitude_mg(), 0);
    let hard = Accel { x: 2048, y: 0, z: 0 };
    assert!(!hard.is_gravity());
    assert_eq!(hard.magnitude_mg(), 2000);
}

#[test]
fn little_endian_words_are_signed() {
    assert_eq!(i16_from_le(0x00, 0xFC), -1024);
    assert_eq!(i16_from_le(0xFF, 0x7F), 32767);
    assert_eq!(i16_from_le(0x00, 0x80), -32768);
    let m = MagField::from_bytes([0x03, 0x00, 0x04, 0x00, 0x00, 0x00]);
    assert_eq!((m.x, m.y, m.z), (3, 4, 0));
    assert_eq!(m.magnitude_centi_ut(), 75);
}

#[test]
fn mc6470_register_writes_and_flags() {
    let w = Mc6470::enable_writes();
    assert_eq!(w, [[0x20, 0x25], [0x07, 0x01]]);
    assert!(Mc6470Mag::identity_ok(0x49));
    assert!(!Mc6470Mag::identity_ok(0x48));
    assert!(Mc6470Mag::data_ready(0x40));
    assert!(!Mc6470Mag::data_ready(0x3F));
}

#[test]
fn apds9960_enable_and_identity() {
    assert_eq!(Apds9960::enable_writes(), [[0x8E, 0x87], [0x80, 0x05]]);
    assert!(Apds9960::id_ok(0xAB));
    assert!(Apds9960::id_ok(0xA8));
    assert!(!Apds9960::id_ok(0x00));
    assert!(Apds9960::sample_ready(0x02));
    assert!(!Apds9960::sample_ready(0x01));
}

#[test]
fn tracker_starts_without_target() {
    let t = RangeTracker::new(300, 30);
    assert_eq!(t.classify(), Attention::NoTarget);
    assert_eq!(t.last(), None);
    assert!(!t.is_near());
}

#[test]
fn tracker_sees_an_approach_then_a_near_target() {
    let mut t = RangeTracker::new(300, 30);
    for mm in [500u16, 480, 460] {
        t.push(mm);
        assert_eq!(t.classify(), Attention::Stationary);
    }
    t.push(440);
    assert_eq!(t.classify(), Attention::Approaching);
    assert_eq!(t.last(), Some(440));
    assert!(!t.is_near());
    t.push(250);
    assert_eq!(t.classify(), Attention::Approaching);
    assert!(t.is_near());
}

#[test]
fn tracker_sees_a_receding_target() {
    let mut t = RangeTracker::new(300, 30);
    for mm in [100u16, 120, 140, 160] {
        t.push(mm);
    }
    assert_eq!(t.classify(), Attention::Receding);
}

#[test]
fn tracker_within_hysteresis_is_stationary() {
    let mut t = RangeTracker::new(300, 30);
    for mm in [200u16, 205, 198, 202] {
        t.push(mm);
    }
    assert_eq!(t.classify(), Attention::Stationary);
}

#[test]
fn tracker_no_target_resets_history() {
    let mut t = RangeTracker::new(300, 30);
    for mm in [500u16, 480, 460, 440] {
        t.push(mm);
    }
    t.push(NO_TARGET_MM);
    assert_eq!(t.classify(), Attention::NoTarget);
    assert_eq!(t.last(), None);
    t.push(100);
    assert_eq!(t.classify(), Attention::Stationary);
    assert_eq!(t.last(), Some(100));
}

#[test]
fn tracker_keeps_the_last_eight_samples() {
    let mut t = RangeTracker::new(300, 30);
    for mm in [100u16, 200, 300, 400, 500, 600, 700, 800, 900] {
        t.push(mm);
    }
    assert_eq!(t.classify(), Attention::Receding);
    assert_eq!(t.last(), Some(900));
}

#[test]
fn vl53l0x_identity() {
    assert!(Vl53l0x::identity_ok(0xEE));
    assert!(!Vl53l0x::identity_ok(0xEF));
    let good = Ids { model: 0xEE, revision: 0x10, module: 0x01 };
    assert_eq!(Vl53l0x::measure_result::<u8>(good), Ok(good));
    let wrong = Ids { model: 0x00, revision: 0x10, module: 0x01 };
    assert_eq!(Vl53l0x::measure_result::<u8>(wrong), Err(Error::Identity));
}

#[test]
fn vl53l0x_ranging_helpers() {
    let r = Vl53l0xRanging::from_stop_variable(0x3C);
    assert_eq!(r.stop_variable(), 0x3C);
    assert_eq!(Vl53l0xRanging::be16(0x01, 0x2C), 300);
    assert_eq!(Vl53l0xRanging::be16_bytes(300), [0x01, 0x2C]);
    assert_eq!(Vl53l0xRanging::spad_info(0x85), (5, true));
    assert_eq!(Vl53l0xRanging::spad_info(0x05), (5, false));
    assert!(Vl53l0xRanging::sample_ready(0x04));
    assert!(!Vl53l0xRanging::sample_ready(0x08));
    assert!(Vl53l0xRanging::start_cleared(0x00));
    assert!(!Vl53l0xRanging::start_cleared(0x01));
}

#[test]
fn reference_spads_keep_the_first_usable_ones() {
    assert_eq!(select_ref_spads([0xFF; 6], 5, false), [0x1F, 0, 0, 0, 0, 0]);
    assert_eq!(select_ref_spads([0xFF; 6], 3, true), [0x00, 0x70, 0, 0, 0, 0]);
    assert_eq!(select_ref_spads([0x0A, 0x00, 0xF0, 0, 0, 0], 3, true), [0, 0, 0x70, 0, 0, 0]);
    assert_eq!(select_ref_spads([0xFF; 6], 0, false), [0; 6]);
}

#[test]
fn known_table_labels_scan_hits() {
    assert_eq!(KNOWN_COUNT, 7);
    let k = known(0x39).unwrap();
    assert_eq!(k.name, "APDS-9960");
    assert_eq!((k.id_reg, k.id_val), (0x92, 0xAB));
    assert!(known(0x50).is_none());
    assert_eq!(known_entry(0).addr, 0x3C);
    assert_eq!(known_entry(6).name, "Si7021 T/RH");
}

#[test]
fn panel_geometry_and_frames() {
    let p = panel_128x32();
    assert_eq!((p.addr, p.width, p.pages), (0x3C, 128, 4));
    let p64 = panel_128x64();
    assert_eq!(p64.pages, 8);
    let o = Oled::new(p);
    assert_eq!(o.addr(), 0x3C);
    let init = o.init_frame();
    assert_eq!(init.len(), 27);
    assert_eq!(init[0], CMD);
    assert_eq!(init[5], 0x1F);
    assert_eq!(init[16], 0x02);
    assert_eq!(Oled::new(p64).init_frame()[5], 0x3F);
    assert_eq!(Oled::off_frame(), [CMD, 0xAE]);
    assert_eq!(Oled::window_frame(2, 0, 127), [CMD, 0x22, 2, 2, 0x21, 0, 127]);
    assert_eq!(Oled::cell_frame([1, 2, 3, 4, 5]), [DATA, 1, 2, 3, 4, 5, 0]);
    let row = o.blank_row();
    assert_eq!(row.len(), 129);
    assert_eq!(row[0], DATA);
    assert!(row[1..].iter().all(|b| *b == 0));
}

#[test]
fn text_layout_clips_at_the_last_cell() {
    let o = Oled::new(panel_128x32());
    assert_eq!(o.text_fit(0, 5), (5, 30));
    assert_eq!(o.text_fit(120, 3), (1, 126));
    assert_eq!(o.text_fit(123, 3), (0, 123));
    assert_eq!(o.text_fit(0, 0), (0, 0));
}

#[test]
fn glyphs_fold_lowercase_and_blank_unknowns() {
    assert_eq!(glyph(b'0'), digit_glyph(0));
    assert_eq!(glyph(b'a'), glyph(b'A'));
    assert_eq!(glyph(b'-'), [0x08; 5]);
    assert_eq!(glyph(b'#'), [0; 5]);
    assert_ne!(glyph(b'A'), glyph(b'B'));
}

#[test]
fn bus_errors_convert_into_driver_errors() {
    let e: Error<u8> = Error::from(7u8);
    assert_eq!(e, Error::Bus(7));
}

#[test]
fn magnitude_guard_and_panel_checks() {
    assert!(sum_sq_fits(1024, 0, 0));
    assert!(sum_sq_fits(26754, 26754, 26754));
    assert!(!sum_sq_fits(-32768, -32768, -32768));
    let o = Oled::new(panel_128x32());
    assert!(o.usable());
    assert_eq!(o.pages(), 4);
}

#[test]
fn shifting_every_range_keeps_the_trend() {
    let near = [500u16, 480, 460, 440];
    let mut a = RangeTracker::new(300, 30);
    let mut b = RangeTracker::new(300, 30);
    for mm in near {
        a.push(mm);
        b.push(mm + 700);
    }
    assert_eq!(a.classify(), Attention::Approaching);
    assert_eq!(b.classify(), a.classify());
    assert_eq!(b.last(), Some(1140));
}

/// A sensor that answers the bring-up: model id, stop variable 0x3C, five aperture SPADs, a
/// full reference map, and every status ready.
fn bring_up_reply(op: BusOp) -> Reply {
    match op {
        BusOp::Read(0xC0) => Reply::Byte(0xEE),
        BusOp::Read(0x91) => Reply::Byte(0x3C),
        BusOp::Read(0x92) => Reply::Byte(0x85),
        BusOp::Read(0x83) => Reply::Byte(0x10),
        BusOp::Read(0x13) => Reply::Byte(0x01),
        BusOp::Read(0x84) => Reply::Byte(0x11),
        BusOp::Read(_) => Reply::Byte(0x00),
        BusOp::ReadMap(_) => Reply::Block([0xFF; 6]),
        BusOp::ReadWord(_) => Reply::Word(0),
        _ => Reply::Ack,
    }
}

#[test]
fn tof_bring_up_walks_its_script() {
    let mut t = TofScript::init();
    let mut reply = Reply::Ack;
    let mut ops = Vec::new();
    let mut map = None;
    let end = loop {
        match t.step(reply) {
            Step::Bus(op) => {
                if let BusOp::WriteMap(_) = op {
                    map = Some(t.selected_map());
                }
                ops.push(op);
                reply = bring_up_reply(op);
            }
            end => break end,
        }
    };
    assert_eq!(end, Step::Ready(0x3C));
    assert_eq!(ops[0], BusOp::Read(0xC0));
    assert_eq!(ops[1], BusOp::Read(0x89));
    assert_eq!(ops[2], BusOp::Write(0x89, 0x01));
    assert!(ops.contains(&BusOp::Write(0x60, 0x12)));
    assert!(ops.contains(&BusOp::Write16(0x44, 32)));
    assert!(ops.contains(&BusOp::Write(0x83, 0x14)));
    assert!(ops.contains(&BusOp::Write(0x84, 0x01)));
    let at = ops.iter().position(|o| *o == BusOp::WriteMap(0xB0)).unwrap();
    assert_eq!(ops[at + 1], BusOp::Write(0xFF, 0x01));
    assert_eq!(ops[at + 80], BusOp::Write(0x80, 0x00));
    assert_eq!(ops[at + 81], BusOp::Write(0x0A, 0x04));
    assert_eq!(*ops.last().unwrap(), BusOp::Write(0x01, 0xE8));
    assert_eq!(map, Some([0x00, 0xF0, 0x01, 0x00, 0x00, 0x00]));
}

#[test]
fn tof_bring_up_refuses_another_model() {
    let mut t = TofScript::init();
    assert_eq!(t.step(Reply::Ack), Step::Bus(BusOp::Read(0xC0)));
    assert_eq!(t.step(Reply::Byte(0xAB)), Step::Failed(Fault::Identity));
}

#[test]
fn tof_bring_up_gives_up_on_a_silent_poll() {
    let mut t = TofScript::init();
    let mut reply = Reply::Ack;
    let mut polling = false;
    let mut polls = 0u32;
    let end = loop {
        match t.step(reply) {
            Step::Bus(op) => {
                if op == BusOp::Write(0x83, 0x00) {
                    polling = true;
                }
                reply = match op {
                    BusOp::Read(0x83) if polling => {
                        polls += 1;
                        Reply::Byte(0x00)
                    }
                    _ => bring_up_reply(op),
                };
            }
            end => break end,
        }
    };
    assert_eq!(end, Step::Failed(Fault::NotReady));
    assert_eq!(polls, 4000);
}

#[test]
fn tof_range_read_restores_the_stop_variable() {
    let handle = Vl53l0xRanging::from_stop_variable(0x3C);
    let mut t = TofScript::range(&handle);
    let expected = [
        BusOp::Write(0x80, 0x01),
        BusOp::Write(0xFF, 0x01),
        BusOp::Write(0x00, 0x00),
        BusOp::Write(0x91, 0x3C),
        BusOp::Write(0x00, 0x01),
        BusOp::Write(0xFF, 0x00),
        BusOp::Write(0x80, 0x00),
        BusOp::Write(0x00, 0x01),
    ];
    for op in expected {
        assert_eq!(t.step(Reply::Ack), Step::Bus(op));
    }
    assert_eq!(t.step(Reply::Ack), Step::Bus(BusOp::Read(0x00)));
    assert_eq!(t.step(Reply::Byte(0x01)), Step::Bus(BusOp::Read(0x00)));
    assert_eq!(t.step(Reply::Byte(0x00)), Step::Bus(BusOp::Read(0x13)));
    assert_eq!(t.step(Reply::Byte(0x04)), Step::Bus(BusOp::ReadWord(0x1E)));
    assert_eq!(t.step(Reply::Word(345)), Step::Bus(BusOp::Write(0x0B, 0x01)));
    assert_eq!(t.step(Reply::Ack), Step::Ranged(345));
}

#[test]
fn bounded_polls_decide_per_read() {
    assert_eq!(poll_step(1, 256, true), PollStep::Done);
    assert_eq!(poll_step(1, 256, false), PollStep::Again);
    assert_eq!(poll_step(255, 256, false), PollStep::Again);
    assert_eq!(poll_step(256, 256, false), PollStep::GiveUp);
    assert_eq!(poll_step(256, 256, true), PollStep::Done);
}

#[test]
fn accelerometer_wakes_on_two_axes() {
    let one_axis = Accel { x: 0, y: 0, z: 1000 };
    let two_axes = Accel { x: 5, y: 0, z: 1000 };
    assert_eq!(Mc6470::wake_read(1, &two_axes), WakeRead::Accept);
    assert_eq!(Mc6470::wake_read(1, &one_axis), WakeRead::Again);
    assert_eq!(Mc6470::wake_read(WAKE_TRIES, &one_axis), WakeRead::GiveUp);
}
