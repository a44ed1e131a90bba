use msp_fw::devices::si7021::Reading;
use msp_fw::diag::adc::{die_temp_c, dvcc_mv};
use msp_fw::diag::clock::Clock;
use msp_fw::diag::hal::Error as DiagError;
use msp_fw::diag::oled::{found_line, verdict_line, Status as OledStatus};
use msp_fw::devices::mc6470::Accel;
use msp_fw::diag::post::{
    scan_result, SCAN_COUNT, SCAN_FIRST,
    wake_step, WakeStep, WAKE_READS,
    check_device, device, device_line, gravity_outcome, is_expected, scan_hit, scan_outcome,
    scan_tail, summary, temphum_outcome, test_count, test_name, DevCheck, Inventory, Outcome,
    Tally, DEVICE_COUNT, NO_ID,
};
use msp_fw::diag::regs::{chip_name, fll_locked, pin_code, reset_cause, vcc_temp};
use msp_fw::diag::ssd1306_raw;
use msp_fw::diag::stress::{
    ladder, report, step_line, target, SoakReport, StressTask, FAIL_CUTOFF, LADDER_LEN, MARGIN_REPS,
};
use msp_fw::diag::tasks::{
    sched_entry,
    render, ButtonTask, Cx, Mode, PostTask, ProxStep, ProximityTask, RadarTask, UiAction, UiTask,
    PROX_RATE_MS, PROX_RETRY_MS, RADAR_FAST_MS, RADAR_IDLE_MS,
};

#[test]
fn clock_counts_milliseconds_across_wraps() {
    let mut c = Clock::start();
    assert_eq!(c.now_ms(32768), 1000);
    assert_eq!(c.now_ms(0), 2000);
    assert_eq!(c.now_ms(33), 2001);
    assert_eq!(c.now_ms(66), 2002);
}

#[test]
fn clock_keeps_the_fraction() {
    let mut c = Clock::start();
    let mut t: u16 = 0;
    let mut last = 0;
    for _ in 0..1000 {
        t = t.wrapping_add(33);
        last = c.now_ms(t);
    }
    assert_eq!(last, 33_000 * 1000 / 32768);
}

#[test]
fn supply_from_the_reference_ratio() {
    assert_eq!(dvcc_mv(2048), 2999);
    assert_eq!(dvcc_mv(4095), 1500);
    assert_eq!(dvcc_mv(0), 0);
    assert_eq!(dvcc_mv(1), (4095u32 * 1500 % 65536) as u16);
}

#[test]
fn die_temperature_interpolates_the_calibration() {
    assert_eq!(die_temp_c(2000, 2000, 2600), 30);
    assert_eq!(die_temp_c(2600, 2000, 2600), 105);
    assert_eq!(die_temp_c(2300, 2000, 2600), 67);
    assert_eq!(die_temp_c(1800, 2000, 2600), 5);
    assert_eq!(die_temp_c(1000, 2000, 2600), -95);
    assert_eq!(die_temp_c(1234, 2000, 2000), 0);
}

#[test]
fn register_dump_decoding() {
    assert_eq!(reset_cause(0x00), "none");
    assert_eq!(reset_cause(0x16), "WDT timeout");
    assert_eq!(reset_cause(0x0E), "SVSH brown-out");
    assert_eq!(reset_cause(0x99), "reserved/other");
    assert_eq!(chip_name(0x832A), Some("MSP430FR2476"));
    assert_eq!(chip_name(0x832B), Some("MSP430FR2475"));
    assert_eq!(chip_name(0x1234), None);
    assert_eq!(pin_code(0x0000, 0x0004, 0x0004), 1);
    assert_eq!(pin_code(0x0004, 0x0000, 0x0004), 2);
    assert_eq!(pin_code(0x0004, 0x0004, 0x0004), 3);
    assert_eq!(pin_code(0x0008, 0x0000, 0x0004), 0);
    assert!(fll_locked(0x0000));
    assert!(!fll_locked(0x0100));
}

#[test]
fn supply_and_temperature_readout() {
    assert_eq!(String::from_utf8(vcc_temp(3300, 25)).unwrap(), "Vcc=3.30V  temp=25C");
    assert_eq!(String::from_utf8(vcc_temp(3050, -5)).unwrap(), "Vcc=3.05V  temp=-5C");
    assert_eq!(String::from_utf8(vcc_temp(999, 0)).unwrap(), "Vcc=0.99V  temp=0C");
    assert_eq!(String::from_utf8(vcc_temp(0, i16::MIN)).unwrap(), "Vcc=0.00V  temp=-32768C");
}

#[test]
fn registry_and_test_bag() {
    assert_eq!(DEVICE_COUNT, 7);
    assert_eq!(device(1).addr, 0x29);
    assert_eq!((device(2).id_reg, device(2).id_val), (0x92, 0xAB));
    assert_eq!(device(0).id_reg, NO_ID);
    assert!(is_expected(0x39));
    assert!(!is_expected(0x50));
    assert_eq!(test_count(), 4);
    assert_eq!(test_name(0), "bus scan");
    assert_eq!(test_name(3), "Si7021 T/RH");
}

#[test]
fn device_check_verdicts() {
    let apds = device(2);
    let oled = device(0);
    assert_eq!(check_device(apds, false, None), DevCheck::Absent);
    assert_eq!(check_device(oled, true, None), DevCheck::Present);
    assert_eq!(check_device(apds, true, None), DevCheck::IdReadFailed);
    assert_eq!(check_device(apds, true, Some(0xAB)), DevCheck::IdOk(0xAB));
    assert_eq!(check_device(apds, true, Some(0x12)), DevCheck::IdMismatch(0x12));
}

#[test]
fn inventory_counts_present_and_faulty() {
    let mut inv = Inventory::new();
    inv.record(DevCheck::Absent);
    inv.record(DevCheck::Present);
    inv.record(DevCheck::IdOk(0xAB));
    assert_eq!((inv.present, inv.total, inv.faults), (2, 7, 0));
    assert_eq!(inv.outcome(), Outcome::Pass);
    inv.record(DevCheck::IdMismatch(0x00));
    assert_eq!((inv.present, inv.faults), (3, 1));
    assert_eq!(inv.outcome(), Outcome::Fail);
}

#[test]
fn scan_and_sensor_outcomes() {
    assert_eq!(scan_outcome(0), Outcome::Pass);
    assert_eq!(scan_outcome(2), Outcome::Fail);
    assert_eq!(gravity_outcome(false, Some(true)), Outcome::Skip);
    assert_eq!(gravity_outcome(true, Some(true)), Outcome::Pass);
    assert_eq!(gravity_outcome(true, Some(false)), Outcome::Fail);
    assert_eq!(gravity_outcome(true, None), Outcome::Skip);
    let good = Reading { temp_c_centi: 2336, rh_centi: 5479, crc_ok: true };
    let bad_crc = Reading { crc_ok: false, ..good };
    assert_eq!(temphum_outcome(false, Some(good)), Outcome::Skip);
    assert_eq!(temphum_outcome(true, Some(good)), Outcome::Pass);
    assert_eq!(temphum_outcome(true, Some(bad_crc)), Outcome::Fail);
    assert_eq!(temphum_outcome(true, None), Outcome::Fail);
}

#[test]
fn tally_and_summary_line() {
    let mut t = Tally::new();
    t.record(Outcome::Pass);
    t.record(Outcome::Pass);
    t.record(Outcome::Skip);
    assert!(t.ok());
    assert_eq!((t.pass, t.fail, t.skip), (2, 0, 1));
    assert_eq!(String::from_utf8(summary(t.pass, t.fail, t.skip)).unwrap(), "summary: 2 passed, 1 skipped\n");
    t.record(Outcome::Fail);
    assert!(!t.ok());
    assert_eq!(String::from_utf8(summary(3, 1, 0)).unwrap(), "summary: 3 passed, 1 FAILED\n");
    assert_eq!(String::from_utf8(summary(0, 0, 0)).unwrap(), "summary: 0 passed\n");
    assert_eq!(String::from_utf8(summary(4, 2, 1)).unwrap(), "summary: 4 passed, 2 FAILED, 1 skipped\n");
}

#[test]
fn oled_verdict_lines() {
    assert_eq!(String::from_utf8(found_line(3, 7)).unwrap(), "found 3/7");
    assert_eq!(String::from_utf8(found_line(12, 15)).unwrap(), "found 9/9");
    assert_eq!(verdict_line(true), "OK");
    assert_eq!(verdict_line(false), "FAULT");
    assert_ne!(OledStatus::Rendered, OledStatus::InitFail);
}

#[test]
fn diag_bus_errors_map_to_nack() {
    assert!(DiagError::Bus.is_no_acknowledge());
    assert!(!DiagError::Unsupported.is_no_acknowledge());
}

#[test]
fn raw_oled_layout() {
    assert_eq!(ssd1306_raw::text(0, 3), (3, 18));
    assert_eq!(ssd1306_raw::text(120, 2), (1, 126));
    assert_eq!(ssd1306_raw::text(122, 2), (0, 122));
    let (digits, n, next) = ssd1306_raw::num(0, 1234);
    assert_eq!(digits, b"1234".to_vec());
    assert_eq!((n, next), (4, 24));
    let row = ssd1306_raw::fill_row(0xFF);
    assert_eq!(row.len(), 129);
    assert!(row[1..].iter().all(|b| *b == 0xFF));
    assert_eq!(ssd1306_raw::clear_eol(120).unwrap().len(), 9);
    assert!(ssd1306_raw::clear_eol(128).is_none());
    assert_eq!(ssd1306_raw::glyph(b'a'), ssd1306_raw::glyph(b'A'));
    assert_eq!(ssd1306_raw::glyph(b'('), [0x00, 0x1C, 0x22, 0x41, 0x00]);
}

#[test]
fn button_cycles_the_modes() {
    assert_eq!(Mode::Post.next(), Mode::Margin);
    assert_eq!(Mode::Margin.next(), Mode::Soak);
    assert_eq!(Mode::Soak.next(), Mode::Post);
    assert_eq!(Mode::Margin.label(), "I2C MARGIN");
    let mut cx = Cx::new();
    let mut b = ButtonTask::new();
    assert!(!b.step(&mut cx, false));
    assert!(b.step(&mut cx, true));
    assert_eq!(cx.mode, Mode::Margin);
    assert!(!b.step(&mut cx, true));
    assert_eq!(cx.mode, Mode::Margin);
    assert!(!b.step(&mut cx, false));
    assert!(b.step(&mut cx, true));
    assert!(!b.step(&mut cx, false));
    assert!(b.step(&mut cx, true));
    assert_eq!(cx.mode, Mode::Post);
}

#[test]
fn radar_counts_rising_edges() {
    let mut cx = Cx::new();
    let mut r = RadarTask::new();
    assert_eq!(r.step(&mut cx, false), RADAR_IDLE_MS);
    assert_eq!(r.step(&mut cx, true), RADAR_FAST_MS);
    assert_eq!(r.step(&mut cx, true), RADAR_FAST_MS);
    r.step(&mut cx, false);
    r.step(&mut cx, true);
    assert_eq!(cx.radar_edges, 2);
    assert!(cx.radar_seen);
}

#[test]
fn proximity_task_flow() {
    let mut cx = Cx::new();
    let mut p = ProximityTask::new();
    assert_eq!(p.begin(&mut cx), ProxStep::Enable);
    assert_eq!(p.enabled_result(&mut cx, true), ProxStep::Sample);
    assert_eq!(p.sample_result(&mut cx, Some(42)), ProxStep::Done(PROX_RATE_MS));
    assert_eq!(cx.apds_prox, Some(42));
    assert_eq!(p.begin(&mut cx), ProxStep::Sample);
    assert_eq!(p.sample_result(&mut cx, None), ProxStep::Probe);
    assert_eq!(p.presence_result(false), PROX_RETRY_MS);
    assert_eq!(p.begin(&mut cx), ProxStep::Enable);
    assert_eq!(p.enabled_result(&mut cx, false), ProxStep::Done(PROX_RETRY_MS));
    cx.mode = Mode::Soak;
    assert_eq!(p.begin(&mut cx), ProxStep::Done(PROX_RETRY_MS));
}

#[test]
fn post_task_publishes_and_resets_radar() {
    let mut cx = Cx::new();
    cx.radar_seen = true;
    cx.radar_edges = 3;
    assert!(PostTask::active(&cx));
    let rep = PostTask::finish(&mut cx, true, 4, 7);
    assert!(rep.radar_seen);
    assert_eq!(rep.radar_edges, 3);
    assert!(cx.post_ok);
    assert_eq!((cx.post_present, cx.post_total), (4, 7));
    assert!(!cx.radar_seen);
    assert_eq!(cx.radar_edges, 0);
}

fn lines_of(cx: &Cx) -> Vec<(u8, String, bool)> {
    render(cx)
        .into_iter()
        .map(|l| (l.page, String::from_utf8(l.text).unwrap(), l.clear_eol))
        .collect()
}

#[test]
fn status_screen_lines() {
    let mut cx = Cx::new();
    cx.post_ok = true;
    cx.post_present = 3;
    cx.post_total = 7;
    assert_eq!(
        lines_of(&cx),
        vec![(0, "POST".to_string(), false), (1, "FOUND 3/7".to_string(), true), (3, "OK".to_string(), false)]
    );
    cx.mode = Mode::Margin;
    cx.st_phase = 1;
    cx.st_khz = 333;
    assert_eq!(lines_of(&cx), vec![(0, "I2C MARGIN".to_string(), false), (2, "SWEEP 333K".to_string(), true)]);
    cx.st_phase = 2;
    cx.st_max = 500;
    assert_eq!(lines_of(&cx)[1], (2, "MAX:500KHZ".to_string(), true));
    cx.mode = Mode::Soak;
    cx.st_secs = 12;
    cx.st_txn_m = 1;
    cx.st_txn = 42;
    cx.st_err = 0;
    assert_eq!(
        lines_of(&cx),
        vec![
            (0, "I2C SOAK".to_string(), false),
            (1, "T=12S".to_string(), true),
            (2, "N=1M42".to_string(), true),
            (3, "ERR=0 PASS".to_string(), true),
        ]
    );
}

#[test]
fn ui_task_boots_holds_then_draws() {
    let cx = Cx::new();
    let mut ui = UiTask::new();
    assert!(matches!(ui.step(&cx, 100), UiAction::Boot));
    assert!(matches!(ui.step(&cx, 1599), UiAction::Hold));
    match ui.step(&cx, 1600) {
        UiAction::Draw { reinit, lines } => {
            assert!(reinit);
            assert_eq!(lines.len(), 3);
        },
        _ => panic!("expected a draw"),
    }
    match ui.step(&cx, 1800) {
        UiAction::Draw { reinit, .. } => assert!(!reinit),
        _ => panic!("expected a draw"),
    }
}

#[test]
fn margin_sweep_finds_the_highest_clean_clock() {
    let mut st = StressTask::new();
    let mut cx = Cx::new();
    cx.mode = Mode::Margin;
    assert_eq!(st.margin_enter(&mut cx), Some(10));
    assert_eq!(st.margin_enter(&mut cx), None);
    assert_eq!((cx.st_phase, cx.st_khz), (1, 100));
    for step in 0..LADDER_LEN {
        assert!(!st.margin_done(&mut cx));
        assert_eq!(cx.st_khz, ladder(step).0);
        let fail = step >= 3;
        let mut ev = None;
        let mut reads = 0u32;
        while ev.is_none() {
            let t = st.margin_target();
            assert!(t == target(0) || t == target(1));
            let r = if fail { Err(false) } else { Ok(120) };
            ev = st.margin_record(&mut cx, r);
            reads += 1;
        }
        let ev = ev.unwrap();
        assert_eq!(ev.khz, ladder(step).0);
        if fail {
            assert_eq!(reads, 2 * FAIL_CUTOFF as u32);
            assert_eq!(ev.nack, 2 * FAIL_CUTOFF);
        } else {
            assert_eq!(reads, 2 * MARGIN_REPS as u32);
            assert_eq!(ev.nack + ev.corrupt, 0);
        }
        if step + 1 < LADDER_LEN {
            assert_eq!(ev.next_brw, Some(ladder(step + 1).1));
            assert_eq!(ev.margin_khz, None);
        } else {
            assert_eq!(ev.next_brw, None);
            assert_eq!(ev.margin_khz, Some(333));
        }
    }
    assert_eq!((cx.st_max, cx.st_phase), (333, 2));
    assert!(st.margin_done(&mut cx));
    assert_eq!(cx.mode, Mode::Post);
}

#[test]
fn soak_counts_errors_and_reports_on_cadence() {
    let mut st = StressTask::new();
    let mut cx = Cx::new();
    assert!(st.soak_enter(&mut cx, 1000));
    assert!(!st.soak_enter(&mut cx, 1500));
    assert_eq!(cx.st_phase, 3);
    st.soak_record(Ok(150));
    st.soak_record(Ok(90));
    st.soak_record(Err(false));
    st.soak_record(Err(true));
    assert!(st.soak_publish(&mut cx, 5000).is_none());
    assert_eq!((cx.st_txn, cx.st_err, cx.st_secs), (4, 2, 4));
    let rep = st.soak_publish(&mut cx, 11_000).unwrap();
    assert_eq!((rep.secs, rep.txn, rep.nack, rep.corrupt), (10, 4, 1, 1));
    assert_eq!((rep.lat_min, rep.lat_max), (90, 150));
    assert!(rep.any_ok);
    assert!(!rep.clean);
    assert!(st.soak_publish(&mut cx, 12_000).is_none());
}

#[test]
fn clock_wraps_the_millisecond_count() {
    let mut c = Clock::start();
    let mut t: u16 = 0;
    let mut last = 0u32;
    for _ in 0..2_147_600u32 {
        t = t.wrapping_add(65535);
        last = c.now_ms(t);
    }
    assert_eq!(last, 167_164);
}

#[test]
fn register_dump_lines() {
    assert_eq!(String::from_utf8(msp_fw::diag::regs::row(" CSCTL7", 0x0300)).unwrap(), " CSCTL7=0300\n");
    assert_eq!(
        String::from_utf8(msp_fw::diag::regs::pin("P1.2", 0x00, 0x04, 0x00, 0x04, "UCB0SDA (01)")).unwrap(),
        "  P1.2 sel=01 module dir=I  want=UCB0SDA (01)\n"
    );
    assert_eq!(
        String::from_utf8(msp_fw::diag::regs::pin("P2.5", 0x00, 0x00, 0x20, 0x20, "SDB")).unwrap(),
        "  P2.5 sel=00 GPIO/alt dir=O  want=SDB\n"
    );
}

#[test]
fn board_block() {
    let text = msp_fw::diag::regs::stats(0x832A, 0x10, 0x21, 0x1234_ABCD, 3300, 25);
    assert_eq!(
        String::from_utf8(text).unwrap(),
        "\n[board]\n chip: MSP430FR2476 id=832A\n hw rev=10 fw rev=21\n die id=1234ABCD\n Vcc=3.30V  temp=25C\n"
    );
    let other = msp_fw::diag::regs::stats(0x0001, 0, 0, 0, 0, -3);
    assert!(String::from_utf8(other).unwrap().contains("chip: MSP430 (unrecognized) id=0001"));
}

#[test]
fn inventory_and_scan_lines() {
    let apds = device(2);
    assert_eq!(
        String::from_utf8(device_line(apds, DevCheck::IdOk(0xAB))).unwrap(),
        format!("  {} @0x39: id=AB OK\n", apds.name)
    );
    assert_eq!(
        String::from_utf8(device_line(apds, DevCheck::IdMismatch(0x12))).unwrap(),
        format!("  {} @0x39: id=12 MISMATCH want=AB\n", apds.name)
    );
    assert!(String::from_utf8(device_line(apds, DevCheck::Absent)).unwrap().ends_with(": absent\n"));
    assert_eq!(String::from_utf8(scan_hit(0x39)).unwrap(), " 0x39");
    assert_eq!(String::from_utf8(scan_hit(0x50)).unwrap(), " 0x50?");
    assert_eq!(String::from_utf8(scan_tail(0, 0)).unwrap(), " (none)\n");
    assert_eq!(String::from_utf8(scan_tail(3, 1)).unwrap(), "  (1 UNEXPECTED)\n");
    assert_eq!(String::from_utf8(scan_tail(3, 0)).unwrap(), "\n");
}

#[test]
fn stress_report_lines() {
    assert_eq!(String::from_utf8(step_line(100, 400, 0, 0)).unwrap(), "  100 kHz: 400 txn, 0 nack, 0 corrupt  OK\n");
    assert_eq!(String::from_utf8(step_line(1000, 48, 48, 0)).unwrap(), "  1000 kHz: 48 txn, 48 nack, 0 corrupt  FAIL\n");
    let r = SoakReport {
        secs: 10,
        txn_m: 1,
        txn: 42,
        nack: 1,
        corrupt: 0,
        rate: 800,
        lat_min: 90,
        lat_max: 150,
        any_ok: true,
        clean: false,
    };
    assert_eq!(
        String::from_utf8(report(&r)).unwrap(),
        "  [t=10s] txns=1M 42  err=1+0  rate=800/s  lat=90-150us  FAIL\n"
    );
    let quiet = SoakReport { txn_m: 0, any_ok: false, nack: 0, clean: true, ..r };
    assert_eq!(
        String::from_utf8(report(&quiet)).unwrap(),
        "  [t=10s] txns=42  err=0+0  rate=800/s  lat=n/a  PASS\n"
    );
}

#[test]
fn inventory_summary_line() {
    let mut inv = Inventory::new();
    for _ in 0..5 {
        inv.record(DevCheck::Present);
    }
    assert_eq!(String::from_utf8(inv.line()).unwrap(), "  inventory: 5/7 present, 2 missing\n");
    inv.record(DevCheck::Present);
    inv.record(DevCheck::IdOk(0xEE));
    assert_eq!(String::from_utf8(inv.line()).unwrap(), "  inventory: 7/7 present\n");
}

#[test]
fn reads_are_judged_by_ack_then_value() {
    let t = target(0);
    assert_eq!(t.judge(false, 0xAB, 120), Err(false));
    assert_eq!(t.judge(true, 0xAA, 120), Err(true));
    assert_eq!(t.judge(true, 0xAB, 120), Ok(120));
}

#[test]
fn accelerometer_wake_poll_decisions() {
    let asleep = Accel { x: 0, y: 0, z: 0 };
    let awake = Accel { x: 0, y: 3, z: 1020 };
    assert_eq!(wake_step(1, Some(asleep)), WakeStep::Again);
    assert_eq!(wake_step(WAKE_READS - 1, Some(asleep)), WakeStep::Again);
    assert_eq!(wake_step(WAKE_READS, Some(asleep)), WakeStep::Asleep);
    assert_eq!(wake_step(5, Some(awake)), WakeStep::Check(awake));
    assert_eq!(wake_step(5, None), WakeStep::ReadFailed);
}

#[test]
fn a_soak_batch_counts_all_eighty_reads() {
    let mut st = StressTask::new();
    let mut cx = Cx::new();
    assert!(st.soak_enter(&mut cx, 0));
    let mut reads = Vec::new();
    for k in 0..80u16 {
        reads.push(if k % 20 == 3 { Err(false) } else if k == 41 { Err(true) } else { Ok(100 + k) });
    }
    assert!(st.has_batch_room(reads.len()));
    st.soak_batch(&reads);
    assert!(st.soak_publish(&mut cx, 2000).is_none());
    assert_eq!((cx.st_txn_m, cx.st_txn, cx.st_err), (0, 80, 5));
    let rep = st.soak_publish(&mut cx, 10_000).unwrap();
    assert_eq!((rep.nack, rep.corrupt), (4, 1));
    assert_eq!((rep.lat_min, rep.lat_max), (100, 179));
}

#[test]
fn scan_lists_hits_and_counts_the_unexpected() {
    let mut acks = vec![false; SCAN_COUNT];
    for a in [0x29u8, 0x39, 0x50] {
        acks[(a - SCAN_FIRST) as usize] = true;
    }
    let r = scan_result(&acks);
    assert_eq!(String::from_utf8(r.line).unwrap(), " 0x29 0x39 0x50?  (1 UNEXPECTED)\n");
    assert_eq!(r.unexpected, 1);
    let none = scan_result(&vec![false; SCAN_COUNT]);
    assert_eq!(String::from_utf8(none.line).unwrap(), " (none)\n");
    assert_eq!(none.unexpected, 0);
}

#[test]
fn scheduler_statistics_entry() {
    assert_eq!(sched_entry("radar", 12, 0), b" radar(late12ms ovr0)".to_vec());
    assert_eq!(sched_entry("post", 70_000, 3), b" post(late65535ms ovr3)".to_vec());
}
