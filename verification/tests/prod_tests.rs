use msp_fw::devices::mc6470::{Accel, MagField};
use msp_fw::devices::si7021::Reading;
use msp_fw::devices::vl53l0x::{Attention, Ids};
use msp_fw::devices::readout::{accel_line, apds_line, mag_line, range_line, si_line, tof_line, Readout};
use msp_fw::prod::console::{command_of, model_name, Command};
use msp_fw::prod::enumerate::{presence_of, report, scan, Presence, Scan, HI, LO, PROBES, SANITY_MAX};
use msp_fw::prod::hal::Error as ProdError;
use msp_fw::prod::i2c::{
    bus_levels, keep_clocking, needs_resync, Action, Spin, Transfer, SPIN, UCNACKIFG, UCRXIFG0,
    UCSWRST, UCTXIFG0, UCTXSTP, UCTXSTT,
};
use msp_fw::prod::image::{build_id, parse_u8, BuildConfig, Family};
use msp_fw::prod::mode::{BusAction, Mode, ModeMachine};
use msp_fw::prod::model::{Model, PinMap, DEVICE_ID_FR2433, DEVICE_ID_FR2476};
use msp_fw::prod::regmap::{self, decode, next_ai, RegSel, ShadowState};
use msp_fw::prod::status::{Status, FAULT_BUS_WEDGED, FLAG_BOOTED, FLAG_BUS_OK, FLAG_ENUMERATED,
    FLAG_WRONG_FAMILY};
use msp_fw::prod::stem::{poll, RegFile, Slave, UCRXIFG0 as S_RX, UCSTPIFG, UCSTTIFG,
    UCTXIFG0 as S_TX};

fn dual_image() -> BuildConfig {
    BuildConfig {
        family: Family::Fr247x,
        mode_passive: true,
        mode_sensing: true,
        ver_major: 1,
        ver_minor: 2,
        ver_patch: 3,
        build_id: 0xA1B2_C3D4,
    }
}

fn passive_image() -> BuildConfig {
    BuildConfig { mode_sensing: false, ..dual_image() }
}

#[test]
fn register_groups_decode_by_bank() {
    assert_eq!(decode(0x00), RegSel::InputPort(0));
    assert_eq!(decode(0x0C), RegSel::OutputPort(4));
    assert_eq!(decode(0x17), RegSel::PolarityInv(7));
    assert_eq!(decode(0x1A), RegSel::IoConfig(2));
    assert_eq!(decode(0x21), RegSel::IntMask(1));
    assert_eq!(decode(regmap::OUTCONF), RegSel::OutConf);
    assert_eq!(decode(regmap::MODE), RegSel::Mode);
    assert_eq!(decode(regmap::INIT_CODE), RegSel::InitCode);
    assert_eq!(decode(regmap::BAUD_RATE), RegSel::BaudRate);
    assert_eq!(decode(0x31), RegSel::Extended(1));
    assert_eq!(decode(0x40), RegSel::Reserved(0x40));
}

#[test]
fn auto_increment_wraps_inside_the_group() {
    assert_eq!(next_ai(0x08), 0x09);
    assert_eq!(next_ai(0x0F), 0x08);
    assert_eq!(next_ai(0x27), 0x20);
    let mut r = 0x13u8;
    for _ in 0..8 {
        r = next_ai(r);
    }
    assert_eq!(r, 0x13);
}

#[test]
fn shadow_state_starts_zeroed() {
    let s = ShadowState::new();
    assert_eq!(s.polarity, [0; 8]);
    assert_eq!(s.int_mask, [0; 8]);
    assert_eq!(s.init_code, 0);
    assert_eq!(s.vsom_threshold, [0; 3]);
}

#[test]
fn build_id_is_fnv1a() {
    assert_eq!(build_id(b""), 0x811C_9DC5);
    assert_eq!(build_id(b"a"), 0xE40C_292C);
    assert_eq!(build_id(b"2024-01-01"), 0x5334_04C9);
}

#[test]
fn version_digits_parse() {
    assert_eq!(parse_u8(b"0"), 0);
    assert_eq!(parse_u8(b"42"), 42);
    assert_eq!(parse_u8(b""), 0);
}

#[test]
fn device_ids_name_the_model() {
    assert_eq!(Model::from_device_id(DEVICE_ID_FR2476), Model::Fr2476);
    assert_eq!(Model::from_device_id(0x1234), Model::Unknown(0x1234));
    assert_eq!(Model::Fr2433.device_id(), DEVICE_ID_FR2433);
    assert_eq!(Model::Unknown(0x1234).device_id(), 0x1234);
    assert!(Model::Fr2475.matches_build_family(Family::Fr247x));
    assert!(!Model::Fr2433.matches_build_family(Family::Fr247x));
    assert!(!Model::Unknown(0).matches_build_family(Family::Fr24xx));
    assert_eq!(Model::Fr2476.pin_map(), PinMap { bank_count: 5, mcu_i2c: true, sensor_i2c: true });
    assert_eq!(Model::Fr2433.pin_map(), PinMap { bank_count: 3, mcu_i2c: true, sensor_i2c: false });
    assert_eq!(model_name(Model::Fr2155), "FR2155");
    assert_eq!(model_name(Model::Unknown(7)), "UNKNOWN");
}

#[test]
fn modes_boot_toggle_and_code() {
    let dual = dual_image();
    let passive = passive_image();
    assert_eq!(Mode::default_boot(&dual), Mode::Sensing);
    assert_eq!(Mode::default_boot(&passive), Mode::Passive);
    assert_eq!(Mode::Sensing.toggled(&dual), Mode::Passive);
    assert_eq!(Mode::Passive.toggled(&passive), Mode::Passive);
    assert_eq!(Mode::Passive.code(), regmap::MODE_CODE_PASSIVE);
    assert_eq!(Mode::Sensing.code(), regmap::MODE_CODE_SENSING);
    assert_eq!(Mode::from_code(regmap::MODE_CODE_SENSING, &dual), Some(Mode::Sensing));
    assert_eq!(Mode::from_code(regmap::MODE_CODE_SENSING, &passive), None);
    assert_eq!(Mode::from_code(0x7F, &dual), None);
    assert_eq!(Mode::Sensing.name(), "sensing");
    assert!(Mode::Sensing.is_sensing());
}

#[test]
fn mode_machine_acquires_and_releases_the_sensor_bus() {
    let (mut m, act) = ModeMachine::boot(&dual_image());
    assert_eq!(act, BusAction::Acquire);
    assert!(m.is_sensing());
    assert_eq!(m.switch(Mode::Sensing), Vec::<BusAction>::new());
    assert_eq!(m.switch(Mode::Passive), vec![BusAction::Release, BusAction::Release]);
    assert_eq!(m.current(), Mode::Passive);
    assert_eq!(m.switch(Mode::Sensing), vec![BusAction::Acquire]);
    let (p, act) = ModeMachine::boot(&passive_image());
    assert_eq!(act, BusAction::Release);
    assert!(!p.is_sensing());
}

#[test]
fn presence_set_get_count() {
    let mut p = Presence::new();
    assert_eq!(p.count(), 0);
    p.set(0x39);
    p.set(0x40);
    p.set(0x39);
    assert!(p.get(0x39));
    assert!(p.get(0x40));
    assert!(!p.get(0x3A));
    assert_eq!(p.count(), 2);
}

/// The probe answers of a bus on which exactly `addrs` acknowledge.
fn acks_of(addrs: &[u8]) -> Vec<bool> {
    (LO..=HI).map(|a| addrs.contains(&a)).collect()
}

#[test]
fn presence_follows_the_probe_answers() {
    let p = presence_of(&acks_of(&[0x08, 0x29, 0x77]));
    assert!(p.get(0x08) && p.get(0x29) && p.get(0x77));
    assert!(!p.get(0x07) && !p.get(0x28) && !p.get(0x78));
    assert_eq!(p.count(), 3);
}

#[test]
fn scan_verdicts() {
    let p = acks_of(&[0x39]);
    let ok = scan(true, false, &p, true);
    assert!(!ok.faulted);
    assert!(ok.present.get(0x39));
    assert!(!ok.present.get(0x3A));
    assert!(scan(false, false, &p, true).faulted);
    assert!(!scan(false, true, &p, true).faulted);
    assert!(scan(true, false, &p, false).faulted);
    let all = vec![true; PROBES];
    let everything = scan(true, false, &all, true);
    assert!(everything.present.count() > SANITY_MAX);
    assert!(everything.faulted);
    assert!(everything.present.get(LO) && everything.present.get(HI));
    assert!(!everything.present.get(LO - 1) && !everything.present.get(HI + 1));
    assert!(!Scan::absent().faulted);
}

#[test]
fn report_lists_labelled_addresses() {
    let s = scan(true, false, &acks_of(&[0x39, 0x50]), true);
    let text = report(&s, true, true);
    assert_eq!(
        String::from_utf8(text).unwrap(),
        "bus SDA=H SCL=H\nI2C bus: 0x39(APDS-9960) 0x50?  [2 found]\n"
    );
}

#[test]
fn report_of_an_empty_bus() {
    let s = Scan::absent();
    let text = report(&s, true, false);
    assert_eq!(String::from_utf8(text).unwrap(), "bus SDA=H SCL=L\nI2C bus: (none)  [0 found]\n");
}

#[test]
fn report_of_a_faulted_bus() {
    let s = scan(false, false, &acks_of(&[0x10]), false);
    let text = report(&s, false, true);
    assert_eq!(
        String::from_utf8(text).unwrap(),
        "bus SDA=L SCL=H  !! BUS FAULT (SDA stuck / all-ACK) — scan unreliable [1 ACKs]\n"
    );
}

#[test]
fn booted_status_window() {
    let s = Status::booted(Model::Fr2476, &dual_image());
    assert_eq!(s.read_reg(regmap::DBG_IFACE), regmap::DBG_IFACE_MAGIC);
    assert_eq!(s.read_reg(regmap::DBG_MODEL_L), 0x2A);
    assert_eq!(s.read_reg(regmap::DBG_MODEL_H), 0x83);
    assert_eq!(s.read_reg(regmap::DBG_BUILD_0), 0xD4);
    assert_eq!(s.read_reg(regmap::DBG_BUILD_1), 0xC3);
    assert_eq!(s.read_reg(regmap::DBG_BUILD_2), 0xB2);
    assert_eq!(s.read_reg(regmap::DBG_BUILD_3), 0xA1);
    assert_eq!(s.read_reg(regmap::DBG_STATUS), FLAG_BOOTED);
    assert_eq!(s.read_reg(regmap::DBG_FAULT), 0);
    assert_eq!(s.read_reg(regmap::DBG_FW_VER_MAJOR), 1);
    assert_eq!(s.read_reg(regmap::DBG_FW_VER_MINOR), 2);
    assert_eq!(s.read_reg(regmap::DBG_FW_VER_PATCH), 3);
    assert_eq!(s.read_reg(regmap::MODE_CTRL), regmap::MODE_CODE_UNKNOWN);
    assert_eq!(s.read_reg(0x3F), 0);
    let wrong = Status::booted(Model::Fr2433, &dual_image());
    assert_eq!(wrong.read_reg(regmap::DBG_STATUS), FLAG_BOOTED | FLAG_WRONG_FAMILY);
}

#[test]
fn scanned_status_window() {
    let s = scan(true, false, &acks_of(&[0x3C, 0x39, 0x50]), true);
    let st = Status::from_scan(Model::Fr2476, &s, &dual_image());
    assert_eq!(st.read_reg(regmap::DBG_STATUS), FLAG_BOOTED | FLAG_ENUMERATED | FLAG_BUS_OK);
    assert_eq!(st.read_reg(regmap::DBG_DEV_COUNT), 3);
    assert_eq!(st.read_reg(regmap::DBG_KNOWN_PRESENT), 0b101);
    assert_eq!(st.read_reg(regmap::DBG_FAULT), 0);
    let bad = scan(false, false, &acks_of(&[0x3C]), false);
    let st = Status::from_scan(Model::Fr2476, &bad, &dual_image());
    assert_eq!(st.read_reg(regmap::DBG_STATUS), FLAG_BOOTED | FLAG_ENUMERATED);
    assert_eq!(st.read_reg(regmap::DBG_FAULT), FAULT_BUS_WEDGED);
    assert_eq!(st.read_reg(regmap::DBG_DEV_COUNT), 0);
    assert_eq!(st.read_reg(regmap::DBG_KNOWN_PRESENT), 0);
}

#[test]
fn mode_register_follows_set_mode() {
    let mut s = Status::booted(Model::Fr2476, &dual_image());
    s.set_mode(Mode::Sensing.code());
    assert_eq!(s.read_reg(regmap::MODE_CTRL), regmap::MODE_CODE_SENSING);
    assert_eq!(s.read_reg(regmap::DBG_STATUS), FLAG_BOOTED);
}

fn master_write(s: &mut Slave, rf: &mut RegFile, cmd: u8, data: &[u8]) {
    poll(s, rf, UCSTTIFG | S_RX, Some(cmd));
    for b in data {
        poll(s, rf, S_RX, Some(*b));
    }
    poll(s, rf, UCSTPIFG, None);
}

fn master_read(s: &mut Slave, rf: &mut RegFile, cmd: u8, n: usize) -> Vec<u8> {
    poll(s, rf, UCSTTIFG | S_RX, Some(cmd));
    let mut out = Vec::new();
    for _ in 0..n {
        let r = poll(s, rf, S_TX, None);
        out.push(r.tx.unwrap());
    }
    poll(s, rf, UCSTPIFG, None);
    out
}

#[test]
fn slave_reads_back_what_was_written() {
    let mut s = Slave::new();
    let mut rf = RegFile::new(Status::booted(Model::Fr2476, &dual_image()));
    master_write(&mut s, &mut rf, 0x09, &[0x55]);
    assert_eq!(master_read(&mut s, &mut rf, 0x09, 1), vec![0x55]);
    master_write(&mut s, &mut rf, regmap::INIT_CODE, &[0x07]);
    assert_eq!(master_read(&mut s, &mut rf, regmap::INIT_CODE, 1), vec![0x07]);
}

#[test]
fn slave_auto_increment_writes_a_group() {
    let mut s = Slave::new();
    let mut rf = RegFile::new(Status::booted(Model::Fr2476, &dual_image()));
    master_write(&mut s, &mut rf, regmap::CMD_AI | 0x18, &[1, 2, 3]);
    assert_eq!(master_read(&mut s, &mut rf, regmap::CMD_AI | 0x18, 3), vec![1, 2, 3]);
    assert_eq!(master_read(&mut s, &mut rf, 0x1A, 1), vec![3]);
}

#[test]
fn slave_ignores_writes_to_read_only_registers() {
    let mut s = Slave::new();
    let mut rf = RegFile::new(Status::booted(Model::Fr2476, &dual_image()));
    master_write(&mut s, &mut rf, 0x00, &[0xFF]);
    assert_eq!(master_read(&mut s, &mut rf, 0x00, 1), vec![0]);
    master_write(&mut s, &mut rf, regmap::DBG_IFACE, &[0x00]);
    assert_eq!(master_read(&mut s, &mut rf, regmap::DBG_IFACE, 1), vec![regmap::DBG_IFACE_MAGIC]);
}

#[test]
fn slave_debug_window_reads_sequentially() {
    let mut s = Slave::new();
    let mut rf = RegFile::new(Status::booted(Model::Fr2476, &dual_image()));
    let bytes = master_read(&mut s, &mut rf, regmap::CMD_AI | regmap::DBG_IFACE, 3);
    assert_eq!(bytes, vec![regmap::DBG_IFACE_MAGIC, 0x2A, 0x83]);
}

#[test]
fn slave_clears_the_event_flags_it_saw() {
    let mut s = Slave::new();
    let mut rf = RegFile::new(Status::booted(Model::Fr2476, &dual_image()));
    let r = poll(&mut s, &mut rf, UCSTTIFG | S_RX | 0x0020, Some(0x01));
    assert_eq!(r.clear, UCSTTIFG | 0x0020);
    assert_eq!(r.tx, None);
}

#[test]
fn console_commands() {
    assert_eq!(command_of(b's'), Command::Scan);
    assert_eq!(command_of(b'R'), Command::Report);
    assert_eq!(command_of(b'd'), Command::Debug);
    assert_eq!(command_of(b'M'), Command::SwitchMode);
    assert_eq!(command_of(b'\r'), Command::Ignore);
    assert_eq!(command_of(b'?'), Command::Help);
}

#[test]
fn bus_errors_map_to_nack() {
    assert!(ProdError::Bus.is_no_acknowledge());
    assert!(!ProdError::Unsupported.is_no_acknowledge());
}

#[test]
fn pad_levels_and_recovery_decisions() {
    assert_eq!(bus_levels(0x0C), (true, true));
    assert_eq!(bus_levels(0x08), (false, true));
    assert!(keep_clocking(0, false));
    assert!(!keep_clocking(0, true));
    assert!(!keep_clocking(9, false));
    assert!(needs_resync(0x0F00));
    assert!(!needs_resync(UCSWRST));
}

#[test]
fn spin_expires_at_the_bound() {
    let mut s = Spin::new();
    for _ in 0..SPIN - 1 {
        assert!(!s.tick());
    }
    assert!(s.tick());
}

#[test]
fn write_transfer_sends_every_byte_then_stops() {
    let mut t = Transfer::write(vec![0x10, 0x20]);
    assert!(t.transmits());
    assert_eq!(t.step(0, 0), Action::Wait);
    assert_eq!(t.step(UCTXIFG0, 0), Action::Recheck);
    assert_eq!(t.step(UCTXIFG0, 0), Action::Send(0x10));
    assert_eq!(t.step(UCTXIFG0, 0), Action::Recheck);
    assert_eq!(t.step(0, 0), Action::Send(0x20));
    assert_eq!(t.step(0, 0), Action::Wait);
    assert_eq!(t.step(UCTXIFG0, 0), Action::StopOk);
    assert!(t.is_done());
}

#[test]
fn write_transfer_fails_on_nack() {
    let mut t = Transfer::write(vec![0x10, 0x20]);
    assert_eq!(t.step(UCTXIFG0, 0), Action::Recheck);
    assert_eq!(t.step(UCTXIFG0, 0), Action::Send(0x10));
    assert_eq!(t.step(UCNACKIFG, 0), Action::Recheck);
    assert_eq!(t.step(UCNACKIFG, 0), Action::Abort { clear_nack: true });
    assert!(t.is_done());
}

#[test]
fn stuck_bus_times_out() {
    let mut t = Transfer::write(vec![0x10]);
    for _ in 0..SPIN {
        assert!(!t.waited_out());
        assert_eq!(t.step(0, 0), Action::Wait);
    }
    assert!(t.waited_out());
    assert_eq!(t.give_up(), Action::Abort { clear_nack: false });
    assert!(t.is_done());
}

#[test]
fn empty_write_is_a_probe() {
    let mut t = Transfer::write(Vec::new());
    assert_eq!(t.step(0, UCTXSTT), Action::Wait);
    assert_eq!(t.step(0, 0), Action::StopForVerdict);
    assert_eq!(t.step(0, 0), Action::Verdict(true));
    let mut t = Transfer::probe();
    assert_eq!(t.step(0, 0), Action::StopForVerdict);
    assert_eq!(t.step(UCNACKIFG, 0), Action::Verdict(false));
    assert!(t.is_done());
}

#[test]
fn register_read_turns_around_and_arms_stop_before_the_last_byte() {
    let mut t = Transfer::read_reg(0x92, 2).unwrap();
    assert!(t.transmits());
    assert_eq!(t.step(UCTXIFG0, 0), Action::Recheck);
    assert_eq!(t.step(UCTXIFG0, 0), Action::Send(0x92));
    assert_eq!(t.step(UCTXIFG0, 0), Action::Turnaround);
    assert_eq!(t.step(0, 0), Action::Wait);
    assert_eq!(t.step(UCRXIFG0, 0), Action::Take(0));
    assert_eq!(t.step(0, UCTXSTT), Action::Wait);
    assert_eq!(t.step(0, 0), Action::ArmStop);
    assert_eq!(t.step(UCRXIFG0, 0), Action::Take(1));
    assert_eq!(t.step(0, UCTXSTP), Action::Wait);
    assert_eq!(t.step(0, 0), Action::Complete);
    assert!(t.is_done());
}

#[test]
fn single_byte_register_read() {
    let mut t = Transfer::read_reg(0xC0, 1).unwrap();
    assert_eq!(t.step(UCTXIFG0, 0), Action::Recheck);
    assert_eq!(t.step(0, 0), Action::Send(0xC0));
    assert_eq!(t.step(UCTXIFG0, 0), Action::Turnaround);
    assert_eq!(t.step(0, 0), Action::ArmStop);
    assert_eq!(t.step(UCRXIFG0, 0), Action::Take(0));
    assert_eq!(t.step(0, 0), Action::Complete);
}

#[test]
fn empty_reads_are_refused() {
    assert!(Transfer::read_reg(0x92, 0).is_none());
    assert!(Transfer::read(0).is_none());
}

#[test]
fn bare_read_receives_in_order() {
    let mut t = Transfer::read(3).unwrap();
    assert!(!t.transmits());
    assert_eq!(t.step(UCRXIFG0, 0), Action::Take(0));
    assert_eq!(t.step(UCRXIFG0, 0), Action::Take(1));
    assert_eq!(t.step(0, 0), Action::ArmStop);
    assert_eq!(t.step(UCRXIFG0, 0), Action::Take(2));
    assert_eq!(t.step(0, 0), Action::Complete);
}

#[test]
fn closing_stop_wait_gives_up_quietly() {
    let mut t = Transfer::read(1).unwrap();
    assert_eq!(t.step(0, 0), Action::ArmStop);
    assert_eq!(t.step(UCRXIFG0, 0), Action::Take(0));
    for _ in 0..SPIN {
        assert_eq!(t.step(0, UCTXSTP), Action::Wait);
    }
    assert!(t.waited_out());
    assert_eq!(t.give_up(), Action::Complete);
    assert!(t.is_done());
}

#[test]
fn unanswered_address_still_gets_a_verdict() {
    let mut t = Transfer::probe();
    for _ in 0..SPIN {
        assert_eq!(t.step(0, UCTXSTT), Action::Wait);
    }
    assert_eq!(t.give_up(), Action::StopForVerdict);
    assert_eq!(t.step(UCNACKIFG, 0), Action::Verdict(false));
}

#[test]
fn status_dump_line() {
    let s = Status::booted(Model::Fr2476, &dual_image());
    let text = String::from_utf8(s.dump()).unwrap();
    assert_eq!(
        text,
        "dbg 30-3F: D0 2A 83 D4 C3 B2 A1 01 00 00 00 01 02 03 00 00\n  model=832A build=A1B2C3D4 devs=0 known=0x00 status=0x01 fault=0x00 ver=1.2.3 mode=0x00\n"
    );
}

#[test]
fn device_readout_lines() {
    assert_eq!(apds_line(true, Readout::Value(42)), b"APDS-9960: id ok  prox=42\n".to_vec());
    assert_eq!(apds_line(false, Readout::NotReady), b"APDS-9960: id FAIL  prox=not-ready\n".to_vec());
    assert_eq!(apds_line(true, Readout::Failed), b"APDS-9960: id ok  prox=err\n".to_vec());
    let r = Reading { temp_c_centi: 2345, rh_centi: 5012, crc_ok: true };
    assert_eq!(si_line(true, Readout::Value(r)), b"Si7021: id ok  T=23.45C RH=50.12% crc OK\n".to_vec());
    assert_eq!(si_line(true, Readout::WrongId), b"Si7021: id ok  read err\n".to_vec());
    let a = Accel { x: 0, y: -12, z: 1024 };
    assert_eq!(accel_line(Readout::Value(a)), b"MC6470: x=0 y=-12 z=1024 |a|=1000mg OK\n".to_vec());
    assert_eq!(accel_line(Readout::NotReady), b"MC6470: not ready (wake latency)\n".to_vec());
    let m = MagField { x: 3, y: 4, z: 0 };
    assert_eq!(mag_line(true, Readout::Value(m)), b"MC6470 mag: id ok  x=3 y=4 z=0 |B|=0.75uT\n".to_vec());
    let ids = Ids { model: 0xEE, revision: 0x10, module: 0x01 };
    assert_eq!(tof_line(Readout::Value(ids)), b"VL53L0X: id ok  model=EE rev=10\n".to_vec());
    assert_eq!(tof_line(Readout::WrongId), b"VL53L0X: id FAIL (wrong model)\n".to_vec());
    assert_eq!(range_line(Some((250, Attention::Approaching, true))), b"  250mm APPROACHING NEAR\n".to_vec());
    assert_eq!(range_line(None), b"  read err\n".to_vec());
}
