use uhrwerk::bus::{Bus, Fault, Reply, Request};
use uhrwerk::pmu::interrupts::{InterruptConfig, InterruptStatus};
use uhrwerk::pmu::types::{
    ChargeCurrent, ChargeVoltage, ChargerPhase, CurrentDirection, InputCurrentLimit, LowBatteryWarning,
    PowerKeyConfig, PowerKeyIrqTime, PowerKeyOffTime, PowerKeyOnTime, PowerOffVoltage, TerminationCurrent,
    WatchdogAction, WatchdogConfig, WatchdogTimeout,
};
use uhrwerk::pmu::{Config, Error, Pmu, DEFAULT_ADDRESS};

/// A chip with 256 registers.
struct Chip {
    regs: [u8; 256],
}

impl Chip {
    fn new() -> Chip {
        Chip { regs: [0; 256] }
    }

    fn serve(&mut self, q: &Request) -> Reply {
        match q {
            Request::Write { out, .. } => {
                for (i, b) in out[1..].iter().enumerate() {
                    self.regs[out[0] as usize + i] = *b;
                }
                Reply::Data(vec![])
            }
            Request::WriteRead { out, len, .. } => {
                Reply::Data(self.regs[out[0] as usize..out[0] as usize + len].to_vec())
            }
            _ => Reply::Failed(1),
        }
    }

    /// Run `f` until it no longer waits for a reply.
    fn drive<T>(&mut self, f: impl Fn(&mut Bus) -> T) -> T {
        let mut bus = Bus::new();
        loop {
            bus.rewind();
            let r = f(&mut bus);
            if !bus.is_stalled() {
                return r;
            }
            let reply = self.serve(bus.request(bus.sent_len() - 1));
            bus.reply(reply);
        }
    }
}

fn pmu() -> Pmu {
    Pmu::new(Config::default())
}

/// REG 62 (6.13.2.60): 25*N up to code 8 (200 mA), then 200 + 100*(N-8)
/// up to code 16 (1000 mA).
#[test]
fn charge_current_matches_datasheet() {
    assert_eq!(ChargeCurrent::from_ma(25).0, 1);
    assert_eq!(ChargeCurrent::from_ma(100).0, 4);
    assert_eq!(ChargeCurrent::from_ma(200).0, 8);
    assert_eq!(ChargeCurrent::from_ma(250).0, 8); // gap clamps down
    assert_eq!(ChargeCurrent::from_ma(300).0, 9);
    assert_eq!(ChargeCurrent::from_ma(1000).0, 16);
    assert_eq!(ChargeCurrent::from_ma(2500).0, 16); // reserved above
    for code in 0..=16u8 {
        let ma = ChargeCurrent(code).as_ma();
        assert_eq!(ChargeCurrent::from_ma(ma).0, code, "roundtrip {ma} mA");
    }
}

/// REG 63: 25*N, codes 9-15 reserved -> clamp at 200 mA.
#[test]
fn termination_current_matches_datasheet() {
    assert_eq!(TerminationCurrent::from_ma(25).0, 1);
    assert_eq!(TerminationCurrent::from_ma(50).0, 2);
    assert_eq!(TerminationCurrent::from_ma(375).0, 8);
}

/// REG 24: 2.6 V + 0.1 V per code, 3.2 V = 0b110.
#[test]
fn power_off_voltage_matches_datasheet() {
    assert_eq!(PowerOffVoltage::from_mv(2600).0, 0);
    assert_eq!(PowerOffVoltage::from_mv(3200).0, 6);
    assert_eq!(PowerOffVoltage::from_mv(3300).0, 7);
    assert_eq!(PowerOffVoltage::from_mv(9999).as_mv(), 3300);
}

#[test]
fn wrong_chip_is_refused() {
    let mut chip = Chip::new();
    chip.regs[0x03] = 0x5A;
    assert_eq!(chip.drive(|b| pmu().check_device(b)), Ok(0x5A));
    chip.regs[0x03] = 0x4B;
    assert_eq!(chip.drive(|b| pmu().check_device(b)), Err(Error::DeviceNotFound));
    let mut bus = Bus::new();
    bus.reply(Reply::Failed(3));
    assert_eq!(pmu().check_device(&mut bus), Err(Error::I2c(Fault::Failed(3))));
    assert!(matches!(bus.request(0), Request::WriteRead { addr: DEFAULT_ADDRESS, .. }));
}

#[test]
fn init_sets_voltages_before_enabling() {
    let mut chip = Chip::new();
    chip.regs[0x03] = 0x4A;
    chip.regs[0x18] = 0x02;
    assert_eq!(chip.drive(|b| pmu().init(b)), Ok(0x4A));
    assert_eq!(chip.regs[0x92..0x98], [28, 28, 28, 13, 7, 23][..]);
    assert_eq!(chip.regs[0x90], 0x3F);
    assert_eq!(chip.regs[0x30], 0x1F);
    assert_eq!(chip.regs[0x18], 0x0A);
}

#[test]
fn rails_keep_each_other() {
    let mut chip = Chip::new();
    chip.regs[0x90] = 0xC0;
    chip.drive(|b| pmu().set_audio_rail(b, true)).unwrap();
    assert_eq!(chip.regs[0x90], 0xC1);
    chip.drive(|b| pmu().set_display_rail(b, true)).unwrap();
    assert_eq!(chip.regs[0x90], 0xC3);
    chip.drive(|b| pmu().set_audio_rail(b, false)).unwrap();
    assert_eq!(chip.regs[0x90], 0xC2);
    chip.drive(|b| pmu().disable_all_rails(b)).unwrap();
    assert_eq!((chip.regs[0x90], chip.regs[0x91]), (0, 0));
}

#[test]
fn ldo_voltages_are_checked() {
    let mut chip = Chip::new();
    for mv in [500u16, 1800, 3300, 3500] {
        chip.drive(|b| pmu().set_aldo1_voltage(b, mv)).unwrap();
        assert_eq!(chip.regs[0x92] as u16, (mv - 500) / 100);
    }
    for mv in [0u16, 499, 3501, 5000] {
        let mut bus = Bus::new();
        assert_eq!(pmu().set_bldo2_voltage(&mut bus, mv), Err(Error::InvalidValue));
        assert_eq!(bus.sent_len(), 0);
    }
}

#[test]
fn stepped_voltages_read_back() {
    let mut chip = Chip::new();
    chip.regs[0x14] = 0xA8;
    chip.drive(|b| pmu().set_min_system_voltage(b, 3650)).unwrap();
    assert_eq!(chip.regs[0x14], 0xAC);
    assert_eq!(chip.drive(|b| pmu().min_system_voltage(b)), Ok(3600));
    chip.drive(|b| pmu().set_input_voltage_limit(b, 9999)).unwrap();
    assert_eq!(chip.drive(|b| pmu().input_voltage_limit(b)), Ok(5080));
    chip.drive(|b| pmu().set_dcdc1_voltage(b, 3300)).unwrap();
    assert_eq!(chip.drive(|b| pmu().dcdc1_voltage(b)), Ok(3300));
    for (mv, read) in [(3250u16, 3200u16), (3300, 3300), (3400, 3300), (400, 500)] {
        chip.drive(|b| pmu().set_dldo1_voltage(b, mv)).unwrap();
        assert_eq!(chip.drive(|b| pmu().dldo1_voltage(b)), Ok(read));
    }
    chip.drive(|b| pmu().set_cpusldo_voltage(b, 100)).unwrap();
    assert_eq!(chip.drive(|b| pmu().cpusldo_voltage(b)), Ok(500));
}

#[test]
fn two_range_voltages_read_back() {
    let mut chip = Chip::new();
    chip.regs[0x84] = 0x80;
    for (mv, code) in [(500u16, 0u8), (900, 40), (1200, 70), (1220, 71), (1540, 87)] {
        chip.drive(|b| pmu().set_dcdc3_voltage(b, mv)).unwrap();
        assert_eq!(chip.regs[0x84], 0x80 | code);
        assert_eq!(chip.drive(|b| pmu().dcdc3_voltage(b)), Ok(mv));
    }
    // Between the ranges: the last step of the lower one, bit 7 kept.
    for mv in [1201u16, 1210, 1219] {
        chip.drive(|b| pmu().set_dcdc3_voltage(b, mv)).unwrap();
        assert_eq!(chip.regs[0x84], 0x80 | 70);
        assert_eq!(chip.drive(|b| pmu().dcdc3_voltage(b)), Ok(1200));
        chip.drive(|b| pmu().set_dcdc2_voltage(b, mv)).unwrap();
        assert_eq!(chip.drive(|b| pmu().dcdc2_voltage(b)), Ok(1200));
        chip.drive(|b| pmu().set_dcdc4_voltage(b, mv)).unwrap();
        assert_eq!(chip.drive(|b| pmu().dcdc4_voltage(b)), Ok(1200));
    }
    for (mv, read) in [(0u16, 500u16), (509, 500), (1239, 1220), (65535, 1540)] {
        chip.drive(|b| pmu().set_dcdc2_voltage(b, mv)).unwrap();
        assert_eq!(chip.drive(|b| pmu().dcdc2_voltage(b)), Ok(read));
    }
    chip.drive(|b| pmu().set_dcdc4_voltage(b, 1840)).unwrap();
    assert_eq!(chip.regs[0x85], 102);
    assert_eq!(chip.drive(|b| pmu().dcdc4_voltage(b)), Ok(1840));
}

#[test]
fn adc_readings_are_fourteen_bits() {
    let mut chip = Chip::new();
    chip.regs[0x34] = 0xCF;
    chip.regs[0x35] = 0xA0;
    assert_eq!(chip.drive(|b| pmu().battery_voltage_mv(b)), Ok(0x0FA0));
    chip.regs[0x38] = 0x13;
    chip.regs[0x39] = 0x88;
    assert_eq!(chip.drive(|b| pmu().vbus_voltage_mv(b)), Ok(5000));
}

#[test]
fn status_fields() {
    let mut chip = Chip::new();
    chip.regs[0x00] = 0b0010_1000;
    let s = chip.drive(|b| pmu().read_status1(b)).unwrap();
    assert!(s.vbus_good && s.battery_present && !s.batfet_active && !s.thermal_active);
    chip.regs[0x01] = 0b0011_0011;
    let s = chip.drive(|b| pmu().read_status2(b)).unwrap();
    assert_eq!(s.current_direction, CurrentDirection::Charging);
    assert_eq!(s.charger_phase, ChargerPhase::ConstantVoltage);
    assert!(s.system_on);
}

#[test]
fn charger_settings_read_back() {
    let mut chip = Chip::new();
    chip.regs[0x62] = 0xE0;
    chip.regs[0x63] = 0xE0;
    chip.drive(|b| pmu().set_charge_current(b, ChargeCurrent::from_ma(400))).unwrap();
    assert_eq!(chip.regs[0x62], 0xEA);
    assert_eq!(chip.drive(|b| pmu().charge_current(b)).unwrap().as_ma(), 400);
    chip.drive(|b| pmu().set_termination_current(b, TerminationCurrent::from_ma(75), true)).unwrap();
    assert_eq!(chip.regs[0x63], 0xF3);
    let (t, on) = chip.drive(|b| pmu().termination_current(b)).unwrap();
    assert_eq!((t.as_ma(), on), (75, true));
    for v in [
        ChargeVoltage::V4_0,
        ChargeVoltage::V4_1,
        ChargeVoltage::V4_2,
        ChargeVoltage::V4_35,
        ChargeVoltage::V4_4,
    ] {
        chip.drive(|b| pmu().set_charge_voltage(b, v)).unwrap();
        assert_eq!(chip.drive(|b| pmu().charge_voltage(b)), Ok(Some(v)));
    }
    chip.regs[0x64] = 0;
    assert_eq!(chip.drive(|b| pmu().charge_voltage(b)), Ok(None));
    chip.drive(|b| pmu().set_input_current_limit(b, InputCurrentLimit::Ma900)).unwrap();
    assert_eq!(chip.drive(|b| pmu().input_current_limit(b)), Ok(InputCurrentLimit::Ma900));
}

#[test]
fn configurations_read_back() {
    let mut chip = Chip::new();
    let key = PowerKeyConfig {
        irq_time: PowerKeyIrqTime::Ms2000,
        off_time: PowerKeyOffTime::S10,
        on_time: PowerKeyOnTime::Ms512,
    };
    chip.drive(|b| pmu().set_power_key_config(b, &key)).unwrap();
    assert_eq!(chip.regs[0x27], 0b0010_1101);
    assert_eq!(chip.drive(|b| pmu().power_key_config(b)), Ok(key));
    let dog = WatchdogConfig { timeout: WatchdogTimeout::S16, action: WatchdogAction::Reset };
    chip.drive(|b| pmu().set_watchdog(b, &dog)).unwrap();
    assert_eq!(chip.drive(|b| pmu().watchdog(b)), Ok(dog));
    let low = LowBatteryWarning { level1_percent: 4, level2_percent: 12 };
    chip.drive(|b| pmu().set_low_battery_warning(b, &low)).unwrap();
    assert_eq!(chip.drive(|b| pmu().low_battery_warning(b)), Ok(low));
}

#[test]
fn data_buffers_are_bounded() {
    let mut chip = Chip::new();
    for i in 0..4u8 {
        chip.drive(|b| pmu().write_data_buffer(b, i, 0x90 + i)).unwrap();
        assert_eq!(chip.drive(|b| pmu().read_data_buffer(b, i)), Ok(0x90 + i));
    }
    assert_eq!(chip.regs[4..8], [0x90, 0x91, 0x92, 0x93][..]);
    assert_eq!(chip.drive(|b| pmu().write_data_buffer(b, 4, 0)), Err(Error::InvalidValue));
    assert_eq!(chip.drive(|b| pmu().read_fast_pwron(b, 4)), Err(Error::InvalidValue));
}

#[test]
fn interrupts_are_cleared_by_what_was_read() {
    let mut chip = Chip::new();
    chip.regs[0x48..0x4B].copy_from_slice(&[1, 2, 3]);
    let st = chip.drive(|b| pmu().read_interrupts(b)).unwrap();
    assert_eq!(st, InterruptStatus { reg48: 1, reg49: 2, reg4a: 3 });
    chip.regs[0x48..0x4B].copy_from_slice(&[0, 0, 0]);
    chip.drive(|b| pmu().clear_interrupts(b, &st)).unwrap();
    assert_eq!(chip.regs[0x48..0x4B], [1, 2, 3][..]);
    let cfg = InterruptConfig { reg40: 4, reg41: 5, reg42: 6 };
    chip.drive(|b| pmu().configure_interrupts(b, &cfg)).unwrap();
    assert_eq!(chip.regs[0x40..0x43], [4, 5, 6][..]);
}

#[test]
fn power_commands_set_one_bit() {
    let mut chip = Chip::new();
    chip.regs[0x10] = 0x30;
    chip.drive(|b| pmu().soc_restart(b)).unwrap();
    assert_eq!(chip.regs[0x10], 0x32);
    chip.drive(|b| pmu().soft_power_off(b)).unwrap();
    assert_eq!(chip.regs[0x10], 0x33);
}
