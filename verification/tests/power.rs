use uhrwerk::bus::{Bus, Reply, Request};
use uhrwerk::firmware::power::{
    chip_revision, C6Board, CpuFreq, PowerControls, PowerSnapshot, ProfileReadback, TouchWait,
};
use uhrwerk::pmu::types::ChargeVoltage;

/// A chip with 256 registers.
struct Chip {
    regs: [u8; 256],
}

impl Chip {
    fn new() -> Chip {
        Chip { regs: [0; 256] }
    }

    fn serve(&mut self, q: &Request) -> Reply {
        match q {
            Request::Write { out, .. } => {
                for (i, b) in out[1..].iter().enumerate() {
                    self.regs[out[0] as usize + i] = *b;
                }
                Reply::Data(vec![])
            }
            Request::WriteRead { out, len, .. } => {
                Reply::Data(self.regs[out[0] as usize..out[0] as usize + len].to_vec())
            }
            _ => Reply::Failed(1),
        }
    }

    /// Run `f` until it no longer waits for a reply.
    fn drive<T>(&mut self, f: impl Fn(&mut Bus) -> T) -> T {
        let mut bus = Bus::new();
        loop {
            bus.rewind();
            let r = f(&mut bus);
            if !bus.is_stalled() {
                return r;
            }
            let reply = self.serve(bus.request(bus.sent_len() - 1));
            bus.reply(reply);
        }
    }
}

#[test]
fn latching_board_is_brought_up() {
    let mut chip = Chip::new();
    chip.regs[0x03] = 0x5A;
    let (controls, _, report) = chip.drive(PowerControls::init).unwrap();
    assert_eq!(controls, PowerControls { sys_out: false, motor: false });
    assert_eq!((report.chip_id, chip_revision(report.chip_id), report.profile_ok), (0x5A, 1, true));
    assert_eq!(
        report.readback,
        ProfileReadback {
            charge_voltage: Some(ChargeVoltage::V4_2),
            charge_current_ma: Some(100),
            termination_ma: Some((25, true)),
            power_off_mv: Some(3200),
        }
    );
    assert_eq!((chip.regs[0x64], chip.regs[0x62], chip.regs[0x63], chip.regs[0x24]), (3, 4, 0x11, 6));
}

#[test]
fn missing_pmu_stops_the_bring_up() {
    let mut chip = Chip::new();
    assert!(chip.drive(PowerControls::init).is_none());
    assert_eq!(chip.regs[0x64], 0);
}

#[test]
fn profile_ends_at_the_first_failure() {
    let mut bus = Bus::new();
    // Identity, two enables, four profile registers, four readbacks: the
    // charge current register cannot be read.
    for b in [0x00u8, 0x00] {
        bus.reply(Reply::Data(vec![b]));
    }
    for _ in 0..4 {
        bus.reply(Reply::Data(vec![0]));
    }
    for _ in 0..2 {
        bus.reply(Reply::Data(vec![3]));
    }
    bus.reply(Reply::Failed(1));
    bus.reply(Reply::Data(vec![3]));
    bus.reply(Reply::Failed(1));
    bus.reply(Reply::Data(vec![0x02]));
    bus.reply(Reply::Data(vec![0x07]));
    let (_, _, report) = C6Board::init(&mut bus);
    assert!(!bus.is_stalled());
    assert_eq!(report.chip_id, None);
    assert!(report.adc_ok && report.monitor_ok && !report.profile_ok);
    assert_eq!(
        report.readback,
        ProfileReadback {
            charge_voltage: Some(ChargeVoltage::V4_2),
            charge_current_ma: None,
            termination_ma: Some((50, false)),
            power_off_mv: Some(3300),
        }
    );
}

#[test]
fn plain_board_leaves_the_rails_alone() {
    let mut chip = Chip::new();
    chip.regs[0x03] = 0x4A;
    chip.regs[0x90] = 0x55;
    let (_, _, report) = chip.drive(C6Board::init);
    assert_eq!(report.chip_id, Some(0x4A));
    assert!(report.adc_ok && report.monitor_ok && report.profile_ok);
    assert_eq!((chip.regs[0x90], chip.regs[0x30]), (0x55, 0x1F));
}

#[test]
fn pins_follow_the_controls() {
    let mut c = PowerControls { sys_out: false, motor: false };
    c.buzz();
    assert_eq!(c, PowerControls { sys_out: false, motor: true });
    c.shutdown();
    c.buzz_stop();
    assert_eq!(c, PowerControls { sys_out: true, motor: false });
    assert_eq!(c.arm_wake_sources(), [0, 38, 39]);
    assert_eq!(C6Board.arm_wake_sources(), [9, 15]);
}

#[test]
fn cpu_clock_settings() {
    let c = PowerControls { sys_out: false, motor: false };
    assert_eq!(c.set_cpu_freq(CpuFreq::Mhz80), (0, 80));
    assert_eq!(c.set_cpu_freq(CpuFreq::Mhz160), (1, 160));
    assert_eq!(c.set_cpu_freq(CpuFreq::Mhz240), (2, 240));
    assert_eq!(C6Board.set_cpu_freq(CpuFreq::Mhz80), 1);
    assert_eq!(C6Board.set_cpu_freq(CpuFreq::Mhz240), 0);
}

#[test]
fn sleep_settings() {
    let t = PowerControls { sys_out: false, motor: false }.tune_sleep_config();
    assert!(t.rtc_regulator_fpu && t.xtal_fpu && !t.light_slp_reject);
    assert_eq!(C6Board.sleep_clock_probe(0), Some(0));
    assert_eq!(C6Board.sleep_clock_probe(77), Some(77));
    assert_eq!((C6Board.provided_period(0), C6Board.provided_period(77)), (None, Some(77)));
    assert_eq!(C6Board.sleep_watchdog_timeout(), Some(30));
}

#[test]
fn touch_wait_is_bounded() {
    let mut w = TouchWait::new();
    for _ in 0..9 {
        w = w.step(false);
        assert!(matches!(w, TouchWait::Polling { .. }));
    }
    assert_eq!(w.step(true), TouchWait::Awake { after_ms: 5000 });
    assert_eq!(w.step(false), TouchWait::GaveUp);
    assert_eq!(TouchWait::GaveUp.step(true), TouchWait::GaveUp);
    assert_eq!(TouchWait::new().step(true), TouchWait::Awake { after_ms: 500 });
}

#[test]
fn empty_snapshot() {
    assert_eq!(
        PowerSnapshot::default(),
        PowerSnapshot { battery_percent: None, battery_voltage_mv: None }
    );
}
