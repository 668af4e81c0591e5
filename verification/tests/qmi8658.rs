use uhrwerk::bus::{Bus, Fault, Reply, Request};
use uhrwerk::imu::{AnyImu, BootStep, ImuData, QmiImu, SelfTestKind, SelfTestPoll};
use uhrwerk::qmi8658::{
    AccelScale, Config, Error, GyroScale, Odr, Qmi8658, WomConfig, WomInterrupt, ADDR,
};

/// A chip whose handshake bits follow its control registers.
struct Chip {
    regs: [u8; 256],
    writes: Vec<(u8, u8)>,
}

impl Chip {
    fn new() -> Chip {
        let mut regs = [0; 256];
        regs[0x00] = 0x05;
        regs[0x01] = 0x7C;
        regs[0x2E] = 0x03;
        Chip { regs, writes: Vec::new() }
    }

    fn serve(&mut self, q: &Request) -> Reply {
        match q {
            Request::Write { addr, out } => {
                assert_eq!(*addr, ADDR);
                for (i, b) in out[1..].iter().enumerate() {
                    self.regs[out[0] as usize + i] = *b;
                    self.writes.push((out[0] + i as u8, *b));
                }
                Reply::Data(vec![])
            }
            Request::WriteRead { out, len, .. } => {
                // Command done; self-test data available while a
                // self-test bit is set.
                self.regs[0x2D] = 0x80 | ((self.regs[0x03] | self.regs[0x04]) >> 7);
                Reply::Data(self.regs[out[0] as usize..out[0] as usize + len].to_vec())
            }
            _ => unreachable!(),
        }
    }

    fn drive<T>(&mut self, f: impl Fn(&mut Bus) -> T) -> T {
        let mut bus = Bus::new();
        loop {
            bus.rewind();
            let r = f(&mut bus);
            if !bus.is_stalled() {
                return r;
            }
            let reply = self.serve(bus.request(bus.sent_len() - 1));
            bus.reply(reply);
        }
    }

    /// Run a method that changes its receiver.
    fn change<S: Clone, T>(&mut self, s: &mut S, f: impl Fn(&mut S, &mut Bus) -> T) -> T {
        let before = s.clone();
        let (after, r) = self.drive(|b| {
            let mut copy = before.clone();
            let r = f(&mut copy, b);
            (copy, r)
        });
        *s = after;
        r
    }

    fn put16(&mut self, at: usize, v: i16) {
        self.regs[at..at + 2].copy_from_slice(&v.to_le_bytes());
    }
}

fn imu() -> Qmi8658 {
    Qmi8658::new(Config::default())
}

#[test]
fn init_writes_the_configuration() {
    let mut chip = Chip::new();
    chip.drive(|b| imu().init(b, &Config::default())).unwrap();
    assert_eq!(
        chip.writes,
        vec![(0x02, 0x60), (0x09, 0x80), (0x03, 0x26), (0x04, 0x46), (0x06, 0x30), (0x08, 0x03)]
    );
    chip.regs[0x00] = 0x06;
    assert_eq!(chip.drive(|b| imu().init(b, &Config::default())), Err(Error::DeviceNotFound));
    let mut bus = Bus::new();
    bus.reply(Reply::Failed(8));
    assert_eq!(imu().init(&mut bus, &Config::default()), Err(Error::I2c(Fault::Failed(8))));
}

#[test]
fn snapshot_takes_the_bias_off() {
    let mut chip = Chip::new();
    for (i, v) in [-256i16, 1, -2, 3, 100, -32768, 32767].iter().enumerate() {
        chip.put16(0x33 + 2 * i, *v);
    }
    let mut m = imu();
    m.set_gyro_bias(10, 5, -5);
    let d = chip.drive(|b| m.read(b)).unwrap();
    assert_eq!((d.temp_raw, d.temp_celsius()), (-256, -1));
    assert_eq!((d.accel_x, d.accel_y, d.accel_z), (1, -2, 3));
    assert_eq!((d.gyro_x, d.gyro_y, d.gyro_z), (90, -32768, 32767));
}

#[test]
fn temperature_is_the_nearest_degree() {
    let at = |raw: i16| ImuData { temp_raw: raw, ..Default::default() }.temp_celsius();
    assert_eq!((at(0), at(255), at(256), at(6400), at(6600)), (0, 1, 1, 25, 26));
    assert_eq!((at(127), at(128), at(-128), at(-129)), (0, 1, 0, -1));
    assert_eq!((at(-1), at(-32768), at(32639), at(32640), at(32767)), (0, -128, 127, 127, 127));
}

#[test]
fn bias_is_a_mean_toward_zero() {
    let mut bus = Bus::new();
    for v in [-3i16, -4] {
        bus.reply(Reply::Data(vec![0x02]));
        let b = v.to_le_bytes();
        bus.reply(Reply::Data(vec![b[0], b[1], 9, 0, 0, 0]));
    }
    assert_eq!(imu().collect_gyro_bias(&mut bus, 2), Ok((-3, 9, 0)));
    let mut bus = Bus::new();
    for _ in 0..1000 {
        bus.reply(Reply::Data(vec![0x01]));
    }
    assert_eq!(imu().collect_gyro_bias(&mut bus, 1), Err(Error::Timeout));
    assert_eq!(bus.sent_len(), 1000);
}

#[test]
fn gyro_offsets_are_fixed_point() {
    let mut chip = Chip::new();
    // 256 dps full scale is 128 LSB per dps: 11.5 fixed point is /4.
    chip.drive(|b| imu().calibrate_gyro(b, 400, -7, 0)).unwrap();
    assert_eq!(chip.regs[0x0B..0x11], [100, 0, 0xFF, 0xFF, 0, 0][..]);
    assert_eq!(chip.writes[6..], [(0x0A, 0x0A), (0x0A, 0x00)][..]);
}

#[test]
fn scales() {
    let cfg = Config { accel_scale: AccelScale::G16, gyro_scale: GyroScale::Dps64, ..Default::default() };
    let m = Qmi8658::new(cfg);
    assert_eq!((m.accel_scale().lsb_per_g(), m.gyro_scale().lsb_per_dps()), (2048, 512));
    assert_eq!((AccelScale::G2.lsb_per_g(), GyroScale::Dps256.lsb_per_dps()), (16384, 128));
}

#[test]
fn rate_changes_keep_the_scale() {
    let mut chip = Chip::new();
    chip.regs[0x03] = 0xA6;
    chip.drive(|b| imu().set_accel_odr(b, Odr::Hz1000)).unwrap();
    assert_eq!(chip.regs[0x03], 0xA3);
    chip.regs[0x08] = 0x82;
    chip.drive(|b| imu().set_accel_enable(b, true)).unwrap();
    assert_eq!(chip.regs[0x08], 0x83);
    chip.drive(|b| imu().set_gyro_enable(b, false)).unwrap();
    assert_eq!(chip.regs[0x08], 0x81);
}

#[test]
fn wom_registers() {
    let mut chip = Chip::new();
    let cfg = WomConfig { threshold_mg: 80, interrupt: WomInterrupt::Int2High, blanking_samples: 0x3F };
    chip.drive(|b| imu().configure_wom(b, &cfg)).unwrap();
    assert_eq!((chip.regs[0x0B], chip.regs[0x0C]), (80, 0xFF));
    chip.regs[0x2F] = 0x04;
    assert_eq!(chip.drive(|b| imu().wom_event(b)), Ok(true));
    chip.drive(|b| imu().disable_wom(b)).unwrap();
    assert_eq!((chip.regs[0x0B], chip.regs[0x0C]), (0, 0));
}

#[test]
fn self_test_results() {
    let mut chip = Chip::new();
    chip.regs[0x03] = 0x26;
    for (i, v) in [2048i16, -1024, 410].iter().enumerate() {
        chip.put16(0x51 + 2 * i, *v);
    }
    let r = chip.drive(|b| imu().run_accel_self_test(b)).unwrap();
    assert_eq!((r.x_mg, r.y_mg, r.z_mg, r.passed), (1000, -500, 200, false));
    assert_eq!(chip.writes, vec![(0x08, 0), (0x03, 0xA6), (0x03, 0x26)]);
    for (i, v) in [4832i16, -4816, 5000].iter().enumerate() {
        chip.put16(0x51 + 2 * i, *v);
    }
    let r = chip.drive(|b| imu().run_gyro_self_test(b)).unwrap();
    assert_eq!((r.x_dps, r.y_dps, r.z_dps, r.passed), (302, -301, 312, true));
}

#[test]
fn staged_bring_up() {
    let mut chip = Chip::new();
    for i in 0..3 {
        chip.put16(0x3B + 2 * i, 64);
    }
    let mut any = AnyImu::Qmi8658(QmiImu::new());
    assert_eq!(any.name(), "QMI8658");
    let mut step = || chip.change(&mut any, |m, b| m.boot_step(b, &[]));
    assert!(matches!(step(), BootStep::Pending { delay_ms: 20 }));
    assert!(matches!(step(), BootStep::Pending { delay_ms: 250 }));
    assert!(matches!(step(), BootStep::Ready));
    assert!(matches!(step(), BootStep::Ready));
    let d = chip.change(&mut any, |m, b| m.read(b)).unwrap();
    assert_eq!((d.gyro_x, d.steps), (0, None));
    assert_eq!(any.take_intent(), None);
}

#[test]
fn missing_chip_fails_for_good() {
    let mut chip = Chip::new();
    chip.regs[0x00] = 0;
    let mut any = AnyImu::Qmi8658(QmiImu::new());
    chip.change(&mut any, |m, b| m.boot_step(b, &[]));
    assert!(matches!(chip.change(&mut any, |m, b| m.boot_step(b, &[])), BootStep::Failed("QMI8658 not found")));
    let n = chip.writes.len();
    assert!(matches!(chip.change(&mut any, |m, b| m.boot_step(b, &[])), BootStep::Failed("QMI8658 not found")));
    assert_eq!(chip.writes.len(), n);
}

#[test]
fn self_test_settles_then_restores() {
    let mut chip = Chip::new();
    let mut any = AnyImu::Qmi8658(QmiImu::new());
    assert!(chip.change(&mut any, |m, b| m.self_test_start(b, SelfTestKind::Accel)));
    for _ in 0..25 {
        assert!(matches!(chip.change(&mut any, |m, b| m.self_test_poll(b)), SelfTestPoll::Pending));
    }
    assert!(chip.writes.is_empty());
    assert!(matches!(chip.change(&mut any, |m, b| m.self_test_poll(b)), SelfTestPoll::Done(_)));
    assert_eq!(*chip.writes.last().unwrap(), (0x08, 0x03));
    assert!(matches!(chip.change(&mut any, |m, b| m.self_test_poll(b)), SelfTestPoll::Error));
    chip.change(&mut any, |m, b| m.self_test_start(b, SelfTestKind::Gyro));
    chip.change(&mut any, |m, b| m.self_test_abort(b));
    assert!(matches!(chip.change(&mut any, |m, b| m.self_test_poll(b)), SelfTestPoll::Error));
}

#[test]
fn sleep_and_back() {
    let mut chip = Chip::new();
    let mut any = AnyImu::Qmi8658(QmiImu::new());
    chip.change(&mut any, |m, b| m.enter_wom(b));
    assert_eq!(chip.regs[0x08], 0x01);
    assert_eq!((chip.regs[0x0B], chip.regs[0x0C]), (80, 63));
    chip.regs[0x2F] = 0x04;
    assert!(chip.change(&mut any, |m, b| m.wom_event(b)));
    chip.change(&mut any, |m, b| m.exit_wom(b));
    assert_eq!((chip.regs[0x0B], chip.regs[0x08], chip.regs[0x03]), (0, 0x03, 0x26));
}
