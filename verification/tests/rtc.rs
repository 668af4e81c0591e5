use uhrwerk::bus::{Bus, Reply, Request};
use uhrwerk::rtc::types::{Alarm, ClkoutFreq, DateTime, Error, OffsetMode, TimerClock, TimerOutput};
use uhrwerk::rtc::{Config, Rtc};

/// A chip with 256 registers.
struct Chip {
    regs: [u8; 256],
}

impl Chip {
    fn new() -> Chip {
        Chip { regs: [0; 256] }
    }

    fn serve(&mut self, q: &Request) -> Reply {
        match q {
            Request::Write { out, .. } => {
                for (i, b) in out[1..].iter().enumerate() {
                    self.regs[out[0] as usize + i] = *b;
                }
                Reply::Data(vec![])
            }
            Request::WriteRead { out, len, .. } => {
                Reply::Data(self.regs[out[0] as usize..out[0] as usize + len].to_vec())
            }
            _ => Reply::Failed(1),
        }
    }

    /// Run `f` until it no longer waits for a reply.
    fn drive<T>(&mut self, f: impl Fn(&mut Bus) -> T) -> T {
        let mut bus = Bus::new();
        loop {
            bus.rewind();
            let r = f(&mut bus);
            if !bus.is_stalled() {
                return r;
            }
            let reply = self.serve(bus.request(bus.sent_len() - 1));
            bus.reply(reply);
        }
    }
}

fn rtc() -> Rtc {
    Rtc::new(Config::default())
}

fn new_year() -> DateTime {
    DateTime { year: 2025, month: 12, day: 31, weekday: 3, hour: 23, minute: 59, second: 58 }
}

#[test]
fn time_reads_back() {
    let mut chip = Chip::new();
    chip.regs[0x04] = 0x80;
    chip.regs[0x00] = 0x01;
    assert_eq!(chip.drive(|b| rtc().oscillator_stopped(b)), Ok(true));
    chip.drive(|b| rtc().set(b, &new_year())).unwrap();
    assert_eq!(chip.regs[0x04..0x0B], [0x58, 0x59, 0x23, 0x31, 3, 0x12, 0x25][..]);
    assert_eq!(chip.regs[0x00], 0x01);
    assert_eq!(chip.drive(|b| rtc().get(b)), Ok(new_year()));
    assert_eq!(chip.drive(|b| rtc().oscillator_stopped(b)), Ok(false));
}

#[test]
fn clock_is_stopped_while_it_is_set() {
    let mut bus = Bus::new();
    bus.reply(Reply::Data(vec![0x01]));
    for _ in 0..3 {
        bus.reply(Reply::Data(vec![]));
    }
    rtc().set(&mut bus, &new_year()).unwrap();
    assert!(matches!(bus.request(1), Request::Write { out, .. } if out[..] == [0x00, 0x21]));
    assert!(matches!(bus.request(3), Request::Write { out, .. } if out[..] == [0x00, 0x01]));
}

#[test]
fn runs_on_more_replies_repeat_the_requests() {
    let run = |replies: usize| {
        let mut bus = Bus::new();
        for _ in 0..replies {
            bus.reply(Reply::Data(vec![0x01]));
        }
        let r = rtc().set(&mut bus, &new_year());
        let sent: Vec<String> = (0..bus.sent_len()).map(|i| format!("{:?}", bus.request(i))).collect();
        (sent, r.is_ok())
    };
    let (all, done) = run(4);
    assert!(done);
    assert_eq!(all.len(), 4);
    for n in 0..4 {
        assert_eq!(run(n), (all[..n + 1].to_vec(), false));
    }
    assert_eq!(run(6), (all, true));
}

#[test]
fn init_keeps_a_running_clock() {
    let mut chip = Chip::new();
    chip.regs[0x04..0x0B].copy_from_slice(&[0x58, 0x59, 0x23, 0x31, 3, 0x12, 0x25]);
    chip.regs[0x00] = 0x22;
    chip.regs[0x01] = 0xFF;
    chip.regs[0x11] = 0x1F;
    assert_eq!(chip.drive(|b| rtc().init(b)), Ok(false));
    assert_eq!(chip.regs[0x00], 0x01);
    assert_eq!(chip.regs[0x01], 0x00);
    assert_eq!(chip.regs[0x11], 0x19);
    assert_eq!(chip.drive(|b| rtc().get(b)), Ok(new_year()));
}

#[test]
fn init_drops_a_timer_interrupt() {
    let mut chip = Chip::new();
    for (mode, left) in [(0x16u8, 0x10u8), (0x02, 0x00), (0x04, 0x00), (0x19, 0x19)] {
        chip.regs[0x11] = mode;
        assert_eq!(chip.drive(|b| rtc().init(b)), Ok(false));
        assert_eq!(chip.regs[0x11], left);
    }
}

#[test]
fn init_resets_a_stopped_clock() {
    let mut bus = Bus::new();
    bus.reply(Reply::Data(vec![0x80]));
    bus.reply(Reply::Data(vec![]));
    bus.reply(Reply::Data(vec![0x01]));
    bus.reply(Reply::Data(vec![]));
    bus.reply(Reply::Data(vec![0x00]));
    assert_eq!(rtc().init(&mut bus), Ok(true));
    assert!(matches!(bus.request(1), Request::Write { out, .. } if out[..] == [0x00, 0x58]));
    assert_eq!(bus.sent_len(), 5);
}

#[test]
fn alarm_reads_back() {
    let mut chip = Chip::new();
    chip.regs[0x01] = 0x4F;
    let alarm = Alarm { second: None, minute: Some(30), hour: Some(7), day: None, weekday: Some(5) };
    chip.drive(|b| rtc().set_alarm(b, &alarm)).unwrap();
    assert_eq!(chip.regs[0x0B..0x10], [0x80, 0x30, 0x07, 0x80, 5][..]);
    // The stale alarm flag is cleared, the interrupt enabled, TF and COF
    // are kept.
    assert_eq!(chip.regs[0x01], 0x8F);
    assert_eq!(chip.drive(|b| rtc().get_alarm(b)), Ok(alarm));
    chip.drive(|b| rtc().disable_alarm(b)).unwrap();
    assert_eq!(chip.regs[0x01], 0x0F);
}

#[test]
fn disabled_alarm_compares_nothing() {
    let mut chip = Chip::new();
    let all = Alarm { second: Some(59), minute: Some(0), hour: Some(23), day: Some(31), weekday: Some(6) };
    chip.drive(|b| rtc().set_alarm(b, &all)).unwrap();
    assert_eq!(chip.drive(|b| rtc().get_alarm(b)), Ok(all));
    chip.drive(|b| rtc().disable_alarm(b)).unwrap();
    let none = Alarm { second: None, minute: None, hour: None, day: None, weekday: None };
    assert_eq!(chip.drive(|b| rtc().get_alarm(b)), Ok(none));
}

#[test]
fn timer_settings() {
    let mut chip = Chip::new();
    chip.regs[0x01] = 0x0A;
    assert_eq!(
        chip.drive(|b| rtc().set_timer(b, 0, TimerClock::Hz1, TimerOutput::Interrupt)),
        Err(Error::InvalidValue)
    );
    chip.drive(|b| rtc().set_timer(b, 90, TimerClock::Hz1, TimerOutput::Pulse)).unwrap();
    assert_eq!((chip.regs[0x10], chip.regs[0x11], chip.regs[0x01]), (90, 0x17, 0x02));
    assert_eq!(chip.drive(|b| rtc().read_timer_value(b)), Ok(90));
    chip.drive(|b| rtc().disable_timer(b)).unwrap();
    assert_eq!((chip.regs[0x10], chip.regs[0x11]), (0, 0x18));
}

#[test]
fn coarse_offset_excludes_minute_interrupts() {
    let mut chip = Chip::new();
    chip.drive(|b| rtc().set_offset(b, OffsetMode::Normal, -1)).unwrap();
    assert_eq!(chip.regs[0x02], 0x7F);
    chip.drive(|b| rtc().set_offset(b, OffsetMode::Coarse, 100)).unwrap();
    assert_eq!(chip.regs[0x02], 0x80 | 63);
    assert_eq!(chip.drive(|b| rtc().enable_minute_interrupt(b)), Err(Error::InvalidMode));
    chip.drive(|b| rtc().set_offset(b, OffsetMode::Normal, 0)).unwrap();
    chip.drive(|b| rtc().enable_minute_interrupt(b)).unwrap();
    assert_eq!(
        chip.drive(|b| rtc().set_offset(b, OffsetMode::Coarse, 0)),
        Err(Error::InvalidMode)
    );
    chip.drive(|b| rtc().disable_minute_interrupts(b)).unwrap();
    assert_eq!(chip.drive(|b| rtc().set_offset(b, OffsetMode::Coarse, 0)), Ok(()));
}

#[test]
fn clkout_keeps_the_flags() {
    let mut chip = Chip::new();
    chip.regs[0x01] = 0xC8;
    chip.drive(|b| rtc().set_clkout(b, ClkoutFreq::Off)).unwrap();
    assert_eq!(chip.regs[0x01], 0xCF);
    let s = chip.drive(|b| rtc().read_status(b)).unwrap();
    assert!(s.alarm_ie && s.alarm_flag && s.timer_flag && !s.minute_ie && !s.half_min_ie);
}

#[test]
fn ram_byte_reads_back() {
    let mut chip = Chip::new();
    chip.drive(|b| rtc().write_ram(b, 0x5A)).unwrap();
    assert_eq!(chip.drive(|b| rtc().read_ram(b)), Ok(0x5A));
}
