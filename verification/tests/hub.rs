use std::collections::VecDeque;

use uhrwerk::bhi260::{event_id, param, UPLOAD_CHUNK};
use uhrwerk::bus::{Bus, Reply, Request};
use uhrwerk::imu::bhi260_imu::{Bhi260Imu, AWAKE_RATE_HZ, FW_BOOT_TRIES, STREAM_ACCEL, STREAM_GYRO};
use uhrwerk::imu::{
    AnyImu, BootStep, SelfTestKind, SelfTestPoll, WearCalibration, WristIntent, WEAR_DWELL_SAMPLES,
};

/// A sensor hub.
struct Hub {
    image: Vec<u8>,
    uploading: usize,
    booted: bool,
    ready: bool,
    error: u8,
    control: u8,
    sensors: Vec<u8>,
    /// Rate bits by sensor.
    rates: Vec<(u8, u32)>,
    status: VecDeque<u8>,
    fifos: [Vec<u8>; 2],
    streams: [VecDeque<u8>; 2],
}

impl Hub {
    fn new() -> Hub {
        Hub {
            image: Vec::new(),
            uploading: 0,
            booted: false,
            ready: true,
            error: 0,
            control: 0,
            sensors: vec![
                STREAM_ACCEL,
                STREAM_GYRO,
                event_id::WAKE_GESTURE_WU,
                event_id::AUX_ANY_MOTION_WU,
                event_id::STEP_COUNTER,
            ],
            rates: Vec::new(),
            status: VecDeque::new(),
            fifos: [Vec::new(), Vec::new()],
            streams: [VecDeque::new(), VecDeque::new()],
        }
    }

    fn rate(&self, id: u8) -> u32 {
        self.rates.iter().rev().find(|r| r.0 == id).map_or(0, |r| r.1)
    }

    fn packet(&mut self, code: u16, content: &[u8]) {
        self.status.extend(code.to_le_bytes());
        self.status.extend((content.len() as u16).to_le_bytes());
        self.status.extend(content);
    }

    fn command(&mut self, p: &[u8]) {
        if self.uploading > 0 {
            self.uploading -= p.len();
            self.image.extend(p);
            return;
        }
        let id = u16::from_le_bytes([p[0], p[1]]);
        let content = &p[4..];
        match id {
            0x0002 => self.uploading = u16::from_le_bytes([p[2], p[3]]) as usize * 4,
            0x0003 => self.booted = true,
            0x000B => {
                let phys = content[0];
                self.packet(0x0006, &[phys, 0, 1, 0, 2, 0, 0xFD, 0xFF]);
            }
            0x000D => {
                let rate = u32::from_le_bytes([content[1], content[2], content[3], content[4]]);
                self.rates.push((content[0], rate));
            }
            _ if id & 0x1000 != 0 => {
                let what = id & 0x0FFF;
                let mut answer = vec![0u8; 32];
                if what == param::VIRT_SENSORS_PRESENT {
                    for s in &self.sensors {
                        answer[(*s / 8) as usize] |= 1 << (*s % 8);
                    }
                } else if what == param::VIRT_SENSOR_CONF_BASE + STREAM_ACCEL as u16 {
                    answer[10] = 8;
                } else if what == param::VIRT_SENSOR_CONF_BASE + STREAM_GYRO as u16 {
                    answer[10] = 250;
                } else {
                    answer[6] = 0x20; // powered down
                }
                self.packet(what, &answer);
            }
            _ => {}
        }
    }

    fn serve(&mut self, q: &Request) -> Reply {
        match q {
            Request::Write { out, .. } => {
                match out[0] {
                    0x00 => self.command(&out[1..]),
                    0x05 => self.error = 0,
                    0x06 => self.control = out[1],
                    _ => {}
                }
                Reply::Data(vec![])
            }
            Request::WriteRead { out, len, .. } => {
                let r = out[0];
                Reply::Data(match r {
                    0x01 | 0x02 => {
                        let i = (r - 1) as usize;
                        if self.streams[i].is_empty() {
                            let n = self.fifos[i].len() as u16;
                            self.streams[i].extend(n.to_le_bytes());
                            let bytes = std::mem::take(&mut self.fifos[i]);
                            self.streams[i].extend(bytes);
                        }
                        self.streams[i].drain(..*len).collect()
                    }
                    0x03 => self.status.drain(..*len).collect(),
                    0x06 => vec![self.control],
                    0x25 => vec![if self.ready { 0x30 } else { 0 }],
                    0x2D => {
                        let mut v = 0;
                        if !self.status.is_empty() {
                            v |= 0x20;
                        }
                        if !self.fifos[0].is_empty() {
                            v |= 0x02;
                        }
                        if !self.fifos[1].is_empty() {
                            v |= 0x08;
                        }
                        vec![v]
                    }
                    0x2E => vec![self.error],
                    _ => vec![0; *len],
                })
            }
            _ => unreachable!(),
        }
    }

    fn change<S: Clone, T>(&mut self, s: &mut S, f: impl Fn(&mut S, &mut Bus) -> T) -> T {
        let mut bus = Bus::new();
        loop {
            bus.rewind();
            let mut copy = s.clone();
            let r = f(&mut copy, &mut bus);
            if !bus.is_stalled() {
                *s = copy;
                return r;
            }
            let reply = self.serve(bus.request(bus.sent_len() - 1));
            bus.reply(reply);
        }
    }
}

fn adapter() -> AnyImu {
    AnyImu::Bhi260(Bhi260Imu::new(
        [0x01, 0x00, 0x01, 0x00, 0x01],
        WearCalibration { axis: [0, 1, 0], enter_lsb: 2800, exit_lsb: 2000 },
    ))
}

fn firmware() -> Vec<u8> {
    (0..3 * UPLOAD_CHUNK + 12).map(|i| (i * 7) as u8).collect()
}

/// Step the bring-up to its end; what it ended in, and the number of
/// steps.
fn boot(hub: &mut Hub, imu: &mut AnyImu) -> (BootStep, usize) {
    let fw = firmware();
    for n in 1..1000 {
        match hub.change(imu, |m, b| m.boot_step(b, &fw)) {
            BootStep::Pending { .. } => {}
            end => return (end, n),
        }
    }
    panic!("bring-up does not end");
}

#[test]
fn hub_is_brought_up() {
    let mut hub = Hub::new();
    let mut imu = adapter();
    assert_eq!(imu.name(), "BHI260AP");
    assert!(hub.change(&mut imu, |m, b| m.read(b)).is_err());
    let (end, _) = boot(&mut hub, &mut imu);
    assert!(matches!(end, BootStep::Ready));
    assert!(hub.booted);
    assert_eq!(hub.image, firmware());
    assert_eq!(hub.rate(STREAM_ACCEL), AWAKE_RATE_HZ);
    assert_eq!(hub.rate(STREAM_GYRO), 25.0f32.to_bits());
    assert_eq!(hub.rate(event_id::WAKE_GESTURE_WU), 25.0f32.to_bits());
    assert_eq!(hub.rate(event_id::STEP_COUNTER), 25.0f32.to_bits());
    assert_eq!(hub.rate(event_id::GLANCE_GESTURE_WU), 0);
}

#[test]
fn hub_failures_are_named() {
    let mut hub = Hub::new();
    hub.ready = false;
    let mut imu = adapter();
    assert!(matches!(boot(&mut hub, &mut imu).0, BootStep::Failed("bootloader never became ready")));
    let mut hub = Hub::new();
    hub.sensors = vec![STREAM_ACCEL];
    let mut imu = adapter();
    assert!(matches!(boot(&mut hub, &mut imu).0, BootStep::Failed("firmware lacks accel/gyro sensors")));
    let mut hub = Hub::new();
    let mut imu = adapter();
    let fw = firmware();
    while !hub.booted {
        hub.change(&mut imu, |m, b| m.boot_step(b, &fw));
    }
    hub.ready = false;
    let (end, n) = boot(&mut hub, &mut imu);
    assert!(matches!(end, BootStep::Failed("firmware never came up")));
    assert_eq!(n, FW_BOOT_TRIES as usize + 1);
}

#[test]
fn samples_are_normalized() {
    let mut hub = Hub::new();
    let mut imu = adapter();
    boot(&mut hub, &mut imu);
    let mut fifo = vec![251, 1];
    fifo.extend([STREAM_ACCEL, 100, 0, 0x9C, 0xFF, 0, 0x10]);
    fifo.extend([STREAM_GYRO, 0x00, 0x01, 0x00, 0xFF, 0, 0]);
    fifo.extend([event_id::STEP_COUNTER, 42, 1, 0, 0]);
    hub.fifos[1] = fifo;
    let d = hub.change(&mut imu, |m, b| m.read(b)).unwrap();
    assert_eq!((d.accel_x, d.accel_y, d.accel_z), (100, -100, 4096));
    assert_eq!((d.gyro_x, d.gyro_y, d.gyro_z), (250, -250, 0));
    assert_eq!((d.steps, d.temp_raw), (Some(298), 0));
    // Nothing new: the sample is repeated.
    let again = hub.change(&mut imu, |m, b| m.read(b)).unwrap();
    assert_eq!((again.accel_z, again.gyro_x, again.steps), (4096, 250, Some(298)));
}

#[test]
fn raise_comes_out_as_an_intent() {
    let mut hub = Hub::new();
    let mut imu = adapter();
    boot(&mut hub, &mut imu);
    for _ in 0..WEAR_DWELL_SAMPLES {
        hub.fifos[1].extend([STREAM_ACCEL, 0, 0, 0x00, 0x0C, 0, 0]);
    }
    hub.change(&mut imu, |m, b| m.read(b)).unwrap();
    assert_eq!(imu.take_intent(), Some(WristIntent::Raised));
    assert_eq!(imu.take_intent(), None);
}

#[test]
fn lost_stream_is_aborted() {
    let mut hub = Hub::new();
    let mut imu = adapter();
    boot(&mut hub, &mut imu);
    hub.fifos[1] = vec![STREAM_ACCEL, 1, 0, 2, 0, 3, 0, 200, 1, 2];
    hub.control = 0x55;
    let d = hub.change(&mut imu, |m, b| m.read(b)).unwrap();
    assert_eq!((d.accel_x, d.accel_y, d.accel_z), (1, 2, 3));
    assert_eq!(hub.control, 0);
}

#[test]
fn sleep_wakes_on_motion() {
    let mut hub = Hub::new();
    let mut imu = adapter();
    boot(&mut hub, &mut imu);
    hub.change(&mut imu, |m, b| m.enter_wom(b));
    assert_eq!(hub.rate(STREAM_ACCEL), 0);
    assert_ne!(hub.control & 0x10, 0);
    assert!(!hub.change(&mut imu, |m, b| m.wom_event(b)));
    hub.fifos[0] = vec![245, 3, event_id::WAKE_GESTURE_WU];
    assert!(hub.change(&mut imu, |m, b| m.wom_event(b)));
    assert!(!hub.change(&mut imu, |m, b| m.wom_event(b)));
    hub.change(&mut imu, |m, b| m.exit_wom(b));
    assert_eq!(hub.rate(STREAM_ACCEL), AWAKE_RATE_HZ);
    assert_eq!(hub.control & 0x10, 0);
}

#[test]
fn self_test_runs_and_restores() {
    let mut hub = Hub::new();
    let mut imu = adapter();
    assert!(!hub.change(&mut imu, |m, b| m.self_test_start(b, SelfTestKind::Accel)));
    boot(&mut hub, &mut imu);
    assert!(hub.change(&mut imu, |m, b| m.self_test_start(b, SelfTestKind::Gyro)));
    assert_eq!(hub.rate(STREAM_GYRO), 0);
    assert!(!hub.change(&mut imu, |m, b| m.self_test_start(b, SelfTestKind::Gyro)));
    assert!(matches!(hub.change(&mut imu, |m, b| m.self_test_poll(b)), SelfTestPoll::Pending));
    match hub.change(&mut imu, |m, b| m.self_test_poll(b)) {
        SelfTestPoll::Done(axes) => {
            assert!(axes.passed);
            assert_eq!(axes.values, [1, 2, -3]);
        }
        _ => panic!("no result"),
    }
    assert_eq!(hub.rate(STREAM_GYRO), AWAKE_RATE_HZ);
    assert!(hub.change(&mut imu, |m, b| m.self_test_start(b, SelfTestKind::Accel)));
    hub.change(&mut imu, |m, b| m.self_test_abort(b));
    assert_eq!(hub.rate(STREAM_ACCEL), AWAKE_RATE_HZ);
    assert!(matches!(hub.change(&mut imu, |m, b| m.self_test_poll(b)), SelfTestPoll::Error));
}

#[test]
fn rejected_self_test_ends_in_an_error() {
    let mut hub = Hub::new();
    let mut imu = adapter();
    boot(&mut hub, &mut imu);
    hub.change(&mut imu, |m, b| m.self_test_start(b, SelfTestKind::Accel));
    hub.change(&mut imu, |m, b| m.self_test_poll(b));
    hub.status.clear();
    hub.error = 0x6F;
    assert!(matches!(hub.change(&mut imu, |m, b| m.self_test_poll(b)), SelfTestPoll::Error));
    assert_eq!(hub.rate(STREAM_ACCEL), AWAKE_RATE_HZ);
}
