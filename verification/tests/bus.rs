use uhrwerk::bus::{Bus, Fault, Op, Reply, Request};

/// A chip with 256 registers behind an I2C address.
struct Chip {
    regs: [u8; 256],
    writes: usize,
}

impl Chip {
    fn serve(&mut self, q: &Request) -> Reply {
        match q {
            Request::Write { out, .. } => {
                self.writes += 1;
                for (i, b) in out[1..].iter().enumerate() {
                    self.regs[out[0] as usize + i] = *b;
                }
                Reply::Data(vec![])
            }
            Request::WriteRead { out, len, .. } => {
                Reply::Data(self.regs[out[0] as usize..out[0] as usize + len].to_vec())
            }
            _ => Reply::Failed(1),
        }
    }
}

/// Run `f` until it no longer waits for a reply.
fn drive<T>(chip: &mut Chip, f: impl Fn(&mut Bus) -> T) -> T {
    let mut bus = Bus::new();
    loop {
        bus.rewind();
        let r = f(&mut bus);
        if !bus.is_stalled() {
            return r;
        }
        let reply = chip.serve(bus.request(bus.sent_len() - 1));
        bus.reply(reply);
    }
}

#[test]
fn missing_reply_stalls_the_session() {
    let mut bus = Bus::new();
    assert_eq!(bus.read_reg(0x10, 5), Err(Fault::Pending));
    assert!(bus.is_stalled());
    assert_eq!(bus.write_reg(0x10, 6, 1), Err(Fault::Pending));
    assert_eq!(bus.sent_len(), 1);
    bus.reply(Reply::Data(vec![0x42]));
    bus.rewind();
    assert_eq!(bus.read_reg(0x10, 5), Ok(0x42));
    assert!(!bus.is_stalled());
}

#[test]
fn failed_transfer_carries_its_code() {
    let mut bus = Bus::new();
    bus.reply(Reply::Failed(9));
    assert_eq!(bus.write_reg(1, 2, 3), Err(Fault::Failed(9)));
    assert!(!bus.is_stalled());
}

#[test]
fn short_replies_are_zero_filled() {
    let mut bus = Bus::new();
    bus.reply(Reply::Data(vec![1, 2]));
    bus.reply(Reply::Data(vec![1, 2, 3]));
    assert_eq!(bus.read_regs(1, 0, 4), Ok(vec![1, 2, 0, 0]));
    let mut buf = [9u8; 4];
    assert_eq!(bus.read_into(1, 0, &mut buf, 2), Ok(()));
    assert_eq!(buf, [1, 2, 9, 9]);
}

#[test]
fn each_request_is_performed_once() {
    let mut chip = Chip { regs: [0; 256], writes: 0 };
    chip.regs[3] = 0b1010_1010;
    let ops = [
        Op::Put { reg: 1, val: 7 },
        Op::Update { reg: 3, clear: 0x0F, set: 0x05 },
        Op::Put { reg: 2, val: 8 },
    ];
    assert_eq!(drive(&mut chip, |b| b.run(0x20, &ops)), Ok(()));
    assert_eq!((chip.regs[1], chip.regs[2], chip.regs[3]), (7, 8, 0b1010_0101));
    assert_eq!(chip.writes, 3);
}

#[test]
fn program_ends_at_the_first_failure() {
    let mut bus = Bus::new();
    bus.reply(Reply::Data(vec![]));
    bus.reply(Reply::Failed(4));
    let table = [(1, 1), (2, 2), (3, 3)];
    assert_eq!(bus.write_regs(0x20, &table), Err(Fault::Failed(4)));
    assert_eq!(bus.sent_len(), 2);
}

#[test]
fn update_keeps_other_bits() {
    for v in 0..=255u8 {
        let mut chip = Chip { regs: [0; 256], writes: 0 };
        chip.regs[9] = v;
        drive(&mut chip, |b| b.update_reg(1, 9, 0x3C, 0x14)).unwrap();
        assert_eq!(chip.regs[9], (v & 0xC3) | 0x14);
        drive(&mut chip, |b| b.update_reg(1, 9, 0x3C, 0x14)).unwrap();
        assert_eq!(chip.regs[9], (v & 0xC3) | 0x14);
    }
}

#[test]
fn frames_carry_both_ways() {
    let mut bus = Bus::new();
    bus.reply(Reply::Data(vec![5, 6]));
    bus.reply(Reply::Data(vec![]));
    assert_eq!(bus.frame(&[1, 2], 2), Ok(vec![5, 6]));
    assert_eq!(bus.frame_out(&[3]), Ok(()));
    assert!(matches!(bus.request(0), Request::Frame { out, len: 2 } if out == &vec![1, 2]));
    assert!(matches!(bus.request(1), Request::Frame { out, len: 0 } if out == &vec![3]));
}

#[test]
fn busy_line_answers() {
    let mut bus = Bus::new();
    bus.reply(Reply::Data(vec![0]));
    bus.reply(Reply::Data(vec![1]));
    assert_eq!(bus.await_low(100), Ok(true));
    assert_eq!(bus.await_low(100), Ok(false));
}
