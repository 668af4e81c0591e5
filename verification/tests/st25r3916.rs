use uhrwerk::bus::{Bus, Fault, Reply, Request};
use uhrwerk::st25r3916::{regulator_mv, tx_length, Error, FifoStatus, Identity, Interrupts, St25r3916};

fn with(replies: &[&[u8]]) -> Bus {
    let mut bus = Bus::new();
    for r in replies {
        bus.reply(Reply::Data(r.to_vec()));
    }
    bus
}

fn frames(bus: &Bus) -> Vec<(Vec<u8>, usize)> {
    (0..bus.sent_len())
        .map(|i| match bus.request(i) {
            Request::Frame { out, len } => (out.clone(), *len),
            _ => unreachable!(),
        })
        .collect()
}

#[test]
fn identity_decode() {
    // Type 00101, rev 010 (3.1) -> raw 0x2A.
    let id = Identity { ic_type: 0x2A >> 3, ic_rev: 0x2A & 0x07 };
    assert!(id.is_st25r3916());
    assert_eq!(id.ic_rev, 0b010);
    assert_eq!(Identity::from_byte(0x2A), id);
}

#[test]
fn fifo_count_packs_ten_bits() {
    // 512 bytes: fifo_b9:8 = 10 in status 2 bits 7:6, LSB 0.
    let bytes = ((0x80u16 & 0xC0) << 2) | 0x00;
    assert_eq!(bytes, 512);
    assert_eq!(FifoStatus::from_bytes(0x00, 0x80).bytes, 512);
}

#[test]
fn tx_byte_count_encoding() {
    // 7 bytes + 4 bits (an ISO14443A split anticollision frame):
    // reg1 = 7 >> 5 = 0, reg2 = (7 << 3) | 4.
    assert_eq!((7u16 >> 5) as u8, 0);
    assert_eq!((((7u16 & 0x1F) as u8) << 3) | 4, 0x3C);
    assert_eq!(tx_length(7, 4), [0, 0x3C]);
}

#[test]
fn regulator_mv_decode() {
    // Table 92, 3.3 V column: setting 15 -> 3.4 V, 5 -> 2.4 V.
    assert_eq!(2400 + 100 * (15u16 - 5), 3400);
    assert_eq!(2400 + 100 * (5u16 - 5), 2400);
    assert_eq!(regulator_mv(0xF0), Some(3400));
    assert_eq!(regulator_mv(0x50), Some(2400));
    assert_eq!(regulator_mv(0x4F), None);
}

#[test]
fn register_access_bytes() {
    let nfc = St25r3916::new();
    let mut bus = with(&[&[], &[1, 2], &[], &[3]]);
    let mut two = [0u8; 2];
    let mut one = [0u8; 1];
    nfc.write_reg(&mut bus, 0x02, &[0x80, 0x01]).unwrap();
    nfc.read_reg(&mut bus, 0x3F, &mut two).unwrap();
    nfc.write_reg_b(&mut bus, 0x05, &[0x40]).unwrap();
    nfc.read_reg_b(&mut bus, 0x2C, &mut one).unwrap();
    assert_eq!((two, one), ([1, 2], [3]));
    assert_eq!(
        frames(&bus),
        vec![
            (vec![0x02, 0x80, 0x01], 0),
            (vec![0x7F], 2),
            (vec![0xFB, 0x05, 0x40], 0),
            (vec![0xFB, 0x6C], 1),
        ]
    );
}

#[test]
fn failed_read_leaves_the_buffer() {
    let nfc = St25r3916::new();
    let mut bus = Bus::new();
    bus.reply(Reply::Failed(2));
    let mut data = [9u8; 3];
    assert_eq!(nfc.fifo_read(&mut bus, &mut data), Err(Error::Spi(Fault::Failed(2))));
    assert_eq!(data, [9; 3]);
}

#[test]
fn memory_access_bytes() {
    let nfc = St25r3916::new();
    let mut bus = with(&[&[], &[7], &[], &[8]]);
    let mut b = [0u8; 1];
    nfc.fifo_load(&mut bus, &[1, 2]).unwrap();
    nfc.fifo_read(&mut bus, &mut b).unwrap();
    assert_eq!(b, [7]);
    nfc.pt_memory_load(&mut bus, 0xA0, &[5]).unwrap();
    nfc.pt_memory_read(&mut bus, &mut b).unwrap();
    assert_eq!(b, [8]);
    assert_eq!(
        frames(&bus),
        vec![(vec![0x80, 1, 2], 0), (vec![0x9F], 1), (vec![0xA0, 5], 0), (vec![0xBF, 0x00], 1)]
    );
}

#[test]
fn overheat_fix_is_one_frame() {
    let mut bus = with(&[&[]]);
    St25r3916::new().apply_overheat_protection_fix(&mut bus).unwrap();
    assert_eq!(frames(&bus), vec![(vec![0xFC, 0x04, 0x10], 0)]);
}

#[test]
fn regulators_are_toggled_and_adjusted() {
    let mut bus = with(&[&[0x07], &[], &[0x87], &[], &[]]);
    St25r3916::new().adjust_regulators(&mut bus).unwrap();
    let out: Vec<Vec<u8>> = frames(&bus).into_iter().map(|f| f.0).collect();
    assert_eq!(out[1], vec![out[0][0] & 0x3F, 0x87]);
    assert_eq!(out[3], vec![out[0][0] & 0x3F, 0x07]);
    assert_eq!(out[4], vec![0xD6]);
    let mut bus = with(&[&[0xB0]]);
    assert_eq!(St25r3916::new().regulator_result_mv_3v3(&mut bus), Ok(Some(3000)));
}

#[test]
fn status_decodes() {
    let nfc = St25r3916::new();
    assert_eq!(
        nfc.read_interrupts(&mut with(&[&[1, 2, 3, 4]])),
        Ok(Interrupts { main: 1, timer_nfc: 2, error_wup: 3, target: 4 })
    );
    assert_eq!(nfc.identity(&mut with(&[&[0x2A]])).unwrap().ic_rev, 2);
    assert_eq!(nfc.rssi(&mut with(&[&[0xA5]])), Ok((10, 5)));
    let st = nfc.fifo_status(&mut with(&[&[0x10, 0x7B]])).unwrap();
    assert_eq!((st.bytes, st.last_byte_bits), (0x110, 5));
    assert!(st.underflow && st.overflow && st.missing_parity);
}

#[test]
fn lengths_read_back() {
    for bytes in [0u16, 1, 31, 32, 511, 8191] {
        for extra in 0..8u8 {
            let [a, b] = tx_length(bytes, extra);
            assert_eq!((a as u16 * 32 + b as u16 / 8, b % 8), (bytes, extra));
        }
    }
}

#[test]
fn supply_measurement_selects_its_source() {
    let mut bus = with(&[&[0xFF], &[], &[]]);
    St25r3916::new().measure_power_supply(&mut bus, 0x0B).unwrap();
    let out = frames(&bus);
    assert_eq!(out[1].0[1], 0xFB);
    assert_eq!(out[2].0, vec![0xDF]);
    let mut bus = with(&[&[0x0F], &[]]);
    assert_eq!(St25r3916::new().update_reg(&mut bus, 3, 0x03, 0x80), Ok(0x8C));
}
