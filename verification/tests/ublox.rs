use uhrwerk::ublox::cfg::{ValSet, LAYER_BBR, LAYER_RAM};
use uhrwerk::ublox::frame::{checksum, encode, Parser, Poll};
use uhrwerk::ublox::nav::{FixType, NavPvt};
use uhrwerk::ublox::{class, encode_pmreq_backup, encode_poll, key, msg, parse_ack, Ack};

fn feed(p: &mut Parser, bytes: &[u8]) -> Vec<Poll> {
    bytes.iter().map(|b| p.push(*b)).collect()
}

#[test]
fn checksum_is_fletcher_over_the_body() {
    assert_eq!(checksum(&[]), (0, 0));
    assert_eq!(checksum(&[0x0A, 0x04, 0x00, 0x00]), (0x0E, 0x34));
    assert_eq!(checksum(&[0xFF, 0xFF]), (0xFE, 0xFD));
}

#[test]
fn poll_frame_bytes() {
    let mut buf = [0xAAu8; 8];
    let f = encode_poll(class::MON, msg::MON_VER, &mut buf).unwrap();
    assert_eq!(f, &[0xB5, 0x62, 0x0A, 0x04, 0x00, 0x00, 0x0E, 0x34]);
}

#[test]
fn encode_needs_room() {
    let mut buf = [0x55u8; 9];
    assert!(encode(1, 2, &[3, 4], &mut buf).is_none());
    assert_eq!(buf, [0x55; 9]);
    let mut buf = [0x55u8; 11];
    assert_eq!(encode(1, 2, &[3, 4], &mut buf).unwrap().len(), 10);
    assert_eq!(buf[10], 0x55);
}

#[test]
fn encoded_frame_is_parsed_back() {
    let mut buf = [0u8; 64];
    let f = encode(0x06, 0x8A, &[1, 2, 3], &mut buf).unwrap().to_vec();
    let mut p = Parser::new();
    let polls = feed(&mut p, &f);
    assert!(polls[..polls.len() - 1].iter().all(|q| *q == Poll::Pending));
    assert_eq!(*polls.last().unwrap(), Poll::Frame { class: 0x06, id: 0x8A });
    assert_eq!(p.payload(), &[1, 2, 3]);
}

#[test]
fn text_between_frames_is_ignored() {
    let mut buf = [0u8; 16];
    let f = encode(1, 7, &[9], &mut buf).unwrap().to_vec();
    let mut p = Parser::new();
    assert!(feed(&mut p, b"$GNRMC,1*00\r\n").iter().all(|q| *q == Poll::Pending));
    assert_eq!(*feed(&mut p, &f).last().unwrap(), Poll::Frame { class: 1, id: 7 });
    // A first sync byte doubled still syncs.
    let mut p = Parser::new();
    p.push(0xB5);
    assert_eq!(*feed(&mut p, &f).last().unwrap(), Poll::Frame { class: 1, id: 7 });
}

#[test]
fn bad_checksum_is_dropped() {
    let mut buf = [0u8; 16];
    let f = encode(1, 7, &[9], &mut buf).unwrap().to_vec();
    let mut first = f.clone();
    first[7] ^= 1;
    let mut p = Parser::new();
    assert_eq!(feed(&mut p, &first)[7], Poll::BadChecksum { class: 1, id: 7 });
    let mut second = f.clone();
    second[8] ^= 1;
    let mut p = Parser::new();
    assert_eq!(feed(&mut p, &second)[8], Poll::BadChecksum { class: 1, id: 7 });
    // The parser is in sync for the next frame.
    assert_eq!(feed(&mut p, &f)[8], Poll::Frame { class: 1, id: 7 });
}

#[test]
fn long_frames_are_skipped() {
    let payload = vec![7u8; 300];
    let mut buf = vec![0u8; 400];
    let f = encode(2, 3, &payload, &mut buf).unwrap().to_vec();
    let mut p = Parser::new();
    let polls = feed(&mut p, &f);
    assert!(polls[..polls.len() - 1].iter().all(|q| *q == Poll::Pending));
    assert_eq!(*polls.last().unwrap(), Poll::Skipped { class: 2, id: 3, len: 300 });
    // A length that no frame has is a false sync: reported at once.
    let mut p = Parser::new();
    let polls = feed(&mut p, &[0xB5, 0x62, 1, 2, 0xFF, 0xFF]);
    assert_eq!(polls[5], Poll::Skipped { class: 1, id: 2, len: 0xFFFF });
    let mut small = [0u8; 8];
    let g = encode_poll(1, 7, &mut small).unwrap().to_vec();
    assert_eq!(feed(&mut p, &g)[7], Poll::Frame { class: 1, id: 7 });
}

#[test]
fn acks_are_told_apart() {
    assert_eq!(parse_ack(class::ACK, msg::ACK_ACK, &[6, 0x8A]), Some(Ack { class: 6, id: 0x8A, ok: true }));
    assert_eq!(parse_ack(class::ACK, msg::ACK_NAK, &[6, 0x8A]), Some(Ack { class: 6, id: 0x8A, ok: false }));
    assert_eq!(parse_ack(class::ACK, msg::ACK_ACK, &[6]), None);
    assert_eq!(parse_ack(class::NAV, msg::ACK_ACK, &[6, 0x8A]), None);
}

#[test]
fn backup_request_payload() {
    let mut buf = [0u8; 24];
    let f = encode_pmreq_backup(&mut buf).unwrap();
    assert_eq!(&f[..6], &[0xB5, 0x62, 0x02, 0x41, 16, 0]);
    assert_eq!(&f[6..22], &[0, 0, 0, 0, 0, 0, 0, 0, 6, 0, 0, 0, 8, 0, 0, 0]);
    let mut short = [0u8; 23];
    assert!(encode_pmreq_backup(&mut short).is_none());
}

#[test]
fn valset_packs_items_in_order() {
    let mut buf = [0u8; 64];
    let mut v = ValSet::new(&mut buf, LAYER_RAM | LAYER_BBR);
    v.add_bool(key::UART1OUTPROT_NMEA, false)
        .add_u8(key::MSGOUT_NAV_PVT_UART1, 1)
        .add_u16(key::RATE_MEAS, 1000)
        .add_u32(key::UART1_BAUDRATE, 38400);
    assert_eq!(
        v.payload().unwrap(),
        &[
            0, 3, 0, 0, // header
            0x02, 0x00, 0x74, 0x10, 0, // L
            0x07, 0x00, 0x91, 0x20, 1, // U1
            0x01, 0x00, 0x21, 0x30, 0xE8, 0x03, // U2
            0x01, 0x00, 0x52, 0x40, 0x00, 0x96, 0x00, 0x00, // U4
        ]
    );
}

#[test]
fn valset_remembers_overflow() {
    let mut buf = [0u8; 10];
    let mut v = ValSet::new(&mut buf, LAYER_RAM);
    assert_eq!(v.payload(), None);
    v.add_u16(key::RATE_MEAS, 1);
    assert!(v.payload().is_some());
    v.add_u16(key::RATE_NAV, 1);
    assert_eq!(v.payload(), None);
    let mut none = [0u8; 3];
    assert_eq!(ValSet::new(&mut none, LAYER_RAM).payload(), None);
}

fn pvt() -> [u8; 92] {
    let mut p = [0u8; 92];
    p[0..4].copy_from_slice(&123_456u32.to_le_bytes());
    p[4..6].copy_from_slice(&2025u16.to_le_bytes());
    p[6..12].copy_from_slice(&[12, 31, 23, 59, 58, 7]);
    p[16..20].copy_from_slice(&(-5i32).to_le_bytes());
    p[20] = 3;
    p[21] = 1;
    p[23] = 11;
    p[24..28].copy_from_slice(&(-122_000_000i32).to_le_bytes());
    p[28..32].copy_from_slice(&471_234_567i32.to_le_bytes());
    p[76..78].copy_from_slice(&150u16.to_le_bytes());
    p
}

#[test]
fn nav_pvt_fields() {
    let n = NavPvt::parse(&pvt()).unwrap();
    assert_eq!((n.itow_ms, n.year, n.month, n.day, n.hour, n.min, n.sec), (123_456, 2025, 12, 31, 23, 59, 58));
    assert_eq!(n.nano_ns, -5);
    assert_eq!(n.fix_type, FixType::Fix3D);
    assert_eq!((n.lon_1e7, n.lat_1e7), (-122_000_000, 471_234_567));
    assert_eq!((n.num_sv, n.pdop_1e2), (11, 150));
    assert!(NavPvt::parse(&pvt()[..91]).is_none());
}

#[test]
fn nav_pvt_gates() {
    assert!(NavPvt::parse(&pvt()).unwrap().time_trustworthy());
    assert!(NavPvt::parse(&pvt()).unwrap().position_usable());
    for valid in 0..7u8 {
        let mut p = pvt();
        p[11] = valid;
        assert!(!NavPvt::parse(&p).unwrap().time_trustworthy());
    }
    let mut p = pvt();
    p[20] = 5;
    assert!(!NavPvt::parse(&p).unwrap().position_usable());
    let mut p = pvt();
    p[21] = 0;
    assert!(!NavPvt::parse(&p).unwrap().position_usable());
    let mut p = pvt();
    p[78] = 1;
    assert!(!NavPvt::parse(&p).unwrap().position_usable());
}

#[test]
fn fix_types() {
    let all = [
        FixType::NoFix,
        FixType::DeadReckoning,
        FixType::Fix2D,
        FixType::Fix3D,
        FixType::GnssDeadReckoning,
        FixType::TimeOnly,
        FixType::Unknown(6),
    ];
    for (i, f) in all.iter().enumerate() {
        assert_eq!(FixType::from(i as u8), *f);
    }
}
