use uhrwerk::bhi260::errors::error_description;
use uhrwerk::bhi260::event_id;
use uhrwerk::bhi260::fifo::{event_size, Event, Parser};
use uhrwerk::bhi260::{Bhi260, Error, ADDR, MAX_PARAM_BYTES, UPLOAD_CHUNK};
use uhrwerk::bus::{Bus, Fault, Reply, Request};

fn with(replies: Vec<Reply>) -> Bus {
    let mut bus = Bus::new();
    for r in replies {
        bus.reply(r);
    }
    bus
}

fn data(d: &[u8]) -> Reply {
    Reply::Data(d.to_vec())
}

/// The requests of a session: address, bytes out, bytes to read.
fn sent(bus: &Bus) -> Vec<(u8, Vec<u8>, usize)> {
    (0..bus.sent_len())
        .map(|i| match bus.request(i) {
            Request::Write { addr, out } => (*addr, out.clone(), 0),
            Request::WriteRead { addr, out, len } => (*addr, out.clone(), *len),
            _ => unreachable!(),
        })
        .collect()
}

#[test]
fn event_sizes() {
    assert_eq!(event_size(event_id::PADDING), Some(1));
    assert_eq!(event_size(event_id::ROTATION_VECTOR), Some(11));
    assert_eq!(event_size(event_id::ORIENTATION_WU), Some(7));
    assert_eq!(event_size(event_id::ACCEL_CORRECTED), Some(7));
    assert_eq!(event_size(event_id::TEMPERATURE), Some(3));
    assert_eq!(event_size(event_id::HUMIDITY), Some(2));
    assert_eq!(event_size(event_id::STEP_COUNTER), Some(5));
    assert_eq!(event_size(event_id::BAROMETER), Some(4));
    assert_eq!(event_size(event_id::WAKE_GESTURE_WU), Some(1));
    assert_eq!(event_size(event_id::GPS), Some(27));
    assert_eq!(event_size(event_id::PDR_WU), Some(16));
    assert_eq!(event_size(event_id::SWIM), Some(15));
    assert_eq!(event_size(event_id::DEBUG_DATA), Some(18));
    assert_eq!(event_size(event_id::TS_FULL), Some(6));
    assert_eq!(event_size(event_id::META_EVENT_WU), Some(4));
    assert_eq!(event_size(200), None);
}

#[test]
fn stream_is_walked() {
    let buf = [
        251, 5, // small delta
        254, 16, 1, 2, // meta: initialized
        253, 0x10, 0x00, 0x00, 0x00, 0x01, // full timestamp
        4, 0x01, 0x00, 0xFF, 0xFF, 0x00, 0x80, // accel
        255, // filler
        43, 1, 0, 2, 0, 3, 0, // euler
        34, 1, 0, 2, 0, 3, 0, 4, 0, 5, 0, // quaternion
        252, 0x00, 0x01, // large delta
        52, 0x78, 0x56, 0x34, 0x12, // steps
        63, 0x02, 0x01, // activity
        57, // wake gesture
        128, 0x10, 0x20, // temperature, raw
        0, 200, // padding ends the stream
    ];
    let mut p = Parser::new(&buf);
    assert!(matches!(p.next_event(), Some(Event::Meta { id: 254, kind: 16, b2: 1, b3: 2 })));
    assert_eq!(p.timestamp_ticks, 5);
    assert!(matches!(p.next_event(), Some(Event::Vector3 { id: 4, x: 1, y: -1, z: -32768 })));
    assert_eq!(p.timestamp_ticks, 0x01_0000_0010);
    assert!(matches!(p.next_event(), Some(Event::Euler { id: 43, heading: 1, pitch: 2, roll: 3 })));
    assert!(matches!(
        p.next_event(),
        Some(Event::Quaternion { id: 34, x: 1, y: 2, z: 3, w: 4, accuracy: 5 })
    ));
    assert!(matches!(p.next_event(), Some(Event::StepCount { id: 52, steps: 0x1234_5678 })));
    assert_eq!(p.timestamp_ticks, 0x01_0000_0110);
    assert!(matches!(p.next_event(), Some(Event::Activity { id: 63, bitmap: 0x0102 })));
    assert!(matches!(p.next_event(), Some(Event::Occurrence { id: 57 })));
    match p.next_event() {
        Some(Event::Raw { id: 128, payload }) => assert_eq!(payload, &[0x10, 0x20]),
        other => panic!("{other:?}"),
    }
    assert!(p.next_event().is_none());
    assert_eq!(p.lost_id(), None);
}

#[test]
fn unknown_event_loses_sync() {
    let buf = [57, 200, 57];
    let mut p = Parser::new(&buf);
    assert!(p.next_event().is_some());
    assert!(p.next_event().is_none());
    assert_eq!(p.lost_id(), Some(200));
    assert!(p.next_event().is_none());
}

#[test]
fn truncated_event_is_left() {
    let buf = [57, 4, 1, 0, 2];
    let mut p = Parser::new(&buf);
    assert!(p.next_event().is_some());
    assert!(p.next_event().is_none());
    assert_eq!(p.lost_id(), None);
}

#[test]
fn timestamp_wraps_at_forty_bits() {
    let buf = [253, 0xFF, 0xFF, 0xFF, 0xFF, 0xFF, 251, 3, 57];
    let mut p = Parser::new(&buf);
    assert!(p.next_event().is_some());
    assert_eq!((p.timestamp_ticks, p.running_ticks()), (2, 2));
}

#[test]
fn error_names() {
    assert_eq!(error_description(0x55), "algorithm error: unsupported phys rate");
    assert_eq!(error_description(0x6F), "self-test or FOC unsupported");
    assert_eq!(error_description(0xFE), error_description(0xFD));
}

#[test]
fn identity_fields() {
    let mut bus = with(vec![data(&[0x89, 0x03, 0x1A, 0x14, 0x34, 0x12, 0x78, 0x56, 0x07])]);
    let info = Bhi260::new().probe(&mut bus).unwrap();
    assert_eq!((info.product_id, info.revision, info.feature_status), (0x89, 3, 7));
    assert_eq!((info.rom_version, info.kernel_version, info.user_version), (0x141A, 0x1234, 0x5678));
    assert_eq!(sent(&bus), vec![(ADDR, vec![0x1C], 9)]);
}

#[test]
fn commands_are_padded() {
    let mut bus = with(vec![data(&[]), data(&[]), data(&[])]);
    let chip = Bhi260::with_address(0x29);
    chip.configure_sensor(&mut bus, 4, 50.0f32.to_bits(), 0x0102_0304).unwrap();
    chip.change_dynamic_range(&mut bus, 13, 0x07D0).unwrap();
    chip.send_command(&mut bus, 0x0102, &[9]).unwrap();
    assert_eq!(
        sent(&bus),
        vec![
            (0x29, vec![0, 0x0D, 0x00, 8, 0, 4, 0x00, 0x00, 0x48, 0x42, 0x04, 0x03, 0x02], 0),
            (0x29, vec![0, 0x0E, 0x00, 4, 0, 13, 0xD0, 0x07, 0], 0),
            (0x29, vec![0, 0x02, 0x01, 4, 0, 9, 0, 0, 0], 0),
        ]
    );
    let long = vec![0u8; MAX_PARAM_BYTES + 1];
    assert_eq!(
        chip.send_command(&mut bus, 1, &long),
        Err(Error::Protocol("command content too long"))
    );
    assert_eq!(bus.sent_len(), 3);
}

#[test]
fn upload_goes_in_chunks() {
    let image: Vec<u8> = (0..UPLOAD_CHUNK + 8).map(|i| i as u8).collect();
    let mut bus = with(vec![data(&[]), data(&[]), data(&[])]);
    Bhi260::new().upload_firmware(&mut bus, &image).unwrap();
    let out = sent(&bus);
    let words = (image.len() / 4) as u16;
    assert_eq!(out[0].1, vec![0, 0x02, 0x00, words as u8, (words >> 8) as u8]);
    assert_eq!(out[1].1[1..], image[..UPLOAD_CHUNK]);
    assert_eq!(out[2].1[1..], image[UPLOAD_CHUNK..]);
    let mut bus = with(vec![]);
    assert_eq!(
        Bhi260::new().begin_ram_upload(&mut bus, 6),
        Err(Error::Protocol("firmware image length invalid"))
    );
    assert_eq!(
        Bhi260::new().upload_chunk(&mut bus, &[1, 2, 3]),
        Err(Error::Protocol("upload chunk length invalid"))
    );
}

#[test]
fn verify_outcomes() {
    let chip = Bhi260::new();
    let done = uhrwerk::bhi260::boot_status::FIRMWARE_VERIFY_DONE;
    let bad = uhrwerk::bhi260::boot_status::FIRMWARE_VERIFY_ERROR;
    assert_eq!(chip.firmware_verify_done(&mut with(vec![data(&[done])])), Ok(true));
    assert_eq!(chip.firmware_verify_done(&mut with(vec![data(&[0])])), Ok(false));
    assert_eq!(
        chip.firmware_verify_done(&mut with(vec![data(&[bad | done]), data(&[0x12])])),
        Err(Error::Chip(0x12))
    );
    assert_eq!(
        chip.firmware_verify_done(&mut with(vec![Reply::Failed(7)])),
        Err(Error::Bus(Fault::Failed(7)))
    );
}

#[test]
fn parameter_read_takes_its_answer() {
    let status = uhrwerk::bhi260::int_status::STATUS;
    let mut bus = with(vec![
        data(&[]), // command
        data(&[0]), // nothing yet
        data(&[status]),
        data(&[0x34, 0x02, 4, 0]), // unrelated packet
        data(&[1, 2, 3, 4]),
        data(&[status]),
        data(&[0x20, 0x11, 8, 0]), // the answer, with the read flag
        data(&[9, 8, 7, 6, 5, 4, 3, 2]),
    ]);
    assert_eq!(Bhi260::new().phys_sensors_present(&mut bus), Ok([9, 8, 7, 6, 5, 4, 3, 2]));
    assert_eq!(sent(&bus)[0].1, vec![0, 0x20, 0x11, 0, 0]);
    assert_eq!(bus.sent_len(), 8);
}

#[test]
fn parameter_read_errors() {
    let status = uhrwerk::bhi260::int_status::STATUS;
    let mut out = [0u8; 8];
    let mut bus = with(vec![
        data(&[]),
        data(&[status]),
        data(&[0x0F, 0x00, 4, 0]), // command error
        data(&[0x20, 0x11, 0x03, 0x00]),
    ]);
    assert_eq!(
        Bhi260::new().param_read(&mut bus, 0x0120, &mut out),
        Err(Error::Command { command: 0x1120, error: 3 })
    );
    let mut replies = vec![data(&[])];
    for _ in 0..500 {
        replies.push(data(&[0]));
    }
    assert_eq!(
        Bhi260::new().param_read(&mut with(replies), 0x0120, &mut out),
        Err(Error::Protocol("parameter read timed out"))
    );
    let mut bus = with(vec![data(&[]), data(&[status]), data(&[0x20, 0x01, 4, 0]), data(&[1, 2, 3, 4])]);
    assert_eq!(
        Bhi260::new().phys_sensors_present(&mut bus),
        Err(Error::Protocol("physical sensor bitmap short"))
    );
}

#[test]
fn status_packets_are_drained() {
    let status = uhrwerk::bhi260::int_status::STATUS;
    let mut out = [0u8; 2];
    let mut bus = with(vec![
        data(&[status]),
        data(&[0x55, 0x01, 20, 0]),
        data(&[7, 8]),
        data(&[0; 16]),
        data(&[0; 2]),
    ]);
    assert_eq!(Bhi260::new().try_read_status_packet(&mut bus, &mut out), Ok(Some((0x0155, 2))));
    assert_eq!(out, [7, 8]);
    let lens: Vec<usize> = sent(&bus).iter().map(|q| q.2).collect();
    assert_eq!(lens, vec![1, 4, 2, 16, 2]);
    let mut bus = with(vec![data(&[status]), data(&[0, 0, 0, 0])]);
    assert_eq!(Bhi260::new().try_read_status_packet(&mut bus, &mut out), Ok(None));
}

#[test]
fn fifo_transfer_is_drained() {
    let mut buf = [0u8; 4];
    let mut bus = with(vec![data(&[40, 0]), data(&[1, 2, 3, 4]), data(&[0; 32]), data(&[0; 4])]);
    assert_eq!(Bhi260::new().read_fifo(&mut bus, 1, &mut buf), Ok(4));
    assert_eq!(buf, [1, 2, 3, 4]);
    let lens: Vec<usize> = sent(&bus).iter().map(|q| q.2).collect();
    assert_eq!(lens, vec![2, 4, 32, 4]);
    let mut bus = with(vec![data(&[0, 0])]);
    assert_eq!(Bhi260::new().read_fifo(&mut bus, 1, &mut buf), Ok(0));
}

#[test]
fn orientation_matrix_nibbles() {
    assert_eq!(
        Bhi260::pack_orientation_matrix([0, 1, 0, -1, 0, 0, 0, 0, 1]),
        [0x10, 0xF0, 0x00, 0x00, 0x01]
    );
    assert_eq!(
        Bhi260::pack_orientation_matrix([-1, 0, 0, 0, -1, 0, 0, 0, 1]),
        [0x0F, 0x00, 0x0F, 0x00, 0x01]
    );
}

#[test]
fn sensor_bitmap_bits() {
    let mut map = [0u8; 32];
    map[1] = 0x08;
    map[31] = 0x80;
    assert!(Bhi260::sensor_present(&map, 11));
    assert!(Bhi260::sensor_present(&map, 255));
    assert!(!Bhi260::sensor_present(&map, 12));
}

#[test]
fn suspend_bit_keeps_the_others() {
    let bit = uhrwerk::bhi260::hif_control::AP_SUSPENDED;
    let mut bus = with(vec![data(&[0x81]), data(&[]), data(&[0x81 | bit]), data(&[])]);
    Bhi260::new().set_ap_suspended(&mut bus, true).unwrap();
    Bhi260::new().set_ap_suspended(&mut bus, false).unwrap();
    let out = sent(&bus);
    assert_eq!(out[1].1, vec![out[0].1[0], 0x81 | bit]);
    assert_eq!(out[3].1, vec![out[0].1[0], 0x81]);
}

#[test]
fn test_result_fields() {
    let r = Bhi260::decode_test_result(&[1, 0, 0xFF, 0xFF, 0x02, 0x00, 0x00, 0x80]).unwrap();
    assert_eq!((r.sensor_id, r.status, r.offsets), (1, 0, [-1, 2, -32768]));
    assert!(Bhi260::decode_test_result(&[0; 7]).is_none());
}

#[test]
fn watermarks_layout() {
    let mut bus = with(vec![data(&[])]);
    Bhi260::new().set_fifo_watermarks(&mut bus, 0x0102_0304, 5).unwrap();
    assert_eq!(
        sent(&bus)[0].1,
        vec![0, 0x03, 0x01, 16, 0, 4, 3, 2, 1, 0, 0, 0, 0, 5, 0, 0, 0, 0, 0, 0, 0]
    );
}
