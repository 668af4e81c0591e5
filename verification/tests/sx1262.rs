use uhrwerk::bus::{Bus, Fault, Reply, Request};
use uhrwerk::sx1262::types::{
    ChipMode, CmdStatus, LoRaBw, LoRaCr, LoRaModParams, LoRaPacketParams, LoRaSf, RampTime, SleepConfig,
    StandbyClk, Status,
};
use uhrwerk::sx1262::{
    bitrate_to_br, busy_step, fdev_to_steps, hz_to_pll_steps, image_steps, ms_to_steps, BusyStep, Error, Sx1262,
    BUSY_SPIN_BUDGET, RX_CONTINUOUS,
};

/// A session that answers every BUSY wait with low and every frame with
/// what is in `reads`, in turn.
fn drive<T>(reads: &[&[u8]], f: impl Fn(&mut Bus) -> T) -> (T, Vec<Vec<u8>>) {
    let mut bus = Bus::new();
    let mut frames: Vec<Vec<u8>> = Vec::new();
    let mut next = 0;
    loop {
        bus.rewind();
        let r = f(&mut bus);
        if !bus.is_stalled() {
            return (r, frames);
        }
        let reply = match bus.request(bus.sent_len() - 1) {
            Request::AwaitLow { polls } => {
                assert_eq!(*polls, BUSY_SPIN_BUDGET);
                Reply::Data(vec![0])
            }
            Request::Frame { out, len } => {
                frames.push(out.clone());
                if *len > 0 {
                    next += 1;
                    assert_eq!(reads[next - 1].len(), *len);
                    Reply::Data(reads[next - 1].to_vec())
                } else {
                    Reply::Data(vec![])
                }
            }
            _ => unreachable!(),
        };
        bus.reply(reply);
    }
}

#[test]
fn pll_steps_for_eu868() {
    // 868 MHz * 2^25 / 32 MHz = 27.125 * 2^25
    assert_eq!(hz_to_pll_steps(868_000_000), 0x3640_0000);
}

#[test]
fn timer_steps_per_ms() {
    assert_eq!(ms_to_steps(1), 64);
    assert_eq!(ms_to_steps(1000), 64_000);
    // Saturates below the continuous-RX sentinel.
    assert!(ms_to_steps(u32::MAX) < RX_CONTINUOUS);
}

#[test]
fn gfsk_conversions() {
    // Table 13-43 example rate: br = 32 * 32 MHz / 4800 b/s.
    assert_eq!(bitrate_to_br(4800), 213_333);
    // 25 kHz deviation: 25e3 * 2^25 / 32e6.
    assert_eq!(fdev_to_steps(25_000), 26_214);
}

#[test]
fn image_calibration_step_encoding() {
    // Section 9.2.1 pseudo-code: floor / ceil on the 4 MHz grid. 863
    // floors to 0xD7 like the Table 9-2 preset; the ceil side is one
    // step tighter than the preset's 0xDB - the presets are deliberately
    // wider than the exact grid.
    assert_eq!(863u16 / 4, 0xD7);
    assert_eq!((870u16 + 3) / 4, 0xDA);
    assert_eq!(image_steps(863, 870), (0xD7, 0xDA));
}

#[test]
fn status_decode() {
    // STBY_RC + data available: mode 0x2 << 4, cmd 0x2 << 1.
    let s = Status::from_byte(0x24);
    assert_eq!(s.chip_mode, ChipMode::StandbyRc);
    assert_eq!(s.cmd, CmdStatus::DataAvailable);
}

#[test]
fn conversions_at_the_edges() {
    assert_eq!(ms_to_steps(0), 0);
    assert_eq!(ms_to_steps(262_143), 16_777_152);
    assert_eq!(ms_to_steps(262_144), 0xFF_FFFE);
    assert_eq!(hz_to_pll_steps(0), 0);
    assert_eq!(hz_to_pll_steps(1), 1);
    assert_eq!(bitrate_to_br(1), 1_024_000_000);
    assert_eq!(image_steps(902, 928), (0xE1, 0xE8));
}

#[test]
fn busy_wait_is_bounded() {
    assert_eq!(busy_step(2, Some(true)), BusyStep::Released);
    assert_eq!(busy_step(2, Some(false)), BusyStep::Again { left: 1 });
    assert_eq!(busy_step(1, Some(false)), BusyStep::Timeout);
    assert_eq!(busy_step(1, None), BusyStep::Pin);
    let radio = Sx1262::new();
    let mut bus = Bus::new();
    bus.reply(Reply::Data(vec![1]));
    assert_eq!(radio.set_fs(&mut bus), Err(Error::BusyTimeout));
    let mut bus = Bus::new();
    bus.reply(Reply::Failed(1));
    assert_eq!(radio.set_fs(&mut bus), Err(Error::Pin));
    let mut bus = Bus::new();
    bus.reply(Reply::Data(vec![0]));
    bus.reply(Reply::Failed(5));
    assert_eq!(radio.set_fs(&mut bus), Err(Error::Spi(Fault::Failed(5))));
}

#[test]
fn command_bytes() {
    let radio = Sx1262::new();
    assert_eq!(drive(&[], |b| radio.set_standby(b, StandbyClk::Xosc)).1, vec![vec![0x80, 0x01]]);
    assert_eq!(
        drive(&[], |b| radio.set_sleep(b, SleepConfig { warm_start: true, rtc_wake: false })).1,
        vec![vec![0x84, 0x04]]
    );
    assert_eq!(drive(&[], |b| radio.set_tx(b, 0x012345)).1, vec![vec![0x83, 0x01, 0x23, 0x45]]);
    assert_eq!(drive(&[], |b| radio.set_rx(b, RX_CONTINUOUS)).1, vec![vec![0x82, 0xFF, 0xFF, 0xFF]]);
    assert_eq!(
        drive(&[], |b| radio.set_rf_frequency_hz(b, 868_000_000)).1,
        vec![vec![0x86, 0x36, 0x40, 0x00, 0x00]]
    );
    assert_eq!(
        drive(&[], |b| radio.set_tx_params(b, -9, RampTime::Us200)).1,
        vec![vec![0x8E, 0xF7, 0x04]]
    );
    assert_eq!(
        drive(&[], |b| radio.calibrate_image_mhz(b, 863, 870)).1,
        vec![vec![0x98, 0xD7, 0xDA]]
    );
    assert_eq!(
        drive(&[], |b| radio.set_dio_irq_params(b, 0x0102, 0x0304, 5, 6)).1,
        vec![vec![0x08, 1, 2, 3, 4, 0, 5, 0, 6]]
    );
    assert_eq!(
        drive(&[], |b| radio.write_buffer(b, 0x10, &[7, 8])).1,
        vec![vec![0x0E, 0x10, 7, 8]]
    );
    assert_eq!(
        drive(&[], |b| radio.set_lora_sync_word(b, 0x3444)).1,
        vec![vec![0x0D, 0x07, 0x40, 0x34, 0x44]]
    );
}

#[test]
fn lora_settings_apply_their_fixups() {
    let radio = Sx1262::new();
    let narrow = LoRaModParams {
        sf: LoRaSf::Sf7,
        bw: LoRaBw::Khz125,
        cr: LoRaCr::Cr4_5,
        low_data_rate_opt: false,
    };
    let (r, frames) = drive(&[&[0, 0x10]], |b| radio.set_lora_modulation(b, narrow));
    assert_eq!(r, Ok(()));
    assert!(frames.contains(&vec![0x8B, 0x07, 0x04, 0x01, 0x00]));
    assert!(frames.contains(&vec![0x0D, 0x08, 0x89, 0x14]));
    let wide = LoRaModParams { bw: LoRaBw::Khz500, ..narrow };
    let (_, frames) = drive(&[&[0, 0x1F]], |b| radio.set_lora_modulation(b, wide));
    assert!(frames.contains(&vec![0x0D, 0x08, 0x89, 0x1B]));
    let p = LoRaPacketParams {
        preamble_symbols: 8,
        implicit_header: false,
        payload_len: 20,
        crc_on: true,
        invert_iq: true,
    };
    let (_, frames) = drive(&[&[0, 0xFF]], |b| radio.set_lora_packet_params(b, p));
    assert!(frames.contains(&vec![0x8C, 0x00, 0x08, 0x00, 20, 0x01, 0x01]));
    assert!(frames.contains(&vec![0x0D, 0x07, 0x36, 0xFB]));
}

#[test]
fn answers_are_decoded() {
    let radio = Sx1262::new();
    assert_eq!(drive(&[&[0, 0x12, 0x34]], |b| radio.irq_status(b)).0, Ok(0x1234));
    assert_eq!(drive(&[&[0, 20, 0x80]], |b| radio.rx_buffer_status(b)).0, Ok((20, 0x80)));
    assert_eq!(drive(&[&[0, 161]], |b| radio.rssi_inst_dbm(b)).0, Ok(-80));
    let st = drive(&[&[0, 100, 0xEC, 102]], |b| radio.lora_packet_status(b)).0.unwrap();
    assert_eq!((st.rssi_pkt_dbm, st.snr_pkt_db_x4, st.signal_rssi_dbm), (-50, -20, -51));
    let mut data = [0u8; 3];
    let mut bus = Bus::new();
    bus.reply(Reply::Data(vec![0]));
    bus.reply(Reply::Data(vec![0xAA, 1, 2, 3]));
    radio.read_buffer(&mut bus, 4, &mut data).unwrap();
    assert_eq!(data, [1, 2, 3]);
    assert!(matches!(bus.request(1), Request::Frame { out, len: 4 } if out[..] == [0x1E, 4]));
}

#[test]
fn boosted_gain_is_retained() {
    let radio = Sx1262::new();
    assert_eq!(
        drive(&[], |b| radio.set_rx_gain_boosted(b, true)).1,
        vec![vec![0x0D, 0x08, 0xAC, 0x96], vec![0x0D, 0x02, 0x9F, 0x01], vec![0x0D, 0x02, 0xA0, 0x08, 0xAC]]
    );
    assert_eq!(drive(&[], |b| radio.set_rx_gain_boosted(b, false)).1, vec![vec![0x0D, 0x08, 0xAC, 0x94]]);
}

#[test]
fn wake_does_not_wait_first() {
    let mut bus = Bus::new();
    bus.reply(Reply::Data(vec![0]));
    bus.reply(Reply::Data(vec![0]));
    assert_eq!(Sx1262::new().wake(&mut bus), Ok(()));
    assert!(matches!(bus.request(0), Request::Frame { .. }));
    assert!(matches!(bus.request(1), Request::AwaitLow { .. }));
}
