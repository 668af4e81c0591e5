use uhrwerk::bus::{Bus, Fault, Reply, Request};
use uhrwerk::es7210::{Es7210, MicGain};
use uhrwerk::es8311::Es8311;
use uhrwerk::firmware::audio::{
    codec_init, next_action, AudioAction, AudioCommand, CodecStep, SessionMode,
};

fn acks(n: usize) -> Bus {
    let mut bus = Bus::new();
    for _ in 0..n {
        bus.reply(Reply::Data(vec![]));
    }
    bus
}

fn writes(bus: &Bus) -> Vec<(u8, u8, u8)> {
    (0..bus.sent_len())
        .map(|i| match bus.request(i) {
            Request::Write { addr, out } => (*addr, out[0], out[1]),
            _ => unreachable!(),
        })
        .collect()
}

#[test]
fn dac_bring_up_sequence() {
    let dac = Es8311::new();
    let mut bus = acks(1);
    dac.init(&mut bus).unwrap();
    assert_eq!(writes(&bus), vec![(0x18, 0x00, 0x1F)]);
    let mut bus = acks(20);
    dac.init_after_reset(&mut bus).unwrap();
    let w = writes(&bus);
    assert_eq!(w.len(), 20);
    assert_eq!(w[..3], [(0x18, 0x00, 0x00), (0x18, 0x00, 0x80), (0x18, 0x01, 0x3F)][..]);
    assert_eq!(w[8..10], [(0x18, 0x07, 0x00), (0x18, 0x08, 0xFF)][..]);
    assert_eq!(w[19], (0x18, 0x32, 0xBF));
    let mut bus = acks(9);
    dac.power_down(&mut bus).unwrap();
    assert_eq!(writes(&bus)[5], (0x18, 0x0D, 0xFA));
}

#[test]
fn dac_reads() {
    let dac = Es8311::new();
    let mut bus = Bus::new();
    for b in [0x83u8, 0x11, 0x00] {
        bus.reply(Reply::Data(vec![b]));
    }
    assert_eq!(dac.read_ids(&mut bus), Ok([0x83, 0x11, 0x00]));
    let mut bus = Bus::new();
    for b in 0..16u8 {
        bus.reply(Reply::Data(vec![b * 3]));
    }
    let dump = dac.dump_regs(&mut bus).unwrap();
    assert_eq!(dump.len(), 16);
    assert_eq!((dump[0], dump[11], dump[15]), ((0x00, 0), (0x0D, 33), (0x32, 45)));
    let mut bus = Bus::new();
    bus.reply(Reply::Data(vec![1]));
    bus.reply(Reply::Failed(6));
    assert_eq!(dac.dump_regs(&mut bus), Err(Fault::Failed(6)));
    assert_eq!(bus.sent_len(), 2);
}

#[test]
fn adc_bring_up_sequence() {
    let adc = Es7210::new();
    let mut bus = acks(34);
    adc.init(&mut bus).unwrap();
    adc.init_after_delay(&mut bus).unwrap();
    adc.finalize(&mut bus).unwrap();
    let w = writes(&bus);
    assert_eq!(w.len(), 34);
    assert_eq!(w[0], (0x40, 0x00, 0xFF));
    assert_eq!(w[1], (0x40, 0x00, 0x32));
    assert!(w.contains(&(0x40, 0x02, 0xC1)));
    assert_eq!(w[32..], [(0x40, 0x00, 0x71), (0x40, 0x00, 0x41)][..]);
    let mut bus = acks(2);
    adc.set_gain(&mut bus, MicGain::Db33).unwrap();
    assert_eq!(writes(&bus), vec![(0x40, 0x43, 0x1B), (0x40, 0x44, 0x1B)]);
    let mut bus = acks(5);
    adc.power_down(&mut bus).unwrap();
    assert_eq!(writes(&bus)[4], (0x40, 0x40, 0x80));
}

#[test]
fn commands_start_their_sessions() {
    assert_eq!(next_action(None), AudioAction::Receive);
    assert_eq!(next_action(Some(AudioCommand::PlayAlarm)), AudioAction::Run(SessionMode::Play));
    assert_eq!(next_action(Some(AudioCommand::StartCapture)), AudioAction::Run(SessionMode::Capture));
    assert_eq!(next_action(Some(AudioCommand::PlayTones)), AudioAction::Run(SessionMode::Tones));
    assert_eq!(next_action(Some(AudioCommand::StartLoopback)), AudioAction::Run(SessionMode::Loopback));
    for stop in [
        AudioCommand::StopAlarm,
        AudioCommand::StopCapture,
        AudioCommand::StopTones,
        AudioCommand::StopLoopback,
    ] {
        assert_eq!(next_action(Some(stop)), AudioAction::Mute);
    }
}

/// The waits of a bring-up in which the given steps fail.
fn bring_up(failing: &[CodecStep]) -> Vec<(CodecStep, u32)> {
    let mut step = CodecStep::DacReset;
    let mut seen = Vec::new();
    while step != CodecStep::Done {
        let mut bus = Bus::new();
        for _ in 0..40 {
            if failing.contains(&step) {
                bus.reply(Reply::Failed(1));
            } else {
                bus.reply(Reply::Data(vec![]));
            }
        }
        let (next, wait, _) = codec_init(step, &mut bus);
        seen.push((step, wait));
        step = next;
    }
    seen
}

#[test]
fn codec_bring_up_waits() {
    assert_eq!(
        bring_up(&[]),
        vec![
            (CodecStep::DacReset, 20),
            (CodecStep::DacConfigure, 0),
            (CodecStep::DacVolume, 0),
            (CodecStep::AdcReset, 10),
            (CodecStep::AdcConfigure, 10),
            (CodecStep::AdcFinalize, 0),
            (CodecStep::AdcGain, 0),
        ]
    );
    assert_eq!(
        bring_up(&[CodecStep::DacReset, CodecStep::AdcReset]),
        vec![(CodecStep::DacReset, 0), (CodecStep::DacVolume, 0), (CodecStep::AdcReset, 0)]
    );
    assert_eq!(bring_up(&[CodecStep::AdcConfigure]).len(), 7);
    assert_eq!(bring_up(&[CodecStep::AdcFinalize]).len(), 6);
    let mut bus = acks(1);
    codec_init(CodecStep::DacVolume, &mut bus);
    assert_eq!(writes(&bus), vec![(0x18, 0x32, 0xAF)]);
}
