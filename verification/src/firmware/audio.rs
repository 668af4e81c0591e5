//! Audio dispatch and codec bring-up.
//!
//! Playback and capture run in sessions. Between sessions the dispatcher
//! turns commands into sessions; a session that was interrupted by a
//! command of another kind hands that command back, and it is acted on
//! before another is received, so transitions never drop a command.

use vstd::prelude::*;
use crate::bus::{Bus, Fault, Session};
use crate::es7210;
use crate::es7210::{Es7210, MicGain};
use crate::es8311;
use crate::es8311::Es8311;

verus! {

/// A command to the audio task.
#[derive(Debug, Clone, Copy, PartialEq, Eq, Structural)]
pub enum AudioCommand {
    PlayAlarm,
    StopAlarm,
    StartCapture,
    StopCapture,
    PlayTones,
    StopTones,
    StartLoopback,
    StopLoopback,
}

/// What a session does.
#[derive(Debug, Clone, Copy, PartialEq, Eq, Structural)]
pub enum SessionMode {
    Play,
    Capture,
    Tones,
    Loopback,
}

/// What the dispatcher does next.
#[derive(Debug, Clone, Copy, PartialEq, Eq, Structural)]
pub enum AudioAction {
    /// Receive a command.
    Receive,
    /// No session is active: mute the amplifier, defensively.
    Mute,
    /// Run a session; the command it hands back is the next pending one.
    Run(SessionMode),
}

/// The session that a command starts.
pub open spec fn started(c: AudioCommand) -> Option<SessionMode> {
    match c {
        AudioCommand::PlayAlarm => Some(SessionMode::Play),
        AudioCommand::StartCapture => Some(SessionMode::Capture),
        AudioCommand::PlayTones => Some(SessionMode::Tones),
        AudioCommand::StartLoopback => Some(SessionMode::Loopback),
        _ => None,
    }
}

/// What is due with `pending` not yet acted on.
pub open spec fn due(pending: Option<AudioCommand>) -> AudioAction {
    match pending {
        None => AudioAction::Receive,
        Some(c) => match started(c) {
            Some(mode) => AudioAction::Run(mode),
            None => AudioAction::Mute,
        },
    }
}

/// What the dispatcher does next, with `pending` not yet acted on.
pub fn next_action(pending: Option<AudioCommand>) -> (a: AudioAction)
    ensures
        a == due(pending),
{
    match pending {
        None => AudioAction::Receive,
        Some(AudioCommand::StopAlarm)
        | Some(AudioCommand::StopCapture)
        | Some(AudioCommand::StopTones)
        | Some(AudioCommand::StopLoopback) => AudioAction::Mute,
        Some(AudioCommand::PlayAlarm) => AudioAction::Run(SessionMode::Play),
        Some(AudioCommand::StartCapture) => AudioAction::Run(SessionMode::Capture),
        Some(AudioCommand::PlayTones) => AudioAction::Run(SessionMode::Tones),
        Some(AudioCommand::StartLoopback) => AudioAction::Run(SessionMode::Loopback),
    }
}

/// A pending command is acted on before another is received, and two
/// commands that start the same session are the same command.
pub proof fn commands_are_not_dropped(a: AudioCommand, b: AudioCommand)
    ensures
        due(Some(a)) != AudioAction::Receive,
        started(a) is Some && due(Some(a)) == due(Some(b)) ==> a == b,
{
}

/// Analog input gain of the microphone ADC. The level-meter constants are
/// calibrated against this value.
pub const MIC_GAIN: MicGain = MicGain::Db30;

/// Speaker volume of a session: 8 dB below full scale.
pub const SPEAKER_VOLUME: u8 = 0xAF;

/// Where the codec bring-up stands. It runs at the start of every
/// session, with the I2S clocks already up.
#[derive(Debug, Clone, Copy, PartialEq, Eq, Structural)]
pub enum CodecStep {
    /// Reset the DAC.
    DacReset,
    /// Release the DAC's reset and configure it.
    DacConfigure,
    /// Set the DAC's volume.
    DacVolume,
    /// Reset the ADC.
    AdcReset,
    /// Configure the ADC.
    AdcConfigure,
    /// Enable the ADC.
    AdcFinalize,
    /// Set the ADC's gain.
    AdcGain,
    /// Nothing is left.
    Done,
}

/// What a step of the bring-up puts on the bus, and its outcome.
pub open spec fn codec_traffic(s: Session, step: CodecStep) -> (Session, Result<(), Fault>) {
    match step {
        CodecStep::DacReset => s.write_reg(es8311::ADDR, es8311::REG_RESET, 0x1F),
        CodecStep::DacConfigure => crate::bus::chain(
            s.write_regs(es8311::ADDR, es8311::CONFIGURE@),
            |s1: Session, u: ()| s1.write_reg(es8311::ADDR, es8311::REG_DAC_VOL, es8311::VOLUME_0_DB),
        ),
        CodecStep::DacVolume => s.write_reg(es8311::ADDR, es8311::REG_DAC_VOL, SPEAKER_VOLUME),
        CodecStep::AdcReset => s.write_reg(es7210::ADDR, es7210::REG_RESET, 0xFF),
        CodecStep::AdcConfigure => crate::bus::chain(
            s.write_regs(es7210::ADDR, es7210::CONFIGURE@),
            |s1: Session, u: ()| s1.write_reg(es7210::ADDR, es7210::REG_RESET, 0x71),
        ),
        CodecStep::AdcFinalize => s.write_reg(es7210::ADDR, es7210::REG_RESET, 0x41),
        CodecStep::AdcGain => crate::bus::chain(
            s.write_reg(es7210::ADDR, es7210::REG_MIC1_GAIN, 0x1A),
            |s1: Session, u: ()| s1.write_reg(es7210::ADDR, es7210::REG_MIC2_GAIN, 0x1A),
        ),
        CodecStep::Done => (s, Ok(())),
    }
}

/// The step after `step`, and how many milliseconds to wait before it. A
/// DAC that does not answer still gets its volume; an ADC that does not
/// answer ends the bring-up.
pub open spec fn codec_successor(step: CodecStep, ok: bool) -> (CodecStep, u32) {
    match step {
        CodecStep::DacReset => if ok { (CodecStep::DacConfigure, 20) } else { (CodecStep::DacVolume, 0) },
        CodecStep::DacConfigure => (CodecStep::DacVolume, 0),
        CodecStep::DacVolume => (CodecStep::AdcReset, 0),
        CodecStep::AdcReset => if ok { (CodecStep::AdcConfigure, 10) } else { (CodecStep::Done, 0) },
        CodecStep::AdcConfigure => (CodecStep::AdcFinalize, 10),
        CodecStep::AdcFinalize => if ok { (CodecStep::AdcGain, 0) } else { (CodecStep::Done, 0) },
        CodecStep::AdcGain => (CodecStep::Done, 0),
        CodecStep::Done => (CodecStep::Done, 0),
    }
}

/// How many steps are left at most.
pub open spec fn codec_steps_left(step: CodecStep) -> nat {
    match step {
        CodecStep::DacReset => 7,
        CodecStep::DacConfigure => 6,
        CodecStep::DacVolume => 5,
        CodecStep::AdcReset => 4,
        CodecStep::AdcConfigure => 3,
        CodecStep::AdcFinalize => 2,
        CodecStep::AdcGain => 1,
        CodecStep::Done => 0,
    }
}

/// One step of the codec bring-up: the next step, how many milliseconds
/// to wait before it, and what came of this one.
pub fn codec_init(step: CodecStep, i2c: &mut Bus) -> (r: (CodecStep, u32, Result<(), Fault>))
    ensures
        (final(i2c)@, r.2) == codec_traffic(old(i2c)@, step),
        (r.0, r.1) == codec_successor(step, r.2 is Ok),
{
    let dac = Es8311::new();
    let adc = Es7210::new();
    match step {
        CodecStep::DacReset => {
            let r: Result<(), Fault> = dac.init(i2c);
            if r.is_ok() {
                // Reset hold. Skipping it leaves the chip half-reset on
                // some re-inits: silent or warbling DAC, hot ADC path.
                (CodecStep::DacConfigure, 20, r)
            } else {
                (CodecStep::DacVolume, 0, r)
            }
        },
        CodecStep::DacConfigure => (CodecStep::DacVolume, 0, dac.init_after_reset(i2c)),
        CodecStep::DacVolume => (CodecStep::AdcReset, 0, dac.set_volume(i2c, SPEAKER_VOLUME)),
        CodecStep::AdcReset => {
            let r: Result<(), Fault> = adc.init(i2c);
            if r.is_ok() {
                (CodecStep::AdcConfigure, 10, r)
            } else {
                (CodecStep::Done, 0, r)
            }
        },
        CodecStep::AdcConfigure => (CodecStep::AdcFinalize, 10, adc.init_after_delay(i2c)),
        CodecStep::AdcFinalize => {
            let r: Result<(), Fault> = adc.finalize(i2c);
            if r.is_ok() {
                (CodecStep::AdcGain, 0, r)
            } else {
                (CodecStep::Done, 0, r)
            }
        },
        CodecStep::AdcGain => (CodecStep::Done, 0, adc.set_gain(i2c, MIC_GAIN)),
        CodecStep::Done => (CodecStep::Done, 0, Ok(())),
    }
}

/// Whatever the codecs answer, each step brings the end nearer; only at
/// the end does nothing follow.
pub proof fn codec_bring_up_ends(step: CodecStep, ok: bool)
    ensures
        step != CodecStep::Done ==> codec_steps_left(codec_successor(step, ok).0) < codec_steps_left(step),
        codec_steps_left(step) == 0 <==> step == CodecStep::Done,
{
}

} // verus!
