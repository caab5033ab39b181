//! Format negotiation: the fixed step order, the buffer-size policy, the
//! native format mapping, and the effective sizes a success yields.

use cpal::alsa::{
    hw_commands, max_buffer_frames, native_format, set_hw_params_from_format,
    set_sw_params_from_format, sw_commands, HwCommand, HwNegotiation, SwCommand, SwNegotiation,
    SND_PCM_ACCESS_RW_INTERLEAVED, SND_PCM_FORMAT_FLOAT_BE, SND_PCM_FORMAT_FLOAT_LE,
    SND_PCM_FORMAT_S16_BE, SND_PCM_FORMAT_S16_LE, SND_PCM_FORMAT_U16_BE, SND_PCM_FORMAT_U16_LE,
};
use cpal::sample_size;
use cpal::wasapi::{map_format, KSDATAFORMAT_SUBTYPE_IEEE_FLOAT, WAVE_FORMAT_EXTENSIBLE};
use cpal::{Format, SampleFormat, SampleRate};

fn stereo_f32() -> Format {
    Format { channels: 2, data_type: SampleFormat::F32, sample_rate: SampleRate(48_000) }
}

fn hw_all_ok() -> HwNegotiation {
    HwNegotiation {
        init: 0,
        set_access: 0,
        set_format: 0,
        set_rate: 0,
        set_channels: 0,
        set_buffer_size_max: 0,
        commit: 0,
    }
}

fn sw_all_ok(buffer: u64, period: u64) -> SwNegotiation {
    SwNegotiation {
        alloc: 0,
        current: 0,
        set_start_threshold: 0,
        get_params: 0,
        buffer_frames: buffer,
        period_frames: period,
        set_avail_min: 0,
        commit: 0,
    }
}

#[test]
fn hw_negotiation_succeeds_when_all_steps_accepted() {
    let format = stereo_f32();
    assert!(set_hw_params_from_format(&format, &hw_all_ok()).is_ok());
}

#[test]
fn hw_negotiation_reports_the_failing_step() {
    let format = stereo_f32();
    let mut reply = hw_all_ok();
    reply.set_format = -22;
    let err = set_hw_params_from_format(&format, &reply).unwrap_err();
    assert_eq!(err, "format could not be set");
}

#[test]
fn hw_negotiation_first_rejection_short_circuits() {
    let format = stereo_f32();
    let mut reply = hw_all_ok();
    reply.set_access = -5;
    reply.set_rate = -22;
    let err = set_hw_params_from_format(&format, &reply).unwrap_err();
    assert_eq!(err, "handle not accessible");
}

#[test]
fn hw_commands_follow_the_fixed_order() {
    let format = stereo_f32();
    let commands = hw_commands(&format, false);
    assert_eq!(
        commands,
        vec![
            HwCommand::Init,
            HwCommand::SetAccess(SND_PCM_ACCESS_RW_INTERLEAVED),
            HwCommand::SetFormat(SND_PCM_FORMAT_FLOAT_LE),
            HwCommand::SetRate(48_000),
            HwCommand::SetChannels(2),
            HwCommand::SetBufferSizeMax(4_800),
            HwCommand::Commit,
        ]
    );
}

#[test]
fn buffer_policy_is_a_fifth_of_a_second() {
    let format = stereo_f32();
    assert_eq!(max_buffer_frames(&format), 48_000 / 2 / 5);
    let mono =
        Format { channels: 1, data_type: SampleFormat::I16, sample_rate: SampleRate(8_000) };
    assert_eq!(max_buffer_frames(&mono), 1_600);
}

#[test]
fn native_format_respects_byte_order() {
    assert_eq!(native_format(SampleFormat::I16, false), SND_PCM_FORMAT_S16_LE);
    assert_eq!(native_format(SampleFormat::I16, true), SND_PCM_FORMAT_S16_BE);
    assert_eq!(native_format(SampleFormat::U16, false), SND_PCM_FORMAT_U16_LE);
    assert_eq!(native_format(SampleFormat::U16, true), SND_PCM_FORMAT_U16_BE);
    assert_eq!(native_format(SampleFormat::F32, false), SND_PCM_FORMAT_FLOAT_LE);
    assert_eq!(native_format(SampleFormat::F32, true), SND_PCM_FORMAT_FLOAT_BE);
}

#[test]
fn sw_negotiation_yields_positive_channel_multiples() {
    let format = stereo_f32();
    let (buffer_len, period_len) =
        set_sw_params_from_format(&format, &sw_all_ok(1_024, 256)).unwrap();
    assert_eq!(buffer_len, 2_048);
    assert_eq!(period_len, 512);
    assert!(buffer_len > 0);
    assert!(period_len <= buffer_len);
    assert_eq!(buffer_len % format.channels as usize, 0);
    assert_eq!(period_len % format.channels as usize, 0);
}

#[test]
fn sw_negotiation_rejects_a_zero_buffer() {
    let format = stereo_f32();
    let err = set_sw_params_from_format(&format, &sw_all_ok(0, 0)).unwrap_err();
    assert_eq!(err, "initialization resulted in a null buffer");
}

#[test]
fn sw_negotiation_reports_the_failing_step() {
    let format = stereo_f32();
    let mut reply = sw_all_ok(1_024, 256);
    reply.set_avail_min = -22;
    let err = set_sw_params_from_format(&format, &reply).unwrap_err();
    assert_eq!(err, "snd_pcm_sw_params_set_avail_min failed");
}

#[test]
fn sw_commands_start_immediately_and_watch_one_period() {
    let commands = sw_commands(&sw_all_ok(1_024, 256));
    assert_eq!(
        commands,
        vec![
            SwCommand::Allocate,
            SwCommand::ReadCurrent,
            SwCommand::SetStartThreshold(0),
            SwCommand::ReadParams,
            SwCommand::SetAvailMin(256),
            SwCommand::Commit,
        ]
    );
}

#[test]
fn sample_sizes_match_the_representations() {
    assert_eq!(sample_size(SampleFormat::I16), 2);
    assert_eq!(sample_size(SampleFormat::U16), 2);
    assert_eq!(sample_size(SampleFormat::F32), 4);
}

#[test]
fn wave_format_is_exact_for_float_samples() {
    let format = stereo_f32();
    let wave = map_format(&format).unwrap();
    assert_eq!(wave.format.format_tag, WAVE_FORMAT_EXTENSIBLE);
    assert_eq!(wave.format.channels, 2);
    assert_eq!(wave.format.samples_per_sec, 48_000);
    assert_eq!(wave.format.avg_bytes_per_sec, 384_000);
    assert_eq!(wave.format.block_align, 8);
    assert_eq!(wave.format.bits_per_sample, 32);
    assert_eq!(wave.format.cb_size, 22);
    assert_eq!(wave.samples, 32);
    assert_eq!(wave.sub_format, KSDATAFORMAT_SUBTYPE_IEEE_FLOAT);
}

#[test]
fn wave_format_rejects_16_bit_representations() {
    let mut format = stereo_f32();
    format.data_type = SampleFormat::I16;
    assert!(map_format(&format).is_none());
    format.data_type = SampleFormat::U16;
    assert!(map_format(&format).is_none());
}
