//! The ALSA-like backend: a poll-driven native subsystem with handle-based
//! native objects.
//!
//! Every native call's answer enters as a plain value (an error code, a pair
//! of frame counts, a device-hint list) and every decision made about those
//! answers is verified: the fixed negotiation order, the buffer-size policy,
//! the enumeration filter and the error taxonomy mapping.

use vstd::prelude::*;

verus! {

use crate::api;
use crate::api::{Error, StreamModel};
use crate::{Format, SampleFormat};

/// Native stream-direction tag for playback.
pub const SND_PCM_STREAM_PLAYBACK: u32 = 0;

/// Native stream-direction tag for capture.
pub const SND_PCM_STREAM_CAPTURE: u32 = 1;

/// Native open mode: do not block while opening.
pub const SND_PCM_NONBLOCK: i32 = 1;

/// Native access tag: interleaved channels, direct read/write.
pub const SND_PCM_ACCESS_RW_INTERLEAVED: u32 = 3;

/// Native sample-representation tags.
pub const SND_PCM_FORMAT_S16_LE: u32 = 2;

pub const SND_PCM_FORMAT_S16_BE: u32 = 3;

pub const SND_PCM_FORMAT_U16_LE: u32 = 4;

pub const SND_PCM_FORMAT_U16_BE: u32 = 5;

pub const SND_PCM_FORMAT_FLOAT_LE: u32 = 14;

pub const SND_PCM_FORMAT_FLOAT_BE: u32 = 15;

/// The open error code that means the device is gone or held elsewhere; the
/// one native signal mapped to `Error::DeviceLost`.
pub const OPEN_CODE_DEVICE_LOST: i32 = -16;

/// The native sample-representation tag for an abstract representation,
/// respecting the host byte order.
pub open spec fn native_format_spec(data_type: SampleFormat, big_endian: bool) -> u32 {
    if big_endian {
        match data_type {
            SampleFormat::I16 => SND_PCM_FORMAT_S16_BE,
            SampleFormat::U16 => SND_PCM_FORMAT_U16_BE,
            SampleFormat::F32 => SND_PCM_FORMAT_FLOAT_BE,
        }
    } else {
        match data_type {
            SampleFormat::I16 => SND_PCM_FORMAT_S16_LE,
            SampleFormat::U16 => SND_PCM_FORMAT_U16_LE,
            SampleFormat::F32 => SND_PCM_FORMAT_FLOAT_LE,
        }
    }
}

/// Maps an abstract sample representation to the native tag.
pub fn native_format(data_type: SampleFormat, big_endian: bool) -> (r: u32)
    ensures
        r == native_format_spec(data_type, big_endian),
{
    if big_endian {
        match data_type {
            SampleFormat::I16 => SND_PCM_FORMAT_S16_BE,
            SampleFormat::U16 => SND_PCM_FORMAT_U16_BE,
            SampleFormat::F32 => SND_PCM_FORMAT_FLOAT_BE,
        }
    } else {
        match data_type {
            SampleFormat::I16 => SND_PCM_FORMAT_S16_LE,
            SampleFormat::U16 => SND_PCM_FORMAT_U16_LE,
            SampleFormat::F32 => SND_PCM_FORMAT_FLOAT_LE,
        }
    }
}

/// The buffer-size bound the negotiation asks the hardware for: a latency
/// target of roughly a fifth of a second of audio.
pub open spec fn max_buffer_frames_spec(format: Format) -> int
    recommends
        format.channels >= 1,
{
    format.sample_rate.0 as int / format.channels as int / 5
}

/// Computes the buffer-size bound handed to the hardware.
pub fn max_buffer_frames(format: &Format) -> (r: u64)
    requires
        format.valid(),
    ensures
        r == max_buffer_frames_spec(*format),
{
    format.sample_rate.0 as u64 / format.channels as u64 / 5
}

/// One step of the hardware-parameter negotiation, in the order the steps
/// are applied; the order matters to what the hardware will accept.
#[derive(Debug, Clone, Copy, PartialEq, Eq, Structural)]
pub enum HwCommand {
    /// Reset the configuration space.
    Init,
    /// Fix the access mode.
    SetAccess(u32),
    /// Set the native sample-representation tag.
    SetFormat(u32),
    /// Set the sample rate in Hertz.
    SetRate(u32),
    /// Set the channel count.
    SetChannels(u32),
    /// Bound the buffer size by the latency target, in frames.
    SetBufferSizeMax(u64),
    /// Commit the hardware parameters.
    Commit,
}

/// The full, fixed-order hardware negotiation plan for a format.
pub open spec fn hw_command_plan(format: Format, big_endian: bool) -> Seq<HwCommand>
    recommends
        format.channels >= 1,
{
    seq![
        HwCommand::Init,
        HwCommand::SetAccess(SND_PCM_ACCESS_RW_INTERLEAVED),
        HwCommand::SetFormat(native_format_spec(format.data_type, big_endian)),
        HwCommand::SetRate(format.sample_rate.0),
        HwCommand::SetChannels(format.channels as u32),
        HwCommand::SetBufferSizeMax(max_buffer_frames_spec(format) as u64),
        HwCommand::Commit,
    ]
}

/// The ordered list of native requests one hardware negotiation issues.
pub fn hw_commands(format: &Format, big_endian: bool) -> (r: Vec<HwCommand>)
    requires
        format.valid(),
    ensures
        r@ == hw_command_plan(*format, big_endian),
{
    let mut commands: Vec<HwCommand> = Vec::new();
    commands.push(HwCommand::Init);
    commands.push(HwCommand::SetAccess(SND_PCM_ACCESS_RW_INTERLEAVED));
    commands.push(HwCommand::SetFormat(native_format(format.data_type, big_endian)));
    commands.push(HwCommand::SetRate(format.sample_rate.0));
    commands.push(HwCommand::SetChannels(format.channels as u32));
    commands.push(HwCommand::SetBufferSizeMax(max_buffer_frames(format)));
    commands.push(HwCommand::Commit);
    proof {
        assert(commands@ =~= hw_command_plan(*format, big_endian));
    }
    commands
}

/// The native subsystem's answer to each hardware-negotiation step, in the
/// order the steps are applied; a negative code is a rejection.
#[derive(Debug, Clone, Copy, PartialEq, Eq, Structural)]
pub struct HwNegotiation {
    pub init: i32,
    pub set_access: i32,
    pub set_format: i32,
    pub set_rate: i32,
    pub set_channels: i32,
    pub set_buffer_size_max: i32,
    pub commit: i32,
}

/// The first hardware-negotiation step the native subsystem rejected, with
/// the diagnostic text the failure surfaces; `None` when every step was
/// accepted.
pub open spec fn hw_failure(reply: HwNegotiation) -> Option<Seq<char>> {
    if reply.init < 0 {
        Some("errors on pcm handle"@)
    } else if reply.set_access < 0 {
        Some("handle not accessible"@)
    } else if reply.set_format < 0 {
        Some("format could not be set"@)
    } else if reply.set_rate < 0 {
        Some("sample rate could not be set"@)
    } else if reply.set_channels < 0 {
        Some("channel count could not be set"@)
    } else if reply.set_buffer_size_max < 0 {
        Some("max buffer size could not be set"@)
    } else if reply.commit < 0 {
        Some("hardware params could not be set"@)
    } else {
        None
    }
}

/// Applies the hardware-parameter negotiation outcome: the first rejected
/// step short-circuits the whole negotiation with the text naming it.
pub fn set_hw_params_from_format(format: &Format, reply: &HwNegotiation) -> (r: core::result::Result<
    (),
    String,
>)
    requires
        format.valid(),
    ensures
        match r {
            Ok(_) => hw_failure(*reply) is None,
            Err(e) => hw_failure(*reply) matches Some(d) && e@ == d,
        },
{
    if reply.init < 0 {
        Err(String::from_str("errors on pcm handle"))
    } else if reply.set_access < 0 {
        Err(String::from_str("handle not accessible"))
    } else if reply.set_format < 0 {
        Err(String::from_str("format could not be set"))
    } else if reply.set_rate < 0 {
        Err(String::from_str("sample rate could not be set"))
    } else if reply.set_channels < 0 {
        Err(String::from_str("channel count could not be set"))
    } else if reply.set_buffer_size_max < 0 {
        Err(String::from_str("max buffer size could not be set"))
    } else if reply.commit < 0 {
        Err(String::from_str("hardware params could not be set"))
    } else {
        Ok(())
    }
}

/// The native subsystem's answer to each software-parameter step, in the
/// order the steps are applied. `buffer_frames` and `period_frames` are the
/// effective sizes the hardware settled on, reported when the current
/// parameters are read back.
#[derive(Debug, Clone, Copy, PartialEq, Eq, Structural)]
pub struct SwNegotiation {
    pub alloc: i32,
    pub current: i32,
    pub set_start_threshold: i32,
    pub get_params: i32,
    pub buffer_frames: u64,
    pub period_frames: u64,
    pub set_avail_min: i32,
    pub commit: i32,
}

impl SwNegotiation {
    /// What the native API guarantees of its own answer: the period never
    /// exceeds the buffer it divides.
    pub open spec fn reply_wf(self) -> bool {
        self.period_frames <= self.buffer_frames
    }
}

/// One step of the software-parameter negotiation, in the order the steps
/// are applied.
#[derive(Debug, Clone, Copy, PartialEq, Eq, Structural)]
pub enum SwCommand {
    /// Allocate a parameter object.
    Allocate,
    /// Read the current runtime configuration into it.
    ReadCurrent,
    /// Set the start threshold in queued frames; zero means the hardware
    /// starts emitting as soon as any frames are queued.
    SetStartThreshold(u64),
    /// Read back the effective buffer and period sizes.
    ReadParams,
    /// Set the minimum-available threshold, in frames.
    SetAvailMin(u64),
    /// Commit the software parameters.
    Commit,
}

/// The full, fixed-order software negotiation plan: a "start immediately"
/// threshold of zero, and a minimum-available threshold of exactly the
/// period the hardware settled on.
pub open spec fn sw_command_plan(reply: SwNegotiation) -> Seq<SwCommand> {
    seq![
        SwCommand::Allocate,
        SwCommand::ReadCurrent,
        SwCommand::SetStartThreshold(0),
        SwCommand::ReadParams,
        SwCommand::SetAvailMin(reply.period_frames),
        SwCommand::Commit,
    ]
}

/// The ordered list of native requests one software negotiation issues.
pub fn sw_commands(reply: &SwNegotiation) -> (r: Vec<SwCommand>)
    ensures
        r@ == sw_command_plan(*reply),
{
    let mut commands: Vec<SwCommand> = Vec::new();
    commands.push(SwCommand::Allocate);
    commands.push(SwCommand::ReadCurrent);
    commands.push(SwCommand::SetStartThreshold(0));
    commands.push(SwCommand::ReadParams);
    commands.push(SwCommand::SetAvailMin(reply.period_frames));
    commands.push(SwCommand::Commit);
    proof {
        assert(commands@ =~= sw_command_plan(*reply));
    }
    commands
}

/// The first software-parameter step the native subsystem rejected, with the
/// diagnostic text the failure surfaces; a hardware answer of a zero-sized
/// buffer is rejected here too. `None` when negotiation succeeded.
pub open spec fn sw_failure(reply: SwNegotiation) -> Option<Seq<char>> {
    if reply.alloc < 0 {
        Some("snd_pcm_sw_params_malloc failed"@)
    } else if reply.current < 0 {
        Some("snd_pcm_sw_params_current failed"@)
    } else if reply.set_start_threshold < 0 {
        Some("snd_pcm_sw_params_set_start_threshold failed"@)
    } else if reply.get_params < 0 {
        Some("failed to initialize buffer"@)
    } else if reply.buffer_frames == 0 {
        Some("initialization resulted in a null buffer"@)
    } else if reply.set_avail_min < 0 {
        Some("snd_pcm_sw_params_set_avail_min failed"@)
    } else if reply.commit < 0 {
        Some("snd_pcm_sw_params failed"@)
    } else {
        None
    }
}

/// Applies the software-parameter negotiation outcome: the start threshold is
/// "start immediately", the minimum-available threshold is the period, and a
/// success yields the effective buffer and period lengths in samples. The
/// buffer length is positive and both lengths are whole multiples of the
/// channel count, with the period never above the buffer.
pub fn set_sw_params_from_format(format: &Format, reply: &SwNegotiation) -> (r: core::result::Result<
    (usize, usize),
    String,
>)
    requires
        format.valid(),
        reply.reply_wf(),
        reply.buffer_frames * format.channels <= usize::MAX,
    ensures
        match r {
            Ok(lengths) => {
                &&& sw_failure(*reply) is None
                &&& lengths.0 == reply.buffer_frames * format.channels
                &&& lengths.1 == reply.period_frames * format.channels
                &&& lengths.0 > 0
                &&& lengths.1 <= lengths.0
                &&& lengths.0 as int % format.channels as int == 0
                &&& lengths.1 as int % format.channels as int == 0
            },
            Err(e) => sw_failure(*reply) matches Some(d) && e@ == d,
        },
{
    if reply.alloc < 0 {
        return Err(String::from_str("snd_pcm_sw_params_malloc failed"));
    }
    if reply.current < 0 {
        return Err(String::from_str("snd_pcm_sw_params_current failed"));
    }
    if reply.set_start_threshold < 0 {
        return Err(String::from_str("snd_pcm_sw_params_set_start_threshold failed"));
    }
    if reply.get_params < 0 {
        return Err(String::from_str("failed to initialize buffer"));
    }
    if reply.buffer_frames == 0 {
        return Err(String::from_str("initialization resulted in a null buffer"));
    }
    if reply.set_avail_min < 0 {
        return Err(String::from_str("snd_pcm_sw_params_set_avail_min failed"));
    }
    if reply.commit < 0 {
        return Err(String::from_str("snd_pcm_sw_params failed"));
    }
    proof {
        assert(reply.buffer_frames as int <= reply.buffer_frames as int * format.channels as int)
            by (nonlinear_arith)
            requires
                format.channels >= 1,
        ;
        assert(reply.period_frames as int <= reply.period_frames as int * format.channels as int)
            by (nonlinear_arith)
            requires
                format.channels >= 1,
        ;
        vstd::arithmetic::mul::lemma_mul_inequality(
            reply.period_frames as int,
            reply.buffer_frames as int,
            format.channels as int,
        );
        vstd::arithmetic::mul::lemma_mul_strictly_positive(
            reply.buffer_frames as int,
            format.channels as int,
        );
        vstd::arithmetic::div_mod::lemma_mod_multiples_basic(
            reply.buffer_frames as int,
            format.channels as int,
        );
        vstd::arithmetic::div_mod::lemma_mod_multiples_basic(
            reply.period_frames as int,
            format.channels as int,
        );
    }
    let buffer_len: usize = (reply.buffer_frames as usize) * (format.channels as usize);
    let period_len: usize = (reply.period_frames as usize) * (format.channels as usize);
    Ok((buffer_len, period_len))
}

/// One device-name hint the native subsystem's enumeration yields: the
/// endpoint's name, its direction restriction ("Input" or "Output", absent
/// when it serves both), and whether a probing open of a playback stream on
/// it succeeded.
#[derive(Debug, Clone)]
pub struct DeviceHint {
    pub name: Option<String>,
    pub io: Option<String>,
    pub has_available_output: bool,
}

/// A hint survives enumeration when its direction does not exclude output,
/// it names a device other than the administrative null device, and the
/// playback probe succeeded.
pub open spec fn hint_accepted(h: DeviceHint) -> bool {
    &&& (h.io matches Some(io) ==> io@ == "Output"@)
    &&& (h.name matches Some(n) && n@ != "null"@)
    &&& h.has_available_output
}

/// The name a hint carries.
pub open spec fn hint_name(h: DeviceHint) -> Seq<char>
    recommends
        h.name is Some,
{
    h.name->0@
}

/// An enumerable, not-yet-opened hardware endpoint, identified by its native
/// device name.
#[derive(Debug, Clone)]
pub struct PhysicalDevice {
    pub device_name: String,
    pub stream: u32,
}

impl api::PhysicalDevice for PhysicalDevice {
    type PropertyInfo = ();

    open spec fn supports_output(&self) -> bool {
        self.stream == SND_PCM_STREAM_PLAYBACK
    }

    open spec fn is_null_device(&self) -> bool {
        self.device_name@ == "null"@
    }

    open spec fn reported_name(&self, info: &()) -> Seq<char> {
        self.device_name@
    }

    fn properties(&self, info: ()) -> (r: api::PhysicalDeviceProperties) {
        api::PhysicalDeviceProperties { device_name: self.device_name.clone() }
    }
}

/// How a device list reflects a hint list: exactly the accepted hints, in
/// enumeration order, each turned into a playback endpoint under the hint's
/// name.
pub open spec fn output_devices_match(hints: Seq<DeviceHint>, devices: Seq<PhysicalDevice>) -> bool {
    let accepted = hints.filter(|h: DeviceHint| hint_accepted(h));
    &&& devices.len() == accepted.len()
    &&& forall|i: int|
        0 <= i < devices.len() ==> {
            &&& (#[trigger] devices[i]).device_name@ == hint_name(accepted[i])
            &&& devices[i].stream == SND_PCM_STREAM_PLAYBACK
        }
}

/// Keeps, of the native subsystem's device hints, exactly those that can
/// carry an output stream: direction filtered, the null pseudo-device
/// dropped, unnamed hints dropped, unopenable devices dropped.
fn filter_output_devices(hints: &Vec<DeviceHint>) -> (r: Vec<PhysicalDevice>)
    ensures
        output_devices_match(hints@, r@),
{
    let output_tag = String::from_str("Output");
    let null_name = String::from_str("null");
    let mut devices: Vec<PhysicalDevice> = Vec::new();
    let mut i: usize = 0;
    while i < hints.len()
        invariant
            i <= hints.len(),
            output_tag@ == "Output"@,
            null_name@ == "null"@,
            output_devices_match(hints@.take(i as int), devices@),
        decreases hints.len() - i,
    {
        let h = &hints[i];
        let io_ok = match &h.io {
            Some(io) => *io == output_tag,
            None => true,
        };
        match &h.name {
            Some(n) => {
                if io_ok && h.has_available_output && !(*n == null_name) {
                    devices.push(
                        PhysicalDevice {
                            device_name: n.clone(),
                            stream: SND_PCM_STREAM_PLAYBACK,
                        },
                    );
                }
            },
            None => {},
        }
        proof {
            reveal(Seq::filter);
            let pred = |hh: DeviceHint| hint_accepted(hh);
            assert(hints@.take(i as int + 1).drop_last() =~= hints@.take(i as int));
            assert(hints@.take(i as int + 1).last() == hints@[i as int]);
            let accepted = hints@.take(i as int + 1).filter(pred);
            let before = hints@.take(i as int).filter(pred);
            if hint_accepted(hints@[i as int]) {
                assert(accepted =~= before.push(hints@[i as int]));
            } else {
                assert(accepted =~= before);
            }
        }
        i += 1;
    }
    proof {
        assert(hints@.take(hints@.len() as int) =~= hints@);
    }
    devices
}

/// Owner of a native hardware-parameter configuration object. Allocation
/// failure aborts construction, so a failing native answer is excluded
/// outright.
#[derive(Debug, Clone, Copy, PartialEq, Eq, Structural)]
pub struct HwParams {
    pub handle: usize,
}

impl HwParams {
    /// Adopts the configuration object the native subsystem allocated.
    pub fn allocate(code: i32, handle: usize) -> (r: HwParams)
        requires
            code >= 0,
        ensures
            r.handle == handle,
    {
        HwParams { handle }
    }
}

/// An opened, format-configured endpoint. It retains the native handle and
/// the negotiated buffer geometry for stream sizing.
#[derive(Debug, Clone, Copy, PartialEq, Eq, Structural)]
pub struct Device {
    /// The configured native handle, shared with the streams spawned from
    /// this device.
    pub pcm: usize,
    /// Effective buffer size in frames, from negotiation.
    pub buffer_frames: usize,
    /// Effective period size in frames, from negotiation.
    pub period_frames: usize,
    /// Size in bytes of the interleaved working region a stream needs.
    pub buffer_bytes: usize,
}

/// What the native subsystem answers while an output stream is prepared: the
/// code of the prepare call, and the address of the working region backing
/// the stream's buffer.
#[derive(Debug, Clone, Copy, PartialEq, Eq, Structural)]
pub struct StreamBuild {
    pub prepare_code: i32,
    pub buffer_addr: usize,
}

impl api::Device for Device {
    type OutputStream = OutputStream;

    type InputStream = InputStream;

    type StreamInfo = StreamBuild;

    open spec fn wf(&self) -> bool {
        &&& self.buffer_frames > 0
        &&& self.period_frames <= self.buffer_frames
    }

    open spec fn stream_outcome(&self, info: &StreamBuild) -> api::BuildOutcome {
        if info.prepare_code < 0 {
            api::BuildOutcome::Backend("could not get playback handle"@)
        } else {
            api::BuildOutcome::Built(StreamModel::fresh(self.buffer_frames as nat))
        }
    }

    fn properties(&self) -> (r: api::DeviceProperties) {
        api::DeviceProperties {  }
    }

    fn output_stream(&self, info: StreamBuild) -> (r: api::Result<OutputStream>) {
        if info.prepare_code < 0 {
            return Err(
                Error::BackendSpecific {
                    description: String::from_str("could not get playback handle"),
                },
            );
        }
        let stream = OutputStream {
            pcm: self.pcm,
            buffer: info.buffer_addr,
            buffer_frames: self.buffer_frames,
            started: false,
            acquired: None,
            position: 0,
            total_released: Ghost(0),
            enqueued: Vec::new(),
        };
        proof {
            assert(api::OutputStream::model(&stream).enqueued =~= Seq::<nat>::empty());
            assert(api::OutputStream::model(&stream) == StreamModel::fresh(
                self.buffer_frames as nat,
            ));
        }
        Ok(stream)
    }

    fn async_output_stream(&self) -> (r: api::Result<OutputStream>) {
        Err(Error::Unsupported)
    }

    fn input_stream(&self) -> (r: api::Result<InputStream>) {
        Err(Error::Unsupported)
    }

    fn async_input_stream(&self) -> (r: api::Result<InputStream>) {
        Err(Error::Unsupported)
    }
}

/// The runtime buffer-exchange session of a playback endpoint. The blocking
/// wait on the native poll call happens outside; its outcome enters
/// `acquire_buffer` as a plain flag.
pub struct OutputStream {
    /// The native handle shared with the parent device.
    pub pcm: usize,
    /// Address of the working region; stable for the stream's lifetime.
    pub buffer: usize,
    /// Negotiated buffer size in frames.
    pub buffer_frames: usize,
    /// Whether the hardware clock is running.
    pub started: bool,
    /// The outstanding acquisition's frame count, if any.
    pub acquired: Option<usize>,
    /// Ring position of the next frame to be committed.
    pub position: usize,
    /// Cumulative frames committed, kept exactly in ghost state.
    pub total_released: Ghost<nat>,
    /// The frame counts of the interleaved writes the native subsystem
    /// observed, in order.
    pub enqueued: Vec<usize>,
}

impl api::OutputStream for OutputStream {
    type AcquireInfo = bool;

    open spec fn model(&self) -> StreamModel {
        StreamModel {
            capacity: self.buffer_frames as nat,
            started: self.started,
            acquired: match self.acquired {
                Some(n) => Some(n as nat),
                None => None,
            },
            position: self.position as nat,
            total_released: self.total_released@,
            enqueued: self.enqueued@.map_values(|n: usize| n as nat),
        }
    }

    open spec fn wf(&self) -> bool {
        self.model().wf()
    }

    open spec fn acquire_info_wf(&self, info: &bool) -> bool {
        true
    }

    open spec fn avail_frames(&self, info: &bool) -> nat {
        if *info {
            self.buffer_frames as nat
        } else {
            0
        }
    }

    open spec fn region_addr(&self, info: &bool) -> usize {
        self.buffer
    }

    fn start(&mut self) {
        self.started = true;
    }

    fn stop(&mut self) {
        self.started = false;
    }

    fn acquire_buffer(&mut self, timeout_ms: u32, info: bool) -> (r: (usize, api::Frames)) {
        let frames: usize = if info {
            self.buffer_frames
        } else {
            0
        };
        self.acquired = Some(frames);
        (self.buffer, frames)
    }

    fn release_buffer(&mut self, num_frames: api::Frames) -> (r: api::Result<()>) {
        let allowed = match self.acquired {
            Some(a) => num_frames <= a,
            None => false,
        };
        if !allowed {
            return Err(
                Error::BackendSpecific {
                    description: String::from_str("release count exceeds the acquired buffer"),
                },
            );
        }
        let ghost pre = self.model();
        self.acquired = None;
        let remaining = self.buffer_frames - self.position;
        let wrapped: usize = if num_frames >= remaining {
            num_frames - remaining
        } else {
            self.position + num_frames
        };
        proof {
            let cap = self.buffer_frames as int;
            let pos = self.position as int;
            let n = num_frames as int;
            if n >= cap - pos {
                vstd::arithmetic::div_mod::lemma_mod_add_multiples_vanish(pos + n - cap, cap);
                vstd::arithmetic::div_mod::lemma_small_mod((pos + n - cap) as nat, cap as nat);
            } else {
                vstd::arithmetic::div_mod::lemma_small_mod((pos + n) as nat, cap as nat);
            }
        }
        self.position = wrapped;
        self.total_released = Ghost(self.total_released@ + num_frames as nat);
        self.enqueued.push(num_frames);
        proof {
            assert(self.enqueued@.map_values(|n: usize| n as nat) =~= pre.enqueued.push(
                num_frames as nat,
            ));
            assert(self.enqueued@.map_values(|n: usize| n as nat).drop_last() =~= pre.enqueued);
            api::lemma_release_step(pre, num_frames as nat);
            assert(self.model() == pre.after_release(num_frames as nat));
        }
        Ok(())
    }
}

/// The runtime capture session; capture is not implemented by this backend.
#[derive(Debug, Clone, Copy, PartialEq, Eq, Structural)]
pub struct InputStream;

impl api::InputStream for InputStream {

}

/// What the native subsystem answers during one enumeration call: the code
/// of the hint query, and the hint list it produced.
#[derive(Debug, Clone)]
pub struct EnumerateReply {
    pub status: i32,
    pub hints: Vec<DeviceHint>,
}

/// What the native subsystem answers while a device is opened and
/// configured: the open call's code, the handle it produced, and the codes
/// of every negotiation step.
#[derive(Debug, Clone, Copy, PartialEq, Eq, Structural)]
pub struct OpenReply {
    pub open_code: i32,
    pub pcm_handle: usize,
    pub hw: HwNegotiation,
    pub sw: SwNegotiation,
}

/// The handle to this backend's native subsystem; purely a factory.
#[derive(Debug, Clone, Copy, PartialEq, Eq, Structural)]
pub struct Instance;

impl api::Instance for Instance {
    type PhysicalDevice = PhysicalDevice;

    type Device = Device;

    type Env = ();

    type CreateInfo = ();

    type EnumerateInfo = EnumerateReply;

    type DefaultInfo = ();

    type OpenInfo = OpenReply;

    open spec fn wf(&self) -> bool {
        true
    }

    open spec fn create_allowed(env: &(), info: &()) -> bool {
        true
    }

    open spec fn created(env: &(), info: &(), r: &Instance) -> bool {
        true
    }

    open spec fn enumerate_allowed(&self, info: &EnumerateReply) -> bool {
        true
    }

    open spec fn enumerate_fails(&self, info: &EnumerateReply) -> Option<Seq<char>> {
        if info.status < 0 {
            Some("could not enumerate devices"@)
        } else {
            None
        }
    }

    open spec fn enumerated_outputs(
        &self,
        info: &EnumerateReply,
        devices: Seq<PhysicalDevice>,
    ) -> bool {
        output_devices_match(info.hints@, devices)
    }

    open spec fn inputs_supported() -> bool {
        false
    }

    open spec fn enumerated_inputs(
        &self,
        info: &EnumerateReply,
        devices: Seq<PhysicalDevice>,
    ) -> bool {
        false
    }

    open spec fn default_output(&self, info: &(), found: Option<PhysicalDevice>) -> bool {
        &&& found matches Some(pd)
        &&& pd.device_name@ == "default"@
        &&& pd.stream == SND_PCM_STREAM_PLAYBACK
    }

    open spec fn default_fails(&self, info: &()) -> bool {
        false
    }

    open spec fn default_input(&self, info: &(), found: Option<PhysicalDevice>) -> bool {
        false
    }

    open spec fn open_allowed(
        &self,
        physical_device: &PhysicalDevice,
        format: Format,
        info: &OpenReply,
    ) -> bool {
        &&& info.sw.reply_wf()
        &&& info.sw.buffer_frames * format.channels * crate::sample_size_spec(format.data_type)
            <= usize::MAX
    }

    open spec fn open_outcome(
        &self,
        physical_device: &PhysicalDevice,
        format: Format,
        info: &OpenReply,
    ) -> api::OpenOutcome<Device> {
        if info.open_code == OPEN_CODE_DEVICE_LOST {
            api::OpenOutcome::Lost
        } else if info.open_code < 0 {
            api::OpenOutcome::Backend("could not open device"@)
        } else {
            match hw_failure(info.hw) {
                Some(d) => api::OpenOutcome::Backend(d),
                None => match sw_failure(info.sw) {
                    Some(d) => api::OpenOutcome::Backend(d),
                    None => api::OpenOutcome::Opened(
                        Device {
                            pcm: info.pcm_handle,
                            buffer_frames: info.sw.buffer_frames as usize,
                            period_frames: info.sw.period_frames as usize,
                            buffer_bytes: (info.sw.buffer_frames * format.channels
                                * crate::sample_size_spec(format.data_type)) as usize,
                        },
                    ),
                },
            }
        }
    }

    fn create(env: &(), name: &str, info: ()) -> (r: Instance) {
        Instance
    }

    fn enumerate_physical_output_devices(&self, info: EnumerateReply) -> (r: api::Result<
        Vec<PhysicalDevice>,
    >) {
        if info.status < 0 {
            return Err(
                Error::BackendSpecific {
                    description: String::from_str("could not enumerate devices"),
                },
            );
        }
        let devices = filter_output_devices(&info.hints);
        proof {
            let pred = |h: DeviceHint| hint_accepted(h);
            assert forall|i: int| 0 <= i < devices@.len() implies {
                &&& (#[trigger] devices@[i]).stream == SND_PCM_STREAM_PLAYBACK
                &&& devices@[i].device_name@ != "null"@
            } by {
                info.hints@.lemma_filter_pred(pred, i);
            }
        }
        Ok(devices)
    }

    fn enumerate_physical_input_devices(&self, info: EnumerateReply) -> (r: api::Result<
        Vec<PhysicalDevice>,
    >) {
        Err(Error::Unsupported)
    }

    fn default_physical_output_device(&self, info: ()) -> (r: api::Result<
        Option<PhysicalDevice>,
    >) {
        Ok(
            Some(
                PhysicalDevice {
                    device_name: String::from_str("default"),
                    stream: SND_PCM_STREAM_PLAYBACK,
                },
            ),
        )
    }

    fn default_physical_input_device(&self, info: ()) -> (r: api::Result<Option<PhysicalDevice>>) {
        Err(Error::Unsupported)
    }

    fn create_device(&self, physical_device: &PhysicalDevice, format: Format, info: OpenReply) -> (r:
        api::Result<Device>) {
        if info.open_code == OPEN_CODE_DEVICE_LOST {
            return Err(Error::DeviceLost);
        }
        if info.open_code < 0 {
            return Err(
                Error::BackendSpecific { description: String::from_str("could not open device") },
            );
        }
        match set_hw_params_from_format(&format, &info.hw) {
            Err(description) => {
                return Err(Error::BackendSpecific { description });
            },
            Ok(_) => {},
        }
        proof {
            let b = info.sw.buffer_frames as int;
            let ch = format.channels as int;
            let s = crate::sample_size_spec(format.data_type) as int;
            assert(b * ch <= b * ch * s && b <= b * ch && b * ch * s == (b * ch) * s)
                by (nonlinear_arith)
                requires
                    ch >= 1,
                    s >= 1,
                    b >= 0,
            ;
        }
        match set_sw_params_from_format(&format, &info.sw) {
            Err(description) => Err(Error::BackendSpecific { description }),
            Ok(lengths) => {
                let buffer_bytes: usize = lengths.0 * crate::sample_size(format.data_type);
                Ok(
                    Device {
                        pcm: info.pcm_handle,
                        buffer_frames: info.sw.buffer_frames as usize,
                        period_frames: info.sw.period_frames as usize,
                        buffer_bytes,
                    },
                )
            },
        }
    }
}

} // verus!
