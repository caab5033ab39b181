//! The WASAPI-like backend: an event-driven native subsystem with
//! reference-counted COM interface objects.
//!
//! Interface objects are carried as weak handles; every native answer (an
//! HRESULT, an endpoint handle list, a buffer padding) enters as a plain
//! value, and every decision made about those answers is verified: the
//! format mapping, the device-lost signal, and the padding-based buffer
//! accounting.

use vstd::prelude::*;

verus! {

use crate::api;
use crate::api::{Error, StreamModel};
use crate::com::{ComGuard, WeakPtr};
use crate::{Format, SampleFormat};

/// Native interface tags for the COM objects this backend talks to.
#[derive(Debug, Clone, Copy, PartialEq, Eq, Structural)]
pub struct IMMDeviceEnumerator;

#[derive(Debug, Clone, Copy, PartialEq, Eq, Structural)]
pub struct IMMDevice;

#[derive(Debug, Clone, Copy, PartialEq, Eq, Structural)]
pub struct IAudioClient;

#[derive(Debug, Clone, Copy, PartialEq, Eq, Structural)]
pub struct IAudioRenderClient;

#[derive(Debug, Clone, Copy, PartialEq, Eq, Structural)]
pub struct IAudioCaptureClient;

/// Native data-flow tag for playback endpoints.
pub const E_RENDER: u32 = 0;

/// Native data-flow tag for capture endpoints.
pub const E_CAPTURE: u32 = 1;

/// The HRESULT that means the device was removed or invalidated since it was
/// enumerated; the one native signal mapped to `Error::DeviceLost`.
pub const AUDCLNT_E_DEVICE_INVALIDATED: i32 = -2004287484;

/// Native format tag announcing the extensible wave-format layout.
pub const WAVE_FORMAT_EXTENSIBLE: u16 = 65534;

/// Leading word of the native subformat identifier for IEEE float samples.
pub const KSDATAFORMAT_SUBTYPE_IEEE_FLOAT: u32 = 3;

/// Size in bytes of the extension the extensible layout appends to the base
/// wave-format header.
pub const WAVE_FORMAT_EXTENSION_BYTES: u16 = 22;

/// The base native wave-format header.
#[derive(Debug, Clone, Copy, PartialEq, Eq, Structural)]
pub struct WaveFormatEx {
    pub format_tag: u16,
    pub channels: u16,
    pub samples_per_sec: u32,
    pub avg_bytes_per_sec: u32,
    pub block_align: u16,
    pub bits_per_sample: u16,
    pub cb_size: u16,
}

/// The extensible native wave-format layout.
#[derive(Debug, Clone, Copy, PartialEq, Eq, Structural)]
pub struct WaveFormatExtensible {
    pub format: WaveFormatEx,
    pub samples: u16,
    pub channel_mask: u32,
    pub sub_format: u32,
}

/// Machine bounds under which the wave-format arithmetic stays in range.
pub open spec fn wave_format_fits(format: Format) -> bool {
    &&& format.channels * 4 <= u16::MAX
    &&& format.channels * format.sample_rate.0 * 4 <= u32::MAX
}

/// The native wave format this backend submits for a descriptor, when it
/// implements the representation.
pub open spec fn wave_format_spec(format: Format) -> Option<WaveFormatExtensible> {
    if format.data_type is F32 {
        Some(
            WaveFormatExtensible {
                format: WaveFormatEx {
                    format_tag: WAVE_FORMAT_EXTENSIBLE,
                    channels: format.channels,
                    samples_per_sec: format.sample_rate.0,
                    avg_bytes_per_sec: (format.channels * format.sample_rate.0 * 4) as u32,
                    block_align: (format.channels * 4) as u16,
                    bits_per_sample: 32,
                    cb_size: WAVE_FORMAT_EXTENSION_BYTES,
                },
                samples: 32,
                channel_mask: 0,
                sub_format: KSDATAFORMAT_SUBTYPE_IEEE_FLOAT,
            },
        )
    } else {
        None
    }
}

/// Maps a format descriptor to the native wave format: float samples are
/// implemented, the 16-bit representations are not and yield `None`.
pub fn map_format(format: &Format) -> (r: Option<WaveFormatExtensible>)
    requires
        format.data_type is F32 ==> wave_format_fits(*format),
    ensures
        r == wave_format_spec(*format),
{
    match format.data_type {
        SampleFormat::F32 => {
            let bytes_per_sample: u16 = 4;
            let bits_per_sample: u16 = 8 * bytes_per_sample;
            let wave_format = WaveFormatEx {
                format_tag: WAVE_FORMAT_EXTENSIBLE,
                channels: format.channels,
                samples_per_sec: format.sample_rate.0,
                avg_bytes_per_sec: (format.channels as u32) * format.sample_rate.0 * (
                bytes_per_sample as u32),
                block_align: format.channels * bytes_per_sample,
                bits_per_sample,
                cb_size: WAVE_FORMAT_EXTENSION_BYTES,
            };
            Some(
                WaveFormatExtensible {
                    format: wave_format,
                    samples: bits_per_sample,
                    channel_mask: 0,
                    sub_format: KSDATAFORMAT_SUBTYPE_IEEE_FLOAT,
                },
            )
        },
        _ => None,
    }
}

/// A per-stream wait primitive: a native kernel event object, signaled by
/// the audio subsystem when buffer space is ready. The blocking wait itself
/// is a native call made outside the library.
#[derive(Debug, Clone, Copy, PartialEq, Eq, Structural)]
pub struct Fence {
    pub event: usize,
}

impl Fence {
    /// Adopts the native event object the subsystem created.
    pub fn create(manual_reset: bool, initial_state: bool, handle: usize) -> (r: Fence)
        ensures
            r.event == handle,
    {
        Fence { event: handle }
    }
}

/// What the native subsystem reports when a device's properties are read:
/// the friendly name from its property store.
#[derive(Debug, Clone)]
pub struct PropertyReply {
    pub friendly_name: String,
}

/// An enumerable, not-yet-opened endpoint: a weak handle to the native
/// device object, tagged with the data-flow direction it was enumerated
/// under.
#[derive(Debug, Clone, Copy)]
pub struct PhysicalDevice {
    pub raw: WeakPtr<IMMDevice>,
    pub flow: u32,
}

impl api::PhysicalDevice for PhysicalDevice {
    type PropertyInfo = PropertyReply;

    open spec fn supports_output(&self) -> bool {
        self.flow == E_RENDER
    }

    open spec fn is_null_device(&self) -> bool {
        false
    }

    open spec fn reported_name(&self, info: &PropertyReply) -> Seq<char> {
        info.friendly_name@
    }

    fn properties(&self, info: PropertyReply) -> (r: api::PhysicalDeviceProperties) {
        api::PhysicalDeviceProperties { device_name: info.friendly_name }
    }
}

/// What the native subsystem answers while an output stream is prepared:
/// the render-client query, and the buffer size the hardware settled on.
#[derive(Debug, Clone, Copy, PartialEq, Eq, Structural)]
pub struct StreamReply {
    pub get_service_hr: i32,
    pub render_client: usize,
    pub get_buffer_size_hr: i32,
    pub buffer_size: u32,
}

/// An opened, format-configured endpoint: the configured audio-client
/// handle, shared with the streams spawned from it, and the fence the
/// subsystem signals.
#[derive(Debug, Clone, Copy)]
pub struct Device {
    pub audio_client: WeakPtr<IAudioClient>,
    pub fence: Fence,
}

impl api::Device for Device {
    type OutputStream = OutputStream;

    type InputStream = InputStream;

    type StreamInfo = StreamReply;

    open spec fn wf(&self) -> bool {
        true
    }

    open spec fn stream_outcome(&self, info: &StreamReply) -> api::BuildOutcome {
        if info.get_service_hr < 0 {
            api::BuildOutcome::Backend("could not get the render client"@)
        } else if info.get_buffer_size_hr < 0 {
            api::BuildOutcome::Backend("could not query the buffer size"@)
        } else if info.buffer_size == 0 {
            api::BuildOutcome::Backend("hardware reported a zero-sized buffer"@)
        } else {
            api::BuildOutcome::Built(StreamModel::fresh(info.buffer_size as nat))
        }
    }

    fn properties(&self) -> (r: api::DeviceProperties) {
        api::DeviceProperties {  }
    }

    fn output_stream(&self, info: StreamReply) -> (r: api::Result<OutputStream>) {
        if info.get_service_hr < 0 {
            return Err(
                Error::BackendSpecific {
                    description: String::from_str("could not get the render client"),
                },
            );
        }
        if info.get_buffer_size_hr < 0 {
            return Err(
                Error::BackendSpecific {
                    description: String::from_str("could not query the buffer size"),
                },
            );
        }
        if info.buffer_size == 0 {
            return Err(
                Error::BackendSpecific {
                    description: String::from_str("hardware reported a zero-sized buffer"),
                },
            );
        }
        let stream = OutputStream {
            audio_client: self.audio_client,
            audio_render_client: WeakPtr::from_raw(info.render_client),
            buffer_size: info.buffer_size,
            fence: self.fence,
            started: false,
            acquired: None,
            position: 0,
            total_released: Ghost(0),
            enqueued: Vec::new(),
        };
        proof {
            assert(api::OutputStream::model(&stream).enqueued =~= Seq::<nat>::empty());
            assert(api::OutputStream::model(&stream) == StreamModel::fresh(
                info.buffer_size as nat,
            ));
        }
        Ok(stream)
    }

    fn async_output_stream(&self) -> (r: api::Result<OutputStream>) {
        Err(Error::Unsupported)
    }

    fn input_stream(&self) -> (r: api::Result<InputStream>) {
        Err(Error::Unsupported)
    }

    fn async_input_stream(&self) -> (r: api::Result<InputStream>) {
        Err(Error::Unsupported)
    }
}

/// What the native subsystem reports when a buffer is acquired: how many
/// frames of the buffer are still queued (the padding), and the address of
/// the region the render client exposes.
#[derive(Debug, Clone, Copy, PartialEq, Eq, Structural)]
pub struct AcquireReply {
    pub padding: u32,
    pub data: usize,
}

/// The runtime buffer-exchange session of a playback endpoint. The blocking
/// wait on the fence happens outside; the padding the hardware reports after
/// it enters `acquire_buffer` as a plain value.
pub struct OutputStream {
    /// The audio-client handle shared with the parent device.
    pub audio_client: WeakPtr<IAudioClient>,
    /// The render-client handle buffers are exchanged through.
    pub audio_render_client: WeakPtr<IAudioRenderClient>,
    /// Negotiated buffer size in frames.
    pub buffer_size: u32,
    /// The fence the subsystem signals when space is ready.
    pub fence: Fence,
    /// Whether the hardware clock is running.
    pub started: bool,
    /// The outstanding acquisition's frame count, if any.
    pub acquired: Option<usize>,
    /// Ring position of the next frame to be committed.
    pub position: usize,
    /// Cumulative frames committed, kept exactly in ghost state.
    pub total_released: Ghost<nat>,
    /// The frame counts of the buffer releases the native subsystem
    /// observed, in order.
    pub enqueued: Vec<usize>,
}

impl api::OutputStream for OutputStream {
    type AcquireInfo = AcquireReply;

    open spec fn model(&self) -> StreamModel {
        StreamModel {
            capacity: self.buffer_size as nat,
            started: self.started,
            acquired: match self.acquired {
                Some(n) => Some(n as nat),
                None => None,
            },
            position: self.position as nat,
            total_released: self.total_released@,
            enqueued: self.enqueued@.map_values(|n: usize| n as nat),
        }
    }

    open spec fn wf(&self) -> bool {
        self.model().wf()
    }

    open spec fn acquire_info_wf(&self, info: &AcquireReply) -> bool {
        info.padding <= self.buffer_size
    }

    open spec fn avail_frames(&self, info: &AcquireReply) -> nat {
        (self.buffer_size - info.padding) as nat
    }

    open spec fn region_addr(&self, info: &AcquireReply) -> usize {
        info.data
    }

    fn start(&mut self) {
        self.started = true;
    }

    fn stop(&mut self) {
        self.started = false;
    }

    fn acquire_buffer(&mut self, timeout_ms: u32, info: AcquireReply) -> (r: (usize, api::Frames)) {
        let frames: usize = (self.buffer_size - info.padding) as usize;
        self.acquired = Some(frames);
        (info.data, frames)
    }

    fn release_buffer(&mut self, num_frames: api::Frames) -> (r: api::Result<()>) {
        let allowed = match self.acquired {
            Some(a) => num_frames <= a,
            None => false,
        };
        if !allowed {
            return Err(
                Error::BackendSpecific {
                    description: String::from_str("release count exceeds the acquired buffer"),
                },
            );
        }
        let ghost pre = self.model();
        self.acquired = None;
        let capacity: usize = self.buffer_size as usize;
        let remaining = capacity - self.position;
        let wrapped: usize = if num_frames >= remaining {
            num_frames - remaining
        } else {
            self.position + num_frames
        };
        proof {
            let cap = capacity as int;
            let pos = self.position as int;
            let n = num_frames as int;
            if n >= cap - pos {
                vstd::arithmetic::div_mod::lemma_mod_add_multiples_vanish(pos + n - cap, cap);
                vstd::arithmetic::div_mod::lemma_small_mod((pos + n - cap) as nat, cap as nat);
            } else {
                vstd::arithmetic::div_mod::lemma_small_mod((pos + n) as nat, cap as nat);
            }
        }
        self.position = wrapped;
        self.total_released = Ghost(self.total_released@ + num_frames as nat);
        self.enqueued.push(num_frames);
        proof {
            assert(self.enqueued@.map_values(|n: usize| n as nat) =~= pre.enqueued.push(
                num_frames as nat,
            ));
            assert(self.enqueued@.map_values(|n: usize| n as nat).drop_last() =~= pre.enqueued);
            api::lemma_release_step(pre, num_frames as nat);
            assert(self.model() == pre.after_release(num_frames as nat));
        }
        Ok(())
    }
}

/// The runtime capture session; capture streams are not spawned by this
/// backend yet.
#[derive(Debug, Clone, Copy)]
pub struct InputStream {
    pub audio_capture_client: WeakPtr<IAudioCaptureClient>,
    pub fence: Fence,
}

impl api::InputStream for InputStream {

}

/// What the native subsystem answers while the instance is created: the
/// code of the enumerator construction and the handle it produced.
#[derive(Debug, Clone, Copy, PartialEq, Eq, Structural)]
pub struct CreateReply {
    pub hresult: i32,
    pub enumerator: usize,
}

/// What the native subsystem answers during one enumeration call: the codes
/// of the endpoint query and of the count query, and the handle of each
/// active endpoint found, in native order.
#[derive(Debug, Clone)]
pub struct EnumerateReply {
    pub enum_endpoints: i32,
    pub get_count: i32,
    pub handles: Vec<usize>,
}

/// What the native subsystem answers when the default endpoint is asked
/// for; a failing code means no such endpoint exists.
#[derive(Debug, Clone, Copy, PartialEq, Eq, Structural)]
pub struct DefaultReply {
    pub hresult: i32,
    pub handle: usize,
}

/// What the native subsystem answers while a device is opened and
/// configured: activation, initialization, the event object created for the
/// fence, and the event registration.
#[derive(Debug, Clone, Copy, PartialEq, Eq, Structural)]
pub struct OpenReply {
    pub activate_hr: i32,
    pub audio_client: usize,
    pub initialize_hr: i32,
    pub event_handle: usize,
    pub set_event_hr: i32,
}

/// The handle to this backend's native subsystem: a weak handle to the
/// native device enumerator. It must be created, and used, on a thread
/// whose `ComGuard` is initialized.
#[derive(Debug, Clone, Copy)]
pub struct Instance {
    pub raw: WeakPtr<IMMDeviceEnumerator>,
}

/// Wraps each enumerated endpoint handle as a device of the given data-flow
/// direction, in native order.
fn collect_devices(handles: &Vec<usize>, flow: u32) -> (r: Vec<PhysicalDevice>)
    ensures
        r@.len() == handles@.len(),
        forall|i: int|
            0 <= i < r@.len() ==> {
                &&& (#[trigger] r@[i]).raw.addr_spec() == handles@[i]
                &&& r@[i].flow == flow
            },
{
    let mut devices: Vec<PhysicalDevice> = Vec::new();
    let mut i: usize = 0;
    while i < handles.len()
        invariant
            i <= handles.len(),
            devices@.len() == i,
            forall|j: int|
                0 <= j < i ==> {
                    &&& (#[trigger] devices@[j]).raw.addr_spec() == handles@[j]
                    &&& devices@[j].flow == flow
                },
        decreases handles.len() - i,
    {
        devices.push(PhysicalDevice { raw: WeakPtr::from_raw(handles[i]), flow });
        i += 1;
    }
    devices
}

impl api::Instance for Instance {
    type PhysicalDevice = PhysicalDevice;

    type Device = Device;

    type Env = ComGuard;

    type CreateInfo = CreateReply;

    type EnumerateInfo = EnumerateReply;

    type DefaultInfo = DefaultReply;

    type OpenInfo = OpenReply;

    open spec fn wf(&self) -> bool {
        true
    }

    open spec fn create_allowed(env: &ComGuard, info: &CreateReply) -> bool {
        &&& env.initialized
        &&& info.hresult >= 0
    }

    open spec fn created(env: &ComGuard, info: &CreateReply, r: &Instance) -> bool {
        r.raw.addr_spec() == info.enumerator
    }

    open spec fn enumerate_allowed(&self, info: &EnumerateReply) -> bool {
        true
    }

    open spec fn enumerate_fails(&self, info: &EnumerateReply) -> Option<Seq<char>> {
        if info.enum_endpoints < 0 {
            Some("could not enumerate audio endpoints"@)
        } else if info.get_count < 0 {
            Some("could not count audio endpoints"@)
        } else {
            None
        }
    }

    open spec fn enumerated_outputs(
        &self,
        info: &EnumerateReply,
        devices: Seq<PhysicalDevice>,
    ) -> bool {
        &&& devices.len() == info.handles@.len()
        &&& forall|i: int|
            0 <= i < devices.len() ==> {
                &&& (#[trigger] devices[i]).raw.addr_spec() == info.handles@[i]
                &&& devices[i].flow == E_RENDER
            }
    }

    open spec fn inputs_supported() -> bool {
        true
    }

    open spec fn enumerated_inputs(
        &self,
        info: &EnumerateReply,
        devices: Seq<PhysicalDevice>,
    ) -> bool {
        &&& devices.len() == info.handles@.len()
        &&& forall|i: int|
            0 <= i < devices.len() ==> {
                &&& (#[trigger] devices[i]).raw.addr_spec() == info.handles@[i]
                &&& devices[i].flow == E_CAPTURE
            }
    }

    open spec fn default_output(&self, info: &DefaultReply, found: Option<PhysicalDevice>) -> bool {
        if info.hresult < 0 {
            found is None
        } else {
            &&& found matches Some(pd)
            &&& pd.raw.addr_spec() == info.handle
            &&& pd.flow == E_RENDER
        }
    }

    open spec fn default_fails(&self, info: &DefaultReply) -> bool {
        false
    }

    open spec fn default_input(&self, info: &DefaultReply, found: Option<PhysicalDevice>) -> bool {
        if info.hresult < 0 {
            found is None
        } else {
            &&& found matches Some(pd)
            &&& pd.raw.addr_spec() == info.handle
            &&& pd.flow == E_CAPTURE
        }
    }

    open spec fn open_allowed(
        &self,
        physical_device: &PhysicalDevice,
        format: Format,
        info: &OpenReply,
    ) -> bool {
        &&& info.activate_hr >= 0 ==> info.audio_client != 0
        &&& format.data_type is F32 ==> wave_format_fits(format)
    }

    open spec fn open_outcome(
        &self,
        physical_device: &PhysicalDevice,
        format: Format,
        info: &OpenReply,
    ) -> api::OpenOutcome<Device> {
        if info.activate_hr < 0 {
            api::OpenOutcome::Backend("could not activate the audio client"@)
        } else if wave_format_spec(format) is None {
            api::OpenOutcome::Unsupported
        } else if info.initialize_hr == AUDCLNT_E_DEVICE_INVALIDATED {
            api::OpenOutcome::Lost
        } else if info.initialize_hr < 0 {
            api::OpenOutcome::Backend("could not initialize the audio client"@)
        } else if info.set_event_hr < 0 {
            api::OpenOutcome::Backend("failed to call SetEventHandle"@)
        } else {
            api::OpenOutcome::Opened(
                Device {
                    audio_client: crate::com::weak_ptr_of::<IAudioClient>(info.audio_client),
                    fence: Fence { event: info.event_handle },
                },
            )
        }
    }

    /// Builds the instance from the enumerator object the native subsystem
    /// created; the thread's guard must already be initialized, which makes
    /// the thread affinity explicit.
    fn create(env: &ComGuard, name: &str, info: CreateReply) -> (r: Instance) {
        Instance { raw: WeakPtr::from_raw(info.enumerator) }
    }

    fn enumerate_physical_output_devices(&self, info: EnumerateReply) -> (r: api::Result<
        Vec<PhysicalDevice>,
    >) {
        if info.enum_endpoints < 0 {
            return Err(
                Error::BackendSpecific {
                    description: String::from_str("could not enumerate audio endpoints"),
                },
            );
        }
        if info.get_count < 0 {
            return Err(
                Error::BackendSpecific {
                    description: String::from_str("could not count audio endpoints"),
                },
            );
        }
        Ok(collect_devices(&info.handles, E_RENDER))
    }

    fn enumerate_physical_input_devices(&self, info: EnumerateReply) -> (r: api::Result<
        Vec<PhysicalDevice>,
    >) {
        if info.enum_endpoints < 0 {
            return Err(
                Error::BackendSpecific {
                    description: String::from_str("could not enumerate audio endpoints"),
                },
            );
        }
        if info.get_count < 0 {
            return Err(
                Error::BackendSpecific {
                    description: String::from_str("could not count audio endpoints"),
                },
            );
        }
        Ok(collect_devices(&info.handles, E_CAPTURE))
    }

    fn default_physical_output_device(&self, info: DefaultReply) -> (r: api::Result<
        Option<PhysicalDevice>,
    >) {
        if info.hresult < 0 {
            Ok(None)
        } else {
            Ok(Some(PhysicalDevice { raw: WeakPtr::from_raw(info.handle), flow: E_RENDER }))
        }
    }

    fn default_physical_input_device(&self, info: DefaultReply) -> (r: api::Result<
        Option<PhysicalDevice>,
    >) {
        if info.hresult < 0 {
            Ok(None)
        } else {
            Ok(Some(PhysicalDevice { raw: WeakPtr::from_raw(info.handle), flow: E_CAPTURE }))
        }
    }

    fn create_device(&self, physical_device: &PhysicalDevice, format: Format, info: OpenReply) -> (r:
        api::Result<Device>) {
        if info.activate_hr < 0 {
            return Err(
                Error::BackendSpecific {
                    description: String::from_str("could not activate the audio client"),
                },
            );
        }
        let audio_client = WeakPtr::<IAudioClient>::from_raw(info.audio_client);
        let mix_format = map_format(&format);
        if mix_format.is_none() {
            return Err(Error::Unsupported);
        }
        if info.initialize_hr == AUDCLNT_E_DEVICE_INVALIDATED {
            return Err(Error::DeviceLost);
        }
        if info.initialize_hr < 0 {
            return Err(
                Error::BackendSpecific {
                    description: String::from_str("could not initialize the audio client"),
                },
            );
        }
        let fence = Fence::create(false, false, info.event_handle);
        if info.set_event_hr < 0 {
            return Err(
                Error::BackendSpecific {
                    description: String::from_str("failed to call SetEventHandle"),
                },
            );
        }
        Ok(Device { audio_client, fence })
    }
}

} // verus!
