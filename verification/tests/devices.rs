//! Device discovery and opening: the enumeration filter, the default
//! device, and the error-taxonomy mapping of the open path.

use cpal::api::{Error, Instance, PhysicalDevice};
use cpal::com::{com_initialized, ComGuard, WeakPtr};
use cpal::wasapi::IMMDevice;
use cpal::{alsa, wasapi, Format, SampleFormat, SampleRate};

fn stereo_f32() -> Format {
    Format { channels: 2, data_type: SampleFormat::F32, sample_rate: SampleRate(48_000) }
}

fn hint(name: Option<&str>, io: Option<&str>, has_output: bool) -> alsa::DeviceHint {
    alsa::DeviceHint {
        name: name.map(|n| n.to_string()),
        io: io.map(|n| n.to_string()),
        has_available_output: has_output,
    }
}

fn alsa_open_ok() -> alsa::OpenReply {
    alsa::OpenReply {
        open_code: 0,
        pcm_handle: 7,
        hw: alsa::HwNegotiation {
            init: 0,
            set_access: 0,
            set_format: 0,
            set_rate: 0,
            set_channels: 0,
            set_buffer_size_max: 0,
            commit: 0,
        },
        sw: alsa::SwNegotiation {
            alloc: 0,
            current: 0,
            set_start_threshold: 0,
            get_params: 0,
            buffer_frames: 1_024,
            period_frames: 256,
            set_avail_min: 0,
            commit: 0,
        },
    }
}

fn wasapi_open_ok() -> wasapi::OpenReply {
    wasapi::OpenReply {
        activate_hr: 0,
        audio_client: 11,
        initialize_hr: 0,
        event_handle: 13,
        set_event_hr: 0,
    }
}

#[test]
fn enumeration_filters_direction_and_null_device() {
    let instance = alsa::Instance::create(&(), "test", ());
    let reply = alsa::EnumerateReply {
        status: 0,
        hints: vec![
            hint(Some("speaker"), Some("Output"), true),
            hint(Some("mic"), Some("Input"), true),
            hint(Some("null"), None, true),
            hint(Some("duplex"), None, true),
            hint(None, Some("Output"), true),
            hint(Some("busy"), Some("Output"), false),
        ],
    };
    let devices = instance.enumerate_physical_output_devices(reply).unwrap();
    assert_eq!(devices.len(), 2);
    assert_eq!(devices[0].properties(()).device_name, "speaker");
    assert_eq!(devices[1].properties(()).device_name, "duplex");
    for device in &devices {
        assert_eq!(device.stream, alsa::SND_PCM_STREAM_PLAYBACK);
        assert_ne!(device.device_name, "null");
    }
}

#[test]
fn enumeration_failure_is_backend_specific() {
    let instance = alsa::Instance::create(&(), "test", ());
    let reply = alsa::EnumerateReply { status: -12, hints: vec![] };
    let err = instance.enumerate_physical_output_devices(reply).unwrap_err();
    match err {
        Error::BackendSpecific { description } => {
            assert_eq!(description, "could not enumerate devices")
        },
        _ => panic!("expected a backend-specific error"),
    }
}

#[test]
fn empty_enumeration_yields_no_devices() {
    let instance = alsa::Instance::create(&(), "test", ());
    let reply = alsa::EnumerateReply { status: 0, hints: vec![] };
    let devices = instance.enumerate_physical_output_devices(reply).unwrap();
    assert!(devices.is_empty());
}

#[test]
fn alsa_default_output_is_the_default_endpoint() {
    let instance = alsa::Instance::create(&(), "test", ());
    let device = instance.default_physical_output_device(()).unwrap().unwrap();
    assert_eq!(device.properties(()).device_name, "default");
}

#[test]
fn default_output_is_none_not_an_error_when_missing() {
    let mut guard = ComGuard::new();
    com_initialized(&mut guard);
    let instance =
        wasapi::Instance::create(&guard, "test", wasapi::CreateReply { hresult: 0, enumerator: 3 });
    let missing = wasapi::DefaultReply { hresult: -2_147_023_728, handle: 0 };
    let found = instance.default_physical_output_device(missing).unwrap();
    assert!(found.is_none());
}

#[test]
fn default_output_is_returned_when_present() {
    let mut guard = ComGuard::new();
    com_initialized(&mut guard);
    let instance =
        wasapi::Instance::create(&guard, "test", wasapi::CreateReply { hresult: 0, enumerator: 3 });
    let reply = wasapi::DefaultReply { hresult: 0, handle: 21 };
    let device = instance.default_physical_output_device(reply).unwrap().unwrap();
    assert_eq!(device.raw.as_ptr(), 21);
    assert_eq!(device.flow, wasapi::E_RENDER);
}

#[test]
fn wasapi_enumeration_wraps_every_endpoint() {
    let mut guard = ComGuard::new();
    com_initialized(&mut guard);
    let instance =
        wasapi::Instance::create(&guard, "test", wasapi::CreateReply { hresult: 0, enumerator: 3 });
    let reply =
        wasapi::EnumerateReply { enum_endpoints: 0, get_count: 0, handles: vec![10, 20, 30] };
    let devices = instance.enumerate_physical_output_devices(reply).unwrap();
    assert_eq!(devices.len(), 3);
    for (device, handle) in devices.iter().zip([10, 20, 30]) {
        assert_eq!(device.raw.as_ptr(), handle);
        assert_eq!(device.flow, wasapi::E_RENDER);
    }
}

#[test]
fn alsa_open_maps_the_lost_code_to_device_lost() {
    let instance = alsa::Instance::create(&(), "test", ());
    let device = alsa::PhysicalDevice {
        device_name: "default".to_string(),
        stream: alsa::SND_PCM_STREAM_PLAYBACK,
    };
    let mut reply = alsa_open_ok();
    reply.open_code = alsa::OPEN_CODE_DEVICE_LOST;
    let err = instance.create_device(&device, stereo_f32(), reply).unwrap_err();
    assert!(matches!(err, Error::DeviceLost));
}

#[test]
fn alsa_open_maps_other_failures_to_backend_specific() {
    let instance = alsa::Instance::create(&(), "test", ());
    let device = alsa::PhysicalDevice {
        device_name: "default".to_string(),
        stream: alsa::SND_PCM_STREAM_PLAYBACK,
    };
    let mut reply = alsa_open_ok();
    reply.open_code = -2;
    let err = instance.create_device(&device, stereo_f32(), reply).unwrap_err();
    assert!(matches!(err, Error::BackendSpecific { .. }));
}

#[test]
fn alsa_open_surfaces_the_failing_negotiation_step() {
    let instance = alsa::Instance::create(&(), "test", ());
    let device = alsa::PhysicalDevice {
        device_name: "default".to_string(),
        stream: alsa::SND_PCM_STREAM_PLAYBACK,
    };
    let mut reply = alsa_open_ok();
    reply.hw.set_rate = -22;
    let err = instance.create_device(&device, stereo_f32(), reply).unwrap_err();
    match err {
        Error::BackendSpecific { description } => {
            assert_eq!(description, "sample rate could not be set")
        },
        _ => panic!("expected a backend-specific error"),
    }
}

#[test]
fn alsa_open_retains_the_negotiated_geometry() {
    let instance = alsa::Instance::create(&(), "test", ());
    let device = alsa::PhysicalDevice {
        device_name: "default".to_string(),
        stream: alsa::SND_PCM_STREAM_PLAYBACK,
    };
    let opened = instance.create_device(&device, stereo_f32(), alsa_open_ok()).unwrap();
    assert_eq!(opened.pcm, 7);
    assert_eq!(opened.buffer_frames, 1_024);
    assert_eq!(opened.period_frames, 256);
    assert_eq!(opened.buffer_bytes, 1_024 * 2 * 4);
}

#[test]
fn wasapi_open_maps_the_invalidated_signal_to_device_lost() {
    let mut guard = ComGuard::new();
    com_initialized(&mut guard);
    let instance =
        wasapi::Instance::create(&guard, "test", wasapi::CreateReply { hresult: 0, enumerator: 3 });
    let endpoint =
        wasapi::PhysicalDevice { raw: WeakPtr::<IMMDevice>::from_raw(21), flow: wasapi::E_RENDER };
    let mut reply = wasapi_open_ok();
    reply.initialize_hr = wasapi::AUDCLNT_E_DEVICE_INVALIDATED;
    let err = instance.create_device(&endpoint, stereo_f32(), reply).unwrap_err();
    assert!(matches!(err, Error::DeviceLost));
}

#[test]
fn wasapi_open_maps_other_failures_to_backend_specific() {
    let mut guard = ComGuard::new();
    com_initialized(&mut guard);
    let instance =
        wasapi::Instance::create(&guard, "test", wasapi::CreateReply { hresult: 0, enumerator: 3 });
    let endpoint =
        wasapi::PhysicalDevice { raw: WeakPtr::<IMMDevice>::from_raw(21), flow: wasapi::E_RENDER };
    let mut reply = wasapi_open_ok();
    reply.initialize_hr = -1;
    let err = instance.create_device(&endpoint, stereo_f32(), reply).unwrap_err();
    assert!(matches!(err, Error::BackendSpecific { .. }));
}

#[test]
fn wasapi_open_rejects_unimplemented_representations() {
    let mut guard = ComGuard::new();
    com_initialized(&mut guard);
    let instance =
        wasapi::Instance::create(&guard, "test", wasapi::CreateReply { hresult: 0, enumerator: 3 });
    let endpoint =
        wasapi::PhysicalDevice { raw: WeakPtr::<IMMDevice>::from_raw(21), flow: wasapi::E_RENDER };
    let mut format = stereo_f32();
    format.data_type = SampleFormat::I16;
    let err = instance.create_device(&endpoint, format, wasapi_open_ok()).unwrap_err();
    assert!(matches!(err, Error::Unsupported));
}

#[test]
fn alsa_input_discovery_is_unsupported() {
    let instance = alsa::Instance::create(&(), "test", ());
    let reply = alsa::EnumerateReply { status: 0, hints: vec![] };
    assert!(matches!(
        instance.enumerate_physical_input_devices(reply),
        Err(Error::Unsupported)
    ));
    assert!(matches!(instance.default_physical_input_device(()), Err(Error::Unsupported)));
}

#[test]
fn wasapi_enumerates_capture_endpoints() {
    let mut guard = ComGuard::new();
    com_initialized(&mut guard);
    let instance =
        wasapi::Instance::create(&guard, "test", wasapi::CreateReply { hresult: 0, enumerator: 3 });
    let reply = wasapi::EnumerateReply { enum_endpoints: 0, get_count: 0, handles: vec![40, 41] };
    let devices = instance.enumerate_physical_input_devices(reply).unwrap();
    assert_eq!(devices.len(), 2);
    for device in &devices {
        assert_eq!(device.flow, wasapi::E_CAPTURE);
    }
}

#[test]
fn wasapi_properties_report_the_native_name() {
    let device =
        wasapi::PhysicalDevice { raw: WeakPtr::<IMMDevice>::from_raw(21), flow: wasapi::E_RENDER };
    let properties =
        device.properties(wasapi::PropertyReply { friendly_name: "Speakers".to_string() });
    assert_eq!(properties.device_name, "Speakers");
}

#[test]
fn error_descriptions_name_the_failure() {
    assert_eq!(Error::DeviceLost.describe(), "Device Lost");
    assert_eq!(Error::Unsupported.describe(), "Unsupported");
    let backend = Error::BackendSpecific { description: "boom".to_string() };
    assert_eq!(backend.describe(), "Backend Specific: boom");
    let io = Error::from(std::io::Error::new(std::io::ErrorKind::Other, "closed"));
    assert_eq!(io.describe(), "IO");
    assert!(matches!(io, Error::Io(_)));
}

#[test]
fn com_guard_initialization_is_idempotent() {
    let mut guard = ComGuard::new();
    assert!(!guard.initialized);
    com_initialized(&mut guard);
    assert!(guard.initialized);
    com_initialized(&mut guard);
    assert!(guard.initialized);
}

#[test]
fn weak_ptr_handles_are_plain_addresses() {
    let null = WeakPtr::<IMMDevice>::null();
    assert!(null.is_null());
    assert_eq!(null.as_ptr(), 0);
    let handle = WeakPtr::<IMMDevice>::from_raw(5);
    assert!(!handle.is_null());
    assert_eq!(handle.as_ptr(), 5);
    assert_eq!(handle.as_mut_ptr(), 5);
    let copy = handle.clone();
    assert_eq!(copy.as_ptr(), 5);
}
