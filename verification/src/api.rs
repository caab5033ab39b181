//! The backend-neutral surface: the error taxonomy, device and stream
//! properties, the abstract model of a stream's buffer protocol, and the
//! capability traits every backend implements.

use vstd::prelude::*;

verus! {

use crate::Format;

/// `std::io::Error`, declared so that an `Error` value can carry one through.
/// Nothing is assumed about what such a value holds.
#[verifier::external_type_specification]
#[verifier::external_body]
pub struct ExIoError(std::io::Error);

/// Every failure that crosses the abstraction boundary is one of these.
#[derive(Debug)]
pub enum Error {
    /// The hardware disappeared or was invalidated; recoverable by
    /// re-enumerating and reopening.
    DeviceLost,
    /// The operation or format is not implemented by this backend.
    Unsupported,
    /// A propagated low-level I/O failure.
    Io(std::io::Error),
    /// A catch-all native failure, carrying diagnostic text.
    BackendSpecific { description: String },
}

impl From<std::io::Error> for Error {
    fn from(err: std::io::Error) -> (r: Self) {
        Error::Io(err)
    }
}

impl vstd::std_specs::convert::FromSpecImpl<std::io::Error> for Error {
    open spec fn obeys_from_spec() -> bool {
        true
    }

    open spec fn from_spec(err: std::io::Error) -> Self {
        Error::Io(err)
    }
}

pub type Result<T> = core::result::Result<T, Error>;

/// A frame is one sample per channel at a single instant.
pub type Frames = usize;

#[derive(Debug, Clone)]
pub struct PhysicalDeviceProperties {
    pub device_name: String,
}

#[derive(Debug, Clone)]
pub struct DeviceProperties {}

impl Error {
    /// Diagnostic text for this failure.
    pub fn describe(&self) -> (r: String)
        ensures
            match self {
                Error::DeviceLost => r@ == "Device Lost"@,
                Error::Unsupported => r@ == "Unsupported"@,
                Error::Io(_) => r@ == "IO"@,
                Error::BackendSpecific { description } => r@ == "Backend Specific: "@
                    + description@,
            },
    {
        match self {
            Error::DeviceLost => String::from_str("Device Lost"),
            Error::Unsupported => String::from_str("Unsupported"),
            Error::Io(_) => String::from_str("IO"),
            Error::BackendSpecific { description } => {
                String::from_str("Backend Specific: ").concat(description.as_str())
            },
        }
    }
}

/// Sum of a sequence of frame counts.
pub open spec fn frames_sum(s: Seq<nat>) -> nat
    decreases s.len(),
{
    if s.len() == 0 {
        0
    } else {
        frames_sum(s.drop_last()) + s.last()
    }
}

/// `x` wrapped at the buffer boundary `cap`.
pub open spec fn wrap(x: nat, cap: nat) -> nat {
    (x as int % cap as int) as nat
}

/// The abstract state of a stream's buffer protocol: what the caller and the
/// native subsystem have agreed on so far.
pub struct StreamModel {
    /// Negotiated buffer size in frames; fixed for the stream's lifetime.
    pub capacity: nat,
    /// Whether the hardware clock is running.
    pub started: bool,
    /// `Some(n)`: a buffer of `n` frames is checked out to the caller.
    pub acquired: Option<nat>,
    /// Ring position of the next frame to be committed, always below
    /// `capacity`.
    pub position: nat,
    /// Cumulative number of frames committed to the hardware.
    pub total_released: nat,
    /// The frame counts the native subsystem observed, one per commit,
    /// in order.
    pub enqueued: Seq<nat>,
}

impl StreamModel {
    /// The protocol invariant: the ring position is the cumulative count
    /// wrapped at the buffer boundary, an outstanding acquisition never
    /// exceeds the buffer, and the commit log accounts for every frame.
    pub open spec fn wf(self) -> bool {
        &&& self.capacity > 0
        &&& self.position < self.capacity
        &&& self.position == wrap(self.total_released, self.capacity)
        &&& (self.acquired matches Some(n) ==> n <= self.capacity)
        &&& self.total_released == frames_sum(self.enqueued)
    }

    /// A stream fresh out of negotiation: nothing acquired, nothing
    /// committed, clock stopped.
    pub open spec fn fresh(capacity: nat) -> StreamModel {
        StreamModel {
            capacity,
            started: false,
            acquired: None,
            position: 0,
            total_released: 0,
            enqueued: Seq::empty(),
        }
    }

    pub open spec fn after_start(self) -> StreamModel {
        StreamModel { started: true, ..self }
    }

    pub open spec fn after_stop(self) -> StreamModel {
        StreamModel { started: false, ..self }
    }

    /// Checking a buffer of `avail` frames out to the caller.
    pub open spec fn after_acquire(self, avail: nat) -> StreamModel {
        StreamModel { acquired: Some(avail), ..self }
    }

    /// A release of `num_frames` is within the caller's contract exactly when
    /// a buffer is checked out and the count does not exceed what was
    /// acquired.
    pub open spec fn release_allowed(self, num_frames: nat) -> bool {
        self.acquired matches Some(a) && num_frames <= a
    }

    /// Committing `num_frames` frames: the ring position advances and wraps,
    /// the cumulative count grows, and the native subsystem observes one more
    /// enqueue of exactly that many frames.
    pub open spec fn after_release(self, num_frames: nat) -> StreamModel {
        StreamModel {
            acquired: None,
            position: wrap(self.position + num_frames, self.capacity),
            total_released: self.total_released + num_frames,
            enqueued: self.enqueued.push(num_frames),
            ..self
        }
    }
}

/// One release step preserves the invariant and advances the stream
/// monotonically: the cumulative count grows by exactly the committed frames
/// and the ring position stays the cumulative count wrapped at the buffer
/// boundary.
pub proof fn lemma_release_step(m: StreamModel, num_frames: nat)
    requires
        m.wf(),
        m.release_allowed(num_frames),
    ensures
        m.after_release(num_frames).wf(),
        m.after_release(num_frames).total_released == m.total_released + num_frames,
        m.after_release(num_frames).position == wrap(m.total_released + num_frames, m.capacity),
        m.after_release(num_frames).enqueued == m.enqueued.push(num_frames),
        m.after_release(num_frames).capacity == m.capacity,
{
    let post = m.after_release(num_frames);
    assert(post.total_released == m.total_released + num_frames);
    assert(wrap(m.position + num_frames, m.capacity) == wrap(
        m.total_released + num_frames,
        m.capacity,
    )) by {
        vstd::arithmetic::div_mod::lemma_add_mod_noop(
            m.total_released as int,
            num_frames as int,
            m.capacity as int,
        );
        vstd::arithmetic::div_mod::lemma_mod_twice(m.total_released as int, m.capacity as int);
        vstd::arithmetic::div_mod::lemma_add_mod_noop(
            m.position as int,
            num_frames as int,
            m.capacity as int,
        );
        vstd::arithmetic::div_mod::lemma_mod_twice(num_frames as int, m.capacity as int);
    }
    assert(post.enqueued.drop_last() == m.enqueued);
}

/// One full acquire/release cycle: a buffer of `avail` frames is checked out
/// and `num_frames` of it are committed.
pub open spec fn cycle(m: StreamModel, avail: nat, num_frames: nat) -> StreamModel {
    m.after_acquire(avail).after_release(num_frames)
}

/// A cycle respects the protocol when no buffer is outstanding, the native
/// subsystem never reports more space than the buffer holds, and the release
/// count stays within the acquisition.
pub open spec fn cycle_allowed(m: StreamModel, avail: nat, num_frames: nat) -> bool {
    &&& m.acquired is None
    &&& avail <= m.capacity
    &&& num_frames <= avail
}

/// The stream state after a whole sequence of acquire/release cycles, each
/// given as (frames reported available, frames committed).
pub open spec fn run_cycles(m: StreamModel, steps: Seq<(nat, nat)>) -> StreamModel
    decreases steps.len(),
{
    if steps.len() == 0 {
        m
    } else {
        run_cycles(cycle(m, steps[0].0, steps[0].1), steps.drop_first())
    }
}

/// Every cycle of the sequence respects the protocol in the state it runs in.
pub open spec fn cycles_allowed(m: StreamModel, steps: Seq<(nat, nat)>) -> bool
    decreases steps.len(),
{
    steps.len() > 0 ==> {
        &&& cycle_allowed(m, steps[0].0, steps[0].1)
        &&& cycles_allowed(cycle(m, steps[0].0, steps[0].1), steps.drop_first())
    }
}

/// Total frames committed by a sequence of cycles.
pub open spec fn cycles_released(steps: Seq<(nat, nat)>) -> nat
    decreases steps.len(),
{
    if steps.len() == 0 {
        0
    } else {
        steps[0].1 + cycles_released(steps.drop_first())
    }
}

/// The committed frame counts of a sequence of cycles, in order.
pub open spec fn cycles_log(steps: Seq<(nat, nat)>) -> Seq<nat> {
    steps.map_values(|step: (nat, nat)| step.1)
}

/// Acquire/release round trip: over any allowed sequence of
/// acquire/release cycles the invariant is preserved, the cumulative frame
/// count advances monotonically by exactly the committed counts, and the ring
/// position is always that cumulative count wrapped at the negotiated buffer
/// size boundary.
pub proof fn lemma_cycles_advance(m: StreamModel, steps: Seq<(nat, nat)>)
    requires
        m.wf(),
        cycles_allowed(m, steps),
    ensures
        run_cycles(m, steps).wf(),
        run_cycles(m, steps).capacity == m.capacity,
        run_cycles(m, steps).total_released == m.total_released + cycles_released(steps),
        run_cycles(m, steps).position == wrap(
            m.total_released + cycles_released(steps),
            m.capacity,
        ),
        run_cycles(m, steps).enqueued == m.enqueued + cycles_log(steps),
    decreases steps.len(),
{
    if steps.len() == 0 {
        assert(m.enqueued + cycles_log(steps) =~= m.enqueued);
    } else {
        let m1 = cycle(m, steps[0].0, steps[0].1);
        lemma_release_step(m.after_acquire(steps[0].0), steps[0].1);
        lemma_cycles_advance(m1, steps.drop_first());
        assert(cycles_log(steps.drop_first()) =~= cycles_log(steps).drop_first());
        assert(m1.enqueued + cycles_log(steps).drop_first() =~= m.enqueued + cycles_log(steps));
    }
}

/// What opening a device yields, as a function of the format asked for and of
/// the native subsystem's answers.
pub enum OpenOutcome<D> {
    /// The hardware was removed or invalidated since enumeration.
    Lost,
    /// The backend does not implement the requested format.
    Unsupported,
    /// Some other native failure, with its diagnostic text.
    Backend(Seq<char>),
    /// The configured device.
    Opened(D),
}

/// What building a stream yields, as a function of the native subsystem's
/// answers.
pub enum BuildOutcome {
    /// A native failure, with its diagnostic text.
    Backend(Seq<char>),
    /// The protocol state of the ready stream.
    Built(StreamModel),
}

/// An enumerable, not-yet-opened hardware endpoint.
pub trait PhysicalDevice: Sized {
    /// What the native subsystem reports when the device's properties are
    /// read. Properties are queried on demand, never cached: hardware can
    /// disappear between enumeration and use.
    type PropertyInfo;

    /// Whether this endpoint can carry an output stream.
    spec fn supports_output(&self) -> bool;

    /// Whether this is the administrative null pseudo-device.
    spec fn is_null_device(&self) -> bool;

    /// The display name the native subsystem reports in `info`.
    spec fn reported_name(&self, info: &Self::PropertyInfo) -> Seq<char>;

    fn properties(&self, info: Self::PropertyInfo) -> (r: PhysicalDeviceProperties)
        ensures
            r.device_name@ == self.reported_name(&info),
    ;
}

/// The runtime buffer-exchange session of an output device.
///
/// Exactly one buffer may be checked out to the caller at a time; the
/// blocking wait for buffer space happens in the native subsystem, whose
/// answer enters `acquire_buffer` as a plain value.
pub trait OutputStream: Sized {
    /// What the native subsystem reports when a buffer is acquired: how much
    /// space is free, and where the region lies.
    type AcquireInfo;

    spec fn wf(&self) -> bool;

    /// The stream's place in the buffer protocol.
    spec fn model(&self) -> StreamModel;

    /// What the native API guarantees of its own answer in `info`.
    spec fn acquire_info_wf(&self, info: &Self::AcquireInfo) -> bool;

    /// Frames available this cycle as reported in `info`; zero after a wait
    /// that timed out, which the caller treats as nothing to do this cycle.
    spec fn avail_frames(&self, info: &Self::AcquireInfo) -> nat;

    /// Address of the buffer region the acquisition exposes.
    spec fn region_addr(&self, info: &Self::AcquireInfo) -> usize;

    /// Begins the hardware clock. Starting a started stream is a caller
    /// error, so it is excluded outright.
    fn start(&mut self)
        requires
            old(self).wf(),
            !old(self).model().started,
        ensures
            final(self).wf(),
            final(self).model() == old(self).model().after_start(),
    ;

    /// Halts the hardware clock between cycles; releases nothing.
    fn stop(&mut self)
        requires
            old(self).wf(),
            old(self).model().started,
            old(self).model().acquired is None,
        ensures
            final(self).wf(),
            final(self).model() == old(self).model().after_stop(),
    ;

    /// Checks a buffer region out to the caller: the count of frames
    /// available varies call to call and is exactly what the native
    /// subsystem reported. Acquiring while a buffer is outstanding is a
    /// caller error, so it is excluded outright.
    fn acquire_buffer(&mut self, timeout_ms: u32, info: Self::AcquireInfo) -> (r: (usize, Frames))
        requires
            old(self).wf(),
            old(self).model().started,
            old(self).model().acquired is None,
            old(self).acquire_info_wf(&info),
        ensures
            final(self).wf(),
            final(self).model() == old(self).model().after_acquire(
                old(self).avail_frames(&info),
            ),
            r.1 == old(self).avail_frames(&info),
            r.0 == old(self).region_addr(&info),
    ;

    /// Commits `num_frames` frames to the hardware. A count above the
    /// acquired one, or a release with no acquisition outstanding, is
    /// rejected and leaves the stream untouched — never silently clamped.
    fn release_buffer(&mut self, num_frames: Frames) -> (r: Result<()>)
        requires
            old(self).wf(),
        ensures
            final(self).wf(),
            old(self).model().release_allowed(num_frames as nat) ==> {
                &&& r is Ok
                &&& final(self).model() == old(self).model().after_release(num_frames as nat)
            },
            !old(self).model().release_allowed(num_frames as nat) ==> {
                &&& r matches Err(e) && e is BackendSpecific
                &&& final(self).model() == old(self).model()
            },
    ;
}

/// The runtime capture session of an input device.
pub trait InputStream {

}

/// An opened, format-configured endpoint, ready to spawn streams.
pub trait Device: Sized {
    type OutputStream: OutputStream;

    type InputStream: InputStream;

    /// What the native subsystem answers while an output stream is prepared.
    type StreamInfo;

    spec fn wf(&self) -> bool;

    /// What building an output stream yields for the given native answers.
    spec fn stream_outcome(&self, info: &Self::StreamInfo) -> BuildOutcome;

    fn properties(&self) -> (r: DeviceProperties);

    /// Prepares the hardware and returns the stream, fresh: clock stopped,
    /// no buffer outstanding, nothing committed.
    fn output_stream(&self, info: Self::StreamInfo) -> (r: Result<Self::OutputStream>)
        requires
            self.wf(),
        ensures
            match r {
                Ok(s) => {
                    &&& self.stream_outcome(&info) matches BuildOutcome::Built(m) && s.model()
                        == m
                    &&& s.wf()
                    &&& s.model() == StreamModel::fresh(s.model().capacity)
                },
                Err(e) => {
                    &&& self.stream_outcome(&info) matches BuildOutcome::Backend(d)
                    &&& e matches Error::BackendSpecific { description } && description@ == d
                },
            },
    ;

    fn async_output_stream(&self) -> (r: Result<Self::OutputStream>)
        ensures
            r matches Err(e) && e is Unsupported,
    ;

    fn input_stream(&self) -> (r: Result<Self::InputStream>)
        ensures
            r matches Err(e) && e is Unsupported,
    ;

    fn async_input_stream(&self) -> (r: Result<Self::InputStream>)
        ensures
            r matches Err(e) && e is Unsupported,
    ;
}

/// A handle to the native audio subsystem: purely a factory, owning no
/// devices.
pub trait Instance: Sized {
    type PhysicalDevice: PhysicalDevice;

    type Device: Device;

    /// The environment the instance is created in: a native-subsystem guard
    /// where the backend needs one, unit where it does not.
    type Env;

    /// What the native subsystem answers while the instance is created.
    type CreateInfo;

    /// What the native subsystem answers during one enumeration call.
    type EnumerateInfo;

    /// What the native subsystem answers when the default device is asked
    /// for.
    type DefaultInfo;

    /// What the native subsystem answers while a device is opened and
    /// configured.
    type OpenInfo;

    spec fn wf(&self) -> bool;

    /// Instance creation is fatal on subsystem initialization failure; these
    /// are the answers it survives.
    spec fn create_allowed(env: &Self::Env, info: &Self::CreateInfo) -> bool;

    /// How the created instance reflects the environment and the native
    /// answers; the name passed to `create` is a label only.
    spec fn created(env: &Self::Env, info: &Self::CreateInfo, r: &Self) -> bool;

    /// Constraints that answers from the native subsystem meet by the native
    /// API's own contract.
    spec fn enumerate_allowed(&self, info: &Self::EnumerateInfo) -> bool;

    /// `Some(description)` when the enumeration primitive itself failed.
    spec fn enumerate_fails(&self, info: &Self::EnumerateInfo) -> Option<Seq<char>>;

    /// How a successful enumeration's result reflects the native answers:
    /// which output endpoints there are, in native enumeration order.
    spec fn enumerated_outputs(
        &self,
        info: &Self::EnumerateInfo,
        devices: Seq<Self::PhysicalDevice>,
    ) -> bool;

    /// Whether this backend implements input-device discovery.
    spec fn inputs_supported() -> bool;

    /// How a successful enumeration's result reflects the native answers for
    /// input endpoints.
    spec fn enumerated_inputs(
        &self,
        info: &Self::EnumerateInfo,
        devices: Seq<Self::PhysicalDevice>,
    ) -> bool;

    /// How the default output endpoint reflects the native answers; `None`
    /// means the machine has none.
    spec fn default_output(&self, info: &Self::DefaultInfo, found: Option<Self::PhysicalDevice>) -> bool;

    /// Whether asking for a default device hit a genuine subsystem failure —
    /// distinct from there being no such device.
    spec fn default_fails(&self, info: &Self::DefaultInfo) -> bool;

    /// How the default input endpoint reflects the native answers.
    spec fn default_input(&self, info: &Self::DefaultInfo, found: Option<Self::PhysicalDevice>) -> bool;

    /// Answers under which opening does not abort the process.
    spec fn open_allowed(
        &self,
        physical_device: &Self::PhysicalDevice,
        format: Format,
        info: &Self::OpenInfo,
    ) -> bool;

    /// What opening the device yields for the given native answers.
    spec fn open_outcome(
        &self,
        physical_device: &Self::PhysicalDevice,
        format: Format,
        info: &Self::OpenInfo,
    ) -> OpenOutcome<Self::Device>;

    /// Establishes the process/thread affinity with the native subsystem.
    fn create(env: &Self::Env, name: &str, info: Self::CreateInfo) -> (r: Self)
        requires
            Self::create_allowed(env, &info),
        ensures
            Self::created(env, &info, &r),
            r.wf(),
    ;

    /// A finite, non-lazy sequence of output endpoints in native enumeration
    /// order: never a device that cannot carry output, never the
    /// administrative null pseudo-device.
    fn enumerate_physical_output_devices(&self, info: Self::EnumerateInfo) -> (r: Result<
        Vec<Self::PhysicalDevice>,
    >)
        requires
            self.wf(),
            self.enumerate_allowed(&info),
        ensures
            match r {
                Ok(devices) => {
                    &&& self.enumerate_fails(&info) is None
                    &&& self.enumerated_outputs(&info, devices@)
                    &&& forall|i: int|
                        0 <= i < devices@.len() ==> (#[trigger] devices@[i]).supports_output()
                            && !devices@[i].is_null_device()
                },
                Err(e) => {
                    &&& self.enumerate_fails(&info) matches Some(d)
                    &&& e matches Error::BackendSpecific { description } && description@ == d
                },
            },
    ;

    fn enumerate_physical_input_devices(&self, info: Self::EnumerateInfo) -> (r: Result<
        Vec<Self::PhysicalDevice>,
    >)
        requires
            self.wf(),
            self.enumerate_allowed(&info),
        ensures
            !Self::inputs_supported() ==> (r matches Err(e) && e is Unsupported),
            Self::inputs_supported() ==> match r {
                Ok(devices) => {
                    &&& self.enumerate_fails(&info) is None
                    &&& self.enumerated_inputs(&info, devices@)
                },
                Err(e) => {
                    &&& self.enumerate_fails(&info) matches Some(d)
                    &&& e matches Error::BackendSpecific { description } && description@ == d
                },
            },
    ;

    /// The default output device. Absence of any output device is `Ok(None)`,
    /// never an error; an error comes only from a genuine subsystem failure.
    fn default_physical_output_device(&self, info: Self::DefaultInfo) -> (r: Result<
        Option<Self::PhysicalDevice>,
    >)
        requires
            self.wf(),
        ensures
            !self.default_fails(&info) ==> (r matches Ok(found) && self.default_output(
                &info,
                found,
            ) && (found matches Some(pd) ==> pd.supports_output())),
            self.default_fails(&info) ==> (r matches Err(e) && e is BackendSpecific),
    ;

    fn default_physical_input_device(&self, info: Self::DefaultInfo) -> (r: Result<
        Option<Self::PhysicalDevice>,
    >)
        requires
            self.wf(),
        ensures
            !Self::inputs_supported() ==> (r matches Err(e) && e is Unsupported),
            Self::inputs_supported() ==> {
                &&& !self.default_fails(&info) ==> (r matches Ok(found) && self.default_input(
                    &info,
                    found,
                ))
                &&& self.default_fails(&info) ==> (r matches Err(e) && e is BackendSpecific)
            },
    ;

    /// Performs format negotiation and opens the native handle. A "device
    /// removed or invalidated" native signal becomes `DeviceLost`; every
    /// other open failure becomes `BackendSpecific`.
    fn create_device(
        &self,
        physical_device: &Self::PhysicalDevice,
        format: Format,
        info: Self::OpenInfo,
    ) -> (r: Result<Self::Device>)
        requires
            self.wf(),
            format.valid(),
            self.open_allowed(physical_device, format, &info),
        ensures
            match r {
                Ok(d) => {
                    &&& self.open_outcome(physical_device, format, &info)
                        matches OpenOutcome::Opened(built) && d == built
                    &&& d.wf()
                },
                Err(e) => match self.open_outcome(physical_device, format, &info) {
                    OpenOutcome::Lost => e is DeviceLost,
                    OpenOutcome::Unsupported => e is Unsupported,
                    OpenOutcome::Backend(d) => e matches Error::BackendSpecific { description }
                        && description@ == d,
                    OpenOutcome::Opened(_) => false,
                },
            },
    ;
}


} // verus!

