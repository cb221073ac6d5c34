//! The control-side backend of a stream, with its configuration, its errors
//! and what it reports of a stream and of the devices.
//!
//! The backend does no platform work itself. Opening the audio context,
//! activating the render node and tearing both down is the work of whoever
//! drives the platform; the backend says what is to be done and keeps the
//! state that decides it.

use crate::bootstrap::{Bootstrap, BootstrapPhase, BootstrapStep};
use crate::buffers::BufferPool;
use crate::handoff::{handoff, HandoffSender, ReceiverGone};
use crate::liveness::LivenessFlag;
use crate::render::RenderHost;
use crate::{BLOCK_FRAMES, INPUT_CHANNELS, OUTPUT_CHANNELS};
use vstd::prelude::*;
use vstd::string::StringExecFns;

verus! {

/// A sample rate in hertz. It is never zero.
#[derive(Clone, Copy, Debug)]
pub struct SampleRate {
    hz: u32,
}

impl View for SampleRate {
    type V = u32;

    closed spec fn view(&self) -> u32 {
        self.hz
    }
}

impl SampleRate {
    #[verifier::type_invariant]
    spec fn is_positive(self) -> bool {
        self.hz > 0
    }

    /// The rate of `hz` hertz; `None` where `hz` is zero.
    pub fn new(hz: u32) -> (rate: Option<Self>)
        ensures
            rate is None <==> hz == 0,
            rate matches Some(rate) ==> rate@ == hz,
    {
        if hz == 0 {
            None
        } else {
            Some(SampleRate { hz })
        }
    }

    /// The rate in hertz.
    pub fn get(&self) -> (hz: u32)
        ensures
            hz == self@,
            hz > 0,
    {
        proof {
            use_type_invariant(self);
        }
        self.hz
    }
}

/// The configuration of a stream.
#[derive(Clone, Debug)]
pub struct WebAudioConfig {
    /// The desired sample rate. Where it is `None` the platform picks one.
    pub sample_rate: Option<SampleRate>,
}

impl Default for WebAudioConfig {
    /// The configuration that leaves the sample rate to the platform.
    fn default() -> (config: Self)
        ensures
            config.sample_rate is None,
    {
        WebAudioConfig { sample_rate: None }
    }
}

/// How the platform's audio context is to be opened.
#[derive(Clone, Copy, Debug, PartialEq, Eq, Structural)]
pub enum ContextRequest {
    /// With the platform's own options.
    PlatformDefault,
    /// With the option that asks for this sample rate, in hertz.
    WithSampleRate(u32),
}

impl WebAudioConfig {
    /// How the audio context is to be opened for this configuration.
    pub open spec fn request(self) -> ContextRequest {
        match self.sample_rate {
            Some(rate) => ContextRequest::WithSampleRate(rate@),
            None => ContextRequest::PlatformDefault,
        }
    }

    /// How the audio context is to be opened for this configuration: with the
    /// desired sample rate where there is one, else with the platform's own
    /// options.
    pub fn context_request(&self) -> (request: ContextRequest)
        ensures
            request == self.request(),
            request matches ContextRequest::WithSampleRate(hz) ==> hz > 0,
    {
        match &self.sample_rate {
            Some(rate) => ContextRequest::WithSampleRate(rate.get()),
            None => ContextRequest::PlatformDefault,
        }
    }
}

/// What went wrong when a stream was started.
pub enum StartErrorView {
    /// The audio context could not be opened.
    Initialization(Seq<char>),
    /// The render node could not be activated.
    WorkletCreation(Seq<char>),
}

/// Errors related to initializing the web audio stream.
#[derive(Debug)]
pub enum WebAudioStartError {
    /// An error occurred during Web Audio context initialization.
    Initialization(String),
    /// An error occurred when constructing the `AudioWorkletNode`.
    WorkletCreation(String),
}

impl View for WebAudioStartError {
    type V = StartErrorView;

    open spec fn view(&self) -> StartErrorView {
        match self {
            WebAudioStartError::Initialization(detail) => StartErrorView::Initialization(detail@),
            WebAudioStartError::WorkletCreation(detail) => StartErrorView::WorkletCreation(
                detail@,
            ),
        }
    }
}

impl StartErrorView {
    /// The message of the error: what failed, then what the platform said.
    pub open spec fn message(self) -> Seq<char> {
        match self {
            StartErrorView::Initialization(detail) => "Failed to initialize Web Audio API object: "@
                + detail,
            StartErrorView::WorkletCreation(detail) => "Failed to create the backend audio worklet: "@
                + detail,
        }
    }
}

impl WebAudioStartError {
    /// The message of the error: what failed, then what the platform said.
    pub fn message(&self) -> (message: String)
        ensures
            message@ == self@.message(),
    {
        match self {
            WebAudioStartError::Initialization(detail) => {
                String::from_str("Failed to initialize Web Audio API object: ").concat(
                    detail.as_str(),
                )
            },
            WebAudioStartError::WorkletCreation(detail) => {
                String::from_str("Failed to create the backend audio worklet: ").concat(
                    detail.as_str(),
                )
            },
        }
    }
}

/// Errors encountered while the web audio stream is running.
#[derive(Clone, Copy, Debug, PartialEq, Eq, Structural)]
pub enum WebAudioStreamError {
    /// The `AudioWorkletNode` was unexpectedly dropped.
    UnexpectedDrop,
}

impl WebAudioStreamError {
    /// The message of the error.
    pub fn message(&self) -> (message: String)
        ensures
            message@ == "The `AudioWorkletNode` was unexpectedly dropped"@,
    {
        match self {
            WebAudioStreamError::UnexpectedDrop => String::from_str(
                "The `AudioWorkletNode` was unexpectedly dropped",
            ),
        }
    }
}

/// Information about an audio device.
#[derive(Clone, Debug)]
pub struct DeviceInfo {
    /// The name of the device.
    pub name: String,
    /// The number of channels of the device.
    pub num_channels: u16,
    /// Whether the device is the default one.
    pub is_default: bool,
}

impl DeviceInfo {
    /// Whether this is the one output device that the platform offers: the
    /// default output, with the stream's output channels.
    pub open spec fn is_default_output(self) -> bool {
        &&& self.name@ == "default output"@
        &&& self.num_channels == OUTPUT_CHANNELS
        &&& self.is_default
    }
}

/// Information about a running stream.
#[derive(Clone, Debug)]
pub struct StreamInfo {
    /// The sample rate of the stream, as the platform has set it.
    pub sample_rate: SampleRate,
    /// The number of frames in a block. It is never zero.
    pub max_block_frames: u32,
    /// The number of input channels of the stream.
    pub num_stream_in_channels: u32,
    /// The number of output channels of the stream.
    pub num_stream_out_channels: u32,
    /// The name of the input device, if there is one.
    pub input_device_name: Option<String>,
    /// The name of the output device, if there is one.
    pub output_device_name: Option<String>,
}

impl StreamInfo {
    /// Whether this describes a stream that runs at `rate`: the fixed block
    /// size and channel counts, no input device and the default output.
    pub open spec fn describes(self, rate: SampleRate) -> bool {
        &&& self.sample_rate@ == rate@
        &&& self.max_block_frames == BLOCK_FRAMES
        &&& self.num_stream_in_channels == INPUT_CHANNELS
        &&& self.num_stream_out_channels == OUTPUT_CHANNELS
        &&& self.input_device_name is None
        &&& self.output_device_name matches Some(name) && name@ == "default output"@
    }
}

/// What is to be undone on the platform when a stream is released.
#[derive(Clone, Copy, Debug, PartialEq, Eq, Structural)]
pub struct TeardownPlan {
    /// Whether the render node is to be disconnected from the output.
    pub disconnect_node: bool,
    /// Whether the audio context is to be closed.
    pub close_context: bool,
}

/// What a [`WebAudioBackend`] holds.
pub struct BackendView {
    /// Whether a processor could not be handed over because the render side
    /// is gone.
    pub dropped: bool,
    /// Whether the stream is alive: whether it has not been released.
    pub alive: bool,
    /// How far the activation of the stream has come.
    pub bootstrap: BootstrapPhase,
}

/// A call on a backend, with the outcome of the platform work behind it.
pub enum BackendCall {
    /// `set_processor`, and whether the processor was delivered.
    SetProcessor(bool),
    /// `poll_status`
    PollStatus,
    /// `advance_bootstrap`, and whether the step had succeeded.
    AdvanceBootstrap(bool),
    /// `release`
    Release,
}

impl BackendView {
    /// The backend of a stream that has just started.
    pub open spec fn fresh() -> BackendView {
        BackendView { dropped: false, alive: true, bootstrap: BootstrapPhase::LoadingModule }
    }

    /// The backend after a processor was or was not `delivered`.
    pub open spec fn after_handoff(self, delivered: bool) -> BackendView {
        BackendView { dropped: self.dropped || !delivered, ..self }
    }

    /// The status that a poll reports.
    pub open spec fn status(self) -> Result<(), WebAudioStreamError> {
        if self.dropped {
            Err(WebAudioStreamError::UnexpectedDrop)
        } else {
            Ok(())
        }
    }

    /// The backend after the pending step of the activation has succeeded or
    /// failed.
    pub open spec fn after_bootstrap(self, succeeded: bool) -> BackendView {
        BackendView { bootstrap: self.bootstrap.after(succeeded), ..self }
    }

    /// What a release of this backend asks of the platform. A backend that
    /// was released before asks nothing; otherwise the context is closed, and
    /// the node is disconnected where the activation has connected it.
    pub open spec fn teardown(self) -> TeardownPlan {
        TeardownPlan {
            disconnect_node: self.alive && self.bootstrap == BootstrapPhase::Active,
            close_context: self.alive,
        }
    }

    /// The backend after its release.
    pub open spec fn released(self) -> BackendView {
        BackendView { alive: false, ..self }
    }

    /// The backend after `call`.
    pub open spec fn after_call(self, call: BackendCall) -> BackendView {
        match call {
            BackendCall::SetProcessor(delivered) => self.after_handoff(delivered),
            BackendCall::PollStatus => self,
            BackendCall::AdvanceBootstrap(succeeded) => self.after_bootstrap(succeeded),
            BackendCall::Release => self.released(),
        }
    }

    /// The backend after `calls`, made in order.
    pub open spec fn after_calls(self, calls: Seq<BackendCall>) -> BackendView
        decreases calls.len(),
    {
        if calls.len() == 0 {
            self
        } else {
            self.after_calls(calls.drop_last()).after_call(calls.last())
        }
    }
}

/// The plan that asks nothing of the platform.
pub open spec fn nothing_to_undo() -> TeardownPlan {
    TeardownPlan { disconnect_node: false, close_context: false }
}

/// A second release asks nothing of the platform and leaves the backend as
/// the first release left it, in whatever state the first one found it.
pub proof fn lemma_release_is_idempotent(backend: BackendView)
    ensures
        backend.released().teardown() == nothing_to_undo(),
        backend.released().released() == backend.released(),
{
}

/// A backend that is not alive stays so, and asks nothing of the platform
/// when it is released, whatever calls are made on it.
pub proof fn lemma_released_backend_stays_released(backend: BackendView, calls: Seq<BackendCall>)
    requires
        !backend.alive,
    ensures
        !backend.after_calls(calls).alive,
        backend.after_calls(calls).teardown() == nothing_to_undo(),
    decreases calls.len(),
{
    if calls.len() > 0 {
        lemma_released_backend_stays_released(backend, calls.drop_last());
    }
}

/// The platform is asked to tear a stream down at most once: after a release,
/// whatever calls are made, in whatever state the activation is or comes to
/// be, a further release asks nothing.
pub proof fn lemma_teardown_happens_once(backend: BackendView, later: Seq<BackendCall>)
    ensures
        backend.released().after_calls(later).teardown() == nothing_to_undo(),
{
    lemma_released_backend_stays_released(backend.released(), later);
}

/// Once a processor could not be delivered, every later poll reports the
/// drop, whatever calls are made in between.
pub proof fn lemma_drop_is_reported_from_then_on(backend: BackendView, later: Seq<BackendCall>)
    ensures
        backend.after_handoff(false).after_calls(later).status() == Err::<
            (),
            WebAudioStreamError,
        >(WebAudioStreamError::UnexpectedDrop),
    decreases later.len(),
{
    if later.len() > 0 {
        lemma_drop_is_reported_from_then_on(backend, later.drop_last());
    }
}

/// The control-side backend of a stream whose processor has type `P`.
#[verifier::reject_recursive_types(P)]
#[derive(Debug)]
pub struct WebAudioBackend<P> {
    processor: HandoffSender<P>,
    is_dropped: bool,
    alive: LivenessFlag,
    bootstrap: Bootstrap,
}

impl<P> View for WebAudioBackend<P> {
    type V = BackendView;

    closed spec fn view(&self) -> BackendView {
        BackendView { dropped: self.is_dropped, alive: self.alive@, bootstrap: self.bootstrap@ }
    }
}

impl<P> WebAudioBackend<P> {
    /// The input devices that can be used: none.
    pub fn available_input_devices() -> (devices: Vec<DeviceInfo>)
        ensures
            devices@.len() == 0,
    {
        Vec::new()
    }

    /// The output devices that can be used: the default output alone.
    pub fn available_output_devices() -> (devices: Vec<DeviceInfo>)
        ensures
            devices@.len() == 1,
            devices@[0].is_default_output(),
    {
        let mut devices: Vec<DeviceInfo> = Vec::new();
        devices.push(
            DeviceInfo {
                name: String::from_str("default output"),
                num_channels: 2,
                is_default: true,
            },
        );
        devices
    }

    /// Starts a stream on the audio context that was `opened`: `Ok` with the
    /// sample rate that the platform has set, or `Err` with what the platform
    /// said when it could not open one.
    ///
    /// Where the context could not be opened, no stream is made and the error
    /// holds what the platform said. Otherwise the stream is made of a
    /// backend, a render host that awaits its processor and whose regions
    /// hold `silence`, and the description of the stream; the sample rate in
    /// it is the platform's.
    pub fn start_stream<S: Copy>(opened: Result<SampleRate, String>, silence: S) -> (started:
        Result<(Self, RenderHost<P, S>, StreamInfo), WebAudioStartError>)
        ensures
            opened matches Err(detail) ==> started matches Err(error) && error@
                == StartErrorView::Initialization(detail@),
            opened matches Ok(rate) ==> started matches Ok(stream) && {
                &&& stream.0@ == BackendView::fresh()
                &&& stream.1@.processor is None
                &&& stream.1@.pool == BufferPool::<S>::fresh(silence)
                &&& !stream.1@.seen_dead
                &&& stream.2.describes(rate)
            },
    {
        let rate = match opened {
            Ok(rate) => rate,
            Err(detail) => {
                return Err(WebAudioStartError::Initialization(detail));
            },
        };
        let (sender, receiver) = handoff();
        let alive = LivenessFlag::new();
        let host = RenderHost::new(receiver, alive.observer(), silence);
        let backend = WebAudioBackend {
            processor: sender,
            is_dropped: false,
            alive,
            bootstrap: Bootstrap::new(),
        };
        let info = StreamInfo {
            sample_rate: rate,
            max_block_frames: BLOCK_FRAMES as u32,
            num_stream_in_channels: INPUT_CHANNELS as u32,
            num_stream_out_channels: OUTPUT_CHANNELS as u32,
            input_device_name: None,
            output_device_name: Some(String::from_str("default output")),
        };
        Ok((backend, host, info))
    }

    /// Takes note of the `outcome` of handing a processor over. Where the
    /// render side was gone the backend counts the stream as dropped, from
    /// then on.
    pub fn record_handoff(&mut self, outcome: Result<(), ReceiverGone<P>>)
        ensures
            final(self)@ == old(self)@.after_handoff(outcome is Ok),
    {
        if outcome.is_err() {
            self.is_dropped = true;
        }
    }

    /// Sends `processor` to the render side, without blocking. Where the
    /// render side is gone the backend counts the stream as dropped.
    pub fn set_processor(&mut self, processor: P)
        ensures
            final(self)@ == old(self)@.after_handoff(true) || final(self)@ == old(
                self,
            )@.after_handoff(false),
    {
        let outcome = self.processor.send(processor);
        self.record_handoff(outcome);
    }

    /// The status of the stream: an error once a processor could not be
    /// handed over. The backend stays as it is.
    pub fn poll_status(&mut self) -> (status: Result<(), WebAudioStreamError>)
        ensures
            status == old(self)@.status(),
            final(self)@ == old(self)@,
    {
        if self.is_dropped {
            Err(WebAudioStreamError::UnexpectedDrop)
        } else {
            Ok(())
        }
    }

    /// Whether a processor could not be handed over because the render side
    /// is gone.
    pub fn is_dropped(&self) -> (dropped: bool)
        ensures
            dropped == self@.dropped,
    {
        self.is_dropped
    }

    /// Whether the stream is alive: whether it has not been released.
    pub fn is_alive(&self) -> (alive: bool)
        ensures
            alive == self@.alive,
    {
        self.alive.is_alive()
    }

    /// How far the activation of the stream has come.
    pub fn bootstrap_phase(&self) -> (phase: BootstrapPhase)
        ensures
            phase == self@.bootstrap,
    {
        self.bootstrap.phase()
    }

    /// The step of the activation that the platform has to perform now, if
    /// there is one.
    pub fn pending_step(&self) -> (step: Option<BootstrapStep>)
        ensures
            step == self@.bootstrap.pending(),
    {
        self.bootstrap.pending_step()
    }

    /// Takes note of the outcome of the pending step of the activation: `Ok`,
    /// or what the platform said of the failure. A failure ends the
    /// activation and is handed back as the error to report.
    pub fn advance_bootstrap(&mut self, outcome: Result<(), String>) -> (report: Option<
        WebAudioStartError,
    >)
        ensures
            final(self)@ == old(self)@.after_bootstrap(outcome is Ok),
            report is Some <==> old(self)@.bootstrap.pending() is Some && outcome is Err,
            report matches Some(error) ==> error@ == StartErrorView::WorkletCreation(
                outcome->Err_0@,
            ),
    {
        self.bootstrap.advance(outcome)
    }

    /// Releases the stream: marks it dead and says what is to be undone on the
    /// platform. It is safe in every state of the backend, of the activation
    /// and of the render side, and may be called again: a backend that was
    /// released before asks nothing more.
    pub fn release(&mut self) -> (plan: TeardownPlan)
        ensures
            plan == old(self)@.teardown(),
            final(self)@ == old(self)@.released(),
    {
        let plan = TeardownPlan {
            disconnect_node: self.alive.is_alive() && self.bootstrap.phase()
                == BootstrapPhase::Active,
            close_context: self.alive.is_alive(),
        };
        self.alive.mark_dead();
        plan
    }
}

} // verus!
