//! The handshake that turns a window into a configured rendering environment.
//!
//! The negotiation is a sequence of requests to the platform, each of which
//! needs what the one before it produced. A `Stage` says which request is
//! pending; the caller performs it and hands the platform's `Reply` to
//! `Stage::step`, which names the stage that follows and the request that is
//! pending there.

use vstd::prelude::*;
use crate::env::Environment;
use crate::env::WindowId;
use crate::error::EnvError;
use crate::surface::PhysicalSize;
use crate::surface::SurfaceCapabilities;
use crate::surface::SurfaceConfig;

verus! {

/// Width asked for when the window is created, in pixels.
pub const WINDOW_WIDTH: u32 = 1600;

/// Height asked for when the window is created, in pixels.
pub const WINDOW_HEIGHT: u32 = 900;

/// A GPU API that an instance can be restricted to.
#[derive(Clone, Copy, Debug, PartialEq, Eq, Structural)]
pub enum Backend {
    Vulkan,
    Metal,
    Dx12,
    Dx11,
    Gl,
    BrowserWebGpu,
}

/// The power profile preferred of an adapter.
#[derive(Clone, Copy, Debug, PartialEq, Eq, Structural)]
pub enum PowerPreference {
    Unspecified,
    LowPower,
    HighPerformance,
}

/// What the caller is asked to do next.
#[derive(Clone, Copy, Debug, PartialEq, Eq)]
pub enum Action {
    /// Create the window, asking for the given size.
    CreateWindow { width: u32, height: u32 },
    /// Create a GPU instance restricted to one backend.
    CreateInstance { backend: Backend },
    /// Bind a presentation surface, not yet configured, to the window.
    CreateSurface,
    /// Request an adapter under the given constraints.
    RequestAdapter {
        power_preference: PowerPreference,
        force_fallback_adapter: bool,
        compatible_with_surface: bool,
    },
    /// Request a device and its queue from the adapter, with default features
    /// and limits.
    RequestDevice,
    /// Query what the surface supports against the adapter, and measure the
    /// window's current physical size.
    QuerySurface,
    /// Apply the configuration to the surface.
    ConfigureSurface(SurfaceConfig),
    /// Hand out the finished environment.
    Finish(Environment),
    /// Give up with the error.
    Abort(EnvError),
}

/// What the platform answered to the pending request.
#[derive(Clone, Debug, PartialEq, Eq)]
pub enum Reply {
    WindowCreated(WindowId),
    WindowRefused,
    InstanceCreated,
    SurfaceCreated,
    SurfaceRefused,
    AdapterFound,
    NoAdapter,
    DeviceGranted,
    DeviceRefused,
    Surveyed { capabilities: SurfaceCapabilities, size: PhysicalSize },
    SurfaceConfigured,
}

/// How far the negotiation has come.
#[derive(Clone, Copy, Debug, PartialEq, Eq)]
pub enum Stage {
    AwaitingWindow,
    AwaitingInstance(WindowId),
    AwaitingSurface(WindowId),
    AwaitingAdapter(WindowId),
    AwaitingDevice(WindowId),
    AwaitingSurvey(WindowId),
    AwaitingConfiguration(Environment),
    Ready(Environment),
    Failed(EnvError),
}

impl Stage {
    /// The request that is pending at this stage.
    pub open spec fn pending(self) -> Action {
        match self {
            Stage::AwaitingWindow => Action::CreateWindow {
                width: WINDOW_WIDTH,
                height: WINDOW_HEIGHT,
            },
            Stage::AwaitingInstance(_) => Action::CreateInstance { backend: Backend::Vulkan },
            Stage::AwaitingSurface(_) => Action::CreateSurface,
            Stage::AwaitingAdapter(_) => Action::RequestAdapter {
                power_preference: PowerPreference::HighPerformance,
                force_fallback_adapter: false,
                compatible_with_surface: true,
            },
            Stage::AwaitingDevice(_) => Action::RequestDevice,
            Stage::AwaitingSurvey(_) => Action::QuerySurface,
            Stage::AwaitingConfiguration(env) => Action::ConfigureSurface(env.config),
            Stage::Ready(env) => Action::Finish(env),
            Stage::Failed(error) => Action::Abort(error),
        }
    }

    /// The negotiation has ended, in an environment or in an error.
    pub open spec fn is_terminal(self) -> bool {
        self is Ready || self is Failed
    }

    /// `reply` answers the request that is pending at this stage. A survey
    /// answers only if it names at least one format and one alpha mode.
    pub open spec fn expects(self, reply: Reply) -> bool {
        match self {
            Stage::AwaitingWindow => reply is WindowCreated || reply is WindowRefused,
            Stage::AwaitingInstance(_) => reply is InstanceCreated,
            Stage::AwaitingSurface(_) => reply is SurfaceCreated || reply is SurfaceRefused,
            Stage::AwaitingAdapter(_) => reply is AdapterFound || reply is NoAdapter,
            Stage::AwaitingDevice(_) => reply is DeviceGranted || reply is DeviceRefused,
            Stage::AwaitingSurvey(_) => reply matches Reply::Surveyed { capabilities, .. }
                && capabilities.usable(),
            Stage::AwaitingConfiguration(_) => reply is SurfaceConfigured,
            Stage::Ready(_) => false,
            Stage::Failed(_) => false,
        }
    }

    /// The stage that follows this one once `reply` has come in.
    pub open spec fn next(self, reply: Reply) -> Stage
        recommends
            self.expects(reply),
    {
        match self {
            Stage::AwaitingWindow => match reply {
                Reply::WindowCreated(window) => Stage::AwaitingInstance(window),
                _ => Stage::Failed(EnvError::WindowCreationFailed),
            },
            Stage::AwaitingInstance(window) => Stage::AwaitingSurface(window),
            Stage::AwaitingSurface(window) => match reply {
                Reply::SurfaceCreated => Stage::AwaitingAdapter(window),
                _ => Stage::Failed(EnvError::SurfaceCreationFailed),
            },
            Stage::AwaitingAdapter(window) => match reply {
                Reply::AdapterFound => Stage::AwaitingDevice(window),
                _ => Stage::Failed(EnvError::NoCompatibleAdapter),
            },
            Stage::AwaitingDevice(window) => match reply {
                Reply::DeviceGranted => Stage::AwaitingSurvey(window),
                _ => Stage::Failed(EnvError::DeviceRequestFailed),
            },
            Stage::AwaitingSurvey(window) => match reply {
                Reply::Surveyed { capabilities, size } => Stage::AwaitingConfiguration(
                    Environment::negotiated(window, capabilities, size),
                ),
                _ => self,
            },
            Stage::AwaitingConfiguration(env) => Stage::Ready(env),
            Stage::Ready(_) => self,
            Stage::Failed(_) => self,
        }
    }

    /// The stage at which every negotiation starts: no window exists yet.
    pub fn begin() -> (stage: Stage)
        ensures
            stage == Stage::AwaitingWindow,
    {
        Stage::AwaitingWindow
    }

    /// The request that is pending at this stage.
    pub fn action(&self) -> (action: Action)
        ensures
            action == self.pending(),
    {
        match self {
            Stage::AwaitingWindow => Action::CreateWindow {
                width: WINDOW_WIDTH,
                height: WINDOW_HEIGHT,
            },
            Stage::AwaitingInstance(_) => Action::CreateInstance { backend: Backend::Vulkan },
            Stage::AwaitingSurface(_) => Action::CreateSurface,
            Stage::AwaitingAdapter(_) => Action::RequestAdapter {
                power_preference: PowerPreference::HighPerformance,
                force_fallback_adapter: false,
                compatible_with_surface: true,
            },
            Stage::AwaitingDevice(_) => Action::RequestDevice,
            Stage::AwaitingSurvey(_) => Action::QuerySurface,
            Stage::AwaitingConfiguration(env) => Action::ConfigureSurface(env.config),
            Stage::Ready(env) => Action::Finish(*env),
            Stage::Failed(error) => Action::Abort(*error),
        }
    }

    /// Tests whether `reply` answers the request that is pending at this stage.
    pub fn accepts(&self, reply: &Reply) -> (accepted: bool)
        ensures
            accepted == self.expects(*reply),
    {
        match self {
            Stage::AwaitingWindow => matches!(
                reply,
                Reply::WindowCreated(_) | Reply::WindowRefused
            ),
            Stage::AwaitingInstance(_) => matches!(reply, Reply::InstanceCreated),
            Stage::AwaitingSurface(_) => matches!(
                reply,
                Reply::SurfaceCreated | Reply::SurfaceRefused
            ),
            Stage::AwaitingAdapter(_) => matches!(reply, Reply::AdapterFound | Reply::NoAdapter),
            Stage::AwaitingDevice(_) => matches!(
                reply,
                Reply::DeviceGranted | Reply::DeviceRefused
            ),
            Stage::AwaitingSurvey(_) => match reply {
                Reply::Surveyed { capabilities, .. } => capabilities.is_usable(),
                _ => false,
            },
            Stage::AwaitingConfiguration(_) => matches!(reply, Reply::SurfaceConfigured),
            Stage::Ready(_) => false,
            Stage::Failed(_) => false,
        }
    }

    /// Takes in the platform's reply to the pending request and names the
    /// stage that follows, together with the request that is pending there.
    /// A refusal ends the negotiation in the error of the step that was
    /// refused; nothing is requested after it.
    pub fn step(self, reply: Reply) -> (out: (Stage, Action))
        requires
            self.expects(reply),
        ensures
            out.0 == self.next(reply),
            out.1 == out.0.pending(),
    {
        let next = match self {
            Stage::AwaitingWindow => match reply {
                Reply::WindowCreated(window) => Stage::AwaitingInstance(window),
                _ => Stage::Failed(EnvError::WindowCreationFailed),
            },
            Stage::AwaitingInstance(window) => Stage::AwaitingSurface(window),
            Stage::AwaitingSurface(window) => match reply {
                Reply::SurfaceCreated => Stage::AwaitingAdapter(window),
                _ => Stage::Failed(EnvError::SurfaceCreationFailed),
            },
            Stage::AwaitingAdapter(window) => match reply {
                Reply::AdapterFound => Stage::AwaitingDevice(window),
                _ => Stage::Failed(EnvError::NoCompatibleAdapter),
            },
            Stage::AwaitingDevice(window) => match reply {
                Reply::DeviceGranted => Stage::AwaitingSurvey(window),
                _ => Stage::Failed(EnvError::DeviceRequestFailed),
            },
            Stage::AwaitingSurvey(window) => match reply {
                Reply::Surveyed { capabilities, size } => Stage::AwaitingConfiguration(
                    Environment::new(window, &capabilities, size),
                ),
                _ => self,
            },
            Stage::AwaitingConfiguration(env) => Stage::Ready(env),
            Stage::Ready(_) => self,
            Stage::Failed(_) => self,
        };
        let action = next.action();
        (next, action)
    }
}

impl Stage {
    /// How many requests were answered before this stage was reached. A
    /// failed negotiation is ranked 0, whatever was answered before it failed.
    pub open spec fn rank(self) -> nat {
        match self {
            Stage::AwaitingWindow => 0,
            Stage::AwaitingInstance(_) => 1,
            Stage::AwaitingSurface(_) => 2,
            Stage::AwaitingAdapter(_) => 3,
            Stage::AwaitingDevice(_) => 4,
            Stage::AwaitingSurvey(_) => 5,
            Stage::AwaitingConfiguration(_) => 6,
            Stage::Ready(_) => 7,
            Stage::Failed(_) => 0,
        }
    }
}

/// The stage reached from the start once the first `n` of `replies` are taken
/// in.
pub open spec fn stage_after(replies: Seq<Reply>, n: nat) -> Stage
    decreases n,
{
    if n == 0 {
        Stage::AwaitingWindow
    } else {
        stage_after(replies, (n - 1) as nat).next(replies[n - 1])
    }
}

/// Each of `replies` answers the request that is pending when it comes in.
pub open spec fn in_order(replies: Seq<Reply>) -> bool {
    forall|n: nat|
        n < replies.len() ==> (#[trigger] stage_after(replies, n)).expects(replies[n as int])
}

/// A stage that ended the negotiation takes no further reply, so nothing is
/// requested after it.
pub proof fn lemma_terminal_stage_expects_nothing(stage: Stage, reply: Reply)
    requires
        stage.is_terminal(),
    ensures
        !stage.expects(reply),
{
}

/// One step either fails, or moves on to the stage that comes next in the
/// fixed order; no stage is skipped and none is visited twice.
pub proof fn lemma_step_keeps_order(stage: Stage, reply: Reply)
    requires
        stage.expects(reply),
    ensures
        !stage.is_terminal(),
        stage.next(reply) is Failed || stage.next(reply).rank() == stage.rank() + 1,
{
}

/// Each error has one cause: the refusal of the step it is named after. A
/// step that is answered otherwise does not fail.
pub proof fn lemma_failure_causes(stage: Stage, reply: Reply)
    requires
        stage.expects(reply),
    ensures
        stage.next(reply) == Stage::Failed(EnvError::WindowCreationFailed) <==> stage
            is AwaitingWindow && reply is WindowRefused,
        stage.next(reply) == Stage::Failed(EnvError::SurfaceCreationFailed) <==> stage
            is AwaitingSurface && reply is SurfaceRefused,
        stage.next(reply) == Stage::Failed(EnvError::NoCompatibleAdapter) <==> stage
            is AwaitingAdapter && reply is NoAdapter,
        stage.next(reply) == Stage::Failed(EnvError::DeviceRequestFailed) <==> stage
            is AwaitingDevice && reply is DeviceRefused,
        stage.next(reply) is Failed <==> reply is WindowRefused || reply is SurfaceRefused
            || reply is NoAdapter || reply is DeviceRefused,
{
}

/// The requests of a negotiation come in one fixed order: after `n` replies
/// the negotiation has failed or stands at the stage of rank `n`. It ends
/// after seven replies at the latest, and only its last stage is terminal.
pub proof fn lemma_requests_follow_fixed_order(replies: Seq<Reply>, n: nat)
    requires
        in_order(replies),
        n <= replies.len(),
    ensures
        stage_after(replies, n) is Failed || stage_after(replies, n).rank() == n,
        n < replies.len() ==> !stage_after(replies, n).is_terminal(),
        n <= 7,
    decreases n,
{
    if n > 0 {
        let before = stage_after(replies, (n - 1) as nat);
        lemma_requests_follow_fixed_order(replies, (n - 1) as nat);
        assert(before.expects(replies[n - 1]));
        lemma_step_keeps_order(before, replies[n - 1]);
    }
    if n < replies.len() {
        assert(stage_after(replies, n).expects(replies[n as int]));
    }
}

/// Without a compatible adapter the negotiation ends in `NoCompatibleAdapter`
/// with that reply: it is the fourth and last reply taken in, and at no stage
/// of the negotiation is a device requested.
pub proof fn lemma_no_adapter_no_device_request(replies: Seq<Reply>, k: int)
    requires
        in_order(replies),
        0 <= k < replies.len(),
        replies[k] is NoAdapter,
    ensures
        k == 3,
        replies.len() == 4,
        stage_after(replies, 4) == Stage::Failed(EnvError::NoCompatibleAdapter),
        stage_after(replies, 4).pending() == Action::Abort(EnvError::NoCompatibleAdapter),
        forall|n: nat|
            n <= replies.len() ==> !((#[trigger] stage_after(replies, n)).pending()
                is RequestDevice),
{
    let at = stage_after(replies, k as nat);
    assert(at.expects(replies[k as nat as int]));
    lemma_requests_follow_fixed_order(replies, k as nat);
    assert(at is AwaitingAdapter);
    assert(stage_after(replies, 4) == at.next(replies[k]));
    if replies.len() > 4 {
        assert(stage_after(replies, 4).expects(replies[4]));
    }
    assert forall|n: nat| n <= replies.len() implies !((#[trigger] stage_after(
        replies,
        n,
    )).pending() is RequestDevice) by {
        lemma_requests_follow_fixed_order(replies, n);
    }
}

/// At the survey the configuration is settled from the size measured on the
/// window, and that configuration is the one the caller is asked to apply.
pub proof fn lemma_configuration_takes_measured_size(
    window: WindowId,
    capabilities: SurfaceCapabilities,
    size: PhysicalSize,
)
    requires
        capabilities.usable(),
    ensures
        Stage::AwaitingSurvey(window).expects(Reply::Surveyed { capabilities, size }),
        Stage::AwaitingSurvey(window).next(Reply::Surveyed { capabilities, size }).pending()
            == Action::ConfigureSurface(SurfaceConfig::derived(capabilities, size)),
        SurfaceConfig::derived(capabilities, size).width == size.width,
        SurfaceConfig::derived(capabilities, size).height == size.height,
{
}

/// A negotiation that ends in an environment took in seven replies, and the
/// environment is the one negotiated for the window that was created, from
/// the capabilities and the size that the survey reported.
pub proof fn lemma_ready_environment(replies: Seq<Reply>)
    requires
        in_order(replies),
        stage_after(replies, replies.len()) is Ready,
    ensures
        replies.len() == 7,
        replies[0] is WindowCreated,
        replies[5] is Surveyed,
        stage_after(replies, 7) == Stage::Ready(
            Environment::negotiated(
                replies[0]->WindowCreated_0,
                replies[5]->capabilities,
                replies[5]->size,
            ),
        ),
        stage_after(replies, 7)->Ready_0.config.width == replies[5]->size.width,
        stage_after(replies, 7)->Ready_0.config.height == replies[5]->size.height,
{
    lemma_requests_follow_fixed_order(replies, replies.len());
    assert forall|n: nat| n < 7 implies (#[trigger] stage_after(replies, n)).rank() == n by {
        lemma_requests_follow_fixed_order(replies, n);
    }
    reveal_with_fuel(stage_after, 8);
}

} // verus!
