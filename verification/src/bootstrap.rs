//! The bootstrap sequence itself: from a description of what the host's
//! graphics stack offers, either a fully populated [`RenderContext`] or
//! a typed [`GraphicsError`], together with the exact list of API calls
//! the sequence performs. Every failure aborts construction at once: no
//! retries, and no partial context ever escapes.

use vstd::prelude::*;

use crate::device::{
    DeviceInfo, chosen_device, chosen_family, has_graphics_device, has_suitable_family,
    lemma_device_selection_deterministic, select_device, select_queue_family,
};
use crate::swapchain::{PresentMode, SurfaceCaps, SwapchainConfig, caps_complete, plan_swapchain,
    spec_plan_swapchain};

verus! {

/// Everything the bootstrap sequence observes of the host's graphics
/// stack, written down as plain data. The unverified front end fills
/// this in from the real API; a test writes it directly.
#[derive(Debug)]
pub struct Environment {
    /// Whether creating the API instance (with the extensions needed to
    /// present to a native window) succeeds.
    pub instance_ok: bool,
    /// The physical devices the instance enumerates, in enumeration
    /// order.
    pub devices: Vec<DeviceInfo>,
    /// Whether creating the native window and its presentable surface
    /// succeeds.
    pub surface_ok: bool,
    /// Whether creating the logical device and its submission queue
    /// (with the swapchain extension) succeeds.
    pub device_ok: bool,
    /// What the capability query for the selected device reports about
    /// the surface.
    pub caps: SurfaceCaps,
    /// The window's current physical pixel dimensions, when the
    /// windowing library can report them.
    pub window_size: Option<(u32, u32)>,
    /// Whether constructing the swapchain from the chosen parameters
    /// succeeds.
    pub swapchain_ok: bool,
}

/// Why context construction failed. Every variant aborts the sequence
/// immediately; none is retried.
#[derive(Clone, Copy, PartialEq, Eq, Structural, Debug)]
pub enum GraphicsError {
    /// The API instance could not be created.
    InstanceCreationFailed,
    /// No enumerated device supports graphics operations.
    NoSuitableDevice,
    /// The selected device has no queue family that supports both
    /// graphics submission and presentation to the surface.
    NoSuitableQueueFamily,
    /// The logical device or its queue could not be created.
    DeviceCreationFailed,
    /// The window surface could not be created, or its current pixel
    /// dimensions are unavailable.
    SurfaceUnavailable,
    /// The swapchain could not be constructed, or the surface reports
    /// no supported alpha mode or pixel format to construct it from.
    SwapchainCreationFailed,
}

/// One call into the graphics or windowing API, as the bootstrap
/// sequence issues them. The trace of these is part of the result, so
/// the fail-fast ordering is stated, not assumed.
#[derive(Clone, Copy, PartialEq, Eq, Structural, Debug)]
pub enum ApiCall {
    CreateInstance,
    EnumerateDevices,
    CreateSurface,
    QueryQueueFamilies,
    CreateDevice,
    QueryCapabilities,
    QueryDimensions,
    /// Carries the parameters the swapchain is requested with, so a
    /// test double can observe the presentation mode.
    CreateSwapchain(SwapchainConfig),
}

/// A fully initialized rendering context: the handles the bootstrap
/// selected (as indices into the host's enumeration) and the swapchain
/// it requested. Constructed only as a whole; there is no partially
/// initialized state.
#[derive(Debug)]
pub struct RenderContext {
    /// The title the native window was created with.
    pub window_title: String,
    /// Index of the selected physical device, in enumeration order.
    pub device_index: usize,
    /// Index of the selected queue family on that device, in
    /// enumeration order.
    pub queue_family_index: usize,
    /// Physical pixel width of the drawable area at construction time.
    pub width: u32,
    /// Physical pixel height of the drawable area at construction time.
    pub height: u32,
    /// The parameters the swapchain was constructed with.
    pub swapchain: SwapchainConfig,
}

impl RenderContext {
    /// A context is well formed for the environment it was built from
    /// when every field records exactly what the policy selects: the
    /// first graphics-capable device, the first graphics-and-present
    /// queue family on it, the window's dimensions, and the swapchain
    /// plan (minimum image count, first format, first alpha mode, FIFO,
    /// clipped).
    pub open spec fn wf(self, env: Environment, title: Seq<char>) -> bool {
        &&& self.window_title@ == title
        &&& chosen_device(env.devices@, self.device_index as int)
        &&& chosen_family(
            env.devices@[self.device_index as int].queue_families@,
            self.queue_family_index as int,
        )
        &&& env.window_size == Some((self.width, self.height))
        &&& self.swapchain == spec_plan_swapchain(env.caps, self.width, self.height)
        &&& self.swapchain.present_mode is Fifo
        &&& self.swapchain.clipped
    }
}

/// Step 1 succeeded: the instance exists.
pub open spec fn instance_created(env: Environment) -> bool {
    env.instance_ok
}

/// Steps 1-2 succeeded: a graphics-capable device was found.
pub open spec fn device_found(env: Environment) -> bool {
    instance_created(env) && has_graphics_device(env.devices@)
}

/// Steps 1-3 succeeded: the window and surface exist.
pub open spec fn surface_created(env: Environment) -> bool {
    device_found(env) && env.surface_ok
}

/// Steps 1-4 succeeded: the selected device offers a suitable queue
/// family.
pub open spec fn family_found(env: Environment) -> bool {
    surface_created(env) && (exists|i: int|
        chosen_device(env.devices@, i) && has_suitable_family(env.devices@[i].queue_families@))
}

/// Steps 1-5 succeeded: the logical device and queue exist.
pub open spec fn device_created(env: Environment) -> bool {
    family_found(env) && env.device_ok
}

/// Steps 1-6 succeeded: the surface reports at least one alpha mode and
/// one pixel format.
pub open spec fn caps_usable(env: Environment) -> bool {
    device_created(env) && caps_complete(env.caps)
}

/// Steps 1-7 succeeded: the window's pixel dimensions are known.
pub open spec fn dims_known(env: Environment) -> bool {
    caps_usable(env) && env.window_size is Some
}

/// All eight steps succeed: context construction returns `Ok`.
pub open spec fn bootstrap_succeeds(env: Environment) -> bool {
    dims_known(env) && env.swapchain_ok
}

/// The error the bootstrap reports for an environment it fails in: the
/// error of the first step that cannot succeed.
pub open spec fn bootstrap_error(env: Environment) -> GraphicsError
    recommends
        !bootstrap_succeeds(env),
{
    if !instance_created(env) {
        GraphicsError::InstanceCreationFailed
    } else if !device_found(env) {
        GraphicsError::NoSuitableDevice
    } else if !surface_created(env) {
        GraphicsError::SurfaceUnavailable
    } else if !family_found(env) {
        GraphicsError::NoSuitableQueueFamily
    } else if !device_created(env) {
        GraphicsError::DeviceCreationFailed
    } else if !caps_usable(env) {
        GraphicsError::SwapchainCreationFailed
    } else if !dims_known(env) {
        GraphicsError::SurfaceUnavailable
    } else {
        GraphicsError::SwapchainCreationFailed
    }
}

/// The swapchain parameters the policy derives for an environment in
/// which all earlier steps succeeded.
pub open spec fn expected_config(env: Environment) -> SwapchainConfig {
    spec_plan_swapchain(
        env.caps,
        env.window_size->Some_0.0,
        env.window_size->Some_0.1,
    )
}

/// The exact list of API calls the bootstrap issues for a given
/// environment: each step's call is issued once, in order, and nothing
/// is issued past the first step that fails.
pub open spec fn expected_calls(env: Environment) -> Seq<ApiCall> {
    if !instance_created(env) {
        seq![ApiCall::CreateInstance]
    } else if !device_found(env) {
        seq![ApiCall::CreateInstance, ApiCall::EnumerateDevices]
    } else if !surface_created(env) {
        seq![ApiCall::CreateInstance, ApiCall::EnumerateDevices, ApiCall::CreateSurface]
    } else if !family_found(env) {
        seq![
            ApiCall::CreateInstance,
            ApiCall::EnumerateDevices,
            ApiCall::CreateSurface,
            ApiCall::QueryQueueFamilies,
        ]
    } else if !device_created(env) {
        seq![
            ApiCall::CreateInstance,
            ApiCall::EnumerateDevices,
            ApiCall::CreateSurface,
            ApiCall::QueryQueueFamilies,
            ApiCall::CreateDevice,
        ]
    } else if !caps_usable(env) {
        seq![
            ApiCall::CreateInstance,
            ApiCall::EnumerateDevices,
            ApiCall::CreateSurface,
            ApiCall::QueryQueueFamilies,
            ApiCall::CreateDevice,
            ApiCall::QueryCapabilities,
        ]
    } else if !dims_known(env) {
        seq![
            ApiCall::CreateInstance,
            ApiCall::EnumerateDevices,
            ApiCall::CreateSurface,
            ApiCall::QueryQueueFamilies,
            ApiCall::CreateDevice,
            ApiCall::QueryCapabilities,
            ApiCall::QueryDimensions,
        ]
    } else {
        seq![
            ApiCall::CreateInstance,
            ApiCall::EnumerateDevices,
            ApiCall::CreateSurface,
            ApiCall::QueryQueueFamilies,
            ApiCall::CreateDevice,
            ApiCall::QueryCapabilities,
            ApiCall::QueryDimensions,
            ApiCall::CreateSwapchain(expected_config(env)),
        ]
    }
}

/// The error taxonomy is exact: each error is reported if and only if
/// its step is the first that cannot succeed. `SurfaceUnavailable` and
/// `SwapchainCreationFailed` each cover two conditions of one resource:
/// the surface failing outright or its dimensions being unavailable,
/// and the swapchain failing outright or the capability lists leaving
/// it nothing to be built from.
pub proof fn lemma_error_conditions(env: Environment)
    requires
        !bootstrap_succeeds(env),
    ensures
        bootstrap_error(env) == GraphicsError::InstanceCreationFailed <==> !env.instance_ok,
        bootstrap_error(env) == GraphicsError::NoSuitableDevice <==> instance_created(env)
            && !has_graphics_device(env.devices@),
        bootstrap_error(env) == GraphicsError::NoSuitableQueueFamily <==> surface_created(env)
            && !family_found(env),
        bootstrap_error(env) == GraphicsError::DeviceCreationFailed <==> family_found(env)
            && !env.device_ok,
        bootstrap_error(env) == GraphicsError::SurfaceUnavailable <==> (device_found(env)
            && !env.surface_ok) || (caps_usable(env) && env.window_size is None),
        bootstrap_error(env) == GraphicsError::SwapchainCreationFailed <==> (device_created(env)
            && !caps_complete(env.caps)) || (dims_known(env) && !env.swapchain_ok),
{
}

/// Context construction is deterministic: two well-formed contexts for
/// the same environment and title agree on every selection — the
/// device, the queue family, the dimensions and the whole swapchain
/// request.
pub proof fn lemma_context_deterministic(
    env: Environment,
    title: Seq<char>,
    a: RenderContext,
    b: RenderContext,
)
    requires
        a.wf(env, title),
        b.wf(env, title),
    ensures
        a.device_index == b.device_index,
        a.queue_family_index == b.queue_family_index,
        a.width == b.width,
        a.height == b.height,
        a.swapchain == b.swapchain,
        a.window_title@ == b.window_title@,
{
    crate::device::lemma_device_selection_deterministic(
        env.devices@,
        a.device_index as int,
        b.device_index as int,
    );
    crate::device::lemma_family_selection_deterministic(
        env.devices@[a.device_index as int].queue_families@,
        a.queue_family_index as int,
        b.queue_family_index as int,
    );
}

/// Failing to find a device fails fast: when the instance exists but no
/// enumerated device is graphics-capable, construction reports
/// `NoSuitableDevice`, the call trace stops right after enumeration,
/// and no surface, queue family, device or swapchain call is issued.
pub proof fn lemma_no_device_fail_fast(env: Environment)
    requires
        env.instance_ok,
        !has_graphics_device(env.devices@),
    ensures
        !bootstrap_succeeds(env),
        bootstrap_error(env) == GraphicsError::NoSuitableDevice,
        expected_calls(env) == seq![ApiCall::CreateInstance, ApiCall::EnumerateDevices],
        forall|k: int| 0 <= k < expected_calls(env).len() ==> {
            &&& !((#[trigger] expected_calls(env)[k]) is CreateSurface)
            &&& !(expected_calls(env)[k] is QueryQueueFamilies)
            &&& !(expected_calls(env)[k] is CreateDevice)
            &&& !(expected_calls(env)[k] is CreateSwapchain)
        },
{
    assert(expected_calls(env) =~= seq![ApiCall::CreateInstance, ApiCall::EnumerateDevices]);
}

/// The presentation mode is not negotiable: in every environment, any
/// swapchain request the bootstrap issues asks for FIFO (vsync
/// equivalent) presentation with clipping enabled, never an immediate
/// or mailbox mode.
pub proof fn lemma_swapchain_always_fifo(env: Environment)
    ensures
        forall|k: int| 0 <= k < expected_calls(env).len() ==> (
        (#[trigger] expected_calls(env)[k]) matches ApiCall::CreateSwapchain(cfg) ==> {
            &&& cfg.present_mode is Fifo
            &&& cfg.clipped
        }),
{
}

/// Create a rendering context for a window titled `title`, against the
/// host described by `env`. Returns the context or the typed error of
/// the first failing step, together with the exact list of API calls
/// issued on the way.
pub fn create_context(title: String, env: &Environment) -> (out: (
    Result<RenderContext, GraphicsError>,
    Vec<ApiCall>,
))
    ensures
        out.0 is Ok <==> bootstrap_succeeds(*env),
        out.0 matches Ok(ctx) ==> ctx.wf(*env, title@),
        !bootstrap_succeeds(*env) ==> out.0 == Err::<RenderContext, GraphicsError>(
            bootstrap_error(*env),
        ),
        out.1@ == expected_calls(*env),
{
    let mut calls: Vec<ApiCall> = Vec::new();

    calls.push(ApiCall::CreateInstance);
    if !env.instance_ok {
        proof {
            assert(calls@ =~= expected_calls(*env));
        }
        return (Err(GraphicsError::InstanceCreationFailed), calls);
    }

    calls.push(ApiCall::EnumerateDevices);
    let dev_idx: usize = match select_device(&env.devices) {
        Some(i) => i,
        None => {
            proof {
                assert(calls@ =~= expected_calls(*env));
            }
            return (Err(GraphicsError::NoSuitableDevice), calls);
        },
    };

    calls.push(ApiCall::CreateSurface);
    if !env.surface_ok {
        proof {
            assert(calls@ =~= expected_calls(*env));
        }
        return (Err(GraphicsError::SurfaceUnavailable), calls);
    }

    calls.push(ApiCall::QueryQueueFamilies);
    let fam_idx: usize = match select_queue_family(&env.devices[dev_idx].queue_families) {
        Some(j) => j,
        None => {
            proof {
                if exists|i: int| chosen_device(env.devices@, i) && has_suitable_family(
                    env.devices@[i].queue_families@,
                ) {
                    let i = choose|i: int| chosen_device(env.devices@, i) && has_suitable_family(
                        env.devices@[i].queue_families@,
                    );
                    lemma_device_selection_deterministic(env.devices@, i, dev_idx as int);
                }
                assert(calls@ =~= expected_calls(*env));
            }
            return (Err(GraphicsError::NoSuitableQueueFamily), calls);
        },
    };
    proof {
        assert(chosen_device(env.devices@, dev_idx as int) && has_suitable_family(
            env.devices@[dev_idx as int].queue_families@,
        ));
    }

    calls.push(ApiCall::CreateDevice);
    if !env.device_ok {
        proof {
            assert(calls@ =~= expected_calls(*env));
        }
        return (Err(GraphicsError::DeviceCreationFailed), calls);
    }

    calls.push(ApiCall::QueryCapabilities);
    if env.caps.supported_alpha.len() == 0 || env.caps.supported_formats.len() == 0 {
        proof {
            assert(calls@ =~= expected_calls(*env));
        }
        return (Err(GraphicsError::SwapchainCreationFailed), calls);
    }

    calls.push(ApiCall::QueryDimensions);
    let (width, height): (u32, u32) = match env.window_size {
        Some(d) => d,
        None => {
            proof {
                assert(calls@ =~= expected_calls(*env));
            }
            return (Err(GraphicsError::SurfaceUnavailable), calls);
        },
    };

    let cfg = plan_swapchain(&env.caps, width, height);
    calls.push(ApiCall::CreateSwapchain(cfg));
    proof {
        assert(calls@ =~= expected_calls(*env));
    }
    if !env.swapchain_ok {
        return (Err(GraphicsError::SwapchainCreationFailed), calls);
    }

    let ctx = RenderContext {
        window_title: title,
        device_index: dev_idx,
        queue_family_index: fam_idx,
        width,
        height,
        swapchain: cfg,
    };
    (Ok(ctx), calls)
}

} // verus!
