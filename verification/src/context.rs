//! The context: everything a renderer needs from the driver, owned in one
//! place and released in one fixed order.

use vstd::prelude::*;
use vstd::string::*;
use crate::capability::{check, covers, missing_names, CapabilityReport};
use crate::debug_messenger::DebugMessengerManager;
use crate::device::DeviceManager;
use crate::instance::InstanceHandle;
use crate::logging::LogLevel;
use crate::shader::{Shader, ShaderManager};
use crate::surface::SurfaceHandle;
use crate::sync::SynchronizationPrimitivesManager;

verus! {

/// One call of the teardown.
#[derive(Clone, Copy, Debug, PartialEq, Eq, Structural)]
pub enum TeardownStep {
    /// Wait until the device has finished all work.
    WaitDeviceIdle,
    DestroyShaderModule(u64),
    DestroySemaphore(u64),
    DestroyFence(u64),
    DestroyDevice,
    DestroyDebugMessenger(u64),
    DestroyInstance,
    DestroySurface(u64),
    /// Let go of the graphics library.
    ReleaseLoader,
}

/// What a rendering context owns.
#[derive(Debug)]
pub struct Context {
    pub profile: LogLevel,
    pub instance_manager: InstanceHandle,
    /// The debug messenger, where the profile has one.
    pub debug_messenger_manager: Option<DebugMessengerManager>,
    pub surface_manager: SurfaceHandle,
    pub device_manager: DeviceManager,
    pub shader_manager: ShaderManager,
    pub sync_manager: SynchronizationPrimitivesManager,
    /// Whether the context was torn down.
    pub released: bool,
}

impl TeardownStep {
    /// The step destroys something that lives on the device, or the device
    /// itself.
    pub open spec fn needs_idle_device(self) -> bool {
        self is DestroyShaderModule || self is DestroySemaphore || self is DestroyFence
            || self is DestroyDevice
    }
}

/// The calls that destroy the modules of `shaders`, in order.
pub open spec fn module_releases(shaders: Seq<Shader>) -> Seq<TeardownStep> {
    shaders.map_values(|shader: Shader| TeardownStep::DestroyShaderModule(shader.module))
}

/// The calls that destroy the debug messenger, where there is one.
pub open spec fn messenger_releases(messenger: Option<DebugMessengerManager>) -> Seq<
    TeardownStep,
> {
    match messenger {
        Some(manager) => seq![TeardownStep::DestroyDebugMessenger(manager.debug_utils)],
        None => Seq::empty(),
    }
}

/// The teardown of a context that holds `shaders`, `sync`, `messenger` and
/// `surface`: wait for the device to go idle; unload the shaders; destroy the
/// synchronisation primitives; destroy the device; destroy the debug
/// messenger, where there is one; destroy the instance; destroy the surface;
/// let go of the library.
pub open spec fn teardown_plan(
    shaders: Seq<Shader>,
    sync: SynchronizationPrimitivesManager,
    messenger: Option<DebugMessengerManager>,
    surface: SurfaceHandle,
) -> Seq<TeardownStep> {
    seq![TeardownStep::WaitDeviceIdle] + module_releases(shaders) + sync.releases()
        + seq![TeardownStep::DestroyDevice] + messenger_releases(messenger)
        + seq![
        TeardownStep::DestroyInstance,
        TeardownStep::DestroySurface(surface.surface),
        TeardownStep::ReleaseLoader,
    ]
}

impl Context {
    /// Whether `available_layers` offer every one of `required_layers`, and
    /// which they do not.
    pub fn does_support_layers(required_layers: &Vec<String>, available_layers: &Vec<String>) -> (report:
        CapabilityReport)
        ensures
            report.supported == covers(available_layers.deep_view(), required_layers.deep_view()),
            report.supported == (report.missing.len() == 0),
            report.missing.deep_view() == missing_names(
                required_layers.deep_view(),
                available_layers.deep_view(),
            ),
    {
        check(required_layers, available_layers)
    }

    /// Whether `available_extensions` offer every one of
    /// `required_extensions`, and which they do not.
    pub fn does_support_extensions(
        required_extensions: &Vec<String>,
        available_extensions: &Vec<String>,
    ) -> (report: CapabilityReport)
        ensures
            report.supported == covers(
                available_extensions.deep_view(),
                required_extensions.deep_view(),
            ),
            report.supported == (report.missing.len() == 0),
            report.missing.deep_view() == missing_names(
                required_extensions.deep_view(),
                available_extensions.deep_view(),
            ),
    {
        check(required_extensions, available_extensions)
    }

    /// Puts together a context out of its parts, with no shader loaded. The
    /// debug messenger is kept only where the profile has one.
    pub fn new(
        profile: LogLevel,
        instance_manager: InstanceHandle,
        debug_messenger_manager: Option<DebugMessengerManager>,
        surface_manager: SurfaceHandle,
        device_manager: DeviceManager,
        sync_manager: SynchronizationPrimitivesManager,
    ) -> (context: Context)
        ensures
            context.profile == profile,
            context.instance_manager == instance_manager,
            context.debug_messenger_manager == if profile.validates() {
                debug_messenger_manager
            } else {
                None
            },
            context.surface_manager == surface_manager,
            context.device_manager == device_manager,
            context.sync_manager == sync_manager,
            context.shader_manager@ == Seq::<Shader>::empty(),
            !context.released,
    {
        Context {
            profile,
            instance_manager,
            debug_messenger_manager: if profile.uses_validation() {
                debug_messenger_manager
            } else {
                None
            },
            surface_manager,
            device_manager,
            shader_manager: ShaderManager::new(),
            sync_manager,
            released: false,
        }
    }

    /// The calls that a teardown of this context makes: its teardown plan,
    /// or none where it was torn down before.
    pub open spec fn pending_teardown(self) -> Seq<TeardownStep> {
        if self.released {
            Seq::empty()
        } else {
            teardown_plan(
                self.shader_manager@,
                self.sync_manager,
                self.debug_messenger_manager,
                self.surface_manager,
            )
        }
    }

    /// Tears the context down: hands back, in order, the calls that release
    /// what it owns, and forgets its shaders.
    ///
    /// The first teardown yields the teardown plan. Every later one yields
    /// nothing and changes nothing, so that nothing is released twice.
    pub fn teardown(&mut self) -> (steps: Vec<TeardownStep>)
        ensures
            steps@ == old(self).pending_teardown(),
            final(self).released,
            final(self).pending_teardown() == Seq::<TeardownStep>::empty(),
            old(self).released ==> *final(self) == *old(self),
            !old(self).released ==> final(self).shader_manager@ == Seq::<Shader>::empty(),
            final(self).profile == old(self).profile,
            final(self).instance_manager == old(self).instance_manager,
            final(self).debug_messenger_manager == old(self).debug_messenger_manager,
            final(self).surface_manager == old(self).surface_manager,
            final(self).device_manager == old(self).device_manager,
            final(self).sync_manager == old(self).sync_manager,
    {
        let mut steps: Vec<TeardownStep> = Vec::new();
        if self.released {
            return steps;
        }
        let ghost shaders = self.shader_manager@;
        steps.push(TeardownStep::WaitDeviceIdle);
        let modules = self.shader_manager.unload_shaders();
        let mut i: usize = 0;
        while i < modules.len()
            invariant
                i <= modules.len(),
                modules@.len() == shaders.len(),
                forall|k: int| 0 <= k < modules.len() ==> modules@[k] == shaders[k].module,
                steps@ == seq![TeardownStep::WaitDeviceIdle] + module_releases(
                    shaders.take(i as int),
                ),
            decreases modules.len() - i,
        {
            steps.push(TeardownStep::DestroyShaderModule(modules[i]));
            assert(steps@ =~= seq![TeardownStep::WaitDeviceIdle] + module_releases(
                shaders.take(i as int + 1),
            ));
            i += 1;
        }
        assert(shaders.take(modules.len() as int) == shaders);
        let mut sync_steps = self.sync_manager.destroy_resources();
        steps.append(&mut sync_steps);
        steps.push(TeardownStep::DestroyDevice);
        match self.debug_messenger_manager {
            Some(manager) => {
                steps.push(TeardownStep::DestroyDebugMessenger(manager.debug_utils));
            },
            None => {},
        }
        steps.push(TeardownStep::DestroyInstance);
        steps.push(TeardownStep::DestroySurface(self.surface_manager.surface));
        steps.push(TeardownStep::ReleaseLoader);
        self.released = true;
        assert(steps@ =~= old(self).pending_teardown());
        steps
    }
}

/// Where each call stands in a teardown plan.
pub proof fn lemma_teardown_plan_layout(
    shaders: Seq<Shader>,
    sync: SynchronizationPrimitivesManager,
    messenger: Option<DebugMessengerManager>,
    surface: SurfaceHandle,
)
    ensures
        ({
            let plan = teardown_plan(shaders, sync, messenger, surface);
            let n = shaders.len() as int;
            let m = messenger_releases(messenger).len() as int;
            &&& m == if messenger is Some {
                1int
            } else {
                0int
            }
            &&& plan.len() == n + m + 8
            &&& plan[0] == TeardownStep::WaitDeviceIdle
            &&& forall|k: int|
                0 <= k < n ==> #[trigger] plan[1 + k] == TeardownStep::DestroyShaderModule(
                    shaders[k].module,
                )
            &&& plan[n + 1] == TeardownStep::DestroySemaphore(sync.available_image_semaphore)
            &&& plan[n + 2] == TeardownStep::DestroySemaphore(sync.render_semaphore)
            &&& plan[n + 3] == TeardownStep::DestroyFence(sync.render_fence)
            &&& plan[n + 4] == TeardownStep::DestroyDevice
            &&& messenger matches Some(manager) ==> plan[n + 5]
                == TeardownStep::DestroyDebugMessenger(manager.debug_utils)
            &&& plan[n + m + 5] == TeardownStep::DestroyInstance
            &&& plan[n + m + 6] == TeardownStep::DestroySurface(surface.surface)
            &&& plan[n + m + 7] == TeardownStep::ReleaseLoader
        }),
{
    let plan = teardown_plan(shaders, sync, messenger, surface);
    let n = shaders.len() as int;
    assert forall|k: int| 0 <= k < n implies #[trigger] plan[1 + k]
        == TeardownStep::DestroyShaderModule(shaders[k].module) by {
        assert(module_releases(shaders)[k] == TeardownStep::DestroyShaderModule(
            shaders[k].module,
        ));
    }
}

/// The order of a teardown.
///
/// The wait for the device to go idle is the first call and the only wait.
/// Everything that lives on the device, and the device itself, is destroyed
/// after that wait. Shader modules, semaphores and the fence are destroyed
/// before the device; the device and the debug messenger before the
/// instance; the surface after the device. The device and the instance are
/// each destroyed exactly once, and the library is let go of last.
pub proof fn lemma_teardown_order(
    shaders: Seq<Shader>,
    sync: SynchronizationPrimitivesManager,
    messenger: Option<DebugMessengerManager>,
    surface: SurfaceHandle,
)
    ensures
        ({
            let plan = teardown_plan(shaders, sync, messenger, surface);
            &&& plan.len() > 0 && plan[0] == TeardownStep::WaitDeviceIdle
            &&& plan[plan.len() - 1] == TeardownStep::ReleaseLoader
            &&& forall|i: int|
                0 <= i < plan.len() && #[trigger] plan[i] == TeardownStep::WaitDeviceIdle ==> i
                    == 0
            &&& forall|i: int|
                0 <= i < plan.len() && (#[trigger] plan[i]).needs_idle_device() ==> 0 < i
            &&& forall|i: int, j: int|
                0 <= i < plan.len() && 0 <= j < plan.len() && (#[trigger] plan[i]).needs_idle_device()
                    && !(plan[i] is DestroyDevice) && #[trigger] plan[j]
                    == TeardownStep::DestroyDevice ==> i < j
            &&& forall|i: int, j: int|
                0 <= i < plan.len() && 0 <= j < plan.len() && (#[trigger] plan[i]
                    == TeardownStep::DestroyDevice || plan[i] is DestroyDebugMessenger)
                    && #[trigger] plan[j] == TeardownStep::DestroyInstance ==> i < j
            &&& forall|i: int, j: int|
                0 <= i < plan.len() && 0 <= j < plan.len() && #[trigger] plan[i]
                    == TeardownStep::DestroyDevice && (#[trigger] plan[j]) is DestroySurface ==> i
                    < j
            &&& forall|i: int, j: int|
                0 <= i < plan.len() && 0 <= j < plan.len() && #[trigger] plan[i]
                    == TeardownStep::DestroyDevice && #[trigger] plan[j]
                    == TeardownStep::DestroyDevice ==> i == j
            &&& forall|i: int, j: int|
                0 <= i < plan.len() && 0 <= j < plan.len() && #[trigger] plan[i]
                    == TeardownStep::DestroyInstance && #[trigger] plan[j]
                    == TeardownStep::DestroyInstance ==> i == j
            &&& exists|i: int| 0 <= i < plan.len() && plan[i] == TeardownStep::DestroyDevice
            &&& exists|j: int| 0 <= j < plan.len() && plan[j] == TeardownStep::DestroyInstance
        }),
{
    lemma_teardown_plan_layout(shaders, sync, messenger, surface);
    let plan = teardown_plan(shaders, sync, messenger, surface);
    let n = shaders.len() as int;
    let m = messenger_releases(messenger).len() as int;
    assert forall|i: int| 0 <= i < plan.len() implies kind_at(plan, n, m, i) by {
        if 1 <= i <= n {
            assert(plan[1 + (i - 1)] == TeardownStep::DestroyShaderModule(shaders[i - 1].module));
        }
    }
    assert(plan[n + 4] == TeardownStep::DestroyDevice);
    assert(plan[n + m + 5] == TeardownStep::DestroyInstance);
}

/// The kind of the call at `index` of a plan for `n` shaders and `m` debug
/// messengers.
spec fn kind_at(plan: Seq<TeardownStep>, n: int, m: int, index: int) -> bool {
    if index == 0 {
        plan[index] is WaitDeviceIdle
    } else if index <= n {
        plan[index] is DestroyShaderModule
    } else if index <= n + 2 {
        plan[index] is DestroySemaphore
    } else if index == n + 3 {
        plan[index] is DestroyFence
    } else if index == n + 4 {
        plan[index] is DestroyDevice
    } else if index < n + m + 5 {
        plan[index] is DestroyDebugMessenger
    } else if index == n + m + 5 {
        plan[index] is DestroyInstance
    } else if index == n + m + 6 {
        plan[index] is DestroySurface
    } else {
        plan[index] is ReleaseLoader
    }
}

/// A context that was torn down has nothing left to release: a second
/// teardown makes no call.
pub proof fn lemma_teardown_is_idempotent(context: Context)
    requires
        context.released,
    ensures
        context.pending_teardown() == Seq::<TeardownStep>::empty(),
{
}

} // verus!
