//! Bringing a context up, one call to the driver at a time.
//!
//! The builder says which call comes next; whoever makes the calls reports
//! how each ended. The parts come up in a fixed order, because each needs one
//! that came before: the library, the instance, the debug messenger (where
//! the profile has one), the surface, the device, the synchronisation
//! primitives. The first failure ends the bring-up.

use vstd::prelude::*;
use vstd::string::*;
use crate::context::Context;
use crate::debug_messenger::DebugMessengerManager;
use crate::device::{DeviceManager, DevicePlan, DeviceQueues, PhysicalDevice};
use crate::error::{ApiResult, EngineError};
use crate::instance::{InstanceHandle, InstancePlan};
use crate::logging::LogLevel;
use crate::shader::Shader;
use crate::surface::SurfaceHandle;
use crate::sync::{SyncObject, SynchronizationPrimitivesManager};

verus! {

/// The call that comes next.
#[derive(Clone, Copy, Debug, PartialEq, Eq, Structural)]
pub enum Step {
    /// Load the graphics library.
    LoadLibrary,
    /// Ask which layers and extensions an instance can have, and which
    /// extensions the window needs.
    QueryInstanceSupport,
    /// Create the instance that was planned.
    CreateInstance,
    /// Register the debug messenger.
    CreateDebugMessenger,
    /// Create the surface of the window.
    CreateSurface,
    /// Ask what the physical devices are and can do.
    EnumerateDevices,
    /// Create the logical device that was planned, and take its queues.
    CreateDevice,
    /// Create a synchronisation primitive.
    CreateSyncObject(SyncObject),
    /// Nothing: the context is ready.
    Finish,
    /// Nothing: the bring-up failed.
    Abort,
}

/// How a call ended.
#[derive(Clone, Debug, PartialEq, Eq)]
pub enum Event {
    LibraryLoaded,
    /// The library could not be loaded; the cause is attached.
    LibraryFailed(String),
    InstanceSupport {
        /// The layers an instance can have.
        available_layers: Vec<String>,
        /// The extensions the window needs in order to present.
        required_extensions: Vec<String>,
        /// The extensions an instance can have.
        available_extensions: Vec<String>,
    },
    InstanceCreated,
    /// The messenger was registered; its handle is attached.
    DebugMessengerCreated(u64),
    /// The surface was created; its handle is attached.
    SurfaceCreated(u64),
    /// The physical devices, in the driver's order.
    DevicesEnumerated(Vec<PhysicalDevice>),
    /// The logical device was created; its queues are attached.
    DeviceCreated(DeviceQueues),
    /// The primitive was created; its handle is attached.
    SyncObjectCreated(u64),
    /// The driver refused the call.
    CallFailed(ApiResult),
}

/// What came up before the device: the instance, the debug messenger where
/// there is one, and the surface.
#[derive(Debug)]
pub struct Foundation {
    pub instance: InstanceHandle,
    pub debug_messenger: Option<DebugMessengerManager>,
    pub surface: SurfaceHandle,
}

/// How far a bring-up has come, and what it holds by then.
#[derive(Debug)]
pub enum Stage {
    AwaitLibrary,
    AwaitInstanceSupport,
    AwaitInstance(InstancePlan),
    AwaitDebugMessenger(InstanceHandle),
    AwaitSurface(InstanceHandle, Option<DebugMessengerManager>),
    AwaitDevices(Foundation),
    AwaitDevice(Foundation, DevicePlan),
    AwaitImageSemaphore(Foundation, DeviceManager),
    AwaitRenderSemaphore(Foundation, DeviceManager, u64),
    AwaitRenderFence(Foundation, DeviceManager, u64, u64),
    Ready(Context),
    Failed(EngineError),
}

/// The bring-up of a context under one profile.
#[derive(Debug)]
pub struct ContextBuilder {
    pub profile: LogLevel,
    pub stage: Stage,
}

impl Stage {
    /// The call that a bring-up at this stage asks for.
    pub open spec fn step(self) -> Step {
        match self {
            Stage::AwaitLibrary => Step::LoadLibrary,
            Stage::AwaitInstanceSupport => Step::QueryInstanceSupport,
            Stage::AwaitInstance(_) => Step::CreateInstance,
            Stage::AwaitDebugMessenger(_) => Step::CreateDebugMessenger,
            Stage::AwaitSurface(_, _) => Step::CreateSurface,
            Stage::AwaitDevices(_) => Step::EnumerateDevices,
            Stage::AwaitDevice(_, _) => Step::CreateDevice,
            Stage::AwaitImageSemaphore(_, _) => Step::CreateSyncObject(SyncObject::Semaphore),
            Stage::AwaitRenderSemaphore(_, _, _) => Step::CreateSyncObject(SyncObject::Semaphore),
            Stage::AwaitRenderFence(_, _, _, _) => Step::CreateSyncObject(
                SyncObject::Fence { signaled: true },
            ),
            Stage::Ready(_) => Step::Finish,
            Stage::Failed(_) => Step::Abort,
        }
    }

    /// How many calls lie behind this stage, the debug messenger counted
    /// whether or not there is one.
    pub open spec fn progress(self) -> nat {
        match self {
            Stage::AwaitLibrary => 0,
            Stage::AwaitInstanceSupport => 1,
            Stage::AwaitInstance(_) => 2,
            Stage::AwaitDebugMessenger(_) => 3,
            Stage::AwaitSurface(_, _) => 4,
            Stage::AwaitDevices(_) => 5,
            Stage::AwaitDevice(_, _) => 6,
            Stage::AwaitImageSemaphore(_, _) => 7,
            Stage::AwaitRenderSemaphore(_, _, _) => 8,
            Stage::AwaitRenderFence(_, _, _, _) => 9,
            Stage::Ready(_) => 10,
            Stage::Failed(_) => 10,
        }
    }

    /// The bring-up is over, one way or the other.
    pub open spec fn is_final(self) -> bool {
        self is Ready || self is Failed
    }

    /// The stage is the failure that an event out of turn leads to.
    pub open spec fn is_out_of_turn(self) -> bool {
        self matches Stage::Failed(EngineError::UnknownError(text)) && text@
            == "Unexpected event while the context was brought up"@
    }

    /// What the stage says of an instance plan: the plan it waits on, or the
    /// error it failed with.
    pub open spec fn instance_planned(self) -> Option<Result<InstancePlan, EngineError>> {
        match self {
            Stage::AwaitInstance(plan) => Some(Ok(plan)),
            Stage::Failed(error) => Some(Err(error)),
            _ => None,
        }
    }

    /// The context that comes out of the last call: the parts that the
    /// bring-up collected, with no shader loaded, not torn down.
    pub open spec fn completes(
        self,
        profile: LogLevel,
        foundation: Foundation,
        device: DeviceManager,
        sync: SynchronizationPrimitivesManager,
    ) -> bool {
        &&& self matches Stage::Ready(context)
        &&& context.profile == profile
        &&& context.instance_manager == foundation.instance
        &&& context.debug_messenger_manager == if profile.validates() {
            foundation.debug_messenger
        } else {
            None
        }
        &&& context.surface_manager == foundation.surface
        &&& context.device_manager == device
        &&& context.sync_manager == sync
        &&& context.shader_manager@ == Seq::<Shader>::empty()
        &&& !context.released
    }

    /// `next` is the stage that follows `self` when the call that `self`
    /// asked for ended in `event`.
    ///
    /// A bring-up that is over stays as it is. An event that does not answer
    /// the call that was asked for fails the bring-up. A refused call fails
    /// it with the driver's code, as a failure to create the instance or the
    /// device where that was the call. Otherwise the bring-up goes on to the
    /// next part, passing over the debug messenger where the profile has
    /// none, and fails where no instance or no device can be planned.
    pub open spec fn follows(self, profile: LogLevel, event: Event, next: Stage) -> bool {
        match self {
            Stage::Ready(_) => next == self,
            Stage::Failed(_) => next == self,
            Stage::AwaitLibrary => match event {
                Event::LibraryLoaded => next is AwaitInstanceSupport,
                Event::LibraryFailed(cause) => next == Stage::Failed(
                    EngineError::VulkanLoadingError(cause),
                ),
                _ => next.is_out_of_turn(),
            },
            Stage::AwaitInstanceSupport => match event {
                Event::InstanceSupport {
                    available_layers,
                    required_extensions,
                    available_extensions,
                } => {
                    &&& next.instance_planned() matches Some(outcome)
                    &&& InstanceHandle::plan_meets(
                        profile,
                        available_layers.deep_view(),
                        required_extensions.deep_view(),
                        available_extensions.deep_view(),
                        outcome,
                    )
                },
                Event::CallFailed(result) => next == Stage::Failed(
                    EngineError::VulkanApiError(result),
                ),
                _ => next.is_out_of_turn(),
            },
            Stage::AwaitInstance(plan) => match event {
                Event::InstanceCreated => {
                    if profile.validates() {
                        &&& next matches Stage::AwaitDebugMessenger(instance)
                        &&& InstanceHandle::takes_over(plan, Ok(()), Ok(instance))
                    } else {
                        &&& next matches Stage::AwaitSurface(instance, None)
                        &&& InstanceHandle::takes_over(plan, Ok(()), Ok(instance))
                    }
                },
                Event::CallFailed(result) => {
                    &&& next matches Stage::Failed(error)
                    &&& InstanceHandle::takes_over(plan, Err(result), Err(error))
                },
                _ => next.is_out_of_turn(),
            },
            Stage::AwaitDebugMessenger(instance) => match event {
                Event::DebugMessengerCreated(debug_utils) => next == Stage::AwaitSurface(
                    instance,
                    Some(DebugMessengerManager { debug_utils }),
                ),
                Event::CallFailed(result) => next == Stage::Failed(
                    EngineError::VulkanApiError(result),
                ),
                _ => next.is_out_of_turn(),
            },
            Stage::AwaitSurface(instance, debug_messenger) => match event {
                Event::SurfaceCreated(surface) => next == Stage::AwaitDevices(
                    Foundation { instance, debug_messenger, surface: SurfaceHandle { surface } },
                ),
                Event::CallFailed(result) => next == Stage::Failed(
                    EngineError::VulkanApiError(result),
                ),
                _ => next.is_out_of_turn(),
            },
            Stage::AwaitDevices(foundation) => match event {
                Event::DevicesEnumerated(devices) => match next {
                    Stage::AwaitDevice(kept, plan) => kept == foundation
                        && DeviceManager::plan_meets(devices@, profile, Ok(plan)),
                    Stage::Failed(error) => DeviceManager::plan_meets(
                        devices@,
                        profile,
                        Err(error),
                    ),
                    _ => false,
                },
                Event::CallFailed(result) => next == Stage::Failed(
                    EngineError::VulkanApiError(result),
                ),
                _ => next.is_out_of_turn(),
            },
            Stage::AwaitDevice(foundation, plan) => match event {
                Event::DeviceCreated(queues) => {
                    &&& next matches Stage::AwaitImageSemaphore(kept, device)
                    &&& kept == foundation
                    &&& DeviceManager::takes_over(plan, Ok(queues), Ok(device))
                },
                Event::CallFailed(result) => {
                    &&& next matches Stage::Failed(error)
                    &&& DeviceManager::takes_over(plan, Err(result), Err(error))
                },
                _ => next.is_out_of_turn(),
            },
            Stage::AwaitImageSemaphore(foundation, device) => match event {
                Event::SyncObjectCreated(handle) => next == Stage::AwaitRenderSemaphore(
                    foundation,
                    device,
                    handle,
                ),
                Event::CallFailed(result) => next == Stage::Failed(
                    EngineError::VulkanApiError(result),
                ),
                _ => next.is_out_of_turn(),
            },
            Stage::AwaitRenderSemaphore(foundation, device, image) => match event {
                Event::SyncObjectCreated(handle) => next == Stage::AwaitRenderFence(
                    foundation,
                    device,
                    image,
                    handle,
                ),
                Event::CallFailed(result) => next == Stage::Failed(
                    EngineError::VulkanApiError(result),
                ),
                _ => next.is_out_of_turn(),
            },
            Stage::AwaitRenderFence(foundation, device, image, render) => match event {
                Event::SyncObjectCreated(handle) => next.completes(
                    profile,
                    foundation,
                    device,
                    SynchronizationPrimitivesManager {
                        available_image_semaphore: image,
                        render_semaphore: render,
                        render_fence: handle,
                    },
                ),
                Event::CallFailed(result) => next == Stage::Failed(
                    EngineError::VulkanApiError(result),
                ),
                _ => next.is_out_of_turn(),
            },
        }
    }
}

fn out_of_turn() -> (stage: Stage)
    ensures
        stage.is_out_of_turn(),
{
    Stage::Failed(
        EngineError::UnknownError(
            String::from_str("Unexpected event while the context was brought up"),
        ),
    )
}

impl ContextBuilder {
    /// A bring-up under `profile`, with nothing done yet.
    pub fn new(profile: LogLevel) -> (builder: ContextBuilder)
        ensures
            builder.profile == profile,
            builder.stage is AwaitLibrary,
    {
        ContextBuilder { profile, stage: Stage::AwaitLibrary }
    }

    /// The call to make next.
    pub fn next_step(&self) -> (step: Step)
        ensures
            step == self.stage.step(),
    {
        match &self.stage {
            Stage::AwaitLibrary => Step::LoadLibrary,
            Stage::AwaitInstanceSupport => Step::QueryInstanceSupport,
            Stage::AwaitInstance(_) => Step::CreateInstance,
            Stage::AwaitDebugMessenger(_) => Step::CreateDebugMessenger,
            Stage::AwaitSurface(_, _) => Step::CreateSurface,
            Stage::AwaitDevices(_) => Step::EnumerateDevices,
            Stage::AwaitDevice(_, _) => Step::CreateDevice,
            Stage::AwaitImageSemaphore(_, _) => Step::CreateSyncObject(SyncObject::Semaphore),
            Stage::AwaitRenderSemaphore(_, _, _) => Step::CreateSyncObject(SyncObject::Semaphore),
            Stage::AwaitRenderFence(_, _, _, _) => Step::CreateSyncObject(
                SyncObject::Fence { signaled: true },
            ),
            Stage::Ready(_) => Step::Finish,
            Stage::Failed(_) => Step::Abort,
        }
    }

    /// Takes in how the call that was asked for ended, and moves on.
    pub fn advance(self, event: Event) -> (next: ContextBuilder)
        ensures
            next.profile == self.profile,
            self.stage.follows(self.profile, event, next.stage),
    {
        let profile = self.profile;
        let stage = match self.stage {
            Stage::Ready(context) => Stage::Ready(context),
            Stage::Failed(error) => Stage::Failed(error),
            Stage::AwaitLibrary => match event {
                Event::LibraryLoaded => Stage::AwaitInstanceSupport,
                Event::LibraryFailed(cause) => Stage::Failed(
                    EngineError::VulkanLoadingError(cause),
                ),
                _ => out_of_turn(),
            },
            Stage::AwaitInstanceSupport => match event {
                Event::InstanceSupport {
                    available_layers,
                    required_extensions,
                    available_extensions,
                } => match InstanceHandle::plan(
                    profile,
                    &available_layers,
                    &required_extensions,
                    &available_extensions,
                ) {
                    Ok(plan) => Stage::AwaitInstance(plan),
                    Err(error) => Stage::Failed(error),
                },
                Event::CallFailed(result) => Stage::Failed(EngineError::VulkanApiError(result)),
                _ => out_of_turn(),
            },
            Stage::AwaitInstance(plan) => {
                let created = match event {
                    Event::InstanceCreated => Some(Ok(())),
                    Event::CallFailed(result) => Some(Err(result)),
                    _ => None,
                };
                match created {
                    Some(created) => match InstanceHandle::new(plan, created) {
                        Ok(instance) => if profile.uses_validation() {
                            Stage::AwaitDebugMessenger(instance)
                        } else {
                            Stage::AwaitSurface(instance, None)
                        },
                        Err(error) => Stage::Failed(error),
                    },
                    None => out_of_turn(),
                }
            },
            Stage::AwaitDebugMessenger(instance) => match event {
                Event::DebugMessengerCreated(debug_utils) => Stage::AwaitSurface(
                    instance,
                    Some(DebugMessengerManager { debug_utils }),
                ),
                Event::CallFailed(result) => Stage::Failed(EngineError::VulkanApiError(result)),
                _ => out_of_turn(),
            },
            Stage::AwaitSurface(instance, debug_messenger) => match event {
                Event::SurfaceCreated(surface) => Stage::AwaitDevices(
                    Foundation { instance, debug_messenger, surface: SurfaceHandle { surface } },
                ),
                Event::CallFailed(result) => Stage::Failed(EngineError::VulkanApiError(result)),
                _ => out_of_turn(),
            },
            Stage::AwaitDevices(foundation) => match event {
                Event::DevicesEnumerated(devices) => match DeviceManager::plan(&devices, profile) {
                    Ok(plan) => Stage::AwaitDevice(foundation, plan),
                    Err(error) => Stage::Failed(error),
                },
                Event::CallFailed(result) => Stage::Failed(EngineError::VulkanApiError(result)),
                _ => out_of_turn(),
            },
            Stage::AwaitDevice(foundation, plan) => {
                let created = match event {
                    Event::DeviceCreated(queues) => Some(Ok(queues)),
                    Event::CallFailed(result) => Some(Err(result)),
                    _ => None,
                };
                match created {
                    Some(created) => match DeviceManager::new(&plan, created) {
                        Ok(device) => Stage::AwaitImageSemaphore(foundation, device),
                        Err(error) => Stage::Failed(error),
                    },
                    None => out_of_turn(),
                }
            },
            Stage::AwaitImageSemaphore(foundation, device) => match event {
                Event::SyncObjectCreated(handle) => Stage::AwaitRenderSemaphore(
                    foundation,
                    device,
                    handle,
                ),
                Event::CallFailed(result) => Stage::Failed(EngineError::VulkanApiError(result)),
                _ => out_of_turn(),
            },
            Stage::AwaitRenderSemaphore(foundation, device, image) => match event {
                Event::SyncObjectCreated(handle) => Stage::AwaitRenderFence(
                    foundation,
                    device,
                    image,
                    handle,
                ),
                Event::CallFailed(result) => Stage::Failed(EngineError::VulkanApiError(result)),
                _ => out_of_turn(),
            },
            Stage::AwaitRenderFence(foundation, device, image, render) => match event {
                Event::SyncObjectCreated(handle) => Stage::Ready(
                    Context::new(
                        profile,
                        foundation.instance,
                        foundation.debug_messenger,
                        foundation.surface,
                        device,
                        SynchronizationPrimitivesManager::new(image, render, handle),
                    ),
                ),
                Event::CallFailed(result) => Stage::Failed(EngineError::VulkanApiError(result)),
                _ => out_of_turn(),
            },
        };
        ContextBuilder { profile, stage }
    }

    /// Ends the bring-up: hands out the context where it is ready, and the
    /// error where it failed. A bring-up that is not over is handed back as
    /// it is.
    pub fn finish(self) -> (outcome: Result<Result<Context, EngineError>, ContextBuilder>)
        ensures
            match self.stage {
                Stage::Ready(context) => outcome == Ok::<_, ContextBuilder>(
                    Ok::<_, EngineError>(context),
                ),
                Stage::Failed(error) => outcome == Ok::<_, ContextBuilder>(
                    Err::<Context, _>(error),
                ),
                _ => outcome == Err::<Result<Context, EngineError>, _>(self),
            },
    {
        match self.stage {
            Stage::Ready(context) => Ok(Ok(context)),
            Stage::Failed(error) => Ok(Err(error)),
            stage => Err(ContextBuilder { profile: self.profile, stage }),
        }
    }
}

/// The parts come up in one order: every step that does not fail leads to
/// the stage right behind, or, from the instance where the profile has no
/// debug messenger, to the stage behind that one.
pub proof fn lemma_construction_order(stage: Stage, profile: LogLevel, event: Event, next: Stage)
    requires
        stage.follows(profile, event, next),
        !stage.is_final(),
    ensures
        next is Failed || next.progress() == stage.progress() + if stage is AwaitInstance
            && !profile.validates() {
            2nat
        } else {
            1nat
        },
        next is Failed || next.progress() > stage.progress(),
        next is AwaitDebugMessenger ==> profile.validates(),
{
}

/// A bring-up that is over does not move: no event makes a failed bring-up
/// go on, or a ready one fail.
pub proof fn lemma_final_stage_stays(stage: Stage, profile: LogLevel, event: Event, next: Stage)
    requires
        stage.follows(profile, event, next),
        stage.is_final(),
    ensures
        next == stage,
{
}

/// Where no device passes every filter, and so above all where the driver
/// lists no device, the bring-up fails with a failure to create the device,
/// and never asks for a logical device to be created.
pub proof fn lemma_no_device_is_created_without_candidate(
    foundation: Foundation,
    profile: LogLevel,
    devices: Vec<PhysicalDevice>,
    next: Stage,
)
    requires
        Stage::AwaitDevices(foundation).follows(profile, Event::DevicesEnumerated(devices), next),
        forall|j: int| 0 <= j < devices.len() ==> !(#[trigger] devices[j]).passes(profile),
    ensures
        next matches Stage::Failed(EngineError::DeviceCreationFailed(_)),
        next.step() == Step::Abort,
        next.step() != Step::CreateDevice,
{
    if next is AwaitDevice {
        let plan = next->AwaitDevice_1;
        assert(devices[plan.physical_device as int].passes(profile));
    }
}

/// A logical device is asked for only for a device that was selected: one
/// that passed every filter and that no passing device outranks.
pub proof fn lemma_device_is_created_for_the_selection(
    foundation: Foundation,
    profile: LogLevel,
    devices: Vec<PhysicalDevice>,
    next: Stage,
)
    requires
        Stage::AwaitDevices(foundation).follows(profile, Event::DevicesEnumerated(devices), next),
        next.step() == Step::CreateDevice,
    ensures
        next matches Stage::AwaitDevice(_, plan) && plan.is_for(devices@, profile),
{
}

} // verus!
