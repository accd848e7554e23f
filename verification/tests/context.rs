use engine::context::{Context, TeardownStep};
use engine::debug_messenger::{debug_callback, DebugMessengerManager, MessageSeverity, MessengerConfig};
use engine::device::{
    ColorSpace, DeviceManager, DeviceQueues, DeviceType, PhysicalDevice, PixelFormat, PresentMode,
    QueueFamily, SurfaceFormat,
};
use engine::error::{ApiResult, EngineError};
use engine::instance::InstanceHandle;
use engine::logging::{Level, LogLevel};
use engine::renderer::Renderer;
use engine::shader::LoadOutcome;
use engine::surface::SurfaceHandle;
use engine::sync::{SyncObject, SynchronizationPrimitivesManager};

fn context(profile: LogLevel) -> Context {
    let layers = vec!["VK_LAYER_KHRONOS_validation".to_string()];
    let extensions = vec!["VK_KHR_surface".to_string()];
    let plan = InstanceHandle::plan(profile, &layers, &extensions, &extensions).unwrap();
    let instance = InstanceHandle::new(plan, Ok(())).unwrap();
    let device = PhysicalDevice {
        name: "Fake GPU".to_string(),
        device_type: DeviceType::DiscreteGpu,
        queue_families: vec![QueueFamily { queue_count: 2, graphics: true, transfer: true, present: true }],
        surface_formats: vec![SurfaceFormat {
            format: PixelFormat::Bgra8Srgb,
            color_space: ColorSpace::SrgbNonlinear,
        }],
        present_modes: vec![PresentMode::Mailbox, PresentMode::Fifo],
        layers,
        extensions: vec!["VK_KHR_swapchain".to_string()],
    };
    let plan = DeviceManager::plan(&vec![device], profile).unwrap();
    let device = DeviceManager::new(&plan, Ok(DeviceQueues { graphics: 1, transfer: 1 })).unwrap();
    Context::new(
        profile,
        instance,
        Some(DebugMessengerManager::new(Ok(90)).unwrap()),
        SurfaceHandle::new(Ok(80)).unwrap(),
        device,
        SynchronizationPrimitivesManager::new(10, 20, 30),
    )
}

fn position(steps: &[TeardownStep], wanted: impl Fn(&TeardownStep) -> bool) -> Vec<usize> {
    steps.iter().enumerate().filter(|(_, step)| wanted(step)).map(|(index, _)| index).collect()
}

#[test]
fn teardown_of_a_development_context() {
    let mut context = context(LogLevel::Dev);
    assert_eq!(context.shader_manager.load_shader("a.vert.glsl", LoadOutcome::ModuleCreated(100)), Ok(()));
    assert_eq!(context.shader_manager.load_shader("a.frag.glsl", LoadOutcome::ModuleCreated(200)), Ok(()));
    assert!(!context.released);
    assert_eq!(
        context.teardown(),
        vec![
            TeardownStep::WaitDeviceIdle,
            TeardownStep::DestroyShaderModule(100),
            TeardownStep::DestroyShaderModule(200),
            TeardownStep::DestroySemaphore(10),
            TeardownStep::DestroySemaphore(20),
            TeardownStep::DestroyFence(30),
            TeardownStep::DestroyDevice,
            TeardownStep::DestroyDebugMessenger(90),
            TeardownStep::DestroyInstance,
            TeardownStep::DestroySurface(80),
            TeardownStep::ReleaseLoader,
        ]
    );
    assert!(context.released);
    assert_eq!(context.shader_manager.len(), 0);
}

#[test]
fn teardown_without_debug_messenger() {
    let mut context = context(LogLevel::Shipping);
    assert_eq!(context.debug_messenger_manager, None);
    assert_eq!(
        context.teardown(),
        vec![
            TeardownStep::WaitDeviceIdle,
            TeardownStep::DestroySemaphore(10),
            TeardownStep::DestroySemaphore(20),
            TeardownStep::DestroyFence(30),
            TeardownStep::DestroyDevice,
            TeardownStep::DestroyInstance,
            TeardownStep::DestroySurface(80),
            TeardownStep::ReleaseLoader,
        ]
    );
}

#[test]
fn device_goes_idle_before_anything_on_it_is_destroyed() {
    let mut context = context(LogLevel::Dev);
    for (path, module) in [("a.vert.glsl", 1), ("b.frag.glsl", 2), ("c.comp.glsl", 3)] {
        assert_eq!(context.shader_manager.load_shader(path, LoadOutcome::ModuleCreated(module)), Ok(()));
    }
    let steps = context.teardown();
    let waits = position(&steps, |step| *step == TeardownStep::WaitDeviceIdle);
    assert_eq!(waits, vec![0]);
    let device = position(&steps, |step| *step == TeardownStep::DestroyDevice);
    assert_eq!(device.len(), 1);
    let instance = position(&steps, |step| *step == TeardownStep::DestroyInstance);
    assert_eq!(instance.len(), 1);
    assert!(device[0] < instance[0]);
    let on_device = position(&steps, |step| {
        matches!(
            step,
            TeardownStep::DestroyShaderModule(_)
                | TeardownStep::DestroySemaphore(_)
                | TeardownStep::DestroyFence(_)
        )
    });
    assert_eq!(on_device.len(), 6);
    for index in on_device {
        assert!(waits[0] < index);
        assert!(index < device[0]);
    }
}

#[test]
fn second_teardown_releases_nothing() {
    let mut context = context(LogLevel::Dev);
    assert_eq!(context.shader_manager.load_shader("a.vert.glsl", LoadOutcome::ModuleCreated(5)), Ok(()));
    let first = context.teardown();
    assert_eq!(first.len(), 10);
    assert_eq!(context.teardown(), Vec::<TeardownStep>::new());
    assert_eq!(context.teardown(), Vec::<TeardownStep>::new());
    assert!(context.released);
}

#[test]
fn new_context_has_no_shader_and_is_live() {
    let context = context(LogLevel::Dev);
    assert!(!context.released);
    assert_eq!(context.profile, LogLevel::Dev);
    assert_eq!(context.shader_manager.len(), 0);
    assert_eq!(context.debug_messenger_manager, Some(DebugMessengerManager { debug_utils: 90 }));
    assert_eq!(context.surface_manager, SurfaceHandle { surface: 80 });
    assert_eq!(context.sync_manager.render_fence, 30);
    assert_eq!(context.device_manager.graphics_queue, 1);
}

#[test]
fn renderer_owns_its_context() {
    let renderer = Renderer::new(context(LogLevel::Editor));
    assert_eq!(renderer.context.profile, LogLevel::Editor);
    assert!(!renderer.context.released);
}

#[test]
fn fence_is_created_signaled_after_two_semaphores() {
    assert_eq!(
        SynchronizationPrimitivesManager::plan(),
        vec![SyncObject::Semaphore, SyncObject::Semaphore, SyncObject::Fence { signaled: true }]
    );
}

#[test]
fn sync_primitives_are_released_in_order() {
    let sync = SynchronizationPrimitivesManager::new(1, 2, 3);
    assert_eq!(sync.available_image_semaphore, 1);
    assert_eq!(sync.render_semaphore, 2);
    assert_eq!(sync.render_fence, 3);
    assert_eq!(
        sync.destroy_resources(),
        vec![
            TeardownStep::DestroySemaphore(1),
            TeardownStep::DestroySemaphore(2),
            TeardownStep::DestroyFence(3)
        ]
    );
}

#[test]
fn surface_failure_is_passed_on() {
    assert_eq!(SurfaceHandle::new(Ok(5)), Ok(SurfaceHandle { surface: 5 }));
    assert_eq!(
        SurfaceHandle::new(Err(ApiResult { code: -1000000000 })),
        Err(EngineError::VulkanApiError(ApiResult { code: -1000000000 }))
    );
}

#[test]
fn messenger_failure_is_passed_on() {
    assert_eq!(DebugMessengerManager::new(Ok(6)), Ok(DebugMessengerManager { debug_utils: 6 }));
    assert_eq!(
        DebugMessengerManager::new(Err(ApiResult { code: -1 })),
        Err(EngineError::VulkanApiError(ApiResult { code: -1 }))
    );
}

#[test]
fn messenger_subscribes_to_everything_but_verbose() {
    assert_eq!(
        DebugMessengerManager::config(),
        MessengerConfig {
            verbose: false,
            info: true,
            warning: true,
            error: true,
            general: true,
            validation: true,
            performance: true
        }
    );
}

#[test]
fn driver_reports_are_logged_at_their_level() {
    assert_eq!(
        debug_callback(MessageSeverity::Info, "GENERAL", "loaded"),
        Some((Level::Info, "\n    [GENERAL] loaded".to_string()))
    );
    assert_eq!(
        debug_callback(MessageSeverity::Warning, "PERFORMANCE", "slow path"),
        Some((Level::Warn, "\n    [PERFORMANCE] slow path".to_string()))
    );
    assert_eq!(
        debug_callback(MessageSeverity::Error, "VALIDATION", "bad handle"),
        Some((Level::Error, "\n    [VALIDATION] bad handle".to_string()))
    );
}

#[test]
fn other_driver_reports_are_dropped() {
    assert_eq!(debug_callback(MessageSeverity::Verbose, "GENERAL", "chatter"), None);
    assert_eq!(debug_callback(MessageSeverity::Other(0x1100), "GENERAL", "mixed"), None);
    assert_eq!(debug_callback(MessageSeverity::Other(0), "", ""), None);
}
