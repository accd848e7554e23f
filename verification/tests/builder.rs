use engine::builder::{ContextBuilder, Event, Stage, Step};
use engine::context::TeardownStep;
use engine::device::{
    ColorSpace, DeviceQueues, DeviceType, PhysicalDevice, PixelFormat, PresentMode, PresentModes,
    QueueFamily, SurfaceFormat,
};
use engine::error::{ApiResult, EngineError};
use engine::logging::LogLevel;
use engine::sync::SyncObject;

fn names(list: &[&str]) -> Vec<String> {
    list.iter().map(|name| name.to_string()).collect()
}

fn support() -> Event {
    Event::InstanceSupport {
        available_layers: names(&["VK_LAYER_KHRONOS_validation"]),
        required_extensions: names(&["VK_KHR_surface"]),
        available_extensions: names(&["VK_KHR_surface", "VK_EXT_debug_utils"]),
    }
}

fn fake_device() -> PhysicalDevice {
    PhysicalDevice {
        name: "Fake GPU".to_string(),
        device_type: DeviceType::IntegratedGpu,
        queue_families: vec![QueueFamily { queue_count: 2, graphics: true, transfer: true, present: true }],
        surface_formats: vec![SurfaceFormat {
            format: PixelFormat::Bgra8Srgb,
            color_space: ColorSpace::SrgbNonlinear,
        }],
        present_modes: vec![PresentMode::Mailbox, PresentMode::Fifo],
        layers: names(&["VK_LAYER_KHRONOS_validation"]),
        extensions: names(&["VK_KHR_swapchain"]),
    }
}

fn failure(builder: ContextBuilder) -> EngineError {
    assert_eq!(builder.next_step(), Step::Abort);
    match builder.finish() {
        Ok(Err(error)) => error,
        _ => panic!("the bring-up did not fail"),
    }
}

fn up_to_devices(profile: LogLevel) -> ContextBuilder {
    let mut builder = ContextBuilder::new(profile)
        .advance(Event::LibraryLoaded)
        .advance(support())
        .advance(Event::InstanceCreated);
    if profile == LogLevel::Dev {
        builder = builder.advance(Event::DebugMessengerCreated(90));
    }
    let builder = builder.advance(Event::SurfaceCreated(80));
    assert_eq!(builder.next_step(), Step::EnumerateDevices);
    builder
}

#[test]
fn development_context_comes_up_in_order() {
    let builder = ContextBuilder::new(LogLevel::Dev);
    assert_eq!(builder.next_step(), Step::LoadLibrary);
    let builder = builder.advance(Event::LibraryLoaded);
    assert_eq!(builder.next_step(), Step::QueryInstanceSupport);
    let builder = builder.advance(support());
    assert_eq!(builder.next_step(), Step::CreateInstance);
    match &builder.stage {
        Stage::AwaitInstance(plan) => {
            assert_eq!(plan.layers, names(&["VK_LAYER_KHRONOS_validation"]));
            assert_eq!(plan.extensions, names(&["VK_KHR_surface"]));
        }
        _ => panic!("no instance was planned"),
    }
    let builder = builder.advance(Event::InstanceCreated);
    assert_eq!(builder.next_step(), Step::CreateDebugMessenger);
    let builder = builder.advance(Event::DebugMessengerCreated(90));
    assert_eq!(builder.next_step(), Step::CreateSurface);
    let builder = builder.advance(Event::SurfaceCreated(80));
    assert_eq!(builder.next_step(), Step::EnumerateDevices);
    let builder = builder.advance(Event::DevicesEnumerated(vec![fake_device()]));
    assert_eq!(builder.next_step(), Step::CreateDevice);
    let builder = builder.advance(Event::DeviceCreated(DeviceQueues { graphics: 7, transfer: 7 }));
    assert_eq!(builder.next_step(), Step::CreateSyncObject(SyncObject::Semaphore));
    let builder = builder.advance(Event::SyncObjectCreated(10));
    assert_eq!(builder.next_step(), Step::CreateSyncObject(SyncObject::Semaphore));
    let builder = builder.advance(Event::SyncObjectCreated(20));
    assert_eq!(builder.next_step(), Step::CreateSyncObject(SyncObject::Fence { signaled: true }));
    let builder = builder.advance(Event::SyncObjectCreated(30));
    assert_eq!(builder.next_step(), Step::Finish);
    assert_eq!(builder.profile, LogLevel::Dev);

    let mut context = match builder.finish() {
        Ok(Ok(context)) => context,
        _ => panic!("the bring-up did not finish"),
    };
    assert!(!context.released);
    assert_eq!(context.shader_manager.len(), 0);
    assert_eq!(context.device_manager.graphics_queue, 7);
    assert_eq!(context.device_manager.queue_family_index, 0);
    assert_eq!(context.sync_manager.available_image_semaphore, 10);
    assert_eq!(context.sync_manager.render_semaphore, 20);
    assert_eq!(context.sync_manager.render_fence, 30);
    assert_eq!(
        context.teardown(),
        vec![
            TeardownStep::WaitDeviceIdle,
            TeardownStep::DestroySemaphore(10),
            TeardownStep::DestroySemaphore(20),
            TeardownStep::DestroyFence(30),
            TeardownStep::DestroyDevice,
            TeardownStep::DestroyDebugMessenger(90),
            TeardownStep::DestroyInstance,
            TeardownStep::DestroySurface(80),
            TeardownStep::ReleaseLoader,
        ]
    );
}

#[test]
fn shipping_context_has_no_debug_messenger() {
    let builder = ContextBuilder::new(LogLevel::Shipping)
        .advance(Event::LibraryLoaded)
        .advance(Event::InstanceSupport {
            available_layers: names(&[]),
            required_extensions: names(&["VK_KHR_surface"]),
            available_extensions: names(&["VK_KHR_surface"]),
        })
        .advance(Event::InstanceCreated);
    assert_eq!(builder.next_step(), Step::CreateSurface);
    let builder = builder
        .advance(Event::SurfaceCreated(80))
        .advance(Event::DevicesEnumerated(vec![fake_device()]))
        .advance(Event::DeviceCreated(DeviceQueues { graphics: 1, transfer: 2 }))
        .advance(Event::SyncObjectCreated(10))
        .advance(Event::SyncObjectCreated(20))
        .advance(Event::SyncObjectCreated(30));
    let context = match builder.finish() {
        Ok(Ok(context)) => context,
        _ => panic!("the bring-up did not finish"),
    };
    assert_eq!(context.debug_messenger_manager, None);
    assert_eq!(context.instance_manager.layers, names(&[]));
    assert_eq!(context.device_manager.transfer_queue, 2);
}

#[test]
fn fake_device_is_selected_with_its_family() {
    let builder = up_to_devices(LogLevel::Dev).advance(Event::DevicesEnumerated(vec![fake_device()]));
    assert_eq!(builder.next_step(), Step::CreateDevice);
    match &builder.stage {
        Stage::AwaitDevice(_, plan) => {
            assert_eq!(plan.physical_device, 0);
            assert_eq!(plan.queue_family_index, 0);
            assert_eq!(
                plan.present_modes,
                PresentModes {
                    mailbox: Some(PresentMode::Mailbox),
                    fifo_relaxed: Some(PresentMode::Fifo)
                }
            );
        }
        _ => panic!("no device was planned"),
    }
}

#[test]
fn zero_devices_fail_without_a_device_call() {
    let builder = up_to_devices(LogLevel::Dev).advance(Event::DevicesEnumerated(Vec::new()));
    assert_eq!(builder.next_step(), Step::Abort);
    assert_ne!(builder.next_step(), Step::CreateDevice);
    assert_eq!(
        failure(builder),
        EngineError::DeviceCreationFailed("Unable to find suitable Device.".to_string())
    );
}

#[test]
fn unsuitable_devices_fail_without_a_device_call() {
    let mut device = fake_device();
    device.queue_families[0].queue_count = 1;
    let builder = up_to_devices(LogLevel::Editor).advance(Event::DevicesEnumerated(vec![device]));
    assert_eq!(
        failure(builder),
        EngineError::DeviceCreationFailed("Unable to find suitable Device.".to_string())
    );
}

#[test]
fn library_failure_ends_the_bring_up() {
    let builder = ContextBuilder::new(LogLevel::Dev).advance(Event::LibraryFailed("no libvulkan".to_string()));
    assert_eq!(failure(builder), EngineError::VulkanLoadingError("no libvulkan".to_string()));
}

#[test]
fn missing_instance_layer_ends_the_bring_up() {
    let builder = ContextBuilder::new(LogLevel::Dev).advance(Event::LibraryLoaded).advance(
        Event::InstanceSupport {
            available_layers: names(&[]),
            required_extensions: names(&[]),
            available_extensions: names(&[]),
        },
    );
    assert_eq!(
        failure(builder),
        EngineError::InstanceCreationFailed(
            "Not presented required Layers for the Instance of Vulkan.".to_string()
        )
    );
}

#[test]
fn refused_calls_end_the_bring_up() {
    let refused = Event::CallFailed(ApiResult { code: -7 });
    let api_error = EngineError::VulkanApiError(ApiResult { code: -7 });

    let builder = ContextBuilder::new(LogLevel::Dev).advance(Event::LibraryLoaded);
    assert_eq!(failure(builder.advance(refused.clone())), api_error);

    let builder = ContextBuilder::new(LogLevel::Dev).advance(Event::LibraryLoaded).advance(support());
    assert_eq!(
        failure(builder.advance(refused.clone())),
        EngineError::InstanceCreationFailed("Vulkan API Error: -7".to_string())
    );

    let builder = ContextBuilder::new(LogLevel::Dev)
        .advance(Event::LibraryLoaded)
        .advance(support())
        .advance(Event::InstanceCreated);
    assert_eq!(failure(builder.advance(refused.clone())), api_error);

    let builder = ContextBuilder::new(LogLevel::Dev)
        .advance(Event::LibraryLoaded)
        .advance(support())
        .advance(Event::InstanceCreated)
        .advance(Event::DebugMessengerCreated(1));
    assert_eq!(failure(builder.advance(refused.clone())), api_error);

    assert_eq!(failure(up_to_devices(LogLevel::Dev).advance(refused.clone())), api_error);

    let builder = up_to_devices(LogLevel::Dev).advance(Event::DevicesEnumerated(vec![fake_device()]));
    assert_eq!(
        failure(builder.advance(refused.clone())),
        EngineError::DeviceCreationFailed("Vulkan API Error: -7".to_string())
    );

    let device_ready = || {
        up_to_devices(LogLevel::Dev)
            .advance(Event::DevicesEnumerated(vec![fake_device()]))
            .advance(Event::DeviceCreated(DeviceQueues { graphics: 1, transfer: 1 }))
    };
    assert_eq!(failure(device_ready().advance(refused.clone())), api_error);
    assert_eq!(
        failure(device_ready().advance(Event::SyncObjectCreated(1)).advance(refused.clone())),
        api_error
    );
    assert_eq!(
        failure(
            device_ready()
                .advance(Event::SyncObjectCreated(1))
                .advance(Event::SyncObjectCreated(2))
                .advance(refused)
        ),
        api_error
    );
}

#[test]
fn event_out_of_turn_ends_the_bring_up() {
    let expected = EngineError::UnknownError("Unexpected event while the context was brought up".to_string());
    let builder = ContextBuilder::new(LogLevel::Dev).advance(Event::SurfaceCreated(1));
    assert_eq!(failure(builder), expected);
    let builder = ContextBuilder::new(LogLevel::Dev).advance(Event::CallFailed(ApiResult { code: -1 }));
    assert_eq!(failure(builder), expected);
    let builder = up_to_devices(LogLevel::Dev).advance(Event::DeviceCreated(DeviceQueues {
        graphics: 1,
        transfer: 1,
    }));
    assert_eq!(failure(builder), expected);
    let builder = ContextBuilder::new(LogLevel::Shipping)
        .advance(Event::LibraryLoaded)
        .advance(support())
        .advance(Event::InstanceCreated)
        .advance(Event::DebugMessengerCreated(1));
    assert_eq!(failure(builder), expected);
}

#[test]
fn finished_bring_up_does_not_move() {
    let failed = ContextBuilder::new(LogLevel::Dev).advance(Event::LibraryFailed("gone".to_string()));
    let failed = failed.advance(Event::LibraryLoaded).advance(support());
    assert_eq!(failure(failed), EngineError::VulkanLoadingError("gone".to_string()));

    let ready = up_to_devices(LogLevel::Dev)
        .advance(Event::DevicesEnumerated(vec![fake_device()]))
        .advance(Event::DeviceCreated(DeviceQueues { graphics: 1, transfer: 1 }))
        .advance(Event::SyncObjectCreated(1))
        .advance(Event::SyncObjectCreated(2))
        .advance(Event::SyncObjectCreated(3))
        .advance(Event::CallFailed(ApiResult { code: -1 }))
        .advance(Event::SyncObjectCreated(4));
    assert_eq!(ready.next_step(), Step::Finish);
    match ready.finish() {
        Ok(Ok(context)) => assert_eq!(context.sync_manager.render_fence, 3),
        _ => panic!("the bring-up did not stay ready"),
    }
}

#[test]
fn unfinished_bring_up_is_handed_back() {
    let builder = ContextBuilder::new(LogLevel::Dev).advance(Event::LibraryLoaded);
    match builder.finish() {
        Err(builder) => assert_eq!(builder.next_step(), Step::QueryInstanceSupport),
        Ok(_) => panic!("the bring-up was not over"),
    }
}
