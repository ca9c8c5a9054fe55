use ash::vk;
use platform::context::{
    begin_frame, context_created, create_pipeline, draw_pass, end_frame, frame_presented,
    image_acquired, release, resize_swapchain, teardown_steps, swapchain_rebuilt, update_context, update_pass,
    ContextAction, PipelineConfig, ResizeDecision, Teardown, VulkanContext,
};
use platform::error::VulkanError;
use platform::frame::{AcquireOutcome, FramePhase, PresentOutcome, FRAMES_IN_FLIGHT};
use platform::surface::{plan_swapchain, PresentMode, SwapchainPlan};
use platform::window::{Window, WindowEvent};

fn caps() -> vk::SurfaceCapabilitiesKHR {
    vk::SurfaceCapabilitiesKHR {
        min_image_count: 2,
        max_image_count: 8,
        current_extent: vk::Extent2D { width: u32::MAX, height: u32::MAX },
        min_image_extent: vk::Extent2D { width: 1, height: 1 },
        max_image_extent: vk::Extent2D { width: 4096, height: 4096 },
        ..Default::default()
    }
}

fn live_window(width: u32, height: u32) -> Window {
    let mut window = Window::new("game".to_string(), width, height);
    window.internal.initialized = true;
    window.internal.hwnd = 1;
    window.internal.hinstance = 1;
    window
}

fn live_context() -> (VulkanContext, SwapchainPlan) {
    let mut context = VulkanContext::new(400, 400, true);
    let window = live_window(400, 400);
    assert!(matches!(update_context(&mut context, &window), ContextAction::Create));
    let formats = vec![vk::SurfaceFormatKHR::default()];
    let modes = vec![PresentMode::Fifo, PresentMode::Mailbox];
    let plan = plan_swapchain(&formats, &caps(), &modes, vk::Extent2D { width: 400, height: 400 })
        .unwrap();
    context_created(&mut context, &plan, plan.image_count).unwrap();
    assert!(update_pass(&mut context));
    (context, plan)
}

/// Runs one begin/draw/end cycle on which the device succeeds; returns the slot used.
fn run_frame(context: &mut VulkanContext, image: u32) -> usize {
    let slot = begin_frame(context).expect("frame should start");
    assert_eq!(image_acquired(context, AcquireOutcome::Acquired(image)), Ok(true));
    assert_eq!(draw_pass(context), Some(image));
    let submit = end_frame(context).expect("frame should end");
    assert_eq!(submit.slot, slot);
    assert_eq!(submit.image_index, image);
    assert_eq!(frame_presented(context, PresentOutcome::Presented), Ok(()));
    slot
}

fn image_count(context: &VulkanContext) -> u32 {
    context.internal.as_ref().unwrap().image_count
}

fn resolution(context: &VulkanContext) -> (u32, u32) {
    let r = context.internal.as_ref().unwrap().surface_resolution;
    (r.width, r.height)
}

#[test]
fn end_to_end_resize_scenario() {
    let (mut context, plan) = live_context();
    assert!(plan.image_count >= 2 && plan.image_count <= 8);
    assert_eq!(plan.image_count, 3);
    assert_eq!((plan.extent.width, plan.extent.height), (400, 400));
    assert_eq!(plan.present_mode, PresentMode::Mailbox);
    assert_eq!(context.pass.unwrap().framebuffer_count, 3);

    let mut window = live_window(400, 400);
    for k in 0..10u32 {
        assert!(matches!(update_context(&mut context, &window), ContextAction::Nothing));
        let slot = run_frame(&mut context, k % 3);
        assert_eq!(slot, (k as usize) % 2);
    }

    window.events = vec![WindowEvent::Resize];
    window.inner_size.x = 800;
    window.inner_size.y = 600;
    let action = update_context(&mut context, &window);
    assert!(matches!(action, ContextAction::Resize { width: 800, height: 600 }));
    let plan = match resize_swapchain(&context, &caps(), 800, 600) {
        ResizeDecision::Rebuild(p) => p,
        _ => panic!("expected a rebuild"),
    };
    assert_eq!((plan.extent.width, plan.extent.height), (800, 600));
    assert_eq!(swapchain_rebuilt(&mut context, &plan, plan.image_count), Ok(()));
    assert_eq!(resolution(&context), (800, 600));
    assert_eq!(context.pass.unwrap().framebuffer_count, image_count(&context));

    window.events = vec![];
    for k in 0..4u32 {
        assert!(matches!(update_context(&mut context, &window), ContextAction::Nothing));
        run_frame(&mut context, k % 3);
    }
}

#[test]
fn recreate_then_frame_succeeds() {
    for (w, h) in [(1u32, 1u32), (640, 480), (4096, 4096), (1, 4096)] {
        let (mut context, _) = live_context();
        let plan = match resize_swapchain(&context, &caps(), w, h) {
            ResizeDecision::Rebuild(p) => p,
            _ => panic!("expected a rebuild"),
        };
        assert_eq!(swapchain_rebuilt(&mut context, &plan, 4), Ok(()));
        run_frame(&mut context, 3);
        assert_eq!(resolution(&context), (w, h));
    }
}

#[test]
fn zero_size_recreate_is_deferred() {
    let (mut context, _) = live_context();
    run_frame(&mut context, 0);
    let before = context.internal.as_ref().unwrap().current_frame;
    assert!(matches!(resize_swapchain(&context, &caps(), 0, 600), ResizeDecision::Deferred));
    assert!(matches!(resize_swapchain(&context, &caps(), 800, 0), ResizeDecision::Deferred));
    let internal = context.internal.as_ref().unwrap();
    assert_eq!(internal.current_frame, before);
    assert_eq!(resolution(&context), (400, 400));
    assert_eq!(image_count(&context), 3);
    assert!(!internal.out_of_date);
}

#[test]
fn out_of_bounds_recreate_is_refused() {
    let (context, _) = live_context();
    assert!(matches!(resize_swapchain(&context, &caps(), 5000, 600), ResizeDecision::OutOfBounds));
}

#[test]
fn slots_alternate_over_two_rounds() {
    let (mut context, _) = live_context();
    let slots: Vec<usize> = (0..2 * FRAMES_IN_FLIGHT as u32).map(|k| run_frame(&mut context, k % 3)).collect();
    assert_eq!(slots, vec![0, 1, 0, 1]);
}

#[test]
fn second_begin_is_a_no_op() {
    let (mut context, _) = live_context();
    assert_eq!(begin_frame(&mut context), Some(0));
    assert_eq!(begin_frame(&mut context), None);
    assert_eq!(context.internal.as_ref().unwrap().phase, FramePhase::Acquiring);
    assert_eq!(image_acquired(&mut context, AcquireOutcome::Acquired(1)), Ok(true));
    assert_eq!(begin_frame(&mut context), None);
    assert_eq!(context.internal.as_ref().unwrap().present_index(), Some(1));
}

#[test]
fn stale_acquire_then_recreate() {
    let (mut context, _) = live_context();
    assert_eq!(begin_frame(&mut context), Some(0));
    assert_eq!(image_acquired(&mut context, AcquireOutcome::OutOfDate), Ok(false));
    assert!(context.internal.as_ref().unwrap().out_of_date);
    assert_eq!(begin_frame(&mut context), None);
    assert_eq!(end_frame(&mut context), None);
    let window = live_window(400, 400);
    assert!(matches!(
        update_context(&mut context, &window),
        ContextAction::Resize { width: 400, height: 400 }
    ));
    let plan = match resize_swapchain(&context, &caps(), 400, 400) {
        ResizeDecision::Rebuild(p) => p,
        _ => panic!("expected a rebuild"),
    };
    assert_eq!(swapchain_rebuilt(&mut context, &plan, 5), Ok(()));
    assert_eq!(image_count(&context), 5);
    assert_eq!(context.pass.unwrap().framebuffer_count, 5);
    assert_eq!(resolution(&context), (400, 400));
    assert!(!context.internal.as_ref().unwrap().out_of_date);
    run_frame(&mut context, 4);
}

#[test]
fn stale_present_then_recreate() {
    let (mut context, _) = live_context();
    begin_frame(&mut context).unwrap();
    image_acquired(&mut context, AcquireOutcome::Acquired(2)).unwrap();
    draw_pass(&mut context).unwrap();
    end_frame(&mut context).unwrap();
    assert_eq!(frame_presented(&mut context, PresentOutcome::OutOfDate), Ok(()));
    assert!(context.internal.as_ref().unwrap().out_of_date);
    let plan = match resize_swapchain(&context, &caps(), 1024, 768) {
        ResizeDecision::Rebuild(p) => p,
        _ => panic!("expected a rebuild"),
    };
    assert_eq!(plan.image_count, 3);
    swapchain_rebuilt(&mut context, &plan, 3).unwrap();
    assert_eq!(context.pass.unwrap().framebuffer_count, image_count(&context));
    assert_eq!(resolution(&context), (1024, 768));
}

#[test]
fn device_failures_are_fatal() {
    let (mut context, _) = live_context();
    begin_frame(&mut context).unwrap();
    assert_eq!(
        image_acquired(&mut context, AcquireOutcome::Failed),
        Err(VulkanError::FatalDeviceError)
    );
    begin_frame(&mut context).unwrap();
    assert_eq!(
        image_acquired(&mut context, AcquireOutcome::Acquired(3)),
        Err(VulkanError::FatalDeviceError)
    );
    begin_frame(&mut context).unwrap();
    image_acquired(&mut context, AcquireOutcome::Acquired(0)).unwrap();
    end_frame(&mut context).unwrap();
    assert_eq!(
        frame_presented(&mut context, PresentOutcome::Failed),
        Err(VulkanError::FatalDeviceError)
    );
}

#[test]
fn empty_swapchain_is_refused() {
    let (mut context, plan) = live_context();
    assert_eq!(swapchain_rebuilt(&mut context, &plan, 0), Err(VulkanError::ResourceCreationFailed));
    let mut fresh = VulkanContext::new(1, 1, false);
    assert_eq!(context_created(&mut fresh, &plan, 0), Err(VulkanError::ResourceCreationFailed));
    assert!(fresh.internal.is_none());
}

#[test]
fn nothing_happens_before_the_window_is_up() {
    let mut context = VulkanContext::new(400, 400, false);
    let window = Window::new("game".to_string(), 400, 400);
    assert!(matches!(update_context(&mut context, &window), ContextAction::Nothing));
    assert!(!update_pass(&mut context));
    assert_eq!(begin_frame(&mut context), None);
    assert_eq!(draw_pass(&mut context), None);
    assert_eq!(end_frame(&mut context), None);
}

#[test]
fn destroyed_window_tears_down_in_order() {
    let (mut context, _) = live_context();
    let mut window = live_window(400, 400);
    window.internal.destroyed = true;
    let steps = match update_context(&mut context, &window) {
        ContextAction::Destroy(steps) => steps,
        _ => panic!("expected teardown"),
    };
    assert_eq!(
        steps,
        vec![
            Teardown::WaitIdle,
            Teardown::Pipelines,
            Teardown::Framebuffers,
            Teardown::RenderPass,
            Teardown::FrameSync,
            Teardown::ImageViews,
            Teardown::CommandPool,
            Teardown::DebugMessenger,
            Teardown::Swapchain,
            Teardown::Device,
            Teardown::Surface,
            Teardown::Instance,
        ]
    );
    assert!(context.internal.is_none() && context.pass.is_none() && context.resources.is_none());
    assert!(release(&mut context).is_empty());
    assert_eq!(teardown_steps(false, false).len(), 9);
    assert_eq!(teardown_steps(true, false)[1], Teardown::Pipelines);
}

#[test]
fn pipelines_need_a_live_context() {
    let vs = [1u8, 2, 3];
    let fs = [4u8];
    let config = || PipelineConfig { vertext_shader_source: &vs, fragment_shader_source: &fs };
    let mut context = VulkanContext::new(400, 400, false);
    assert_eq!(create_pipeline(&mut context, config()), Err(VulkanError::ResourceCreationFailed));
    let (mut context, _) = live_context();
    assert_eq!(create_pipeline(&mut context, config()), Ok(0));
    let empty = PipelineConfig { vertext_shader_source: &vs, fragment_shader_source: &[] };
    assert_eq!(create_pipeline(&mut context, empty), Err(VulkanError::ResourceCreationFailed));
}
