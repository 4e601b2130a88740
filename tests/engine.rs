use gpu_engine::binding::{bind, Binding, ResourceRef};
use gpu_engine::command::{ClearColor, Op, Recorder};
use gpu_engine::device::{
    choose_extensions, choose_layers, classify_message, contains_str, initialize, required_capabilities,
    select_device, select_queue_family, severity_label, subscribed_messages, Capabilities, DeviceConfig,
    MessageFlags, QueueChoice, QueueFamilyInfo, Severity,
};
use gpu_engine::error::EngineError;
use gpu_engine::operation::{
    clear_blue, make_img_and_buf, make_mandelbrot, make_triangle, mandelbrot_program, triangle_fragment_program,
    triangle_vertex_program, READBACK_BUFFER, TARGET_IMAGE,
};
use gpu_engine::pipeline::{
    build_compute_pipeline, build_graphics_pipeline, LoadOp, PipelineKind, SlotKind, StoreOp, VertexFormat,
};
use gpu_engine::resource::{bytes_per_pixel, checked_surface_len, create_host_buffer, create_image, Format, ImageUsage};
use gpu_engine::sync::{submit, Fence, FenceState, WaitOutcome};

fn family(graphics: bool, compute: bool, transfers: bool) -> QueueFamilyInfo {
    QueueFamilyInfo { queues_count: 1, graphics, compute, transfers }
}

fn storage() -> ImageUsage {
    ImageUsage { storage: true, render_target: false, copy_source: true }
}

fn render() -> ImageUsage {
    ImageUsage { storage: true, render_target: true, copy_source: true }
}

#[test]
fn mandelbrot_full_size_plan() {
    let job = make_mandelbrot(0, 1024).unwrap();
    assert_eq!(job.buffer.byte_len, 1024 * 1024 * 4);
    assert_eq!(job.image.width, 1024);
    assert_eq!(job.image.height, 1024);
    assert_eq!(
        job.commands.ops,
        vec![
            Op::Dispatch { pipeline: 0, groups_x: 128, groups_y: 128, groups_z: 1 },
            Op::CopyImageToBuffer { image: TARGET_IMAGE, buffer: READBACK_BUFFER },
        ]
    );
}

#[test]
fn mandelbrot_multiples_of_eight_read_back_whole_square() {
    for size in [8u32, 16, 24, 64, 256] {
        let job = make_mandelbrot(3, size).unwrap();
        let n = (size * size * 4) as usize;
        assert_eq!(job.buffer.byte_len, n);
        assert_eq!(job.commands.queue_family, 3);
        let memory: Vec<u8> = (0..n).map(|i| (i % 251) as u8).collect();
        let mut fence = submit(job.commands);
        assert!(fence.needs_block());
        let bytes = fence.readback(WaitOutcome::Completed, &job.buffer, &memory).unwrap();
        assert_eq!(bytes.len(), n);
        assert_eq!(bytes, memory);
        assert_eq!(fence.state, FenceState::Signaled);
    }
}

#[test]
fn mandelbrot_size_not_multiple_of_workgroup_fails_recording() {
    for size in [1u32, 7, 12, 1020, 1025] {
        assert!(matches!(make_mandelbrot(0, size), Err(EngineError::RecordingFailed)));
    }
}

#[test]
fn mandelbrot_zero_size_fails_allocation() {
    assert!(matches!(
        make_mandelbrot(0, 0),
        Err(EngineError::AllocationFailed { width: 0, height: 0, format: Format::R8G8B8A8Unorm })
    ));
}

#[test]
fn mandelbrot_plan_is_deterministic() {
    let a = make_mandelbrot(0, 512).unwrap();
    let b = make_mandelbrot(0, 512).unwrap();
    assert_eq!(a.commands.ops, b.commands.ops);
    assert_eq!(a.image, b.image);
    assert_eq!(a.buffer, b.buffer);
}

#[test]
fn readback_without_prior_wait_matches_waiting_first() {
    let memory: Vec<u8> = (0..64u32).map(|i| (i * 3) as u8).collect();
    let buffer = create_host_buffer(1, 64, true);
    let mut direct = Fence { queue_family: 0, state: FenceState::Pending };
    let a = direct.readback(WaitOutcome::Completed, &buffer, &memory).unwrap();
    let mut waited = Fence { queue_family: 0, state: FenceState::Pending };
    assert_eq!(waited.wait_and_block(WaitOutcome::Completed), Ok(()));
    let b = waited.readback(WaitOutcome::TimedOut, &buffer, &memory).unwrap();
    assert_eq!(a, b);
    assert_eq!(direct, waited);
}

#[test]
fn wait_twice_on_signaled_fence() {
    let mut f = Fence { queue_family: 0, state: FenceState::Pending };
    assert_eq!(f.wait_and_block(WaitOutcome::Completed), Ok(()));
    assert!(!f.needs_block());
    assert_eq!(f.wait_and_block(WaitOutcome::DeviceLost), Ok(()));
    assert_eq!(f.state, FenceState::Signaled);
}

#[test]
fn wait_timeout_leaves_fence_pending() {
    let mut f = Fence { queue_family: 0, state: FenceState::Pending };
    assert_eq!(f.wait_and_block(WaitOutcome::TimedOut), Err(EngineError::TimeoutExceeded));
    assert_eq!(f.state, FenceState::Pending);
    assert_eq!(f.wait_and_block(WaitOutcome::Completed), Ok(()));
}

#[test]
fn wait_device_lost_is_sticky() {
    let mut f = Fence { queue_family: 0, state: FenceState::Pending };
    assert_eq!(f.wait_and_block(WaitOutcome::DeviceLost), Err(EngineError::DeviceLost));
    assert_eq!(f.wait_and_block(WaitOutcome::Completed), Err(EngineError::DeviceLost));
    let memory = vec![1u8, 2, 3, 4];
    assert_eq!(f.readback(WaitOutcome::Completed, &create_host_buffer(1, 4, true), &memory), Err(EngineError::DeviceLost));
}

#[test]
fn readback_takes_leading_bytes() {
    let memory = vec![9u8, 8, 7, 6, 5];
    let mut f = Fence { queue_family: 0, state: FenceState::Signaled };
    assert_eq!(f.readback(WaitOutcome::TimedOut, &create_host_buffer(1, 3, true), &memory), Ok(vec![9u8, 8, 7]));
}

#[test]
fn triangle_plan_clears_draws_then_copies() {
    let job = make_triangle(0, 1024).unwrap();
    let blue = ClearColor { r: 0, g: 0, b: 255, a: 255 };
    assert_eq!(clear_blue(), blue);
    assert_eq!(
        job.commands.ops,
        vec![
            Op::BeginRenderPass { image: TARGET_IMAGE, clear: blue },
            Op::Draw { pipeline: 0, vertex_count: 3 },
            Op::EndRenderPass,
            Op::CopyImageToBuffer { image: TARGET_IMAGE, buffer: READBACK_BUFFER },
        ]
    );
    assert_eq!(job.buffer.byte_len, 1024 * 1024 * 4);
    match job.pipeline.kind {
        PipelineKind::Graphics { render_pass, viewport } => {
            assert_eq!(render_pass.load, LoadOp::Clear);
            assert_eq!(render_pass.store, StoreOp::Store);
            assert_eq!(render_pass.samples, 1);
            assert_eq!((viewport.x, viewport.y, viewport.width, viewport.height), (0, 0, 1024, 1024));
        }
        PipelineKind::Compute { .. } => panic!("expected a graphics pipeline"),
    }
    assert_eq!(job.pipeline.vertex_layout, vec![VertexFormat::Vec2F32]);
}

#[test]
fn triangle_any_positive_size_works() {
    assert!(make_triangle(0, 13).is_ok());
    assert!(matches!(make_triangle(0, 0), Err(EngineError::AllocationFailed { .. })));
}

#[test]
fn binding_slot_count_mismatch() {
    let program = mandelbrot_program();
    let pipeline = build_compute_pipeline(0, &program, vec![SlotKind::StorageImage]).unwrap();
    let none: Vec<Binding> = Vec::new();
    assert!(matches!(bind(&pipeline, none), Err(EngineError::BindingMismatch)));
    let two = vec![
        Binding { slot: 0, resource: ResourceRef::Image { id: 0 } },
        Binding { slot: 1, resource: ResourceRef::Image { id: 1 } },
    ];
    assert!(matches!(bind(&pipeline, two), Err(EngineError::BindingMismatch)));
}

#[test]
fn binding_kind_and_index_mismatch() {
    let program = mandelbrot_program();
    let pipeline = build_compute_pipeline(0, &program, vec![SlotKind::StorageImage]).unwrap();
    let buffer = vec![Binding { slot: 0, resource: ResourceRef::Buffer { id: 0 } }];
    assert!(matches!(bind(&pipeline, buffer), Err(EngineError::BindingMismatch)));
    let wrong_slot = vec![Binding { slot: 1, resource: ResourceRef::Image { id: 0 } }];
    assert!(matches!(bind(&pipeline, wrong_slot), Err(EngineError::BindingMismatch)));
    let good = vec![Binding { slot: 0, resource: ResourceRef::Image { id: 7 } }];
    let set = bind(&pipeline, good).unwrap();
    assert_eq!(set.pipeline_id, 0);
    assert_eq!(set.bindings[0].resource, ResourceRef::Image { id: 7 });
}

#[test]
fn compute_pipeline_interface_mismatch() {
    let program = mandelbrot_program();
    assert!(matches!(
        build_compute_pipeline(0, &program, vec![SlotKind::Buffer]),
        Err(EngineError::IncompatiblePipelineState)
    ));
    let vs = triangle_vertex_program();
    assert!(matches!(build_compute_pipeline(0, &vs, Vec::new()), Err(EngineError::IncompatiblePipelineState)));
}

#[test]
fn graphics_pipeline_interface_mismatch() {
    let vs = triangle_vertex_program();
    let fs = triangle_fragment_program();
    let target = create_image(0, 16, 16, Format::R8G8B8A8Unorm, render(), 0).unwrap();
    assert!(matches!(
        build_graphics_pipeline(0, &vs, &fs, vec![VertexFormat::Vec3F32], &target),
        Err(EngineError::IncompatiblePipelineState)
    ));
    assert!(matches!(
        build_graphics_pipeline(0, &fs, &vs, vec![VertexFormat::Vec2F32], &target),
        Err(EngineError::IncompatiblePipelineState)
    ));
    let not_target = create_image(0, 16, 16, Format::R8G8B8A8Unorm, storage(), 0).unwrap();
    assert!(matches!(
        build_graphics_pipeline(0, &vs, &fs, vec![VertexFormat::Vec2F32], &not_target),
        Err(EngineError::IncompatiblePipelineState)
    ));
    assert!(build_graphics_pipeline(0, &vs, &fs, vec![VertexFormat::Vec2F32], &target).is_ok());
}

#[test]
fn recorder_rejects_draw_outside_pass_and_stays_failed() {
    let vs = triangle_vertex_program();
    let fs = triangle_fragment_program();
    let target = create_image(0, 16, 16, Format::R8G8B8A8Unorm, render(), 0).unwrap();
    let pipeline = build_graphics_pipeline(0, &vs, &fs, vec![VertexFormat::Vec2F32], &target).unwrap();
    let mut rec = Recorder::new(0);
    rec.draw(&pipeline, 3);
    assert_eq!(rec.failed, Some(EngineError::RecordingFailed));
    rec.begin_render_pass(&pipeline, &target, clear_blue());
    rec.end_render_pass();
    assert!(rec.ops.is_empty());
    assert!(matches!(rec.finish(), Err(EngineError::RecordingFailed)));
}

#[test]
fn recorder_rejects_open_pass_at_finish() {
    let vs = triangle_vertex_program();
    let fs = triangle_fragment_program();
    let target = create_image(0, 16, 16, Format::R8G8B8A8Unorm, render(), 0).unwrap();
    let pipeline = build_graphics_pipeline(0, &vs, &fs, vec![VertexFormat::Vec2F32], &target).unwrap();
    let mut rec = Recorder::new(0);
    rec.begin_render_pass(&pipeline, &target, clear_blue());
    rec.draw(&pipeline, 3);
    assert_eq!(rec.failed, None);
    assert!(matches!(rec.finish(), Err(EngineError::RecordingFailed)));
}

#[test]
fn recorder_rejects_write_after_copy_and_short_buffer() {
    let program = mandelbrot_program();
    let pipeline = build_compute_pipeline(0, &program, vec![SlotKind::StorageImage]).unwrap();
    let image = create_image(0, 16, 16, Format::R8G8B8A8Unorm, storage(), 0).unwrap();
    let set = bind(&pipeline, vec![Binding { slot: 0, resource: ResourceRef::Image { id: 0 } }]).unwrap();
    let buffer = create_host_buffer(1, 1024, true);
    assert_eq!(buffer.byte_len, 1024);
    assert!(buffer.cpu_readable);
    let mut rec = Recorder::new(0);
    rec.copy_image_to_buffer(&image, &buffer);
    rec.dispatch(&pipeline, &set, &image);
    assert_eq!(rec.failed, Some(EngineError::RecordingFailed));
    assert_eq!(rec.ops.len(), 1);

    let big = create_image(2, 32, 32, Format::R8G8B8A8Unorm, storage(), 0).unwrap();
    let mut rec2 = Recorder::new(0);
    rec2.copy_image_to_buffer(&big, &buffer);
    assert_eq!(rec2.failed, Some(EngineError::RecordingFailed));
}

#[test]
fn image_and_buffer_sizes() {
    assert_eq!(bytes_per_pixel(Format::R8G8B8A8Unorm), 4);
    assert_eq!(checked_surface_len(3, 5, Format::R8G8B8A8Unorm), Some(60));
    assert_eq!(checked_surface_len(u32::MAX, u32::MAX, Format::R8G8B8A8Unorm), None);
    assert!(matches!(
        create_image(0, u32::MAX, u32::MAX, Format::R8G8B8A8Unorm, storage(), 0),
        Err(EngineError::AllocationFailed { .. })
    ));
    assert!(matches!(
        create_image(0, 4, 0, Format::R8G8B8A8Unorm, storage(), 0),
        Err(EngineError::AllocationFailed { width: 4, height: 0, .. })
    ));
    let (img, buf) = make_img_and_buf(2, 10, storage()).unwrap();
    assert_eq!((img.width, img.height, img.queue_family), (10, 10, 2));
    assert_eq!(buf.byte_len, 400);
    assert!(buf.cpu_readable);
}

#[test]
fn queue_family_selection() {
    let fams = vec![family(false, true, true), family(true, true, false), family(true, false, true), family(true, true, true)];
    assert_eq!(select_queue_family(&fams, required_capabilities()), Some(3));
    let render_copy = Capabilities { graphics: true, compute: false, transfer: true };
    assert_eq!(select_queue_family(&fams, render_copy), Some(2));
    let all = Capabilities { graphics: true, compute: true, transfer: true };
    assert_eq!(select_queue_family(&fams, all), Some(3));
    let empty_fam = vec![QueueFamilyInfo { queues_count: 0, graphics: true, compute: true, transfers: true }];
    assert_eq!(select_queue_family(&empty_fam, all), None);
}

#[test]
fn device_selection_errors_and_choice() {
    let none: Vec<Vec<QueueFamilyInfo>> = Vec::new();
    assert_eq!(select_device(&none, required_capabilities()), Err(EngineError::NoDeviceAvailable));
    let unsuitable = vec![vec![family(false, true, true)], vec![family(true, false, false)]];
    assert_eq!(select_device(&unsuitable, required_capabilities()), Err(EngineError::NoSuitableQueueFamily));
    let mixed = vec![vec![family(false, true, true)], vec![family(true, false, false), family(true, true, true)]];
    assert_eq!(select_device(&mixed, required_capabilities()), Ok(QueueChoice { device: 1, family: 1 }));
    let no_compute_first = vec![vec![family(true, false, true)], vec![family(true, true, true)]];
    assert_eq!(select_device(&no_compute_first, required_capabilities()), Ok(QueueChoice { device: 1, family: 0 }));
    let same_device = vec![vec![family(true, false, true), family(true, true, true)]];
    assert_eq!(select_device(&same_device, required_capabilities()), Ok(QueueChoice { device: 0, family: 1 }));
    let never_compute = vec![vec![family(true, false, true)], vec![family(true, false, true)]];
    assert_eq!(select_device(&never_compute, required_capabilities()), Err(EngineError::NoSuitableQueueFamily));
}

#[test]
fn validation_layers_filtered() {
    let available = vec![
        String::from("VK_LAYER_KHRONOS_validation"),
        String::from("VK_LAYER_MESA_overlay"),
        String::from("VK_LAYER_LUNARG_standard_validation"),
        String::from("valid"),
    ];
    let on = DeviceConfig { enable_validation: true, required_extensions: Vec::new() };
    assert_eq!(
        choose_layers(&on, &available),
        vec![String::from("VK_LAYER_KHRONOS_validation"), String::from("VK_LAYER_LUNARG_standard_validation")]
    );
    let off = DeviceConfig { enable_validation: false, required_extensions: Vec::new() };
    assert!(choose_layers(&off, &available).is_empty());
    assert!(contains_str("abc", ""));
    assert!(!contains_str("ab", "abc"));
    assert!(contains_str("xxabc", "abc"));
}

#[test]
fn extensions_with_and_without_validation() {
    let on = DeviceConfig { enable_validation: true, required_extensions: vec![String::from("VK_KHR_surface")] };
    assert_eq!(choose_extensions(&on), vec![String::from("VK_KHR_surface"), String::from("VK_EXT_debug_report")]);
    let off = DeviceConfig { enable_validation: false, required_extensions: vec![String::from("VK_KHR_surface")] };
    assert_eq!(choose_extensions(&off), vec![String::from("VK_KHR_surface")]);
}

#[test]
fn initialize_picks_device_layers_and_extensions() {
    let config = DeviceConfig { enable_validation: true, required_extensions: Vec::new() };
    let layers = vec![String::from("VK_LAYER_KHRONOS_validation"), String::from("other")];
    let devices = vec![vec![family(true, true, true)]];
    let ctx = initialize(&config, required_capabilities(), &layers, &devices).unwrap();
    assert_eq!(ctx.choice, QueueChoice { device: 0, family: 0 });
    assert_eq!(ctx.layers, vec![String::from("VK_LAYER_KHRONOS_validation")]);
    assert_eq!(ctx.extensions, vec![String::from("VK_EXT_debug_report")]);
    let no_devices: Vec<Vec<QueueFamilyInfo>> = Vec::new();
    assert!(matches!(initialize(&config, required_capabilities(), &layers, &no_devices), Err(EngineError::NoDeviceAvailable)));
    let render_only = vec![vec![family(true, false, true)]];
    assert!(matches!(
        initialize(&config, required_capabilities(), &layers, &render_only),
        Err(EngineError::NoSuitableQueueFamily)
    ));
}

#[test]
fn message_severity_classification() {
    let f = |error, warning, performance_warning, information, debug| MessageFlags {
        error,
        warning,
        performance_warning,
        information,
        debug,
    };
    assert_eq!(classify_message(f(true, true, false, false, false)), Severity::Error);
    assert_eq!(classify_message(f(false, true, true, false, false)), Severity::Warning);
    assert_eq!(classify_message(f(false, false, true, true, false)), Severity::PerformanceWarning);
    assert_eq!(classify_message(f(false, false, false, true, true)), Severity::Information);
    assert_eq!(classify_message(f(false, false, false, false, true)), Severity::Debug);
    assert_eq!(classify_message(f(false, false, false, false, false)), Severity::Information);
    assert_eq!(severity_label(Severity::PerformanceWarning), "performance_warning");
    assert_eq!(severity_label(Severity::Error), "error");
    assert!(!subscribed_messages().debug);
}
