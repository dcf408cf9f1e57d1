use gpu_core::frame::{
    default_clear_color, plan_frame, scissor_rect, select_pipeline, small_viewport_rect,
    ColorMilli, FrameParams, RenderCommand,
};
use gpu_core::pipeline::{alpha_blend, build_pair, FillMode, PipelineConfig, VertexAttribute, VertexFormat, VertexLayout};
use gpu_core::shader::{ShaderObject, ShaderStage};
use gpu_core::toggles::{apply_event, InputEvent, Key, ToggleState};
use gpu_core::upload::upload;

fn demo_params() -> FrameParams {
    FrameParams { width: 800, height: 600, vertex_count: 6, clear: default_clear_color() }
}

fn draw_calls(plan: &[RenderCommand]) -> usize {
    plan.iter().filter(|c| matches!(c, RenderCommand::Draw { .. })).count()
}

#[test]
fn clear_color_is_half_green() {
    assert_eq!(default_clear_color(), ColorMilli { r: 0, g: 500, b: 0, a: 1000 });
}

#[test]
fn null_swapchain_skips_all_work_but_still_submits() {
    let t = ToggleState::new();
    let plan = plan_frame(&t, true, &demo_params());
    assert_eq!(plan, vec![RenderCommand::Submit]);
    assert_eq!(draw_calls(&plan), 0);
}

#[test]
fn plain_frame_records_the_full_pass() {
    let t = ToggleState::new();
    let p = demo_params();
    let plan = plan_frame(&t, false, &p);
    assert_eq!(
        plan,
        vec![
            RenderCommand::PushVertexUniform { width: 800, height: 600 },
            RenderCommand::PushFragmentUniform { width: 800, height: 600 },
            RenderCommand::BeginRenderPass { clear: default_clear_color() },
            RenderCommand::BindPipeline { fill_mode: FillMode::Fill },
            RenderCommand::BindVertexBuffer { slot: 0 },
            RenderCommand::Draw { vertex_count: 6, instance_count: 1 },
            RenderCommand::EndRenderPass,
            RenderCommand::Submit,
        ]
    );
}

#[test]
fn wireframe_toggle_selects_the_line_pipeline() {
    let t = apply_event(ToggleState::new(), InputEvent::KeyDown { key: Key::Left });
    let plan = plan_frame(&t, false, &demo_params());
    assert!(plan.contains(&RenderCommand::BindPipeline { fill_mode: FillMode::Line }));
    assert!(!plan.contains(&RenderCommand::BindPipeline { fill_mode: FillMode::Fill }));
}

#[test]
fn small_viewport_restricts_to_centered_quarter_area() {
    assert_eq!(small_viewport_rect(800, 600), (200, 150, 400, 300));
    let t = apply_event(ToggleState::new(), InputEvent::KeyDown { key: Key::Right });
    let plan = plan_frame(&t, false, &demo_params());
    assert!(plan.contains(&RenderCommand::SetViewport {
        x: 200,
        y: 150,
        width: 400,
        height: 300,
        min_depth: 0,
        max_depth: 1000,
    }));
}

#[test]
fn scissor_restricts_to_the_fixed_quadrant() {
    assert_eq!(scissor_rect(800, 600), (400, 300, 400, 300));
    let t = apply_event(ToggleState::new(), InputEvent::KeyDown { key: Key::Down });
    let plan = plan_frame(&t, false, &demo_params());
    assert!(plan.contains(&RenderCommand::SetScissor { x: 400, y: 300, width: 400, height: 300 }));
}

#[test]
fn all_toggles_order_viewport_before_scissor_before_draw() {
    let mut t = ToggleState::new();
    t = apply_event(t, InputEvent::KeyDown { key: Key::Left });
    t = apply_event(t, InputEvent::KeyDown { key: Key::Right });
    t = apply_event(t, InputEvent::KeyDown { key: Key::Down });
    let plan = plan_frame(&t, false, &demo_params());
    assert_eq!(
        plan,
        vec![
            RenderCommand::PushVertexUniform { width: 800, height: 600 },
            RenderCommand::PushFragmentUniform { width: 800, height: 600 },
            RenderCommand::BeginRenderPass { clear: default_clear_color() },
            RenderCommand::BindPipeline { fill_mode: FillMode::Line },
            RenderCommand::BindVertexBuffer { slot: 0 },
            RenderCommand::SetViewport {
                x: 200,
                y: 150,
                width: 400,
                height: 300,
                min_depth: 0,
                max_depth: 1000,
            },
            RenderCommand::SetScissor { x: 400, y: 300, width: 400, height: 300 },
            RenderCommand::Draw { vertex_count: 6, instance_count: 1 },
            RenderCommand::EndRenderPass,
            RenderCommand::Submit,
        ]
    );
}

#[test]
fn every_frame_submits_exactly_once_and_last() {
    let mut t = ToggleState::new();
    for null in [false, true] {
        let plan = plan_frame(&t, null, &demo_params());
        let submits = plan
            .iter()
            .filter(|c| matches!(c, RenderCommand::Submit))
            .count();
        assert_eq!(submits, 1);
        assert_eq!(plan.last(), Some(&RenderCommand::Submit));
        t = apply_event(t, InputEvent::KeyDown { key: Key::Right });
    }
}

#[test]
fn select_pipeline_follows_the_wireframe_toggle() {
    let layout = VertexLayout {
        stride: 8,
        attributes: vec![VertexAttribute {
            location: 0,
            buffer_slot: 0,
            format: VertexFormat::Float2,
            offset: 0,
        }],
    };
    let config = PipelineConfig {
        vertex_shader: ShaderObject {
            stage: ShaderStage::Vertex,
            code: vec![0],
            sampler_count: 0,
            uniform_buffer_count: 1,
            storage_buffer_count: 0,
            storage_texture_count: 0,
        },
        fragment_shader: ShaderObject {
            stage: ShaderStage::Fragment,
            code: vec![0],
            sampler_count: 0,
            uniform_buffer_count: 1,
            storage_buffer_count: 0,
            storage_texture_count: 0,
        },
        layout,
        color_format: 1,
        blend: alpha_blend(),
    };
    let (filled, wire) = build_pair(config).unwrap();
    let mut t = ToggleState::new();
    assert_eq!(select_pipeline(&t, &filled, &wire).fill_mode, FillMode::Fill);
    t = apply_event(t, InputEvent::KeyDown { key: Key::Left });
    assert_eq!(select_pipeline(&t, &filled, &wire).fill_mode, FillMode::Line);
}

#[test]
fn six_uploaded_vertices_are_drawn_with_the_fill_pipeline() {
    let records: Vec<Vec<u8>> = (0u8..6).map(|i| vec![i; 40]).collect();
    let (vb, _steps) = upload(&records, 40);
    let params = FrameParams {
        width: 800,
        height: 600,
        vertex_count: (vb.size / 40) as u32,
        clear: default_clear_color(),
    };
    let plan = plan_frame(&ToggleState::new(), false, &params);
    assert!(plan.contains(&RenderCommand::BindPipeline { fill_mode: FillMode::Fill }));
    assert!(plan.contains(&RenderCommand::Draw { vertex_count: 6, instance_count: 1 }));
    assert_eq!(draw_calls(&plan), 1);
}
