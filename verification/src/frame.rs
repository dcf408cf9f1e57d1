//! The per-frame command plan: from the render-state toggles and the
//! swap-chain outcome to the exact, strictly ordered list of commands one
//! frame records and submits.

use vstd::prelude::*;
use crate::pipeline::{FillMode, Pipeline};
use crate::toggles::ToggleState;

verus! {

/// A color with channels in thousandths, so that the fixed clear color can
/// be stated exactly without device-side floating point.
#[derive(Clone, Copy, Debug, PartialEq, Eq, Structural)]
pub struct ColorMilli {
    pub r: u32,
    pub g: u32,
    pub b: u32,
    pub a: u32,
}

/// Every channel of a color stays within one whole unit.
pub open spec fn color_in_range(c: ColorMilli) -> bool {
    c.r <= 1000 && c.g <= 1000 && c.b <= 1000 && c.a <= 1000
}

/// The fixed clear color every frame starts from: a half-intensity green.
pub fn default_clear_color() -> (c: ColorMilli)
    ensures
        c == (ColorMilli { r: 0, g: 500, b: 0, a: 1000 }),
        color_in_range(c),
{
    ColorMilli { r: 0, g: 500, b: 0, a: 1000 }
}

/// What one frame needs beyond the toggles: the window dimensions pushed
/// as per-frame uniform data, the vertex count drawn, and the clear color.
#[derive(Clone, Copy, Debug, PartialEq, Eq, Structural)]
pub struct FrameParams {
    pub width: u32,
    pub height: u32,
    pub vertex_count: u32,
    pub clear: ColorMilli,
}

/// One recorded command of a frame, in the order the device must see it.
/// Depth bounds of a viewport are in thousandths, like a color channel.
#[derive(Clone, Copy, Debug, PartialEq, Eq, Structural)]
pub enum RenderCommand {
    /// Per-frame uniform data for the vertex stage: the viewport size.
    PushVertexUniform { width: u32, height: u32 },
    /// The same uniform data for the fragment stage.
    PushFragmentUniform { width: u32, height: u32 },
    /// Open the render pass on the swap-chain texture: clear on load,
    /// store on end.
    BeginRenderPass { clear: ColorMilli },
    /// Bind the pipeline variant the render state selects.
    BindPipeline { fill_mode: FillMode },
    /// Bind the long-lived vertex buffer.
    BindVertexBuffer { slot: u32 },
    /// Restrict the viewport to a rectangle with a fixed depth range.
    SetViewport { x: u32, y: u32, width: u32, height: u32, min_depth: u32, max_depth: u32 },
    /// Restrict drawing to a scissor rectangle.
    SetScissor { x: u32, y: u32, width: u32, height: u32 },
    /// The one draw call: no indexing, a single instance.
    Draw { vertex_count: u32, instance_count: u32 },
    /// Close the render pass; no binding is recorded after this.
    EndRenderPass,
    /// Submit the command buffer, exactly once, as the frame's last act.
    Submit,
}

/// The centered quarter-area viewport used while the small-viewport toggle
/// is set: half the extent in each direction, centered.
pub fn small_viewport_rect(width: u32, height: u32) -> (r: (u32, u32, u32, u32))
    ensures
        r == (width / 4, height / 4, width / 2, height / 2),
{
    (width / 4, height / 4, width / 2, height / 2)
}

/// The fixed quadrant the scissor toggle restricts drawing to: the
/// lower-right quarter of the window.
pub fn scissor_rect(width: u32, height: u32) -> (r: (u32, u32, u32, u32))
    ensures
        r == (width / 2, height / 2, width / 2, height / 2),
{
    (width / 2, height / 2, width / 2, height / 2)
}

/// The commands recorded inside the open render pass: pipeline and vertex
/// buffer bindings, the optional viewport and scissor restrictions, and
/// the one draw call.
pub open spec fn pass_body_spec(t: ToggleState, p: FrameParams) -> Seq<RenderCommand> {
    seq![
        RenderCommand::BindPipeline {
            fill_mode: if t.wireframe {
                FillMode::Line
            } else {
                FillMode::Fill
            },
        },
        RenderCommand::BindVertexBuffer { slot: 0 },
    ] + (if t.small_viewport {
        seq![
            RenderCommand::SetViewport {
                x: p.width / 4,
                y: p.height / 4,
                width: p.width / 2,
                height: p.height / 2,
                min_depth: 0,
                max_depth: 1000,
            },
        ]
    } else {
        Seq::empty()
    }) + (if t.scissor {
        seq![
            RenderCommand::SetScissor {
                x: p.width / 2,
                y: p.height / 2,
                width: p.width / 2,
                height: p.height / 2,
            },
        ]
    } else {
        Seq::empty()
    }) + seq![RenderCommand::Draw { vertex_count: p.vertex_count, instance_count: 1 }]
}

/// The whole frame. A null swap-chain texture (minimized or occluded
/// surface) skips all render-pass work: the frame records no draw call and
/// still submits. Otherwise the uniforms are pushed, the pass is opened on
/// the fixed clear color, the pass body runs, and the frame submits.
pub open spec fn frame_plan_spec(t: ToggleState, swapchain_null: bool, p: FrameParams) -> Seq<
    RenderCommand,
> {
    if swapchain_null {
        seq![RenderCommand::Submit]
    } else {
        seq![
            RenderCommand::PushVertexUniform { width: p.width, height: p.height },
            RenderCommand::PushFragmentUniform { width: p.width, height: p.height },
            RenderCommand::BeginRenderPass { clear: p.clear },
        ] + pass_body_spec(t, p) + seq![RenderCommand::EndRenderPass, RenderCommand::Submit]
    }
}

/// Records one frame's commands from the current render state, the
/// swap-chain outcome, and the frame parameters.
pub fn plan_frame(t: &ToggleState, swapchain_null: bool, p: &FrameParams) -> (plan: Vec<
    RenderCommand,
>)
    ensures
        plan@ == frame_plan_spec(*t, swapchain_null, *p),
{
    let mut plan: Vec<RenderCommand> = Vec::new();
    if swapchain_null {
        plan.push(RenderCommand::Submit);
        proof {
            assert(plan@ =~= frame_plan_spec(*t, swapchain_null, *p));
        }
        return plan;
    }
    plan.push(RenderCommand::PushVertexUniform { width: p.width, height: p.height });
    plan.push(RenderCommand::PushFragmentUniform { width: p.width, height: p.height });
    plan.push(RenderCommand::BeginRenderPass { clear: p.clear });
    if t.wireframe {
        plan.push(RenderCommand::BindPipeline { fill_mode: FillMode::Line });
    } else {
        plan.push(RenderCommand::BindPipeline { fill_mode: FillMode::Fill });
    }
    plan.push(RenderCommand::BindVertexBuffer { slot: 0 });
    if t.small_viewport {
        let (x, y, w, h) = small_viewport_rect(p.width, p.height);
        plan.push(
            RenderCommand::SetViewport { x, y, width: w, height: h, min_depth: 0, max_depth: 1000 },
        );
    }
    if t.scissor {
        let (x, y, w, h) = scissor_rect(p.width, p.height);
        plan.push(RenderCommand::SetScissor { x, y, width: w, height: h });
    }
    plan.push(RenderCommand::Draw { vertex_count: p.vertex_count, instance_count: 1 });
    plan.push(RenderCommand::EndRenderPass);
    plan.push(RenderCommand::Submit);
    proof {
        assert(plan@ =~= frame_plan_spec(*t, swapchain_null, *p));
    }
    plan
}

/// Picks the pipeline variant the render state selects: the wire-frame one
/// while the wireframe toggle is set, else the filled one.
pub fn select_pipeline<'a>(t: &ToggleState, filled: &'a Pipeline, wire: &'a Pipeline) -> (r:
    &'a Pipeline)
    ensures
        t.wireframe ==> r == wire,
        !t.wireframe ==> r == filled,
{
    if t.wireframe {
        wire
    } else {
        filled
    }
}

/// The pipeline bound in a visible frame is the variant the render state
/// selects: the wire-frame one while the toggle is set, else the filled one.
pub proof fn lemma_state_selects_pipeline(t: ToggleState, p: FrameParams)
    ensures
        frame_plan_spec(t, false, p)[3] == (RenderCommand::BindPipeline {
            fill_mode: if t.wireframe {
                FillMode::Line
            } else {
                FillMode::Fill
            },
        }),
{
}

/// Whether a plan restricts the viewport anywhere.
pub open spec fn has_viewport(plan: Seq<RenderCommand>) -> bool {
    exists|k: int| 0 <= k < plan.len() && (#[trigger] plan[k]) is SetViewport
}

/// Whether a plan restricts drawing with a scissor anywhere.
pub open spec fn has_scissor(plan: Seq<RenderCommand>) -> bool {
    exists|k: int| 0 <= k < plan.len() && (#[trigger] plan[k]) is SetScissor
}

/// A visible frame restricts the viewport exactly when the small-viewport
/// toggle is set, and applies a scissor exactly when the scissor toggle
/// is set.
pub proof fn lemma_toggles_drive_restrictions(t: ToggleState, p: FrameParams)
    ensures
        has_viewport(frame_plan_spec(t, false, p)) <==> t.small_viewport,
        has_scissor(frame_plan_spec(t, false, p)) <==> t.scissor,
{
    let plan = frame_plan_spec(t, false, p);
    if t.small_viewport {
        assert(plan[5] is SetViewport);
    } else {
        assert(forall|k: int| 0 <= k < plan.len() ==> !((#[trigger] plan[k]) is SetViewport));
    }
    if t.scissor {
        if t.small_viewport {
            assert(plan[6] is SetScissor);
        } else {
            assert(plan[5] is SetScissor);
        }
    } else {
        assert(forall|k: int| 0 <= k < plan.len() ==> !((#[trigger] plan[k]) is SetScissor));
    }
}

/// How many draw calls a plan records.
pub open spec fn draw_count(plan: Seq<RenderCommand>) -> nat
    decreases plan.len(),
{
    if plan.len() == 0 {
        0
    } else {
        draw_count(plan.drop_last()) + (match plan.last() {
            RenderCommand::Draw { .. } => 1nat,
            _ => 0nat,
        })
    }
}

/// How many submissions a plan records.
pub open spec fn submit_count(plan: Seq<RenderCommand>) -> nat
    decreases plan.len(),
{
    if plan.len() == 0 {
        0
    } else {
        submit_count(plan.drop_last()) + (match plan.last() {
            RenderCommand::Submit => 1nat,
            _ => 0nat,
        })
    }
}

pub proof fn lemma_draw_count_append(a: Seq<RenderCommand>, b: Seq<RenderCommand>)
    ensures
        draw_count(a + b) == draw_count(a) + draw_count(b),
    decreases b.len(),
{
    if b.len() == 0 {
        assert(a + b =~= a);
    } else {
        lemma_draw_count_append(a, b.drop_last());
        assert((a + b).drop_last() =~= a + b.drop_last());
    }
}

pub proof fn lemma_submit_count_append(a: Seq<RenderCommand>, b: Seq<RenderCommand>)
    ensures
        submit_count(a + b) == submit_count(a) + submit_count(b),
    decreases b.len(),
{
    if b.len() == 0 {
        assert(a + b =~= a);
    } else {
        lemma_submit_count_append(a, b.drop_last());
        assert((a + b).drop_last() =~= a + b.drop_last());
    }
}

/// A frame with a null swap-chain texture records zero draw calls and
/// still reaches submission: its whole plan is the one submit command.
pub proof fn lemma_null_swapchain_frame(t: ToggleState, p: FrameParams)
    ensures
        frame_plan_spec(t, true, p) == seq![RenderCommand::Submit],
        draw_count(frame_plan_spec(t, true, p)) == 0,
        submit_count(frame_plan_spec(t, true, p)) == 1,
        frame_plan_spec(t, true, p).last() == RenderCommand::Submit,
{
    reveal_with_fuel(draw_count, 3);
    reveal_with_fuel(submit_count, 3);
    assert(seq![RenderCommand::Submit].drop_last() =~= Seq::<RenderCommand>::empty());
}

/// A frame with a live swap-chain texture records exactly one draw call,
/// of the configured vertex count in a single instance.
pub proof fn lemma_visible_frame_draws_once(t: ToggleState, p: FrameParams)
    ensures
        draw_count(frame_plan_spec(t, false, p)) == 1,
        frame_plan_spec(t, false, p)[frame_plan_spec(t, false, p).len() - 3]
            == (RenderCommand::Draw { vertex_count: p.vertex_count, instance_count: 1 }),
{
    let prologue = seq![
        RenderCommand::PushVertexUniform { width: p.width, height: p.height },
        RenderCommand::PushFragmentUniform { width: p.width, height: p.height },
        RenderCommand::BeginRenderPass { clear: p.clear },
    ];
    let body = pass_body_spec(t, p);
    let epilogue = seq![RenderCommand::EndRenderPass, RenderCommand::Submit];
    lemma_draw_count_append(prologue + body, epilogue);
    lemma_draw_count_append(prologue, body);
    reveal_with_fuel(draw_count, 5);
    assert(draw_count(prologue) == 0) by {
        assert(prologue.drop_last() =~= prologue.subrange(0, 2));
        assert(prologue.subrange(0, 2).drop_last() =~= prologue.subrange(0, 1));
        assert(prologue.subrange(0, 1).drop_last() =~= Seq::<RenderCommand>::empty());
    }
    assert(draw_count(epilogue) == 0) by {
        assert(epilogue.drop_last() =~= seq![RenderCommand::EndRenderPass]);
        assert(seq![RenderCommand::EndRenderPass].drop_last() =~= Seq::<RenderCommand>::empty());
    }
    assert(draw_count(body) == 1) by {
        let bind = seq![
            RenderCommand::BindPipeline {
                fill_mode: if t.wireframe {
                    FillMode::Line
                } else {
                    FillMode::Fill
                },
            },
            RenderCommand::BindVertexBuffer { slot: 0 },
        ];
        let vp: Seq<RenderCommand> = if t.small_viewport {
            seq![
                RenderCommand::SetViewport {
                    x: p.width / 4,
                    y: p.height / 4,
                    width: p.width / 2,
                    height: p.height / 2,
                    min_depth: 0,
                    max_depth: 1000,
                },
            ]
        } else {
            Seq::empty()
        };
        let sc: Seq<RenderCommand> = if t.scissor {
            seq![
                RenderCommand::SetScissor {
                    x: p.width / 2,
                    y: p.height / 2,
                    width: p.width / 2,
                    height: p.height / 2,
                },
            ]
        } else {
            Seq::empty()
        };
        let draw = seq![RenderCommand::Draw { vertex_count: p.vertex_count, instance_count: 1 }];
        lemma_draw_count_append(bind + vp + sc, draw);
        lemma_draw_count_append(bind + vp, sc);
        lemma_draw_count_append(bind, vp);
        assert(draw_count(bind) == 0) by {
            assert(bind.drop_last() =~= bind.subrange(0, 1));
            assert(bind.subrange(0, 1).drop_last() =~= Seq::<RenderCommand>::empty());
        }
        assert(draw_count(vp) == 0) by {
            if t.small_viewport {
                assert(vp.drop_last() =~= Seq::<RenderCommand>::empty());
            }
        }
        assert(draw_count(sc) == 0) by {
            if t.scissor {
                assert(sc.drop_last() =~= Seq::<RenderCommand>::empty());
            }
        }
        assert(draw.drop_last() =~= Seq::<RenderCommand>::empty());
    }
}

/// Every frame submits exactly once, and the submission is its last act:
/// the command buffer is never reused after submission.
pub proof fn lemma_frame_submits_once(t: ToggleState, swapchain_null: bool, p: FrameParams)
    ensures
        submit_count(frame_plan_spec(t, swapchain_null, p)) == 1,
        frame_plan_spec(t, swapchain_null, p).last() == RenderCommand::Submit,
{
    if swapchain_null {
        lemma_null_swapchain_frame(t, p);
    } else {
        let prologue = seq![
            RenderCommand::PushVertexUniform { width: p.width, height: p.height },
            RenderCommand::PushFragmentUniform { width: p.width, height: p.height },
            RenderCommand::BeginRenderPass { clear: p.clear },
        ];
        let body = pass_body_spec(t, p);
        let epilogue = seq![RenderCommand::EndRenderPass, RenderCommand::Submit];
        lemma_submit_count_append(prologue + body, epilogue);
        lemma_submit_count_append(prologue, body);
        reveal_with_fuel(submit_count, 5);
        assert(submit_count(prologue) == 0) by {
            assert(prologue.drop_last() =~= prologue.subrange(0, 2));
            assert(prologue.subrange(0, 2).drop_last() =~= prologue.subrange(0, 1));
            assert(prologue.subrange(0, 1).drop_last() =~= Seq::<RenderCommand>::empty());
        }
        assert(submit_count(epilogue) == 1) by {
            assert(epilogue.drop_last() =~= seq![RenderCommand::EndRenderPass]);
            assert(seq![RenderCommand::EndRenderPass].drop_last() =~= Seq::<
                RenderCommand,
            >::empty());
        }
        assert(submit_count(body) == 0) by {
            lemma_pass_body_inner(t, p);
            lemma_inner_no_submit(body);
        }
        assert((prologue + body + epilogue).last() == RenderCommand::Submit);
    }
}

/// Commands legal only inside an open render pass.
pub open spec fn is_pass_command(c: RenderCommand) -> bool {
    match c {
        RenderCommand::BindPipeline { .. } => true,
        RenderCommand::BindVertexBuffer { .. } => true,
        RenderCommand::SetViewport { .. } => true,
        RenderCommand::SetScissor { .. } => true,
        RenderCommand::Draw { .. } => true,
        _ => false,
    }
}

/// Everything in the pass body is a pass-only command: no nested pass, no
/// submission, no uniform push inside the pass.
pub proof fn lemma_pass_body_inner(t: ToggleState, p: FrameParams)
    ensures
        forall|k: int|
            0 <= k < pass_body_spec(t, p).len() ==> is_pass_command(#[trigger] pass_body_spec(t, p)[k]),
{
}

/// A run of pass-only commands records no submission.
pub proof fn lemma_inner_no_submit(s: Seq<RenderCommand>)
    requires
        forall|k: int| 0 <= k < s.len() ==> is_pass_command(#[trigger] s[k]),
    ensures
        submit_count(s) == 0,
    decreases s.len(),
{
    if s.len() > 0 {
        lemma_inner_no_submit(s.drop_last());
    }
}

/// The phase discipline of one frame, walked from command `i` with a pass
/// open or not: passes open and close in strict nesting, pass-only
/// commands stand only inside a pass, uniform pushes only outside, and the
/// one submission closes the frame with no pass open.
pub open spec fn phase_ok_from(plan: Seq<RenderCommand>, i: int, open: bool) -> bool
    decreases plan.len() - i,
    when 0 <= i <= plan.len()
{
    if i >= plan.len() {
        !open
    } else {
        match plan[i] {
            RenderCommand::PushVertexUniform { .. } => !open && phase_ok_from(plan, i + 1, false),
            RenderCommand::PushFragmentUniform { .. } => !open && phase_ok_from(plan, i + 1, false),
            RenderCommand::BeginRenderPass { .. } => !open && phase_ok_from(plan, i + 1, true),
            RenderCommand::EndRenderPass => open && phase_ok_from(plan, i + 1, false),
            RenderCommand::Submit => !open && i == plan.len() - 1,
            _ => open && phase_ok_from(plan, i + 1, true),
        }
    }
}

/// A plan is well formed when the whole walk from its start, with no pass
/// open, obeys the phase discipline.
pub open spec fn plan_well_formed(plan: Seq<RenderCommand>) -> bool {
    phase_ok_from(plan, 0, false)
}

/// A run of pass-only commands keeps the pass open through to whatever
/// follows it.
pub proof fn lemma_inner_run(plan: Seq<RenderCommand>, i: int, j: int)
    requires
        0 <= i <= j <= plan.len(),
        forall|k: int| i <= k < j ==> is_pass_command(#[trigger] plan[k]),
        phase_ok_from(plan, j, true),
    ensures
        phase_ok_from(plan, i, true),
    decreases j - i,
{
    if i < j {
        lemma_inner_run(plan, i + 1, j);
    }
}

/// Every frame plan is well formed: whichever toggles are set and whether
/// or not the swap-chain texture was null, the pass opens before any
/// pass-only command, closes before submission, and the frame ends with
/// its single submit.
pub proof fn lemma_frame_plan_well_formed(t: ToggleState, swapchain_null: bool, p: FrameParams)
    ensures
        plan_well_formed(frame_plan_spec(t, swapchain_null, p)),
{
    let plan = frame_plan_spec(t, swapchain_null, p);
    if swapchain_null {
        assert(phase_ok_from(plan, 0, false));
    } else {
        let body = pass_body_spec(t, p);
        let n = plan.len();
        assert(n == body.len() + 5);
        assert(plan[n - 1] == RenderCommand::Submit);
        assert(plan[n - 2] == RenderCommand::EndRenderPass);
        assert(phase_ok_from(plan, n - 1, false));
        assert(phase_ok_from(plan, n - 2, true));
        lemma_pass_body_inner(t, p);
        assert(forall|k: int| 3 <= k < n - 2 ==> is_pass_command(#[trigger] plan[k]));
        lemma_inner_run(plan, 3, n - 2);
        assert(plan[2] == (RenderCommand::BeginRenderPass { clear: p.clear }));
        assert(phase_ok_from(plan, 2, false));
        assert(phase_ok_from(plan, 1, false));
        assert(phase_ok_from(plan, 0, false));
    }
}

} // verus!
