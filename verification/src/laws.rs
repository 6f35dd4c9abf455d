//! What holds of every setup and of every draw, whatever the surface answers.
//!
//! A setup is followed over all of its steps: [`setup_course`] feeds a
//! sequence of replies, one per step, into [`setup_step`] and collects what
//! was issued. The laws below are stated over such courses.

use vstd::prelude::*;
use crate::error::ErrorView;
use crate::geometry::{indices_in_bounds, quad_indices, quad_vertices, vertex_count};
use crate::protocol::{
    CommandView, Handle, ReplyView, ShaderStage, COLOR_BUFFER_BIT, COMPILE_STATUS,
    FRAGMENT_SHADER, LINK_STATUS, NO_ERROR, ONE, TRIANGLES, UNSIGNED_SHORT, VERTEX_SHADER, ZERO,
};
use crate::resources::{
    attribute_layout, draw_step, frame, index_upload, setup_state, setup_step,
    vertex_upload, BundleState, DrawPhase, SetupPhase, StepView, INDEX_COUNT, POSITION_ATTRIBUTE,
};
use crate::shader::{
    FRAGMENT_SHADER_SOURCE, PROGRAM_LOG_MISSING, SHADER_LOG_MISSING, SHADER_NOT_CREATED,
    VERTEX_SHADER_SOURCE,
};

verus! {

/// Where a setup stands after some of its steps.
#[verifier::ext_equal]
pub struct SetupCourse {
    /// What the bundle holds.
    pub state: BundleState,
    /// The phase that the next step is made in.
    pub phase: SetupPhase,
    /// Every command issued so far, in order.
    pub issued: Seq<CommandView>,
    /// How the setup ended, once it has.
    pub result: Option<Result<(), ErrorView>>,
}

/// A setup of which no step was made yet, on a bundle that holds `state`.
pub open spec fn setup_begin(state: BundleState) -> SetupCourse {
    SetupCourse { state, phase: SetupPhase::Start, issued: Seq::empty(), result: None }
}

/// The course after one more step, made with `reply`. A setup that has ended
/// makes no more steps.
pub open spec fn setup_advance(course: SetupCourse, reply: ReplyView) -> SetupCourse {
    if course.result is Some {
        course
    } else {
        match setup_step(course.phase, reply) {
            StepView::Issue { next, commands } => SetupCourse {
                state: setup_state(course.state, course.phase),
                phase: next,
                issued: course.issued + commands,
                result: None,
            },
            StepView::Done(result) => SetupCourse {
                state: setup_state(course.state, course.phase),
                phase: course.phase,
                issued: course.issued,
                result: Some(result),
            },
        }
    }
}

/// The course of a setup on a bundle that holds `state`, after the first
/// `steps` of `replies` were fed to it, one per step.
pub open spec fn setup_course(state: BundleState, replies: Seq<ReplyView>, steps: nat) -> SetupCourse
    decreases steps,
{
    if steps == 0 {
        setup_begin(state)
    } else {
        setup_advance(setup_course(state, replies, (steps - 1) as nat), replies[steps - 1])
    }
}

/// Every command of a setup on which nothing fails, in the order of issue.
pub open spec fn setup_transcript(
    vertex: Handle,
    fragment: Handle,
    program: Handle,
    vertex_buffer: Handle,
    index_buffer: Handle,
    layout: Handle,
    index: u32,
) -> Seq<CommandView> {
    seq![
        CommandView::CreateShader { kind: VERTEX_SHADER },
        CommandView::ShaderSource { shader: vertex, source: VERTEX_SHADER_SOURCE@ },
        CommandView::CompileShader { shader: vertex },
        CommandView::GetShaderParameter { shader: vertex, pname: COMPILE_STATUS },
        CommandView::CreateShader { kind: FRAGMENT_SHADER },
        CommandView::ShaderSource { shader: fragment, source: FRAGMENT_SHADER_SOURCE@ },
        CommandView::CompileShader { shader: fragment },
        CommandView::GetShaderParameter { shader: fragment, pname: COMPILE_STATUS },
        CommandView::CreateProgram,
        CommandView::AttachShader { program, shader: vertex },
        CommandView::AttachShader { program, shader: fragment },
        CommandView::LinkProgram { program },
        CommandView::GetProgramParameter { program, pname: LINK_STATUS },
        CommandView::UseProgram { program },
        CommandView::CreateBuffer,
    ] + vertex_upload(vertex_buffer) + index_upload(index_buffer) + seq![
        CommandView::BindVertexArray { array: layout },
        CommandView::GetAttribLocation { program, name: POSITION_ATTRIBUTE@ },
    ] + attribute_layout(index)
}

/// The replies of a surface on which nothing fails: every object is created,
/// both compiles and the link report success, and the position input has
/// slot `location`. The first and the last step read no reply.
pub open spec fn setup_replies(
    vertex: Handle,
    fragment: Handle,
    program: Handle,
    vertex_buffer: Handle,
    index_buffer: Handle,
    layout: Handle,
    location: i32,
) -> Seq<ReplyView> {
    seq![
        ReplyView::Nothing,
        ReplyView::Object(vertex),
        ReplyView::Flag(true),
        ReplyView::Object(fragment),
        ReplyView::Flag(true),
        ReplyView::Object(program),
        ReplyView::Flag(true),
        ReplyView::Object(vertex_buffer),
        ReplyView::Object(index_buffer),
        ReplyView::Object(layout),
        ReplyView::Location(location),
        ReplyView::Nothing,
    ]
}

/// Number of indexed draws among the commands.
pub open spec fn indexed_draws(commands: Seq<CommandView>) -> nat
    decreases commands.len(),
{
    if commands.len() == 0 {
        0
    } else {
        let rest = indexed_draws(commands.drop_last());
        if commands.last() is DrawElements {
            rest + 1
        } else {
            rest
        }
    }
}

/// A bundle that was never set up draws no geometry: its frame clears the
/// surface to opaque black and asks for the error state, and nothing else.
/// With no error pending the draw succeeds.
pub proof fn law_uninitialized_draw(reply: ReplyView)
    ensures
        draw_step(BundleState::Uninitialized, DrawPhase::Start, reply) == (StepView::Issue {
            next: DrawPhase::Checking,
            commands: seq![
                CommandView::ClearColor { red: ZERO, green: ZERO, blue: ZERO, alpha: ONE },
                CommandView::Clear { mask: COLOR_BUFFER_BIT },
                CommandView::GetError,
            ],
        }),
        indexed_draws(frame(BundleState::Uninitialized)) == 0,
        draw_step(
            BundleState::Uninitialized,
            DrawPhase::Checking,
            ReplyView::Code(NO_ERROR),
        ) == StepView::<DrawPhase>::Done(Ok(())),
{
    let commands = frame(BundleState::Uninitialized);
    assert(commands =~= seq![
        CommandView::ClearColor { red: ZERO, green: ZERO, blue: ZERO, alpha: ONE },
        CommandView::Clear { mask: COLOR_BUFFER_BIT },
        CommandView::GetError,
    ]);
    reveal_with_fuel(indexed_draws, 4);
}

/// A frame starts with the clear and ends with the question for the error
/// state, whatever the bundle holds. A ready bundle issues exactly one
/// indexed draw in between, of [`INDEX_COUNT`] indices, after it has made
/// its own program and layout current.
pub proof fn law_frame_order(state: BundleState)
    ensures
        frame(state).len() >= 3,
        frame(state)[0] == (CommandView::ClearColor {
            red: ZERO,
            green: ZERO,
            blue: ZERO,
            alpha: ONE,
        }),
        frame(state)[1] == (CommandView::Clear { mask: COLOR_BUFFER_BIT }),
        frame(state).last() == CommandView::GetError,
        state is Uninitialized ==> indexed_draws(frame(state)) == 0,
        state matches BundleState::Ready { program, layout } ==> {
            &&& indexed_draws(frame(state)) == 1
            &&& frame(state).len() == 6
            &&& frame(state)[2] == (CommandView::UseProgram { program })
            &&& frame(state)[3] == (CommandView::BindVertexArray { array: layout })
            &&& frame(state)[4] == (CommandView::DrawElements {
                mode: TRIANGLES,
                count: INDEX_COUNT,
                kind: UNSIGNED_SHORT,
                offset: 0,
            })
        },
{
    reveal_with_fuel(indexed_draws, 7);
}

/// The number of indices that a frame draws is the number that a setup
/// uploads, and each of them names one of the four vertices uploaded.
pub proof fn law_indices_in_bounds()
    ensures
        quad_indices().len() == INDEX_COUNT,
        vertex_count(quad_vertices()) == 4,
        forall|i: int| 0 <= i < quad_indices().len() ==> #[trigger] quad_indices()[i] < 4,
        indices_in_bounds(quad_indices(), quad_vertices()),
{
}

/// On a surface on which nothing fails, a setup issues
/// [`setup_transcript`], succeeds at its twelfth step and leaves the bundle
/// ready with the program and the layout it built. A draw of that bundle
/// issues exactly one indexed draw of [`INDEX_COUNT`] indices and, with no
/// error pending, succeeds.
pub proof fn law_setup_success(
    state: BundleState,
    vertex: Handle,
    fragment: Handle,
    program: Handle,
    vertex_buffer: Handle,
    index_buffer: Handle,
    layout: Handle,
    location: i32,
)
    requires
        location >= 0,
    ensures
        ({
            let replies = setup_replies(
                vertex,
                fragment,
                program,
                vertex_buffer,
                index_buffer,
                layout,
                location,
            );
            let end = setup_course(state, replies, 12);
            &&& forall|steps: nat| steps < 12 ==> (#[trigger] setup_course(
                state,
                replies,
                steps,
            )).result is None
            &&& forall|steps: nat| steps < 12 ==> (#[trigger] setup_course(
                state,
                replies,
                steps,
            )).state == state
            &&& end.result == Some(Ok::<(), ErrorView>(()))
            &&& end.state == (BundleState::Ready { program, layout })
            &&& end.issued == setup_transcript(
                vertex,
                fragment,
                program,
                vertex_buffer,
                index_buffer,
                layout,
                location as u32,
            )
            &&& indexed_draws(frame(end.state)) == 1
            &&& draw_step(end.state, DrawPhase::Checking, ReplyView::Code(NO_ERROR))
                == StepView::<DrawPhase>::Done(Ok(()))
        }),
{
    let replies = setup_replies(
        vertex,
        fragment,
        program,
        vertex_buffer,
        index_buffer,
        layout,
        location,
    );
    let c0 = setup_course(state, replies, 0);
    let c1 = setup_course(state, replies, 1);
    let c2 = setup_course(state, replies, 2);
    let c3 = setup_course(state, replies, 3);
    let c4 = setup_course(state, replies, 4);
    let c5 = setup_course(state, replies, 5);
    let c6 = setup_course(state, replies, 6);
    let c7 = setup_course(state, replies, 7);
    let c8 = setup_course(state, replies, 8);
    let c9 = setup_course(state, replies, 9);
    let c10 = setup_course(state, replies, 10);
    let c11 = setup_course(state, replies, 11);
    let c12 = setup_course(state, replies, 12);
    assert(c0 == setup_begin(state));
    assert(c1 == setup_advance(c0, replies[0]));
    assert(c2 == setup_advance(c1, replies[1]));
    assert(c3 == setup_advance(c2, replies[2]));
    assert(c4 == setup_advance(c3, replies[3]));
    assert(c5 == setup_advance(c4, replies[4]));
    assert(c6 == setup_advance(c5, replies[5]));
    assert(c7 == setup_advance(c6, replies[6]));
    assert(c8 == setup_advance(c7, replies[7]));
    assert(c9 == setup_advance(c8, replies[8]));
    assert(c10 == setup_advance(c9, replies[9]));
    assert(c11 == setup_advance(c10, replies[10]));
    assert(c12 == setup_advance(c11, replies[11]));
    assert(c11.phase == (SetupPhase::Finish { program, layout }));
    assert(c12.issued =~= setup_transcript(
        vertex,
        fragment,
        program,
        vertex_buffer,
        index_buffer,
        layout,
        location as u32,
    ));
    assert forall|steps: nat| steps < 12 implies (#[trigger] setup_course(
        state,
        replies,
        steps,
    )).result is None && setup_course(state, replies, steps).state == state by {
        if steps == 0 {
        } else if steps == 1 {
        } else if steps == 2 {
        } else if steps == 3 {
        } else if steps == 4 {
        } else if steps == 5 {
        } else if steps == 6 {
        } else if steps == 7 {
        } else if steps == 8 {
        } else if steps == 9 {
        } else if steps == 10 {
        } else {
            assert(steps == 11);
        }
    }
    law_frame_order(c12.state);
}

/// A setup is all or nothing. While it runs, and when it fails, the bundle
/// holds what it held before. When it succeeds the bundle is ready, and
/// holds a program and a layout together.
pub proof fn law_setup_all_or_nothing(state: BundleState, replies: Seq<ReplyView>, steps: nat)
    ensures
        ({
            let course = setup_course(state, replies, steps);
            &&& course.result == Some(Ok::<(), ErrorView>(())) ==> course.state is Ready
            &&& course.result != Some(Ok::<(), ErrorView>(())) ==> course.state == state
        }),
    decreases steps,
{
    if steps > 0 {
        law_setup_all_or_nothing(state, replies, (steps - 1) as nat);
    }
}

/// A setup ends, whatever the surface answers: no course is still running
/// after twelve steps.
pub proof fn law_setup_ends(state: BundleState, replies: Seq<ReplyView>)
    ensures
        setup_course(state, replies, 12).result is Some,
{
    reveal_with_fuel(setup_course, 13);
}

/// A course that has ended stays as it is, whatever is fed to it.
pub proof fn law_ended_setup_stays(state: BundleState, replies: Seq<ReplyView>, ended: nat, later: nat)
    requires
        setup_course(state, replies, ended).result is Some,
        ended <= later,
    ensures
        setup_course(state, replies, later) == setup_course(state, replies, ended),
    decreases later,
{
    if later > ended {
        law_ended_setup_stays(state, replies, ended, (later - 1) as nat);
    }
}

/// A setup succeeds only if nothing fails. A course that has ended in
/// success took twelve steps, on which the surface created every object,
/// reported both compiles and the link as successful and knew the position
/// input. What it issued is [`setup_transcript`] over the objects that the
/// surface created, and the bundle holds the program and the layout among
/// them.
pub proof fn law_setup_success_is_earned(state: BundleState, replies: Seq<ReplyView>, steps: nat)
    requires
        setup_course(state, replies, steps).result == Some(Ok::<(), ErrorView>(())),
    ensures
        steps >= 12,
        replies[1] matches ReplyView::Object(vertex) && replies[3] matches ReplyView::Object(fragment)
            && replies[5] matches ReplyView::Object(program) && replies[7] matches ReplyView::Object(
            vertex_buffer,
        ) && replies[8] matches ReplyView::Object(index_buffer) && replies[9] matches ReplyView::Object(
            layout,
        ) && replies[10].slot() matches Some(index) && {
            let end = setup_course(state, replies, steps);
            &&& replies[2].confirms()
            &&& replies[4].confirms()
            &&& replies[6].confirms()
            &&& end.state == (BundleState::Ready { program, layout })
            &&& end.issued == setup_transcript(
                vertex,
                fragment,
                program,
                vertex_buffer,
                index_buffer,
                layout,
                index,
            )
        },
{
    let ok = Some(Ok::<(), ErrorView>(()));
    let c0 = setup_course(state, replies, 0);
    let c1 = setup_course(state, replies, 1);
    let c2 = setup_course(state, replies, 2);
    let c3 = setup_course(state, replies, 3);
    let c4 = setup_course(state, replies, 4);
    let c5 = setup_course(state, replies, 5);
    let c6 = setup_course(state, replies, 6);
    let c7 = setup_course(state, replies, 7);
    let c8 = setup_course(state, replies, 8);
    let c9 = setup_course(state, replies, 9);
    let c10 = setup_course(state, replies, 10);
    let c11 = setup_course(state, replies, 11);
    let c12 = setup_course(state, replies, 12);
    // A course that ends before the last step ends in failure, and stays so.
    assert(c0 == setup_begin(state));
    assert(c1 == setup_advance(c0, replies[0]));
    assert(c1.result is None);
    assert(c2 == setup_advance(c1, replies[1]));
    assert(c2.result != ok);
    if c2.result is Some {
        lemma_one_result(state, replies, 2, steps);
    }
    assert(c3 == setup_advance(c2, replies[2]));
    assert(c3.result is None);
    assert(c4 == setup_advance(c3, replies[3]));
    assert(c4.result != ok);
    if c4.result is Some {
        lemma_one_result(state, replies, 4, steps);
    }
    assert(c5 == setup_advance(c4, replies[4]));
    assert(c5.result != ok);
    if c5.result is Some {
        lemma_one_result(state, replies, 5, steps);
    }
    assert(c6 == setup_advance(c5, replies[5]));
    assert(c6.result != ok);
    if c6.result is Some {
        lemma_one_result(state, replies, 6, steps);
    }
    assert(c7 == setup_advance(c6, replies[6]));
    assert(c7.result is None);
    assert(c8 == setup_advance(c7, replies[7]));
    assert(c8.result != ok);
    if c8.result is Some {
        lemma_one_result(state, replies, 8, steps);
    }
    assert(c9 == setup_advance(c8, replies[8]));
    assert(c9.result != ok);
    if c9.result is Some {
        lemma_one_result(state, replies, 9, steps);
    }
    assert(c10 == setup_advance(c9, replies[9]));
    assert(c10.result != ok);
    if c10.result is Some {
        lemma_one_result(state, replies, 10, steps);
    }
    assert(c11 == setup_advance(c10, replies[10]));
    assert(c11.result != ok);
    if c11.result is Some {
        lemma_one_result(state, replies, 11, steps);
    }
    assert(c12 == setup_advance(c11, replies[11]));
    if steps < 12 {
        if steps == 0 {
        } else if steps == 1 {
        } else if steps == 2 {
        } else if steps == 3 {
        } else if steps == 4 {
        } else if steps == 5 {
        } else if steps == 6 {
        } else if steps == 7 {
        } else if steps == 8 {
        } else if steps == 9 {
        } else if steps == 10 {
        } else {
            assert(steps == 11);
        }
        assert(false);
    }
    assert(c12.result is Some);
    law_ended_setup_stays(state, replies, 12, steps);
    assert(c12.issued =~= setup_transcript(
        replies[1]->Object_0,
        replies[3]->Object_0,
        replies[5]->Object_0,
        replies[7]->Object_0,
        replies[8]->Object_0,
        replies[9]->Object_0,
        replies[10].slot().unwrap(),
    ));
}

/// A setup ends once: wherever a course is looked at after it has ended, it
/// shows the same result.
proof fn lemma_one_result(state: BundleState, replies: Seq<ReplyView>, ended: nat, steps: nat)
    requires
        setup_course(state, replies, ended).result is Some,
        setup_course(state, replies, steps).result is Some,
    ensures
        setup_course(state, replies, steps).result == setup_course(state, replies, ended).result,
{
    if ended <= steps {
        law_ended_setup_stays(state, replies, ended, steps);
    } else {
        law_ended_setup_stays(state, replies, steps, ended);
    }
}

/// If the vertex shader does not compile, the setup fails with a compile
/// error of the vertex stage that carries the info log, or
/// [`SHADER_LOG_MISSING`] where the surface gives none, and the bundle holds
/// what it held before. Nothing is issued after the question for the log.
pub proof fn law_vertex_compile_failure(
    state: BundleState,
    first: ReplyView,
    vertex: Handle,
    status: ReplyView,
    log: ReplyView,
)
    requires
        !status.confirms(),
    ensures
        ({
            let replies = seq![first, ReplyView::Object(vertex), status, log];
            let end = setup_course(state, replies, 4);
            &&& end.result == Some(
                Err::<(), ErrorView>(
                    ErrorView::ShaderCompileError {
                        stage: ShaderStage::Vertex,
                        log: log.text_or(SHADER_LOG_MISSING@),
                    },
                ),
            )
            &&& end.state == state
            &&& end.issued == seq![
                CommandView::CreateShader { kind: VERTEX_SHADER },
                CommandView::ShaderSource { shader: vertex, source: VERTEX_SHADER_SOURCE@ },
                CommandView::CompileShader { shader: vertex },
                CommandView::GetShaderParameter { shader: vertex, pname: COMPILE_STATUS },
                CommandView::GetShaderInfoLog { shader: vertex },
            ]
        }),
{
    let replies = seq![first, ReplyView::Object(vertex), status, log];
    reveal_with_fuel(setup_course, 5);
    let end = setup_course(state, replies, 4);
    assert(end.issued =~= seq![
        CommandView::CreateShader { kind: VERTEX_SHADER },
        CommandView::ShaderSource { shader: vertex, source: VERTEX_SHADER_SOURCE@ },
        CommandView::CompileShader { shader: vertex },
        CommandView::GetShaderParameter { shader: vertex, pname: COMPILE_STATUS },
        CommandView::GetShaderInfoLog { shader: vertex },
    ]);
}

/// If the surface gives no object for the vertex shader, the setup fails at
/// once with a compile error of the vertex stage that carries
/// [`SHADER_NOT_CREATED`], and the bundle holds what it held before.
pub proof fn law_vertex_shader_not_created(state: BundleState, first: ReplyView, second: ReplyView)
    requires
        second.object() is None,
    ensures
        ({
            let end = setup_course(state, seq![first, second], 2);
            &&& end.result == Some(
                Err::<(), ErrorView>(
                    ErrorView::ShaderCompileError {
                        stage: ShaderStage::Vertex,
                        log: SHADER_NOT_CREATED@,
                    },
                ),
            )
            &&& end.state == state
        }),
{
    reveal_with_fuel(setup_course, 3);
}

/// If the fragment shader does not compile, the setup fails with a compile
/// error of the fragment stage that carries the info log, or
/// [`SHADER_LOG_MISSING`] where the surface gives none, and the bundle holds
/// what it held before.
pub proof fn law_fragment_compile_failure(
    state: BundleState,
    first: ReplyView,
    vertex: Handle,
    fragment: Handle,
    status: ReplyView,
    log: ReplyView,
)
    requires
        !status.confirms(),
    ensures
        ({
            let replies = seq![
                first,
                ReplyView::Object(vertex),
                ReplyView::Flag(true),
                ReplyView::Object(fragment),
                status,
                log,
            ];
            let end = setup_course(state, replies, 6);
            &&& end.result == Some(
                Err::<(), ErrorView>(
                    ErrorView::ShaderCompileError {
                        stage: ShaderStage::Fragment,
                        log: log.text_or(SHADER_LOG_MISSING@),
                    },
                ),
            )
            &&& end.state == state
        }),
{
    reveal_with_fuel(setup_course, 7);
}

/// If the program does not link, the setup fails with a link error that
/// carries the info log, or [`PROGRAM_LOG_MISSING`] where the surface gives
/// none, and the bundle holds what it held before. The program that did not
/// link is never made current.
pub proof fn law_link_failure(
    state: BundleState,
    first: ReplyView,
    vertex: Handle,
    fragment: Handle,
    program: Handle,
    status: ReplyView,
    log: ReplyView,
)
    requires
        !status.confirms(),
    ensures
        ({
            let replies = seq![
                first,
                ReplyView::Object(vertex),
                ReplyView::Flag(true),
                ReplyView::Object(fragment),
                ReplyView::Flag(true),
                ReplyView::Object(program),
                status,
                log,
            ];
            let end = setup_course(state, replies, 8);
            &&& end.result == Some(
                Err::<(), ErrorView>(
                    ErrorView::ProgramLinkError { log: log.text_or(PROGRAM_LOG_MISSING@) },
                ),
            )
            &&& end.state == state
            &&& forall|i: int| 0 <= i < end.issued.len() ==> !(#[trigger] end.issued[i] is UseProgram)
        }),
{
    reveal_with_fuel(setup_course, 9);
}

/// If the linked program has no active input named [`POSITION_ATTRIBUTE`],
/// the setup fails with [`ErrorView::AttributeNotFound`] of that name, and
/// the bundle holds what it held before.
pub proof fn law_position_not_found(
    state: BundleState,
    vertex: Handle,
    fragment: Handle,
    program: Handle,
    vertex_buffer: Handle,
    index_buffer: Handle,
    layout: Handle,
    location: ReplyView,
)
    requires
        location.slot() is None,
    ensures
        ({
            let replies = setup_replies(
                vertex,
                fragment,
                program,
                vertex_buffer,
                index_buffer,
                layout,
                0,
            ).update(10, location);
            let end = setup_course(state, replies, 11);
            &&& end.result == Some(
                Err::<(), ErrorView>(ErrorView::AttributeNotFound(POSITION_ATTRIBUTE@)),
            )
            &&& end.state == state
        }),
{
    reveal_with_fuel(setup_course, 12);
}

/// Draws do not depend on each other. Each draw of a bundle issues the same
/// frame and asks for the error state anew, and what one draw returns is
/// decided by the reply to its own question alone: an error that a later
/// draw meets does not touch the success of an earlier one.
pub proof fn law_draws_are_independent(state: BundleState, first: ReplyView, second: ReplyView)
    ensures
        draw_step(state, DrawPhase::Start, first) == draw_step(state, DrawPhase::Start, second),
        draw_step(state, DrawPhase::Start, first) == (StepView::Issue {
            next: DrawPhase::Checking,
            commands: frame(state),
        }),
        first.pending_error() is None ==> draw_step(state, DrawPhase::Checking, first)
            == StepView::<DrawPhase>::Done(Ok(())),
        second.pending_error() matches Some(code) ==> draw_step(state, DrawPhase::Checking, second)
            == StepView::<DrawPhase>::Done(Err(ErrorView::GraphicsError { code })),
{
}

} // verus!
