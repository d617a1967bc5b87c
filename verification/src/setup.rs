//! Start-up: the steps that find the canvas and its context, build the
//! program and the three buffers, once, and ask for the first frame; the
//! verdicts on what the host found; and how start-up goes on, or ends, after
//! each step.

use vstd::prelude::*;
use crate::codes::{ARRAY_BUFFER, ELEMENT_ARRAY_BUFFER, STATIC_DRAW};
use crate::command::{BufferSlot, Command};
use crate::frame::Renderer;
use crate::shader::{Attribute, ShaderKind, Uniform};

verus! {

/// The identifier of the canvas element that the scene is drawn on.
pub const CANVAS_ID: &'static str = "viewer";

/// The kind of graphics context that is asked of the canvas.
pub const CONTEXT_KIND: &'static str = "webgl";

/// The steps that reach the graphics context: the canvas, then its context.
pub open spec fn context_steps() -> Seq<Command> {
    seq![Command::FindCanvas, Command::GetContext]
}

/// The steps that build the program: both shaders, the link, and the
/// look-up of the two attributes and the two uniforms.
pub open spec fn program_steps() -> Seq<Command> {
    seq![
        Command::CompileShader { kind: ShaderKind::Vertex },
        Command::CompileShader { kind: ShaderKind::Fragment },
        Command::LinkProgram,
        Command::LocateAttribute { attribute: Attribute::VertexPosition },
        Command::LocateAttribute { attribute: Attribute::VertexColor },
        Command::LocateUniform { uniform: Uniform::ProjectionMatrix },
        Command::LocateUniform { uniform: Uniform::ModelViewMatrix },
    ]
}

/// The steps that set one buffer up: it is created, bound to its target and
/// filled there, with the hint that its data will not change.
pub open spec fn buffer_steps(slot: BufferSlot) -> Seq<Command> {
    seq![
        Command::CreateBuffer { slot },
        Command::BindBuffer { target: slot.target(), slot },
        Command::FillBuffer { target: slot.target(), slot, usage: STATIC_DRAW },
    ]
}

/// The start-up steps in their order: the context first, then the program,
/// then the buffers of positions, colours and indices, and at the end the
/// request for the first frame.
pub open spec fn setup_script() -> Seq<Command> {
    context_steps() + program_steps() + buffer_steps(BufferSlot::Position) + buffer_steps(
        BufferSlot::Color,
    ) + buffer_steps(BufferSlot::Index) + seq![Command::RequestFrame]
}

/// The error text for a canvas that the document does not hold.
pub open spec fn canvas_text() -> Seq<char> {
    "failed to find the canvas element"@
}

/// The error text for a canvas that gives no graphics context.
pub open spec fn context_text() -> Seq<char> {
    "failed to get the webgl context"@
}

/// The error text for a buffer that the context would not allocate.
pub open spec fn refusal_text(slot: BufferSlot) -> Seq<char> {
    match slot {
        BufferSlot::Position => "failed to create position buffer"@,
        BufferSlot::Color => "failed to create color buffer"@,
        BufferSlot::Index => "failed to create index buffer"@,
    }
}

/// How start-up goes on after a step.
#[derive(Debug)]
pub enum Progress {
    /// Carry this step out next.
    Next(Command),
    /// All steps are done: the scene runs.
    Ready,
    /// Start-up has ended with this error. Nothing more is to be done.
    Failed(String),
}

/// How start-up goes on when `done` steps were carried out and the last of
/// them ended with `verdict`: a failure ends it with the failure's text;
/// otherwise the next step of the script follows, if there is one.
pub open spec fn progress_after(done: usize, verdict: Result<(), String>) -> Progress {
    match verdict {
        Err(text) => Progress::Failed(text),
        Ok(_) => if done < setup_script().len() {
            Progress::Next(setup_script()[done as int])
        } else {
            Progress::Ready
        },
    }
}

/// Appends the steps that set one buffer up.
pub fn push_buffer_steps(list: &mut Vec<Command>, slot: BufferSlot)
    ensures
        final(list)@ == old(list)@ + buffer_steps(slot),
{
    let target = slot.target();
    list.push(Command::CreateBuffer { slot });
    list.push(Command::BindBuffer { target, slot });
    list.push(Command::FillBuffer { target, slot, usage: STATIC_DRAW });
    assert(list@ =~= old(list)@ + buffer_steps(slot));
}

/// Starts the scene: a renderer that has drawn nothing yet, and the steps
/// of start-up in their order. The host takes them one by one as
/// [`after_step`] hands them out.
pub fn start() -> (scene: (Renderer, Vec<Command>))
    ensures
        scene.0.frames() == 0,
        scene.1@ == setup_script(),
{
    let mut list: Vec<Command> = Vec::new();
    list.push(Command::FindCanvas);
    list.push(Command::GetContext);
    assert(list@ =~= context_steps());
    let ghost before = list@;
    list.push(Command::CompileShader { kind: ShaderKind::Vertex });
    list.push(Command::CompileShader { kind: ShaderKind::Fragment });
    list.push(Command::LinkProgram);
    list.push(Command::LocateAttribute { attribute: Attribute::VertexPosition });
    list.push(Command::LocateAttribute { attribute: Attribute::VertexColor });
    list.push(Command::LocateUniform { uniform: Uniform::ProjectionMatrix });
    list.push(Command::LocateUniform { uniform: Uniform::ModelViewMatrix });
    assert(list@ =~= before + program_steps());
    push_buffer_steps(&mut list, BufferSlot::Position);
    push_buffer_steps(&mut list, BufferSlot::Color);
    push_buffer_steps(&mut list, BufferSlot::Index);
    let ghost before = list@;
    list.push(Command::RequestFrame);
    assert(list@ =~= before + seq![Command::RequestFrame]);
    (Renderer::new(), list)
}

/// Says how start-up goes on. `done` is the number of steps carried out so
/// far and `verdict` the outcome of the last of them, `Ok` where none was
/// carried out yet.
///
/// A failed step ends start-up with its own text, whatever step it was. After
/// a step that succeeded the next step of the script follows, and when the
/// script is through, the scene is ready.
pub fn after_step(done: usize, verdict: Result<(), String>) -> (progress: Progress)
    ensures
        progress == progress_after(done, verdict),
{
    match verdict {
        Err(text) => Progress::Failed(text),
        Ok(_) => {
            let (_, steps) = start();
            if done < steps.len() {
                Progress::Next(steps[done])
            } else {
                Progress::Ready
            }
        },
    }
}

/// Judges the look-up of the canvas: it succeeds exactly when the document
/// holds the canvas element.
pub fn find_canvas(found: bool) -> (verdict: Result<(), String>)
    ensures
        verdict is Ok <==> found,
        verdict matches Err(message) ==> message@ == canvas_text(),
{
    if found {
        Ok(())
    } else {
        Err("failed to find the canvas element".to_owned())
    }
}

/// Judges the request for the graphics context: it succeeds exactly when the
/// canvas gave one.
pub fn get_context(found: bool) -> (verdict: Result<(), String>)
    ensures
        verdict is Ok <==> found,
        verdict matches Err(message) ==> message@ == context_text(),
{
    if found {
        Ok(())
    } else {
        Err("failed to get the webgl context".to_owned())
    }
}

/// Judges the allocation of a buffer: it succeeds exactly when the context
/// granted one, and fails otherwise with a text that names the buffer.
pub fn create_buffer(slot: BufferSlot, granted: bool) -> (verdict: Result<(), String>)
    ensures
        verdict is Ok <==> granted,
        verdict matches Err(message) ==> message@ == refusal_text(slot),
{
    if granted {
        Ok(())
    } else {
        let text = match slot {
            BufferSlot::Position => "failed to create position buffer",
            BufferSlot::Color => "failed to create color buffer",
            BufferSlot::Index => "failed to create index buffer",
        };
        Err(text.to_owned())
    }
}

/// The steps that a start-up carries out when its steps end as `outcomes`
/// say, `true` for a step that succeeded: the script as far as the outcomes
/// reach, and no farther than the first step that fails.
pub open spec fn steps_taken(outcomes: Seq<bool>) -> Seq<Command>
    decreases outcomes.len(),
{
    if outcomes.len() == 0 || setup_script().len() == 0 {
        Seq::empty()
    } else {
        let earlier = steps_taken(outcomes.drop_last());
        if earlier.len() == outcomes.len() - 1 && earlier.len() < setup_script().len() && (
        earlier.len() == 0 || outcomes[earlier.len() - 1]) {
            earlier.push(setup_script()[earlier.len() as int])
        } else {
            earlier
        }
    }
}

/// The start-up steps written out one by one.
pub proof fn setup_script_unfolded()
    ensures
        setup_script() =~= seq![
            Command::FindCanvas,
            Command::GetContext,
            Command::CompileShader { kind: ShaderKind::Vertex },
            Command::CompileShader { kind: ShaderKind::Fragment },
            Command::LinkProgram,
            Command::LocateAttribute { attribute: Attribute::VertexPosition },
            Command::LocateAttribute { attribute: Attribute::VertexColor },
            Command::LocateUniform { uniform: Uniform::ProjectionMatrix },
            Command::LocateUniform { uniform: Uniform::ModelViewMatrix },
            Command::CreateBuffer { slot: BufferSlot::Position },
            Command::BindBuffer { target: ARRAY_BUFFER, slot: BufferSlot::Position },
            Command::FillBuffer {
                target: ARRAY_BUFFER,
                slot: BufferSlot::Position,
                usage: STATIC_DRAW,
            },
            Command::CreateBuffer { slot: BufferSlot::Color },
            Command::BindBuffer { target: ARRAY_BUFFER, slot: BufferSlot::Color },
            Command::FillBuffer { target: ARRAY_BUFFER, slot: BufferSlot::Color, usage: STATIC_DRAW },
            Command::CreateBuffer { slot: BufferSlot::Index },
            Command::BindBuffer { target: ELEMENT_ARRAY_BUFFER, slot: BufferSlot::Index },
            Command::FillBuffer {
                target: ELEMENT_ARRAY_BUFFER,
                slot: BufferSlot::Index,
                usage: STATIC_DRAW,
            },
            Command::RequestFrame,
        ],
        setup_script().len() == 19,
{
}

/// Start-up brings each object into being exactly once: every command that
/// creates something, be it one of the two shaders, the program, or one of the
/// three buffers, stands at one place of the start-up steps and at no other.
pub proof fn setup_creates_each_object_once(command: Command) -> (place: int)
    requires
        command.creates(),
    ensures
        0 <= place < setup_script().len(),
        setup_script()[place] == command,
        forall|other: int|
            0 <= other < setup_script().len() && setup_script()[other] == command ==> other
                == place,
{
    setup_script_unfolded();
    match command {
        Command::CompileShader { kind: ShaderKind::Vertex } => 2,
        Command::CompileShader { kind: ShaderKind::Fragment } => 3,
        Command::LinkProgram => 4,
        Command::CreateBuffer { slot: BufferSlot::Position } => 9,
        Command::CreateBuffer { slot: BufferSlot::Color } => 12,
        _ => 15,
    }
}

/// Each buffer is filled right after it was created and bound, at the target
/// that belongs to it, and with the hint that its data will not change.
pub proof fn buffers_are_filled_where_bound(place: int)
    requires
        0 <= place < setup_script().len(),
        setup_script()[place] is FillBuffer,
    ensures
        place >= 2,
        setup_script()[place] matches Command::FillBuffer { target, slot, usage } && {
            &&& usage == STATIC_DRAW
            &&& target == slot.target()
            &&& setup_script()[place - 1] == (Command::BindBuffer { target, slot })
            &&& setup_script()[place - 2] == (Command::CreateBuffer { slot })
        },
{
    setup_script_unfolded();
}

/// The canvas and its context come first, the shaders are compiled before
/// the program is linked, the program is linked before any of its inputs is
/// looked up, and the first frame is asked for when all else is done.
pub proof fn program_is_built_in_order(place: int)
    requires
        0 <= place < setup_script().len(),
    ensures
        setup_script()[place] is FindCanvas <==> place == 0,
        setup_script()[place] is GetContext <==> place == 1,
        setup_script()[place] is CompileShader ==> 1 < place < 4,
        setup_script()[place] is LinkProgram ==> place == 4,
        setup_script()[place] is LocateAttribute || setup_script()[place] is LocateUniform
            ==> place > 4,
        setup_script()[place] is RequestFrame <==> place == setup_script().len() - 1,
{
    setup_script_unfolded();
}

/// A failed step ends start-up: whatever step failed, and however many were
/// done before it, what follows is the failure with the step's own text, and
/// no further step.
pub proof fn failure_ends_start_up(done: usize, text: String)
    ensures
        progress_after(done, Err(text)) == Progress::Failed(text),
        !(progress_after(done, Err(text)) is Next),
        !(progress_after(done, Err(text)) is Ready),
{
}

/// The first frame is asked for only when every other step was carried out
/// and the last of them succeeded; and the scene is ready only when the
/// request itself went through.
pub proof fn frame_is_requested_after_all_else(done: usize, verdict: Result<(), String>)
    ensures
        progress_after(done, verdict) == Progress::Next(Command::RequestFrame) <==> verdict is Ok
            && done == setup_script().len() - 1,
        progress_after(done, verdict) is Ready <==> verdict is Ok && done >= setup_script().len(),
{
    setup_script_unfolded();
}

/// A start-up carries out a beginning of the script and nothing else: as many
/// steps as it has outcomes for, but none after the first step that failed.
pub proof fn start_up_stops_at_the_first_failure(outcomes: Seq<bool>)
    ensures
        steps_taken(outcomes).len() <= outcomes.len(),
        steps_taken(outcomes).len() <= setup_script().len(),
        steps_taken(outcomes) == setup_script().take(steps_taken(outcomes).len() as int),
        forall|k: int|
            0 <= k < steps_taken(outcomes).len() - 1 ==> #[trigger] outcomes[k],
        (forall|k: int| 0 <= k < outcomes.len() ==> #[trigger] outcomes[k]) && outcomes.len()
            <= setup_script().len() ==> steps_taken(outcomes).len() == outcomes.len(),
    decreases outcomes.len(),
{
    setup_script_unfolded();
    if outcomes.len() > 0 {
        let shorter = outcomes.drop_last();
        start_up_stops_at_the_first_failure(shorter);
        let earlier = steps_taken(shorter);
        assert(forall|k: int| 0 <= k < shorter.len() ==> shorter[k] == outcomes[k]);
        assert(steps_taken(outcomes) =~= setup_script().take(steps_taken(outcomes).len() as int));
    }
}

/// The steps taken are those that [`after_step`] hands out. With all of
/// `outcomes` carried out, a failure of the last step ends start-up, and the
/// steps taken stay as they are whatever is reported further; after a success,
/// or at the very beginning, the step that is handed out next is the one that
/// the steps taken grow by.
pub proof fn steps_taken_follow_after_step(outcomes: Seq<bool>, more: bool, text: String)
    requires
        steps_taken(outcomes).len() == outcomes.len(),
        outcomes.len() < setup_script().len(),
    ensures
        outcomes.len() > 0 && !outcomes.last() ==> {
            &&& progress_after(outcomes.len() as usize, Err(text)) is Failed
            &&& steps_taken(outcomes.push(more)) == steps_taken(outcomes)
        },
        outcomes.len() == 0 || outcomes.last() ==> {
            &&& progress_after(outcomes.len() as usize, Ok(())) matches Progress::Next(step)
            &&& steps_taken(outcomes.push(more)) == steps_taken(outcomes).push(step)
        },
{
    setup_script_unfolded();
    assert(outcomes.push(more).drop_last() =~= outcomes);
}

/// When a step fails, start-up does no more: nothing after the failed step
/// is carried out, and no frame is asked for. When it is the colour buffer
/// that is refused, no index buffer is created and no data but the positions
/// was sent.
pub proof fn failed_step_stops_the_rest(outcomes: Seq<bool>, failed: int)
    requires
        0 <= failed < outcomes.len(),
        failed < setup_script().len() - 1,
        !outcomes[failed],
    ensures
        steps_taken(outcomes).len() <= failed + 1,
        forall|k: int|
            0 <= k < steps_taken(outcomes).len() ==> #[trigger] steps_taken(outcomes)[k]
                != Command::RequestFrame,
        setup_script()[failed] == (Command::CreateBuffer { slot: BufferSlot::Color }) ==> forall|
            k: int,
        |
            0 <= k < steps_taken(outcomes).len() ==> {
                &&& #[trigger] steps_taken(outcomes)[k] != (Command::CreateBuffer {
                    slot: BufferSlot::Index,
                })
                &&& !(steps_taken(outcomes)[k] matches Command::FillBuffer { slot, .. } && slot
                    != BufferSlot::Position)
            },
{
    setup_script_unfolded();
    start_up_stops_at_the_first_failure(outcomes);
    let taken = steps_taken(outcomes);
    if taken.len() > failed + 1 {
        assert(outcomes[failed]);
    }
    assert forall|k: int| 0 <= k < taken.len() implies #[trigger] taken[k] == setup_script()[k] by {
        assert(taken == setup_script().take(taken.len() as int));
    }
}

} // verus!
