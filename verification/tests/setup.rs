use webgl_cube::codes::{ARRAY_BUFFER, ELEMENT_ARRAY_BUFFER, STATIC_DRAW};
use webgl_cube::command::{BufferSlot, Command};
use webgl_cube::setup::{
    after_step, create_buffer, find_canvas, get_context, push_buffer_steps, start, Progress,
    CANVAS_ID, CONTEXT_KIND,
};
use webgl_cube::shader::{compile_shader, init_shader_program, BuildReport};
use webgl_cube::shader::{Attribute, ShaderKind, Uniform};

#[test]
fn host_names_are_fixed() {
    assert_eq!(CANVAS_ID, "viewer");
    assert_eq!(CONTEXT_KIND, "webgl");
}

#[test]
fn start_gives_the_steps_in_order() {
    let (renderer, steps) = start();
    assert_eq!(renderer.frames_drawn(), 0);
    let expected = vec![
        Command::FindCanvas,
        Command::GetContext,
        Command::CompileShader { kind: ShaderKind::Vertex },
        Command::CompileShader { kind: ShaderKind::Fragment },
        Command::LinkProgram,
        Command::LocateAttribute { attribute: Attribute::VertexPosition },
        Command::LocateAttribute { attribute: Attribute::VertexColor },
        Command::LocateUniform { uniform: Uniform::ProjectionMatrix },
        Command::LocateUniform { uniform: Uniform::ModelViewMatrix },
        Command::CreateBuffer { slot: BufferSlot::Position },
        Command::BindBuffer { target: ARRAY_BUFFER, slot: BufferSlot::Position },
        Command::FillBuffer { target: ARRAY_BUFFER, slot: BufferSlot::Position, usage: STATIC_DRAW },
        Command::CreateBuffer { slot: BufferSlot::Color },
        Command::BindBuffer { target: ARRAY_BUFFER, slot: BufferSlot::Color },
        Command::FillBuffer { target: ARRAY_BUFFER, slot: BufferSlot::Color, usage: STATIC_DRAW },
        Command::CreateBuffer { slot: BufferSlot::Index },
        Command::BindBuffer { target: ELEMENT_ARRAY_BUFFER, slot: BufferSlot::Index },
        Command::FillBuffer {
            target: ELEMENT_ARRAY_BUFFER,
            slot: BufferSlot::Index,
            usage: STATIC_DRAW,
        },
        Command::RequestFrame,
    ];
    assert_eq!(steps, expected);
}

#[test]
fn start_creates_each_object_once() {
    let (_, steps) = start();
    let creating = [
        Command::CompileShader { kind: ShaderKind::Vertex },
        Command::CompileShader { kind: ShaderKind::Fragment },
        Command::LinkProgram,
        Command::CreateBuffer { slot: BufferSlot::Position },
        Command::CreateBuffer { slot: BufferSlot::Color },
        Command::CreateBuffer { slot: BufferSlot::Index },
    ];
    for command in creating {
        assert!(command.creates());
        assert_eq!(steps.iter().filter(|step| **step == command).count(), 1);
    }
    assert_eq!(steps.iter().filter(|step| step.creates()).count(), 6);
}

#[test]
fn only_three_kinds_of_command_create() {
    assert!(Command::LinkProgram.creates());
    assert!(Command::CompileShader { kind: ShaderKind::Fragment }.creates());
    assert!(Command::CreateBuffer { slot: BufferSlot::Index }.creates());
    assert!(!Command::UseProgram.creates());
    assert!(!Command::RequestFrame.creates());
    assert!(!Command::BindBuffer { target: ARRAY_BUFFER, slot: BufferSlot::Color }.creates());
    assert!(!Command::FillBuffer {
        target: ARRAY_BUFFER,
        slot: BufferSlot::Color,
        usage: STATIC_DRAW
    }
    .creates());
    assert!(!Command::LocateUniform { uniform: Uniform::ModelViewMatrix }.creates());
}

#[test]
fn buffers_go_to_their_targets() {
    assert_eq!(BufferSlot::Position.target(), ARRAY_BUFFER);
    assert_eq!(BufferSlot::Color.target(), ARRAY_BUFFER);
    assert_eq!(BufferSlot::Index.target(), ELEMENT_ARRAY_BUFFER);
}

#[test]
fn buffer_steps_are_appended() {
    let mut list = vec![Command::LinkProgram];
    push_buffer_steps(&mut list, BufferSlot::Index);
    assert_eq!(
        list,
        vec![
            Command::LinkProgram,
            Command::CreateBuffer { slot: BufferSlot::Index },
            Command::BindBuffer { target: 34963, slot: BufferSlot::Index },
            Command::FillBuffer { target: 34963, slot: BufferSlot::Index, usage: 35044 },
        ]
    );
}

#[test]
fn granted_buffer_is_accepted() {
    assert_eq!(create_buffer(BufferSlot::Position, true), Ok(()));
    assert_eq!(create_buffer(BufferSlot::Color, true), Ok(()));
    assert_eq!(create_buffer(BufferSlot::Index, true), Ok(()));
}

#[test]
fn refused_buffer_is_named_in_the_error() {
    assert_eq!(
        create_buffer(BufferSlot::Position, false),
        Err(String::from("failed to create position buffer"))
    );
    assert_eq!(
        create_buffer(BufferSlot::Color, false),
        Err(String::from("failed to create color buffer"))
    );
    assert_eq!(
        create_buffer(BufferSlot::Index, false),
        Err(String::from("failed to create index buffer"))
    );
}

/// Walks through start-up as a host does. `fails_at` is the place of the step
/// that the context refuses, if any, and `verdict` what the library makes of
/// the refusal. Gives the steps carried out and how start-up ended.
fn walk(fails_at: Option<usize>, verdict: Result<(), String>) -> (Vec<Command>, Progress) {
    let mut carried_out = Vec::new();
    let mut done = 0;
    let mut last: Result<(), String> = Ok(());
    loop {
        match after_step(done, last) {
            Progress::Next(step) => {
                carried_out.push(step);
                last = if fails_at == Some(done) { verdict.clone() } else { Ok(()) };
                done += 1;
            }
            end => return (carried_out, end),
        }
    }
}

#[test]
fn canvas_and_context_are_judged() {
    assert_eq!(find_canvas(true), Ok(()));
    assert_eq!(get_context(true), Ok(()));
    assert_eq!(find_canvas(false), Err(String::from("failed to find the canvas element")));
    assert_eq!(get_context(false), Err(String::from("failed to get the webgl context")));
}

#[test]
fn steps_are_handed_out_in_order() {
    let (_, script) = start();
    assert_eq!(script.len(), 19);
    for (done, step) in script.iter().enumerate() {
        assert!(matches!(after_step(done, Ok(())), Progress::Next(next) if next == *step));
    }
    assert!(matches!(after_step(19, Ok(())), Progress::Ready));
    assert!(matches!(after_step(20, Ok(())), Progress::Ready));
    assert!(matches!(after_step(usize::MAX, Ok(())), Progress::Ready));
}

#[test]
fn start_up_without_failure_runs_the_whole_script() {
    let (carried_out, end) = walk(None, Ok(()));
    assert_eq!(carried_out, start().1);
    assert_eq!(carried_out.last(), Some(&Command::RequestFrame));
    assert!(matches!(end, Progress::Ready));
}

#[test]
fn failure_ends_start_up_with_its_text() {
    for done in [0, 1, 5, 13, 19, 1000] {
        let end = after_step(done, Err(String::from("it broke")));
        assert!(matches!(end, Progress::Failed(text) if text == "it broke"));
    }
}

#[test]
fn missing_canvas_ends_start_up_at_once() {
    let (carried_out, end) = walk(Some(0), find_canvas(false));
    assert_eq!(carried_out, vec![Command::FindCanvas]);
    assert!(matches!(end, Progress::Failed(text) if text == "failed to find the canvas element"));
}

#[test]
fn missing_context_ends_start_up() {
    let (carried_out, end) = walk(Some(1), get_context(false));
    assert_eq!(carried_out, vec![Command::FindCanvas, Command::GetContext]);
    assert!(matches!(end, Progress::Failed(text) if text == "failed to get the webgl context"));
}

#[test]
fn failed_shader_ends_start_up_before_the_link() {
    let report = BuildReport::Finished {
        status: Some(false),
        log: Some(String::from("ERROR: 0:1: syntax error")),
    };
    let (carried_out, end) = walk(Some(3), compile_shader(report));
    assert_eq!(carried_out.len(), 4);
    assert_eq!(carried_out[3], Command::CompileShader { kind: ShaderKind::Fragment });
    assert!(!carried_out.contains(&Command::LinkProgram));
    assert!(!carried_out.contains(&Command::RequestFrame));
    assert!(matches!(end, Progress::Failed(text) if text == "ERROR: 0:1: syntax error"));
}

#[test]
fn failed_link_ends_start_up_before_the_buffers() {
    let report = BuildReport::Finished { status: Some(false), log: None };
    let (carried_out, end) = walk(Some(4), init_shader_program(report));
    assert_eq!(carried_out.last(), Some(&Command::LinkProgram));
    assert!(carried_out.iter().all(|step| !matches!(step, Command::CreateBuffer { .. })));
    assert!(!carried_out.contains(&Command::RequestFrame));
    assert!(
        matches!(end, Progress::Failed(text) if text == "Unknown error creating program object")
    );
}

#[test]
fn refused_colour_buffer_stops_before_the_indices() {
    let (carried_out, end) = walk(Some(12), create_buffer(BufferSlot::Color, false));
    assert_eq!(carried_out.len(), 13);
    assert_eq!(carried_out[12], Command::CreateBuffer { slot: BufferSlot::Color });
    let created: Vec<&Command> =
        carried_out.iter().filter(|step| matches!(step, Command::CreateBuffer { .. })).collect();
    assert_eq!(
        created,
        vec![
            &Command::CreateBuffer { slot: BufferSlot::Position },
            &Command::CreateBuffer { slot: BufferSlot::Color },
        ]
    );
    let filled: Vec<&Command> =
        carried_out.iter().filter(|step| matches!(step, Command::FillBuffer { .. })).collect();
    assert_eq!(
        filled,
        vec![&Command::FillBuffer {
            target: ARRAY_BUFFER,
            slot: BufferSlot::Position,
            usage: STATIC_DRAW,
        }]
    );
    assert!(!carried_out.contains(&Command::RequestFrame));
    assert!(matches!(end, Progress::Failed(text) if text == "failed to create color buffer"));
}
