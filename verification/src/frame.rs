//! The frame loop: what one frame draws, with which camera, and how the
//! rotation moves on from frame to frame.
//!
//! Angles and depths are kept as exact ratios of integers. The host turns
//! them into floating point when it builds the two matrices.

use vstd::prelude::*;
use crate::codes::{
    ARRAY_BUFFER, CLEAR_MASK, DEPTH_TEST, ELEMENT_ARRAY_BUFFER, FLOAT, LEQUAL, TRIANGLES,
    UNSIGNED_SHORT,
};
use crate::command::{BufferSlot, Command};
use crate::geometry::INDEX_COUNT;
use crate::shader::{Attribute, Uniform};

verus! {

/// Thousandths of a radian by which the cube turns about the z axis from one
/// frame to the next.
pub const SPIN_PER_FRAME: u64 = 6;

/// Ten-thousandths of a radian by which the cube turns about the y axis from
/// one frame to the next: seven tenths of the spin.
pub const TILT_PER_FRAME: u64 = 42;

/// Vertical field of view of the camera, in degrees.
pub const FIELD_OF_VIEW_DEGREES: u32 = 45;

/// The number `numerator / denominator`. A denominator of 0 is allowed and
/// stands for whatever the host's division makes of it.
#[derive(Clone, Copy, Debug, PartialEq, Eq, Structural)]
pub struct Ratio {
    pub numerator: i128,
    pub denominator: i128,
}

/// A direction or a displacement in space.
#[derive(Clone, Copy, Debug, PartialEq, Eq, Structural)]
pub struct Vector3 {
    pub x: i32,
    pub y: i32,
    pub z: i32,
}

/// One step of the model-view transform. Each step is applied to the result
/// of the steps before it.
#[derive(Clone, Copy, Debug, PartialEq, Eq, Structural)]
pub enum Transform {
    /// Move by a displacement.
    Translate { by: Vector3 },
    /// Turn by an angle in radians about an axis.
    Rotate { angle: Ratio, axis: Vector3 },
}

/// The numbers of the perspective projection.
#[derive(Clone, Copy, Debug, PartialEq, Eq, Structural)]
pub struct Projection {
    /// Vertical field of view in degrees.
    pub field_of_view_degrees: u32,
    /// Width of the view over its height.
    pub aspect: Ratio,
    /// Distance of the near plane.
    pub near: Ratio,
    /// Distance of the far plane.
    pub far: Ratio,
}

/// Everything the host needs to draw one frame.
#[derive(Debug)]
pub struct Frame {
    /// The camera's projection.
    pub projection: Projection,
    /// The steps of the model-view transform, first to last.
    pub model_view: Vec<Transform>,
    /// The calls to make, in order.
    pub commands: Vec<Command>,
}

/// The animation: it counts the frames drawn, and the rotation follows from
/// the count.
#[derive(Debug)]
pub struct Renderer {
    frames: u64,
}

/// The count of frames after one more frame. The count stops at the largest
/// value it can hold.
pub open spec fn next_frames(frames: nat) -> nat {
    if frames < u64::MAX {
        frames + 1
    } else {
        frames
    }
}

/// The count of frames after `ticks` more frames.
pub open spec fn frames_after(start: nat, ticks: nat) -> nat
    decreases ticks,
{
    if ticks == 0 {
        start
    } else {
        next_frames(frames_after(start, (ticks - 1) as nat))
    }
}

/// The rotation about the z axis, in radians, once `frames` frames were drawn.
pub open spec fn spin_at(frames: nat) -> Ratio {
    Ratio { numerator: (SPIN_PER_FRAME * frames) as i128, denominator: 1000 }
}

/// The rotation about the y axis, in radians, once `frames` frames were
/// drawn: seven tenths of the spin.
pub open spec fn tilt_at(frames: nat) -> Ratio {
    Ratio { numerator: (TILT_PER_FRAME * frames) as i128, denominator: 10000 }
}

/// The model-view transform once `frames` frames were drawn: six units away
/// from the camera, then turned about z, then about y.
pub open spec fn model_view_at(frames: nat) -> Seq<Transform> {
    seq![
        Transform::Translate { by: Vector3 { x: 0, y: 0, z: -6i32 } },
        Transform::Rotate { angle: spin_at(frames), axis: Vector3 { x: 0, y: 0, z: 1 } },
        Transform::Rotate { angle: tilt_at(frames), axis: Vector3 { x: 0, y: 1, z: 0 } },
    ]
}

/// The projection for a canvas of the given size: 45 degrees of view, the
/// canvas's width over its height, and depths from 0.1 to 100.
pub open spec fn projection_for(width: i32, height: i32) -> Projection {
    Projection {
        field_of_view_degrees: FIELD_OF_VIEW_DEGREES,
        aspect: Ratio { numerator: width as i128, denominator: height as i128 },
        near: Ratio { numerator: 1, denominator: 10 },
        far: Ratio { numerator: 100, denominator: 1 },
    }
}

/// The buffer that feeds an attribute.
pub open spec fn source_of(attribute: Attribute) -> BufferSlot {
    match attribute {
        Attribute::VertexPosition => BufferSlot::Position,
        Attribute::VertexColor => BufferSlot::Color,
    }
}

/// The commands that clear the canvas: to opaque black and to the farthest
/// depth, with the depth test on so that the nearer fragment wins.
pub open spec fn clear_steps() -> Seq<Command> {
    seq![
        Command::ClearColor { red: 0, green: 0, blue: 0, alpha: 1 },
        Command::ClearDepth { depth: 1 },
        Command::Enable { capability: DEPTH_TEST },
        Command::DepthFunc { comparison: LEQUAL },
        Command::Clear { mask: CLEAR_MASK },
    ]
}

/// The commands that connect an attribute to its buffer: the buffer is bound,
/// read as floating-point numbers that lie one after the other, as many for
/// a vertex as the attribute has components, and the attribute is switched on.
pub open spec fn attribute_steps(attribute: Attribute) -> Seq<Command> {
    seq![
        Command::BindBuffer { target: ARRAY_BUFFER, slot: source_of(attribute) },
        Command::VertexAttribPointer {
            attribute,
            components: attribute.components(),
            component_type: FLOAT,
            normalize: false,
            stride: 0,
            offset: 0,
        },
        Command::EnableVertexAttribArray { attribute },
    ]
}

/// The commands that hand a matrix to the program and to the log.
pub open spec fn uniform_steps(uniform: Uniform) -> Seq<Command> {
    seq![Command::UniformMatrix { uniform, transpose: false }, Command::LogMatrix { uniform }]
}

/// The command that draws the cube: all indices as triangles, read as 16-bit
/// numbers from the start of the index buffer.
pub open spec fn draw_step() -> Command {
    Command::DrawElements {
        mode: TRIANGLES,
        count: INDEX_COUNT as i32,
        index_type: UNSIGNED_SHORT,
        offset: 0,
    }
}

/// The commands of one frame, in order.
pub open spec fn frame_script() -> Seq<Command> {
    clear_steps() + attribute_steps(Attribute::VertexPosition) + attribute_steps(
        Attribute::VertexColor,
    ) + seq![
        Command::BindBuffer { target: ELEMENT_ARRAY_BUFFER, slot: BufferSlot::Index },
        Command::UseProgram,
    ] + uniform_steps(Uniform::ProjectionMatrix) + uniform_steps(Uniform::ModelViewMatrix) + seq![
        draw_step(),
        Command::RequestFrame,
    ]
}

/// The buffer that feeds an attribute.
pub fn attribute_source(attribute: Attribute) -> (slot: BufferSlot)
    ensures
        slot == source_of(attribute),
{
    match attribute {
        Attribute::VertexPosition => BufferSlot::Position,
        Attribute::VertexColor => BufferSlot::Color,
    }
}

/// Appends the commands that connect an attribute to its buffer.
pub fn push_attribute_steps(list: &mut Vec<Command>, attribute: Attribute)
    ensures
        final(list)@ == old(list)@ + attribute_steps(attribute),
{
    list.push(Command::BindBuffer { target: ARRAY_BUFFER, slot: attribute_source(attribute) });
    list.push(
        Command::VertexAttribPointer {
            attribute,
            components: attribute.components(),
            component_type: FLOAT,
            normalize: false,
            stride: 0,
            offset: 0,
        },
    );
    list.push(Command::EnableVertexAttribArray { attribute });
    assert(list@ =~= old(list)@ + attribute_steps(attribute));
}

/// Appends the commands that hand a matrix to the program and to the log.
pub fn push_uniform_steps(list: &mut Vec<Command>, uniform: Uniform)
    ensures
        final(list)@ == old(list)@ + uniform_steps(uniform),
{
    list.push(Command::UniformMatrix { uniform, transpose: false });
    list.push(Command::LogMatrix { uniform });
    assert(list@ =~= old(list)@ + uniform_steps(uniform));
}

/// The commands of one frame, in order. They are the same for every frame.
pub fn frame_commands() -> (list: Vec<Command>)
    ensures
        list@ == frame_script(),
{
    let mut list: Vec<Command> = Vec::new();
    list.push(Command::ClearColor { red: 0, green: 0, blue: 0, alpha: 1 });
    list.push(Command::ClearDepth { depth: 1 });
    list.push(Command::Enable { capability: DEPTH_TEST });
    list.push(Command::DepthFunc { comparison: LEQUAL });
    list.push(Command::Clear { mask: CLEAR_MASK });
    assert(list@ =~= clear_steps());
    push_attribute_steps(&mut list, Attribute::VertexPosition);
    push_attribute_steps(&mut list, Attribute::VertexColor);
    let ghost before = list@;
    list.push(Command::BindBuffer { target: ELEMENT_ARRAY_BUFFER, slot: BufferSlot::Index });
    list.push(Command::UseProgram);
    assert(list@ =~= before + seq![
        Command::BindBuffer { target: ELEMENT_ARRAY_BUFFER, slot: BufferSlot::Index },
        Command::UseProgram,
    ]);
    push_uniform_steps(&mut list, Uniform::ProjectionMatrix);
    push_uniform_steps(&mut list, Uniform::ModelViewMatrix);
    let ghost before = list@;
    list.push(
        Command::DrawElements {
            mode: TRIANGLES,
            count: 36,
            index_type: UNSIGNED_SHORT,
            offset: 0,
        },
    );
    list.push(Command::RequestFrame);
    assert(list@ =~= before + seq![draw_step(), Command::RequestFrame]);
    list
}

/// The projection for a canvas of the given size.
pub fn projection(width: i32, height: i32) -> (projection: Projection)
    ensures
        projection == projection_for(width, height),
{
    Projection {
        field_of_view_degrees: FIELD_OF_VIEW_DEGREES,
        aspect: Ratio { numerator: width as i128, denominator: height as i128 },
        near: Ratio { numerator: 1, denominator: 10 },
        far: Ratio { numerator: 100, denominator: 1 },
    }
}

impl Renderer {
    /// How many frames were drawn.
    pub closed spec fn frames(&self) -> nat {
        self.frames as nat
    }

    /// A renderer that has drawn nothing yet: the cube is not turned.
    pub fn new() -> (renderer: Renderer)
        ensures
            renderer.frames() == 0,
    {
        Renderer { frames: 0 }
    }

    /// A renderer that has drawn `frames` frames already: the cube is turned
    /// as far as that many frames turn it.
    pub fn with_frames(frames: u64) -> (renderer: Renderer)
        ensures
            renderer.frames() == frames,
    {
        Renderer { frames }
    }

    /// How many frames were drawn.
    pub fn frames_drawn(&self) -> (count: u64)
        ensures
            count == self.frames(),
    {
        self.frames
    }

    /// The rotation about the z axis that the next frame shows, in radians.
    pub fn rotation(&self) -> (angle: Ratio)
        ensures
            angle == spin_at(self.frames()),
    {
        Ratio { numerator: SPIN_PER_FRAME as i128 * self.frames as i128, denominator: 1000 }
    }

    /// The steps of the model-view transform that the next frame shows.
    pub fn model_view(&self) -> (steps: Vec<Transform>)
        ensures
            steps@ == model_view_at(self.frames()),
    {
        let spin = self.rotation();
        let tilt = Ratio {
            numerator: TILT_PER_FRAME as i128 * self.frames as i128,
            denominator: 10000,
        };
        let mut steps: Vec<Transform> = Vec::new();
        steps.push(Transform::Translate { by: Vector3 { x: 0, y: 0, z: -6 } });
        steps.push(Transform::Rotate { angle: spin, axis: Vector3 { x: 0, y: 0, z: 1 } });
        steps.push(Transform::Rotate { angle: tilt, axis: Vector3 { x: 0, y: 1, z: 0 } });
        assert(steps@ =~= model_view_at(self.frames()));
        steps
    }

    /// Draws one frame on a canvas of the given size and moves the rotation
    /// on by one step.
    ///
    /// The frame shows the rotation as it was before the call. Its projection
    /// is made for the size given in this call, whatever the size was before.
    pub fn draw_frame(&mut self, width: i32, height: i32) -> (frame: Frame)
        ensures
            frame.projection == projection_for(width, height),
            frame.model_view@ == model_view_at(old(self).frames()),
            frame.commands@ == frame_script(),
            final(self).frames() == next_frames(old(self).frames()),
    {
        let frame = Frame {
            projection: projection(width, height),
            model_view: self.model_view(),
            commands: frame_commands(),
        };
        if self.frames < u64::MAX {
            self.frames = self.frames + 1;
        }
        frame
    }
}

/// The commands of one frame written out one by one.
pub proof fn frame_script_unfolded()
    ensures
        frame_script() =~= seq![
            Command::ClearColor { red: 0, green: 0, blue: 0, alpha: 1 },
            Command::ClearDepth { depth: 1 },
            Command::Enable { capability: DEPTH_TEST },
            Command::DepthFunc { comparison: LEQUAL },
            Command::Clear { mask: CLEAR_MASK },
            Command::BindBuffer { target: ARRAY_BUFFER, slot: BufferSlot::Position },
            Command::VertexAttribPointer {
                attribute: Attribute::VertexPosition,
                components: 3,
                component_type: FLOAT,
                normalize: false,
                stride: 0,
                offset: 0,
            },
            Command::EnableVertexAttribArray { attribute: Attribute::VertexPosition },
            Command::BindBuffer { target: ARRAY_BUFFER, slot: BufferSlot::Color },
            Command::VertexAttribPointer {
                attribute: Attribute::VertexColor,
                components: 4,
                component_type: FLOAT,
                normalize: false,
                stride: 0,
                offset: 0,
            },
            Command::EnableVertexAttribArray { attribute: Attribute::VertexColor },
            Command::BindBuffer { target: ELEMENT_ARRAY_BUFFER, slot: BufferSlot::Index },
            Command::UseProgram,
            Command::UniformMatrix { uniform: Uniform::ProjectionMatrix, transpose: false },
            Command::LogMatrix { uniform: Uniform::ProjectionMatrix },
            Command::UniformMatrix { uniform: Uniform::ModelViewMatrix, transpose: false },
            Command::LogMatrix { uniform: Uniform::ModelViewMatrix },
            Command::DrawElements { mode: TRIANGLES, count: 36, index_type: UNSIGNED_SHORT, offset: 0 },
            Command::RequestFrame,
        ],
        frame_script().len() == 19,
{
}

/// A frame creates nothing: no command of a frame brings a shader, a program
/// or a buffer into being, so the objects made at start-up stay the only ones
/// however many frames are drawn.
pub proof fn frames_create_nothing(place: int)
    requires
        0 <= place < frame_script().len(),
    ensures
        !frame_script()[place].creates(),
{
    frame_script_unfolded();
}

/// A frame draws once, and what it draws is the whole cube: the one drawing
/// command of a frame asks for triangles, for as many elements as the index
/// buffer holds, read as 16-bit numbers from offset 0.
pub proof fn frame_draws_the_whole_cube_once(place: int)
    requires
        0 <= place < frame_script().len(),
        frame_script()[place] is DrawElements,
    ensures
        place == 17,
        frame_script()[place] == (Command::DrawElements {
            mode: TRIANGLES,
            count: 36,
            index_type: UNSIGNED_SHORT,
            offset: 0,
        }),
        crate::geometry::index_list().len() == 36,
{
    frame_script_unfolded();
}

/// When a frame draws, everything is in place: the canvas was cleared, both
/// attributes were connected and switched on, the index buffer was bound, the
/// program was chosen and both matrices were uploaded. The request for the
/// next frame comes last.
pub proof fn frame_is_ready_when_it_draws(attribute: Attribute, uniform: Uniform)
    ensures
        exists|place: int|
            0 <= place < 17 && frame_script()[place] == (Command::Clear { mask: CLEAR_MASK }),
        exists|place: int|
            0 <= place < 17 && frame_script()[place] == (Command::EnableVertexAttribArray {
                attribute,
            }),
        exists|place: int|
            0 <= place < 17 && frame_script()[place] == (Command::BindBuffer {
                target: ELEMENT_ARRAY_BUFFER,
                slot: BufferSlot::Index,
            }),
        exists|place: int| 0 <= place < 17 && frame_script()[place] == Command::UseProgram,
        exists|place: int|
            0 <= place < 17 && frame_script()[place] == (Command::UniformMatrix {
                uniform,
                transpose: false,
            }),
        frame_script()[17] is DrawElements,
        frame_script().last() == Command::RequestFrame,
{
    frame_script_unfolded();
    let script = frame_script();
    assert(script[4] == (Command::Clear { mask: CLEAR_MASK }));
    assert(script[7] == (Command::EnableVertexAttribArray { attribute })
        || script[10] == (Command::EnableVertexAttribArray { attribute }));
    assert(script[11] == (Command::BindBuffer {
        target: ELEMENT_ARRAY_BUFFER,
        slot: BufferSlot::Index,
    }));
    assert(script[12] == Command::UseProgram);
    assert(script[13] == (Command::UniformMatrix { uniform, transpose: false })
        || script[15] == (Command::UniformMatrix { uniform, transpose: false }));
}

/// An attribute is described while its own buffer is bound: the command
/// before the description binds the buffer that feeds the attribute, the
/// command after it switches the attribute on, and the description reads as
/// many floating-point numbers for a vertex as the attribute has components,
/// tightly packed.
pub proof fn attributes_read_their_own_buffers(place: int)
    requires
        0 <= place < frame_script().len(),
        frame_script()[place] is VertexAttribPointer,
    ensures
        0 < place < frame_script().len() - 1,
        frame_script()[place] matches Command::VertexAttribPointer {
            attribute,
            components,
            component_type,
            normalize,
            stride,
            offset,
        } && {
            &&& components == attribute.components()
            &&& component_type == FLOAT
            &&& !normalize
            &&& stride == 0
            &&& offset == 0
            &&& frame_script()[place - 1] == (Command::BindBuffer {
                target: ARRAY_BUFFER,
                slot: source_of(attribute),
            })
            &&& frame_script()[place + 1] == (Command::EnableVertexAttribArray { attribute })
        },
{
    frame_script_unfolded();
}

/// After `ticks` frames from the start the count of frames is `ticks`, and
/// the rotation is `ticks` times six thousandths of a radian, as long as the
/// count fits; from then on both stay where they are.
pub proof fn rotation_after_frames(ticks: nat)
    ensures
        ticks <= u64::MAX ==> frames_after(0, ticks) == ticks,
        ticks <= u64::MAX ==> spin_at(frames_after(0, ticks)) == (Ratio {
            numerator: (6 * ticks) as i128,
            denominator: 1000,
        }),
        ticks >= u64::MAX ==> frames_after(0, ticks) == u64::MAX,
    decreases ticks,
{
    if ticks > 0 {
        rotation_after_frames((ticks - 1) as nat);
    }
}

/// The rotation never decreases: one more frame leaves the count of frames,
/// and with it the angle, where it was or moves it up.
pub proof fn rotation_never_decreases(start: nat, ticks: nat)
    requires
        start <= u64::MAX,
    ensures
        start <= frames_after(start, ticks) <= frames_after(start, ticks + 1) <= u64::MAX,
        spin_at(frames_after(start, ticks)).numerator <= spin_at(
            frames_after(start, ticks + 1),
        ).numerator,
    decreases ticks,
{
    assert(frames_after(start, ticks + 1) == next_frames(frames_after(start, ticks)));
    if ticks > 0 {
        rotation_never_decreases(start, (ticks - 1) as nat);
    }
}

/// Before the first frame the cube is not turned: both rotations of the
/// model-view transform are by the angle 0, so the transform moves the cube
/// six units away from the camera and does nothing else.
pub proof fn first_frame_is_not_turned()
    ensures
        model_view_at(0) == seq![
            Transform::Translate { by: Vector3 { x: 0, y: 0, z: -6i32 } },
            Transform::Rotate {
                angle: Ratio { numerator: 0, denominator: 1000 },
                axis: Vector3 { x: 0, y: 0, z: 1 },
            },
            Transform::Rotate {
                angle: Ratio { numerator: 0, denominator: 10000 },
                axis: Vector3 { x: 0, y: 1, z: 0 },
            },
        ],
{
}

/// The tilt is seven tenths of the spin, for every count of frames.
pub proof fn tilt_is_seven_tenths_of_spin(frames: nat)
    requires
        frames <= u64::MAX,
    ensures
        tilt_at(frames).numerator * spin_at(frames).denominator * 10 == 7 * spin_at(
            frames,
        ).numerator * tilt_at(frames).denominator,
{
}

/// The projection follows the canvas: its aspect is the width over the
/// height that the frame was drawn for, so two sizes give the same projection
/// only if they are the same size.
pub proof fn projection_follows_the_canvas(width: i32, height: i32, other_width: i32, other_height: i32)
    ensures
        projection_for(width, height).aspect == (Ratio {
            numerator: width as i128,
            denominator: height as i128,
        }),
        projection_for(width, height) == projection_for(other_width, other_height) <==> width
            == other_width && height == other_height,
{
}

} // verus!
