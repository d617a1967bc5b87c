//! Shaders and the program they link into: their kinds, their texts, and the
//! verdict on what the graphics context reported after building one.

use vstd::prelude::*;
use crate::codes::{FRAGMENT_SHADER, VERTEX_SHADER};

verus! {

/// The two programmable stages of the pipeline.
#[derive(Clone, Copy, Debug, PartialEq, Eq, Structural)]
pub enum ShaderKind {
    Vertex,
    Fragment,
}

/// The per-vertex inputs of the vertex shader.
#[derive(Clone, Copy, Debug, PartialEq, Eq, Structural)]
pub enum Attribute {
    VertexPosition,
    VertexColor,
}

/// The per-draw inputs of the vertex shader.
#[derive(Clone, Copy, Debug, PartialEq, Eq, Structural)]
pub enum Uniform {
    ModelViewMatrix,
    ProjectionMatrix,
}

/// What the graphics context reported about an object it was asked to build,
/// a shader to compile or a program to link.
#[derive(Debug)]
pub enum BuildReport {
    /// The context handed out no object at all.
    Refused,
    /// The object exists. `status` is the completion flag as the context gave
    /// it, if it gave a boolean; `log` is the diagnostic text, if there is one.
    Finished { status: Option<bool>, log: Option<String> },
}

/// The text of the vertex shader: it places each vertex by the two matrices
/// and hands its colour on.
pub const VERTEX_SOURCE: &'static str = "
        attribute vec4 aVertexPosition;
        attribute vec4 aVertexColor;

        uniform mat4 uModelViewMatrix;
        uniform mat4 uProjectionMatrix;

        varying lowp vec4 vColor;

        void main(void) {
            gl_Position = uProjectionMatrix * uModelViewMatrix * aVertexPosition;
            vColor = aVertexColor;
        }
    ";

/// The text of the fragment shader: it paints the colour it was handed.
pub const FRAGMENT_SOURCE: &'static str = "
        varying lowp vec4 vColor;

        void main(void) {
            gl_FragColor = vColor;
        }
    ";

impl ShaderKind {
    /// The source text of the shader of this kind.
    pub open spec fn source_spec(self) -> Seq<char> {
        match self {
            ShaderKind::Vertex => VERTEX_SOURCE@,
            ShaderKind::Fragment => FRAGMENT_SOURCE@,
        }
    }

    /// The source text of the shader of this kind.
    pub fn source(self) -> (text: &'static str)
        ensures
            text@ == self.source_spec(),
    {
        match self {
            ShaderKind::Vertex => VERTEX_SOURCE,
            ShaderKind::Fragment => FRAGMENT_SOURCE,
        }
    }

    /// The code by which the graphics interface knows this kind.
    pub open spec fn code_spec(self) -> u32 {
        match self {
            ShaderKind::Vertex => VERTEX_SHADER,
            ShaderKind::Fragment => FRAGMENT_SHADER,
        }
    }

    /// The code by which the graphics interface knows this kind.
    #[verifier::when_used_as_spec(code_spec)]
    pub fn code(self) -> (code: u32)
        ensures
            code == self.code_spec(),
    {
        match self {
            ShaderKind::Vertex => VERTEX_SHADER,
            ShaderKind::Fragment => FRAGMENT_SHADER,
        }
    }
}

impl Attribute {
    /// The attribute's name in the shader text.
    pub open spec fn name_spec(self) -> Seq<char> {
        match self {
            Attribute::VertexPosition => "aVertexPosition"@,
            Attribute::VertexColor => "aVertexColor"@,
        }
    }

    /// How many numbers one vertex has for this attribute: three coordinates,
    /// four colour channels.
    pub open spec fn components_spec(self) -> i32 {
        match self {
            Attribute::VertexPosition => 3,
            Attribute::VertexColor => 4,
        }
    }

    /// The attribute's name in the shader text.
    pub fn name(self) -> (name: &'static str)
        ensures
            name@ == self.name_spec(),
    {
        match self {
            Attribute::VertexPosition => "aVertexPosition",
            Attribute::VertexColor => "aVertexColor",
        }
    }

    /// How many numbers one vertex has for this attribute.
    #[verifier::when_used_as_spec(components_spec)]
    pub fn components(self) -> (count: i32)
        ensures
            count == self.components_spec(),
    {
        match self {
            Attribute::VertexPosition => 3,
            Attribute::VertexColor => 4,
        }
    }
}

impl Uniform {
    /// The uniform's name in the shader text.
    pub open spec fn name_spec(self) -> Seq<char> {
        match self {
            Uniform::ModelViewMatrix => "uModelViewMatrix"@,
            Uniform::ProjectionMatrix => "uProjectionMatrix"@,
        }
    }

    /// The words that open the diagnostic line of the uniform's matrix.
    pub open spec fn log_label_spec(self) -> Seq<char> {
        match self {
            Uniform::ModelViewMatrix => "model_view_matrix: "@,
            Uniform::ProjectionMatrix => "projection_matrix: "@,
        }
    }

    /// The uniform's name in the shader text.
    pub fn name(self) -> (name: &'static str)
        ensures
            name@ == self.name_spec(),
    {
        match self {
            Uniform::ModelViewMatrix => "uModelViewMatrix",
            Uniform::ProjectionMatrix => "uProjectionMatrix",
        }
    }

    /// The words that open the diagnostic line of the uniform's matrix.
    pub fn log_label(self) -> (label: &'static str)
        ensures
            label@ == self.log_label_spec(),
    {
        match self {
            Uniform::ModelViewMatrix => "model_view_matrix: ",
            Uniform::ProjectionMatrix => "projection_matrix: ",
        }
    }
}

impl BuildReport {
    /// Whether the report tells of a finished, usable object: the object
    /// exists and its completion flag is a plain `true`. A missing flag counts
    /// as failure.
    pub open spec fn succeeded(self) -> bool {
        self matches BuildReport::Finished { status, .. } && status == Some(true)
    }
}

/// Whether a completion flag means success: only a present `true` does.
pub fn status_ok(status: Option<bool>) -> (ok: bool)
    ensures
        ok == (status == Some(true)),
{
    status.unwrap_or(false)
}

/// The error text of a shader that did not compile: the shader's own log
/// where it says anything, a fixed text where the context gave no shader, no
/// log, or an empty one.
pub open spec fn compile_failure_text(report: BuildReport) -> Seq<char> {
    match report {
        BuildReport::Refused => "Unable to create shader object"@,
        BuildReport::Finished { log: Some(text), .. } => if text@.len() > 0 {
            text@
        } else {
            "Unknown error creating shader"@
        },
        BuildReport::Finished { log: None, .. } => "Unknown error creating shader"@,
    }
}

/// The error text of a program that did not link: the program's own log
/// where there is one, a fixed text where the context gave no program or no
/// log.
pub open spec fn link_failure_text(report: BuildReport) -> Seq<char> {
    match report {
        BuildReport::Refused => "Unable to create shader object"@,
        BuildReport::Finished { log: Some(text), .. } => text@,
        BuildReport::Finished { log: None, .. } => "Unknown error creating program object"@,
    }
}

/// Judges the compilation of a shader from the context's report.
///
/// Succeeds exactly when the shader object exists and its compile status is
/// `true`. Otherwise the error is the shader's diagnostic log, or a fixed text
/// where the context gave no object or nothing to read, so that the error
/// always says something.
pub fn compile_shader(report: BuildReport) -> (verdict: Result<(), String>)
    ensures
        verdict is Ok <==> report.succeeded(),
        verdict matches Err(message) ==> message@ == compile_failure_text(report),
{
    match report {
        BuildReport::Refused => Err("Unable to create shader object".to_owned()),
        BuildReport::Finished { status, log } => {
            if status_ok(status) {
                Ok(())
            } else {
                match log {
                    Some(text) => {
                        if text.as_str().is_empty() {
                            Err("Unknown error creating shader".to_owned())
                        } else {
                            Err(text)
                        }
                    },
                    None => Err("Unknown error creating shader".to_owned()),
                }
            }
        },
    }
}

/// Judges the linking of a program from the context's report.
///
/// Succeeds exactly when the program object exists and its link status is
/// `true`. Otherwise the error is the program's diagnostic log as it is, or a
/// fixed text where the context gave no object or no log.
pub fn init_shader_program(report: BuildReport) -> (verdict: Result<(), String>)
    ensures
        verdict is Ok <==> report.succeeded(),
        verdict matches Err(message) ==> message@ == link_failure_text(report),
{
    match report {
        BuildReport::Refused => Err("Unable to create shader object".to_owned()),
        BuildReport::Finished { status, log } => {
            if status_ok(status) {
                Ok(())
            } else {
                match log {
                    Some(text) => Err(text),
                    None => Err("Unknown error creating program object".to_owned()),
                }
            }
        },
    }
}

/// A shader that did not compile always comes with a text that is not empty,
/// and with the shader's own log whenever that log is not empty.
pub proof fn compile_failure_is_never_silent(report: BuildReport)
    ensures
        compile_failure_text(report).len() > 0,
        report matches BuildReport::Finished { log: Some(text), .. } ==> (text@.len() > 0
            ==> compile_failure_text(report) == text@),
{
    reveal_strlit("Unable to create shader object");
    reveal_strlit("Unknown error creating shader");
}

} // verus!
