//! The enumerants of the graphics interface that the pipeline uses.
//!
//! Commands carry these as enums. The number that goes over the wire is
//! taken from the `gl` bindings, one constant at a time.

use vstd::prelude::*;

verus! {

/// Reads `gl::VERTEX_SHADER`, whose value in the bindings is `0x8B31`.
#[verifier::external_body]
fn gl_vertex_shader() -> (code: u32)
    ensures
        code == 0x8B31,
{
    gl::VERTEX_SHADER
}

/// Reads `gl::FRAGMENT_SHADER`, whose value in the bindings is `0x8B30`.
#[verifier::external_body]
fn gl_fragment_shader() -> (code: u32)
    ensures
        code == 0x8B30,
{
    gl::FRAGMENT_SHADER
}

/// Reads `gl::COMPILE_STATUS`, whose value in the bindings is `0x8B81`.
#[verifier::external_body]
fn gl_compile_status() -> (code: u32)
    ensures
        code == 0x8B81,
{
    gl::COMPILE_STATUS
}

/// Reads `gl::LINK_STATUS`, whose value in the bindings is `0x8B82`.
#[verifier::external_body]
fn gl_link_status() -> (code: u32)
    ensures
        code == 0x8B82,
{
    gl::LINK_STATUS
}

/// Reads `gl::INFO_LOG_LENGTH`, whose value in the bindings is `0x8B84`.
#[verifier::external_body]
fn gl_info_log_length() -> (code: u32)
    ensures
        code == 0x8B84,
{
    gl::INFO_LOG_LENGTH
}

/// Reads `gl::ARRAY_BUFFER`, whose value in the bindings is `0x8892`.
#[verifier::external_body]
fn gl_array_buffer() -> (code: u32)
    ensures
        code == 0x8892,
{
    gl::ARRAY_BUFFER
}

/// Reads `gl::ELEMENT_ARRAY_BUFFER`, whose value in the bindings is `0x8893`.
#[verifier::external_body]
fn gl_element_array_buffer() -> (code: u32)
    ensures
        code == 0x8893,
{
    gl::ELEMENT_ARRAY_BUFFER
}

/// Reads `gl::STATIC_DRAW`, whose value in the bindings is `0x88E4`.
#[verifier::external_body]
fn gl_static_draw() -> (code: u32)
    ensures
        code == 0x88E4,
{
    gl::STATIC_DRAW
}

/// Reads `gl::FLOAT`, whose value in the bindings is `0x1406`.
#[verifier::external_body]
fn gl_float() -> (code: u32)
    ensures
        code == 0x1406,
{
    gl::FLOAT
}

/// Reads `gl::UNSIGNED_INT`, whose value in the bindings is `0x1405`.
#[verifier::external_body]
fn gl_unsigned_int() -> (code: u32)
    ensures
        code == 0x1405,
{
    gl::UNSIGNED_INT
}

/// Reads `gl::TRIANGLES`, whose value in the bindings is `0x0004`.
#[verifier::external_body]
fn gl_triangles() -> (code: u32)
    ensures
        code == 0x0004,
{
    gl::TRIANGLES
}

/// Reads `gl::COLOR_BUFFER_BIT`, whose value in the bindings is `0x4000`.
#[verifier::external_body]
fn gl_color_buffer_bit() -> (code: u32)
    ensures
        code == 0x4000,
{
    gl::COLOR_BUFFER_BIT
}

/// Reads `gl::FALSE`, whose value in the bindings is `0`.
#[verifier::external_body]
fn gl_false() -> (code: u8)
    ensures
        code == 0,
{
    gl::FALSE
}

/// Reads `gl::TRUE`, whose value in the bindings is `1`.
#[verifier::external_body]
fn gl_true() -> (code: u8)
    ensures
        code == 1,
{
    gl::TRUE
}

/// The stage a shader object is compiled for.
#[derive(Clone, Copy, Debug, PartialEq, Eq, Structural)]
pub enum ShaderKind {
    Vertex,
    Fragment,
}

impl ShaderKind {
    /// The enumerant of this stage.
    pub open spec fn spec_code(self) -> u32 {
        match self {
            ShaderKind::Vertex => 0x8B31,
            ShaderKind::Fragment => 0x8B30,
        }
    }

    /// The enumerant of this stage, as the bindings give it.
    #[verifier::when_used_as_spec(spec_code)]
    pub fn code(self) -> (code: u32)
        ensures
            code == self.spec_code(),
    {
        match self {
            ShaderKind::Vertex => gl_vertex_shader(),
            ShaderKind::Fragment => gl_fragment_shader(),
        }
    }
}

/// What is asked of a shader object after compilation.
#[derive(Clone, Copy, Debug, PartialEq, Eq, Structural)]
pub enum ShaderParam {
    CompileStatus,
    InfoLogLength,
}

impl ShaderParam {
    /// The enumerant of this parameter.
    pub open spec fn spec_code(self) -> u32 {
        match self {
            ShaderParam::CompileStatus => 0x8B81,
            ShaderParam::InfoLogLength => 0x8B84,
        }
    }

    /// The enumerant of this parameter, as the bindings give it.
    #[verifier::when_used_as_spec(spec_code)]
    pub fn code(self) -> (code: u32)
        ensures
            code == self.spec_code(),
    {
        match self {
            ShaderParam::CompileStatus => gl_compile_status(),
            ShaderParam::InfoLogLength => gl_info_log_length(),
        }
    }
}

/// What is asked of a program object after linking.
#[derive(Clone, Copy, Debug, PartialEq, Eq, Structural)]
pub enum ProgramParam {
    LinkStatus,
    InfoLogLength,
}

impl ProgramParam {
    /// The enumerant of this parameter.
    pub open spec fn spec_code(self) -> u32 {
        match self {
            ProgramParam::LinkStatus => 0x8B82,
            ProgramParam::InfoLogLength => 0x8B84,
        }
    }

    /// The enumerant of this parameter, as the bindings give it.
    #[verifier::when_used_as_spec(spec_code)]
    pub fn code(self) -> (code: u32)
        ensures
            code == self.spec_code(),
    {
        match self {
            ProgramParam::LinkStatus => gl_link_status(),
            ProgramParam::InfoLogLength => gl_info_log_length(),
        }
    }
}

/// The binding point of a buffer object.
#[derive(Clone, Copy, Debug, PartialEq, Eq, Structural)]
pub enum BufferTarget {
    /// Vertex attributes.
    Array,
    /// Vertex indices.
    ElementArray,
}

impl BufferTarget {
    /// The enumerant of this binding point.
    pub open spec fn spec_code(self) -> u32 {
        match self {
            BufferTarget::Array => 0x8892,
            BufferTarget::ElementArray => 0x8893,
        }
    }

    /// The enumerant of this binding point, as the bindings give it.
    #[verifier::when_used_as_spec(spec_code)]
    pub fn code(self) -> (code: u32)
        ensures
            code == self.spec_code(),
    {
        match self {
            BufferTarget::Array => gl_array_buffer(),
            BufferTarget::ElementArray => gl_element_array_buffer(),
        }
    }
}

/// How an uploaded buffer is going to be used.
#[derive(Clone, Copy, Debug, PartialEq, Eq, Structural)]
pub enum BufferUsage {
    /// Written once, drawn from many times.
    StaticDraw,
}

impl BufferUsage {
    /// The enumerant of this usage hint.
    pub open spec fn spec_code(self) -> u32 {
        match self {
            BufferUsage::StaticDraw => 0x88E4,
        }
    }

    /// The enumerant of this usage hint, as the bindings give it.
    #[verifier::when_used_as_spec(spec_code)]
    pub fn code(self) -> (code: u32)
        ensures
            code == self.spec_code(),
    {
        match self {
            BufferUsage::StaticDraw => gl_static_draw(),
        }
    }
}

/// The type of one component of a vertex attribute.
#[derive(Clone, Copy, Debug, PartialEq, Eq, Structural)]
pub enum ComponentType {
    /// A 32-bit floating-point number.
    Float,
}

impl ComponentType {
    /// The enumerant of this component type.
    pub open spec fn spec_code(self) -> u32 {
        match self {
            ComponentType::Float => 0x1406,
        }
    }

    /// The enumerant of this component type, as the bindings give it.
    #[verifier::when_used_as_spec(spec_code)]
    pub fn code(self) -> (code: u32)
        ensures
            code == self.spec_code(),
    {
        match self {
            ComponentType::Float => gl_float(),
        }
    }
}

/// The type of one index of an indexed draw.
#[derive(Clone, Copy, Debug, PartialEq, Eq, Structural)]
pub enum IndexType {
    /// An unsigned 32-bit integer.
    UnsignedInt,
}

impl IndexType {
    /// The enumerant of this index type.
    pub open spec fn spec_code(self) -> u32 {
        match self {
            IndexType::UnsignedInt => 0x1405,
        }
    }

    /// The enumerant of this index type, as the bindings give it.
    #[verifier::when_used_as_spec(spec_code)]
    pub fn code(self) -> (code: u32)
        ensures
            code == self.spec_code(),
    {
        match self {
            IndexType::UnsignedInt => gl_unsigned_int(),
        }
    }
}

/// The primitive that a draw assembles from its vertices.
#[derive(Clone, Copy, Debug, PartialEq, Eq, Structural)]
pub enum Primitive {
    /// Every three vertices form one triangle.
    Triangles,
}

impl Primitive {
    /// The enumerant of this primitive.
    pub open spec fn spec_code(self) -> u32 {
        match self {
            Primitive::Triangles => 0x0004,
        }
    }

    /// The enumerant of this primitive, as the bindings give it.
    #[verifier::when_used_as_spec(spec_code)]
    pub fn code(self) -> (code: u32)
        ensures
            code == self.spec_code(),
    {
        match self {
            Primitive::Triangles => gl_triangles(),
        }
    }
}

/// The part of the framebuffer that a clear resets.
#[derive(Clone, Copy, Debug, PartialEq, Eq, Structural)]
pub enum ClearMask {
    /// The color buffer.
    Color,
}

impl ClearMask {
    /// The bit mask of this part.
    pub open spec fn spec_code(self) -> u32 {
        match self {
            ClearMask::Color => 0x4000,
        }
    }

    /// The bit mask of this part, as the bindings give it.
    #[verifier::when_used_as_spec(spec_code)]
    pub fn code(self) -> (code: u32)
        ensures
            code == self.spec_code(),
    {
        match self {
            ClearMask::Color => gl_color_buffer_bit(),
        }
    }
}

/// The byte that stands for a truth value in a command's arguments.
pub open spec fn spec_boolean_code(flag: bool) -> u8 {
    if flag {
        1
    } else {
        0
    }
}

/// The byte that stands for a truth value in a command's arguments, as the
/// bindings give it.
#[verifier::when_used_as_spec(spec_boolean_code)]
pub fn boolean_code(flag: bool) -> (code: u8)
    ensures
        code == spec_boolean_code(flag),
{
    if flag {
        gl_true()
    } else {
        gl_false()
    }
}

} // verus!
