//! Typed names for the native objects and the reading of native return values.

use vstd::prelude::*;
use vstd::utf8::encode_utf8;
use crate::native;

verus! {

/// The binding point a buffer object is bound to.
#[derive(Clone, Copy, Debug, PartialEq, Eq)]
pub enum BufferType {
    Array,
    ElementArray,
}

impl BufferType {
    /// The enumerant the native layer knows this binding point by.
    pub open spec fn enumerant(self) -> u32 {
        match self {
            BufferType::Array => 0x8892u32,
            BufferType::ElementArray => 0x8893u32,
        }
    }

    /// Returns the enumerant to hand to the native layer.
    pub fn to_enum(self) -> (value: u32)
        ensures
            value == self.enumerant(),
    {
        match self {
            BufferType::Array => native::array_buffer(),
            BufferType::ElementArray => native::element_array_buffer(),
        }
    }
}

/// The pipeline stage a shader object is compiled for.
#[derive(Clone, Copy, Debug, PartialEq, Eq)]
pub enum ShaderType {
    Vertex,
    Fragment,
}

impl ShaderType {
    /// The enumerant the native layer knows this stage by.
    pub open spec fn enumerant(self) -> u32 {
        match self {
            ShaderType::Vertex => 0x8B31u32,
            ShaderType::Fragment => 0x8B30u32,
        }
    }

    /// Returns the enumerant to hand to the native layer.
    pub fn to_enum(self) -> (value: u32)
        ensures
            value == self.enumerant(),
    {
        match self {
            ShaderType::Vertex => native::vertex_shader(),
            ShaderType::Fragment => native::fragment_shader(),
        }
    }
}

/// Whether a status word written by the native layer reads as true: its low
/// byte is one.
pub open spec fn status_is_true(status: i32) -> bool {
    status as int % 256 == 1
}

/// Reads a status word written by the native layer.
pub fn read_status(status: i32) -> (ok: bool)
    ensures
        ok == status_is_true(status),
{
    let low: u8 = #[verifier::truncate] (status as u8);
    assert(low == 1u8 <==> status % 256i32 == 1i32) by (bit_vector)
        requires
            low == status as u8,
    ;
    low == native::gl_true()
}

/// The length in bytes under which a source text is handed to the native
/// layer.
pub fn source_length(source_string: &str) -> (length: i32)
    requires
        encode_utf8(source_string@).len() <= i32::MAX,
    ensures
        length == encode_utf8(source_string@).len(),
{
    source_string.len() as i32
}

/// A shader object of the native layer, known by its identifier.  The
/// identifier is never zero: zero is what the native layer returns when it
/// could not create the object.
#[derive(Clone, Copy, Debug, PartialEq, Eq)]
pub struct Shader(u32);

impl View for Shader {
    type V = u32;

    closed spec fn view(&self) -> u32 {
        self.0
    }
}

impl Shader {
    #[verifier::type_invariant]
    spec fn nonzero(self) -> bool {
        self.0 != 0
    }

    /// Wraps the identifier that creating a shader object returned: zero
    /// means that no object was created.
    pub fn new(raw: u32) -> (shader: Option<Shader>)
        ensures
            raw == 0 <==> shader is None,
            shader matches Some(s) ==> s@ == raw,
    {
        if raw == 0 {
            None
        } else {
            Some(Shader(raw))
        }
    }

    /// The identifier of the shader object.
    pub fn id(&self) -> (id: u32)
        ensures
            id == self@,
            id != 0,
    {
        proof {
            use_type_invariant(self);
        }
        self.0
    }

    /// The length, in bytes, under which `source_string` is handed to the
    /// native layer as this shader's source.
    pub fn source(&self, source_string: &str) -> (length: i32)
        requires
            encode_utf8(source_string@).len() <= i32::MAX,
        ensures
            length == encode_utf8(source_string@).len(),
    {
        source_length(source_string)
    }

    /// Reads the compile status that was queried after compiling this shader.
    pub fn compile(&self, status: i32) -> (ok: bool)
        ensures
            ok == status_is_true(status),
    {
        read_status(status)
    }
}

/// A program object of the native layer, known by its identifier.
#[derive(Clone, Copy, Debug, PartialEq, Eq)]
pub struct Program(pub u32);

impl Program {
    /// Wraps the identifier that creating a program object returned: zero
    /// means that no object was created.
    pub fn new(raw: u32) -> (program: Option<Program>)
        ensures
            program == if raw == 0 { None } else { Some(Program(raw)) },
    {
        if raw == 0 {
            None
        } else {
            Some(Program(raw))
        }
    }

    /// Reads the link status that was queried after linking this program.
    pub fn link(&self, status: i32) -> (ok: bool)
        ensures
            ok == status_is_true(status),
    {
        read_status(status)
    }

    /// Reads the location that the native layer returned for a uniform name:
    /// -1 means that the linked program has no active uniform of that name.
    pub fn get_uniform_location(&self, location: i32) -> (found: Option<i32>)
        ensures
            found == if location == -1 { None } else { Some(location) },
    {
        if location == -1 {
            None
        } else {
            Some(location)
        }
    }
}

/// What a successful build hands back: the linked program and the two shader
/// objects it was linked from, which by then are flagged for deletion.
#[derive(Clone, Copy, Debug, PartialEq, Eq)]
pub struct ProgramFromSourceResult {
    pub program: Program,
    pub vertex_shader: Shader,
    pub fragment_shader: Shader,
}

/// The arguments of one upload into the buffer bound to a binding point.
#[derive(Clone, Copy, Debug, PartialEq, Eq)]
pub struct BufferUpload {
    pub target: u32,
    pub size: isize,
    pub usage: u32,
}

/// Works out the arguments under which `data` is uploaded into the buffer
/// bound to `btype`: the binding point's enumerant, the size of `data` in
/// bytes, and the usage hint as given.
pub fn buffer_data(btype: BufferType, data: &[u8], usage: u32) -> (upload: BufferUpload)
    requires
        data@.len() <= isize::MAX,
    ensures
        upload == (BufferUpload { target: btype.enumerant(), size: data@.len() as isize, usage }),
{
    BufferUpload { target: btype.to_enum(), size: data.len() as isize, usage }
}

} // verus!
