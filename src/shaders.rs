//! SPIR-V shader bytecode, copied into aligned buffers.
use vstd::prelude::*;
use vulkanalia::bytecode::{Bytecode, BytecodeError};
use crate::error::RenderingError;

verus! {

#[verifier::external_type_specification]
#[verifier::external_body]
pub struct ExBytecode(Bytecode);

/// Why bytecode was refused.
#[derive(Clone, Copy, Debug, PartialEq, Eq, Structural)]
pub enum BytecodeFault {
    /// The aligned buffer could not be allocated.
    Alloc,
    /// The length in bytes is zero or not a multiple of four.
    Length(usize),
}

/// SPIR-V is a stream of 32-bit words: a usable buffer is non-empty and a
/// whole number of words long.
pub open spec fn valid_length(len: nat) -> bool {
    len > 0 && len % 4 == 0
}

pub open spec fn bad_length(len: nat) -> BytecodeResult {
    Err(BytecodeFault::Length(len as usize))
}

/// A copied shader, or why it was refused.
pub type BytecodeResult = Result<Bytecode, BytecodeFault>;

/// Relies on `vulkanalia::bytecode::Bytecode::new`: it refuses an empty buffer
/// or one whose length is not a multiple of four with `Length(len)`, and
/// otherwise either copies the bytes into an aligned buffer or reports a
/// failed allocation with `Alloc`.
#[verifier::external_body]
fn new_bytecode(bytes: &[u8]) -> (r: BytecodeResult)
    ensures
        !valid_length(bytes@.len()) ==> r == bad_length(bytes@.len()),
        valid_length(bytes@.len()) ==> (r is Ok || r matches Err(BytecodeFault::Alloc)),
{
    match Bytecode::new(bytes) {
        Ok(code) => Ok(code),
        Err(BytecodeError::Alloc) => Err(BytecodeFault::Alloc),
        Err(BytecodeError::Length(len)) => Err(BytecodeFault::Length(len)),
    }
}

/// Which of the two shaders.
#[derive(Clone, Copy, Debug, PartialEq, Eq, Structural)]
pub enum ShaderSource {
    Vertex,
    Fragment,
}

/// The vertex and fragment shaders of the pipeline, ready for module creation.
pub struct ShaderCode {
    pub vertex: Bytecode,
    pub fragment: Bytecode,
}

impl ShaderCode {
    /// The bytecode of the given shader.
    pub fn code_for(&self, source: ShaderSource) -> (r: &Bytecode)
        ensures
            source == ShaderSource::Vertex ==> *r == self.vertex,
            source == ShaderSource::Fragment ==> *r == self.fragment,
    {
        match source {
            ShaderSource::Vertex => &self.vertex,
            ShaderSource::Fragment => &self.fragment,
        }
    }
}

/// Checks and copies the two shaders, vertex first.
pub fn load_shaders(vertex: &[u8], fragment: &[u8]) -> (r: Result<ShaderCode, RenderingError>)
    ensures
        !valid_length(vertex@.len()) ==> r == Err::<ShaderCode, _>(
            RenderingError::LoadShadersError(BytecodeFault::Length(vertex@.len() as usize)),
        ),
        valid_length(vertex@.len()) && !valid_length(fragment@.len()) ==> (r == Err::<
            ShaderCode,
            _,
        >(RenderingError::LoadShadersError(BytecodeFault::Length(fragment@.len() as usize)))
            || r == Err::<ShaderCode, _>(RenderingError::LoadShadersError(BytecodeFault::Alloc))),
        valid_length(vertex@.len()) && valid_length(fragment@.len()) ==> (r is Ok || r == Err::<
            ShaderCode,
            _,
        >(RenderingError::LoadShadersError(BytecodeFault::Alloc))),
        r is Ok ==> valid_length(vertex@.len()) && valid_length(fragment@.len()),
{
    let vertex_code = match new_bytecode(vertex) {
        Ok(code) => code,
        Err(fault) => {
            return Err(RenderingError::LoadShadersError(fault));
        },
    };
    let fragment_code = match new_bytecode(fragment) {
        Ok(code) => code,
        Err(fault) => {
            return Err(RenderingError::LoadShadersError(fault));
        },
    };
    Ok(ShaderCode { vertex: vertex_code, fragment: fragment_code })
}

} // verus!
