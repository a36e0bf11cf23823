//! Shader byte code as handed to shader module creation.

use vstd::prelude::*;

verus! {

/// Why a byte blob was not accepted as shader code.
#[derive(Clone, Copy, Debug, PartialEq, Eq, Structural)]
pub enum ShaderCodeError {
    /// The blob is empty or its length is no multiple of four.
    Length(usize),
    /// No aligned buffer could be allocated for the code.
    Alloc,
}

/// Whether a blob of `len` bytes has the length of SPIR-V code: not empty,
/// and whole 32-bit words.
pub open spec fn valid_code_length(len: int) -> bool {
    len > 0 && len % 4 == 0
}

/// Calls `vulkanalia::bytecode::Bytecode::new` and `Bytecode::code`.
///
/// Claimed of them: a blob that is empty or whose length is no multiple of
/// four is refused with that length, and no other blob is refused for its
/// length; on success the code holds one word for every four bytes. Whether
/// the allocation succeeds is left open, and so is the value of each word,
/// which follows the byte order of the machine.
#[verifier::external_body]
pub(crate) fn aligned_code(bytes: &[u8]) -> (r: Result<Vec<u32>, ShaderCodeError>)
    ensures
        r is Ok ==> valid_code_length(bytes@.len() as int),
        r is Ok ==> r->Ok_0@.len() * 4 == bytes@.len(),
        r is Err ==> (r->Err_0 is Length <==> !valid_code_length(bytes@.len() as int)),
        r is Err && r->Err_0 is Length ==> r->Err_0->Length_0 == bytes@.len(),
{
    match vulkanalia::bytecode::Bytecode::new(bytes) {
        Ok(code) => Ok(code.code().to_vec()),
        Err(vulkanalia::bytecode::BytecodeError::Length(n)) => Err(ShaderCodeError::Length(n)),
        Err(vulkanalia::bytecode::BytecodeError::Alloc) => Err(ShaderCodeError::Alloc),
    }
}

} // verus!
