//! Structured records extracted from recognized chunks.

pub mod rdef;

pub use rdef::{
    ConstantBuffer, ConstantBufferFlags, ConstantBufferType, ProgramType, RdefChunk,
    ResourceBinding, ShaderInputFlags, ShaderInputType, ShaderModel, ShaderType, ShaderTypeMember,
    ShaderVariable, ShaderVariableClass, ShaderVariableFlags, ShaderVariableType, ViewDimension,
};

use vstd::prelude::*;

verus! {

use crate::binary::decoder::{le_u32, Decoder};
use crate::binary::parser::State;

/// The return type of a resource binding.
#[derive(Clone, Copy, Debug, PartialEq, Eq, Structural)]
pub enum ResourceReturnType {
    NotApplicable,
    UNorm,
    SNorm,
    SInt,
    UInt,
    Float,
    Mixed,
    Double,
    Continued,
}

impl ResourceReturnType {
    /// The variant that the wire value `v` stands for, if any.
    pub open spec fn spec_from_u32(v: u32) -> Option<ResourceReturnType> {
        match v {
            0u32 => Some(ResourceReturnType::NotApplicable),
            1u32 => Some(ResourceReturnType::UNorm),
            2u32 => Some(ResourceReturnType::SNorm),
            3u32 => Some(ResourceReturnType::SInt),
            4u32 => Some(ResourceReturnType::UInt),
            5u32 => Some(ResourceReturnType::Float),
            6u32 => Some(ResourceReturnType::Mixed),
            7u32 => Some(ResourceReturnType::Double),
            8u32 => Some(ResourceReturnType::Continued),
            _ => None,
        }
    }

    /// Fallible conversion from the wire value: any integer outside the
    /// enumeration's domain is rejected.
    pub fn from_u32(v: u32) -> (r: Option<ResourceReturnType>)
        ensures
            r == Self::spec_from_u32(v),
    {
        match v {
            0u32 => Some(ResourceReturnType::NotApplicable),
            1u32 => Some(ResourceReturnType::UNorm),
            2u32 => Some(ResourceReturnType::SNorm),
            3u32 => Some(ResourceReturnType::SInt),
            4u32 => Some(ResourceReturnType::UInt),
            5u32 => Some(ResourceReturnType::Float),
            6u32 => Some(ResourceReturnType::Mixed),
            7u32 => Some(ResourceReturnType::Double),
            8u32 => Some(ResourceReturnType::Continued),
            _ => None,
        }
    }
}

/// The fixed-size container header: magic tag, 128-bit checksum, a
/// reserved word, the container's total size, and the number of chunks.
/// It is followed in the buffer by `chunk_count` absolute chunk offsets.
#[derive(Clone, Copy, Debug)]
pub struct DxbcHeader {
    pub magic: [u8; 4],
    pub checksum: [u32; 4],
    pub reserved: u32,
    pub size: u32,
    pub chunk_count: u32,
}

/// The fixed-size header record of a shader-bytecode chunk: encoded
/// version nibbles, the program-type code (kept raw; the instruction
/// stream is opaque to this crate), and the declared instruction-stream
/// length in 32-bit words.
#[derive(Clone, Copy, Debug, PartialEq, Eq, Structural)]
pub struct ShexHeader {
    pub minor: u8,
    pub major: u8,
    pub program_ty: u16,
    pub instruction_length: u32,
}

impl ShexHeader {
    /// Decodes the two-word shader-bytecode chunk header at the cursor.
    pub fn parse(decoder: &mut Decoder<'_>) -> (r: Result<ShexHeader, State>)
        requires
            old(decoder).wf(),
        ensures
            final(decoder).wf(),
            old(decoder)@.can_read(8) ==> (r matches Ok(h) && {
                &&& h.minor == (le_u32(old(decoder)@.data, old(decoder)@.offset) & 0xf) as u8
                &&& h.major == ((le_u32(old(decoder)@.data, old(decoder)@.offset) >> 4) & 0xf) as u8
                &&& h.program_ty == (le_u32(old(decoder)@.data, old(decoder)@.offset) >> 16) as u16
                &&& h.instruction_length == le_u32(old(decoder)@.data, old(decoder)@.offset + 4)
                &&& final(decoder)@ == old(decoder)@.advanced(8)
            }),
            !old(decoder)@.can_read(8) ==> r is Err,
            r matches Err(s) ==> s matches State::DecoderError(_),
    {
        let version = match decoder.read_u32() {
            Ok(v) => v,
            Err(e) => {
                return Err(State::DecoderError(e));
            },
        };
        let instruction_length = match decoder.read_u32() {
            Ok(v) => v,
            Err(e) => {
                return Err(State::DecoderError(e));
            },
        };
        assert(version & 0xf < 256 && (version >> 4) & 0xf < 256 && version >> 16 < 65536)
            by (bit_vector);
        let minor = (version & 0xf) as u8;
        let major = ((version >> 4) & 0xf) as u8;
        let program_ty = (version >> 16) as u16;
        Ok(ShexHeader { minor, major, program_ty, instruction_length })
    }
}

} // verus!
