//! The resource-definition (RDEF) chunk: shader reflection metadata.
//!
//! An RDEF chunk is a flat heap: fixed-layout preambles hold 32-bit
//! offsets, relative to the chunk's own start, to variable-length records
//! placed elsewhere in the same chunk, forming a cross-reference graph.
//! Every parser below therefore takes the chunk-body start (`base`) and
//! resolves each embedded offset against it, through the chunk's bounded
//! decoder — a corrupt offset fails its read instead of escaping into
//! neighboring chunks.
//!
//! Validation policy: enumerated fields reject any integer outside their
//! known value set (a hard decode failure), while flag-set fields silently
//! discard unmapped bits (forward-compatible by design).

use vstd::prelude::*;

verus! {

use crate::binary::decoder::{
    le_u16, le_u32, sat_add, spec_sat_add, str_at, Decoder,
};
use crate::binary::error::Error;
use crate::binary::parser::State;
use crate::dr::ResourceReturnType;

/// Reads one little-endian 32-bit word, wrapping a decode failure in the
/// terminal state that the chunk parsers propagate.
fn read_word(decoder: &mut Decoder<'_>) -> (r: Result<u32, State>)
    requires
        old(decoder).wf(),
    ensures
        final(decoder).wf(),
        old(decoder)@.can_read(4) ==> (r matches Ok(v) && v == le_u32(
            old(decoder)@.data,
            old(decoder)@.offset,
        ) && final(decoder)@ == old(decoder)@.advanced(4)),
        !old(decoder)@.can_read(4) ==> (r matches Err(s) && s == State::DecoderError(
            Error::StreamExpected(old(decoder)@.offset as usize),
        ) && final(decoder)@ == old(decoder)@),
        r matches Err(s) ==> s matches State::DecoderError(_),
{
    match decoder.read_u32() {
        Ok(v) => Ok(v),
        Err(e) => Err(State::DecoderError(e)),
    }
}

/// Reads one little-endian 16-bit word, wrapping a decode failure in the
/// terminal state that the chunk parsers propagate.
fn read_half(decoder: &mut Decoder<'_>) -> (r: Result<u16, State>)
    requires
        old(decoder).wf(),
    ensures
        final(decoder).wf(),
        old(decoder)@.can_read(2) ==> (r matches Ok(v) && v == le_u16(
            old(decoder)@.data,
            old(decoder)@.offset,
        ) && final(decoder)@ == old(decoder)@.advanced(2)),
        !old(decoder)@.can_read(2) ==> (r matches Err(s) && s == State::DecoderError(
            Error::StreamExpected(old(decoder)@.offset as usize),
        ) && final(decoder)@ == old(decoder)@),
        r matches Err(s) ==> s matches State::DecoderError(_),
{
    match decoder.read_u16() {
        Ok(v) => Ok(v),
        Err(e) => Err(State::DecoderError(e)),
    }
}

/// Resolves the zero-terminated string at absolute position `pos` through
/// a sibling view, leaving `decoder`'s own cursor untouched.
fn read_str_at(decoder: &Decoder<'_>, pos: usize) -> (r: Result<String, State>)
    requires
        decoder.wf(),
    ensures
        str_at(decoder@.data, pos as int, decoder@.bound) matches Some(cs) ==> (r matches Ok(s)
            && s@ == cs),
        str_at(decoder@.data, pos as int, decoder@.bound) is None ==> r is Err,
        r matches Err(s) ==> s matches State::DecoderError(_),
{
    let mut sibling = decoder.seek(pos);
    match sibling.str() {
        Ok(s) => Ok(s),
        Err(e) => Err(State::DecoderError(e)),
    }
}

/// Flags on a resource binding; unmapped bits are discarded on decode.
#[derive(Clone, Copy, Debug, PartialEq, Eq, Structural)]
pub struct ShaderInputFlags {
    pub bits: u32,
}

impl ShaderInputFlags {
    pub const USER_PACKED: u32 = 0x1;

    pub const COMPARISON_SAMPLER: u32 = 0x2;

    pub const TEXTURE_COMPONENT_0: u32 = 0x4;

    pub const TEXTURE_COMPONENT_1: u32 = 0x8;

    pub const TEXTURE_COMPONENTS: u32 = 0xc;

    pub const UNUSED: u32 = 0x10;

    /// Keeps the known bits of `v` and silently discards the rest.
    pub fn from_bits_truncate(v: u32) -> (r: ShaderInputFlags)
        ensures
            r.bits == v & 0x1f,
    {
        ShaderInputFlags { bits: v & 0x1f }
    }

    /// The raw bit set.
    pub fn bits(&self) -> (r: u32)
        ensures
            r == self.bits,
    {
        self.bits
    }
}

/// Flags on a shader variable; unmapped bits are discarded on decode.
#[derive(Clone, Copy, Debug, PartialEq, Eq, Structural)]
pub struct ShaderVariableFlags {
    pub bits: u32,
}

impl ShaderVariableFlags {
    pub const USER_PACKED: u32 = 0x1;

    pub const USED: u32 = 0x2;

    pub const INTERFACE_POINTER: u32 = 0x4;

    pub const INTERFACE_PARAMETER: u32 = 0x8;

    /// Keeps the known bits of `v` and silently discards the rest.
    pub fn from_bits_truncate(v: u32) -> (r: ShaderVariableFlags)
        ensures
            r.bits == v & 0xf,
    {
        ShaderVariableFlags { bits: v & 0xf }
    }

    /// The raw bit set.
    pub fn bits(&self) -> (r: u32)
        ensures
            r == self.bits,
    {
        self.bits
    }
}

/// Flags on a constant buffer; unmapped bits are discarded on decode.
#[derive(Clone, Copy, Debug, PartialEq, Eq, Structural)]
pub struct ConstantBufferFlags {
    pub bits: u32,
}

impl ConstantBufferFlags {
    pub const USER_PACKED: u32 = 0x1;

    /// Keeps the known bits of `v` and silently discards the rest.
    pub fn from_bits_truncate(v: u32) -> (r: ConstantBufferFlags)
        ensures
            r.bits == v & 0x1,
    {
        ConstantBufferFlags { bits: v & 0x1 }
    }

    /// The raw bit set.
    pub fn bits(&self) -> (r: u32)
        ensures
            r == self.bits,
    {
        self.bits
    }
}

/// The kind of a constant buffer.
#[derive(Clone, Copy, Debug, PartialEq, Eq, Structural)]
pub enum ConstantBufferType {
    ConstantBuffer,
    TextureBuffer,
    InterfacePointers,
    ResourceBindInformation,
}

/// The shader models this crate's reflection layout is known for.
#[derive(Clone, Copy, Debug, PartialEq, Eq, Structural)]
pub enum ShaderModel {
    V5_0,
}

/// The kind of resource a shader input binding refers to.
#[derive(Clone, Copy, Debug, PartialEq, Eq, Structural)]
pub enum ShaderInputType {
    CBuffer,
    TBuffer,
    Texture,
    Sampler,
    UavRwTyped,
    Structured,
    UavRwStructured,
    ByteAddress,
    UavRwByteAddress,
    UavAppendStructured,
    UavConsumeStructured,
    UavRwStructuredWithCounter,
}

impl ShaderInputType {
    /// The variant that the wire value `v` stands for, if any.
    pub open spec fn spec_from_u32(v: u32) -> Option<ShaderInputType> {
        match v {
            0u32 => Some(ShaderInputType::CBuffer),
            1u32 => Some(ShaderInputType::TBuffer),
            2u32 => Some(ShaderInputType::Texture),
            3u32 => Some(ShaderInputType::Sampler),
            4u32 => Some(ShaderInputType::UavRwTyped),
            5u32 => Some(ShaderInputType::Structured),
            6u32 => Some(ShaderInputType::UavRwStructured),
            7u32 => Some(ShaderInputType::ByteAddress),
            8u32 => Some(ShaderInputType::UavRwByteAddress),
            9u32 => Some(ShaderInputType::UavAppendStructured),
            10u32 => Some(ShaderInputType::UavConsumeStructured),
            11u32 => Some(ShaderInputType::UavRwStructuredWithCounter),
            _ => None,
        }
    }

    /// Fallible conversion from the wire value: any integer outside the
    /// enumeration's domain is rejected.
    pub fn from_u32(v: u32) -> (r: Option<ShaderInputType>)
        ensures
            r == Self::spec_from_u32(v),
    {
        match v {
            0u32 => Some(ShaderInputType::CBuffer),
            1u32 => Some(ShaderInputType::TBuffer),
            2u32 => Some(ShaderInputType::Texture),
            3u32 => Some(ShaderInputType::Sampler),
            4u32 => Some(ShaderInputType::UavRwTyped),
            5u32 => Some(ShaderInputType::Structured),
            6u32 => Some(ShaderInputType::UavRwStructured),
            7u32 => Some(ShaderInputType::ByteAddress),
            8u32 => Some(ShaderInputType::UavRwByteAddress),
            9u32 => Some(ShaderInputType::UavAppendStructured),
            10u32 => Some(ShaderInputType::UavConsumeStructured),
            11u32 => Some(ShaderInputType::UavRwStructuredWithCounter),
            _ => None,
        }
    }
}

/// The class of a shader type: scalar, vector, matrix, object, or aggregate.
#[derive(Clone, Copy, Debug, PartialEq, Eq, Structural)]
pub enum ShaderVariableClass {
    Scalar,
    Vector,
    MatrixRows,
    MatrixColumns,
    Object,
    Struct,
    InterfaceClass,
    InterfacePointer,
}

impl ShaderVariableClass {
    /// The variant that the wire value `v` stands for, if any.
    pub open spec fn spec_from_u32(v: u32) -> Option<ShaderVariableClass> {
        match v {
            0u32 => Some(ShaderVariableClass::Scalar),
            1u32 => Some(ShaderVariableClass::Vector),
            2u32 => Some(ShaderVariableClass::MatrixRows),
            3u32 => Some(ShaderVariableClass::MatrixColumns),
            4u32 => Some(ShaderVariableClass::Object),
            5u32 => Some(ShaderVariableClass::Struct),
            6u32 => Some(ShaderVariableClass::InterfaceClass),
            7u32 => Some(ShaderVariableClass::InterfacePointer),
            _ => None,
        }
    }

    /// Fallible conversion from the wire value: any integer outside the
    /// enumeration's domain is rejected.
    pub fn from_u32(v: u32) -> (r: Option<ShaderVariableClass>)
        ensures
            r == Self::spec_from_u32(v),
    {
        match v {
            0u32 => Some(ShaderVariableClass::Scalar),
            1u32 => Some(ShaderVariableClass::Vector),
            2u32 => Some(ShaderVariableClass::MatrixRows),
            3u32 => Some(ShaderVariableClass::MatrixColumns),
            4u32 => Some(ShaderVariableClass::Object),
            5u32 => Some(ShaderVariableClass::Struct),
            6u32 => Some(ShaderVariableClass::InterfaceClass),
            7u32 => Some(ShaderVariableClass::InterfacePointer),
            _ => None,
        }
    }
}

/// The element type of a shader variable.
#[derive(Clone, Copy, Debug, PartialEq, Eq, Structural)]
pub enum ShaderVariableType {
    Void,
    Bool,
    Int_,
    Float,
    String,
    Texture,
    Texture1D,
    Texture2D,
    Texture3D,
    TextureCube,
    Sampler,
    PixelShader,
    VertexShader,
    UInt,
    UInt8,
    GeometryShader,
    Rasterizer,
    DepthStencil,
    Blend,
    Buffer,
    CBuffer,
    TBuffer,
    Texture1DArray,
    Texture2DArray,
    RenderTargetView,
    DepthStencilView,
    Texture2DMultiSampled,
    Texture2DMultiSampledArray,
    TextureCubeArray,
    HullShader,
    DomainShader,
    InterfacePointer,
    ComputeShader,
    Double,
    ReadWriteTexture1D,
    ReadWriteTexture1DArray,
    ReadWriteTexture2D,
    ReadWriteTexture2DArray,
    ReadWriteTexture3D,
    ReadWriteBuffer,
    ByteAddressBuffer,
    ReadWriteByteAddressBuffer,
    StructuredBuffer,
    ReadWriteStructuredBuffer,
    AppendStructuredBuffer,
    ConsumeStructuredBuffer,
}

impl ShaderVariableType {
    /// The variant that the wire value `v` stands for, if any.
    pub open spec fn spec_from_u32(v: u32) -> Option<ShaderVariableType> {
        match v {
            0u32 => Some(ShaderVariableType::Void),
            1u32 => Some(ShaderVariableType::Bool),
            2u32 => Some(ShaderVariableType::Int_),
            3u32 => Some(ShaderVariableType::Float),
            4u32 => Some(ShaderVariableType::String),
            5u32 => Some(ShaderVariableType::Texture),
            6u32 => Some(ShaderVariableType::Texture1D),
            7u32 => Some(ShaderVariableType::Texture2D),
            8u32 => Some(ShaderVariableType::Texture3D),
            9u32 => Some(ShaderVariableType::TextureCube),
            10u32 => Some(ShaderVariableType::Sampler),
            15u32 => Some(ShaderVariableType::PixelShader),
            16u32 => Some(ShaderVariableType::VertexShader),
            19u32 => Some(ShaderVariableType::UInt),
            20u32 => Some(ShaderVariableType::UInt8),
            21u32 => Some(ShaderVariableType::GeometryShader),
            22u32 => Some(ShaderVariableType::Rasterizer),
            23u32 => Some(ShaderVariableType::DepthStencil),
            24u32 => Some(ShaderVariableType::Blend),
            25u32 => Some(ShaderVariableType::Buffer),
            26u32 => Some(ShaderVariableType::CBuffer),
            27u32 => Some(ShaderVariableType::TBuffer),
            28u32 => Some(ShaderVariableType::Texture1DArray),
            29u32 => Some(ShaderVariableType::Texture2DArray),
            30u32 => Some(ShaderVariableType::RenderTargetView),
            31u32 => Some(ShaderVariableType::DepthStencilView),
            32u32 => Some(ShaderVariableType::Texture2DMultiSampled),
            33u32 => Some(ShaderVariableType::Texture2DMultiSampledArray),
            34u32 => Some(ShaderVariableType::TextureCubeArray),
            35u32 => Some(ShaderVariableType::HullShader),
            36u32 => Some(ShaderVariableType::DomainShader),
            37u32 => Some(ShaderVariableType::InterfacePointer),
            38u32 => Some(ShaderVariableType::ComputeShader),
            39u32 => Some(ShaderVariableType::Double),
            40u32 => Some(ShaderVariableType::ReadWriteTexture1D),
            41u32 => Some(ShaderVariableType::ReadWriteTexture1DArray),
            42u32 => Some(ShaderVariableType::ReadWriteTexture2D),
            43u32 => Some(ShaderVariableType::ReadWriteTexture2DArray),
            44u32 => Some(ShaderVariableType::ReadWriteTexture3D),
            45u32 => Some(ShaderVariableType::ReadWriteBuffer),
            46u32 => Some(ShaderVariableType::ByteAddressBuffer),
            47u32 => Some(ShaderVariableType::ReadWriteByteAddressBuffer),
            48u32 => Some(ShaderVariableType::StructuredBuffer),
            49u32 => Some(ShaderVariableType::ReadWriteStructuredBuffer),
            50u32 => Some(ShaderVariableType::AppendStructuredBuffer),
            51u32 => Some(ShaderVariableType::ConsumeStructuredBuffer),
            _ => None,
        }
    }

    /// Fallible conversion from the wire value: any integer outside the
    /// enumeration's domain is rejected.
    pub fn from_u32(v: u32) -> (r: Option<ShaderVariableType>)
        ensures
            r == Self::spec_from_u32(v),
    {
        match v {
            0u32 => Some(ShaderVariableType::Void),
            1u32 => Some(ShaderVariableType::Bool),
            2u32 => Some(ShaderVariableType::Int_),
            3u32 => Some(ShaderVariableType::Float),
            4u32 => Some(ShaderVariableType::String),
            5u32 => Some(ShaderVariableType::Texture),
            6u32 => Some(ShaderVariableType::Texture1D),
            7u32 => Some(ShaderVariableType::Texture2D),
            8u32 => Some(ShaderVariableType::Texture3D),
            9u32 => Some(ShaderVariableType::TextureCube),
            10u32 => Some(ShaderVariableType::Sampler),
            15u32 => Some(ShaderVariableType::PixelShader),
            16u32 => Some(ShaderVariableType::VertexShader),
            19u32 => Some(ShaderVariableType::UInt),
            20u32 => Some(ShaderVariableType::UInt8),
            21u32 => Some(ShaderVariableType::GeometryShader),
            22u32 => Some(ShaderVariableType::Rasterizer),
            23u32 => Some(ShaderVariableType::DepthStencil),
            24u32 => Some(ShaderVariableType::Blend),
            25u32 => Some(ShaderVariableType::Buffer),
            26u32 => Some(ShaderVariableType::CBuffer),
            27u32 => Some(ShaderVariableType::TBuffer),
            28u32 => Some(ShaderVariableType::Texture1DArray),
            29u32 => Some(ShaderVariableType::Texture2DArray),
            30u32 => Some(ShaderVariableType::RenderTargetView),
            31u32 => Some(ShaderVariableType::DepthStencilView),
            32u32 => Some(ShaderVariableType::Texture2DMultiSampled),
            33u32 => Some(ShaderVariableType::Texture2DMultiSampledArray),
            34u32 => Some(ShaderVariableType::TextureCubeArray),
            35u32 => Some(ShaderVariableType::HullShader),
            36u32 => Some(ShaderVariableType::DomainShader),
            37u32 => Some(ShaderVariableType::InterfacePointer),
            38u32 => Some(ShaderVariableType::ComputeShader),
            39u32 => Some(ShaderVariableType::Double),
            40u32 => Some(ShaderVariableType::ReadWriteTexture1D),
            41u32 => Some(ShaderVariableType::ReadWriteTexture1DArray),
            42u32 => Some(ShaderVariableType::ReadWriteTexture2D),
            43u32 => Some(ShaderVariableType::ReadWriteTexture2DArray),
            44u32 => Some(ShaderVariableType::ReadWriteTexture3D),
            45u32 => Some(ShaderVariableType::ReadWriteBuffer),
            46u32 => Some(ShaderVariableType::ByteAddressBuffer),
            47u32 => Some(ShaderVariableType::ReadWriteByteAddressBuffer),
            48u32 => Some(ShaderVariableType::StructuredBuffer),
            49u32 => Some(ShaderVariableType::ReadWriteStructuredBuffer),
            50u32 => Some(ShaderVariableType::AppendStructuredBuffer),
            51u32 => Some(ShaderVariableType::ConsumeStructuredBuffer),
            _ => None,
        }
    }
}

/// The dimensionality of a resource view.
#[derive(Clone, Copy, Debug, PartialEq, Eq, Structural)]
pub enum ViewDimension {
    Unknown,
    Buffer,
    Texture1D,
    Texture1DArray,
    Texture2D,
    Texture2DArray,
    Texture2DMultiSampled,
    Texture2DMultiSampledArray,
    Texture3D,
    TextureCube,
    TextureCubeArray,
    ExtendedBuffer,
}

impl ViewDimension {
    /// The variant that the wire value `v` stands for, if any.
    pub open spec fn spec_from_u32(v: u32) -> Option<ViewDimension> {
        match v {
            0u32 => Some(ViewDimension::Unknown),
            1u32 => Some(ViewDimension::Buffer),
            2u32 => Some(ViewDimension::Texture1D),
            3u32 => Some(ViewDimension::Texture1DArray),
            4u32 => Some(ViewDimension::Texture2D),
            5u32 => Some(ViewDimension::Texture2DArray),
            6u32 => Some(ViewDimension::Texture2DMultiSampled),
            7u32 => Some(ViewDimension::Texture2DMultiSampledArray),
            8u32 => Some(ViewDimension::Texture3D),
            9u32 => Some(ViewDimension::TextureCube),
            10u32 => Some(ViewDimension::TextureCubeArray),
            11u32 => Some(ViewDimension::ExtendedBuffer),
            _ => None,
        }
    }

    /// Fallible conversion from the wire value: any integer outside the
    /// enumeration's domain is rejected.
    pub fn from_u32(v: u32) -> (r: Option<ViewDimension>)
        ensures
            r == Self::spec_from_u32(v),
    {
        match v {
            0u32 => Some(ViewDimension::Unknown),
            1u32 => Some(ViewDimension::Buffer),
            2u32 => Some(ViewDimension::Texture1D),
            3u32 => Some(ViewDimension::Texture1DArray),
            4u32 => Some(ViewDimension::Texture2D),
            5u32 => Some(ViewDimension::Texture2DArray),
            6u32 => Some(ViewDimension::Texture2DMultiSampled),
            7u32 => Some(ViewDimension::Texture2DMultiSampledArray),
            8u32 => Some(ViewDimension::Texture3D),
            9u32 => Some(ViewDimension::TextureCube),
            10u32 => Some(ViewDimension::TextureCubeArray),
            11u32 => Some(ViewDimension::ExtendedBuffer),
            _ => None,
        }
    }
}

/// The kind of shader program a resource-definition chunk describes.
#[derive(Clone, Copy, Debug, PartialEq, Eq, Structural)]
pub enum ProgramType {
    Pixel,
    Vertex,
    Hull,
    Geometry,
    Domain,
    Compute,
}

impl ProgramType {
    /// The variant that the wire value `v` stands for, if any.
    pub open spec fn spec_from_u16(v: u16) -> Option<ProgramType> {
        match v {
            0xFFFFu16 => Some(ProgramType::Pixel),
            0xFFFEu16 => Some(ProgramType::Vertex),
            0x4853u16 => Some(ProgramType::Hull),
            0x4753u16 => Some(ProgramType::Geometry),
            0x4453u16 => Some(ProgramType::Domain),
            0x4353u16 => Some(ProgramType::Compute),
            _ => None,
        }
    }

    /// Fallible conversion from the wire value: any integer outside the
    /// enumeration's domain is rejected.
    pub fn from_u16(v: u16) -> (r: Option<ProgramType>)
        ensures
            r == Self::spec_from_u16(v),
    {
        match v {
            0xFFFFu16 => Some(ProgramType::Pixel),
            0xFFFEu16 => Some(ProgramType::Vertex),
            0x4853u16 => Some(ProgramType::Hull),
            0x4753u16 => Some(ProgramType::Geometry),
            0x4453u16 => Some(ProgramType::Domain),
            0x4353u16 => Some(ProgramType::Compute),
            _ => None,
        }
    }
}

/// How many bytes of inline default-value words follow a shader
/// variable's fixed header fields: `size / 4` words when the
/// default-value offset field is non-zero, none otherwise.
pub open spec fn var_default_bytes(d: Seq<u8>, o: int) -> int {
    if le_u32(d, o + 20) != 0 {
        4 * ((le_u32(d, o + 8) as int) / 4)
    } else {
        0
    }
}


/// The byte length of one shader-variable record at `o`: 24 fixed bytes,
/// the inline default-value words, and — when `major >= 5` — the four
/// texture/sampler bookkeeping words.
pub open spec fn variable_size(d: Seq<u8>, o: int, major: u8) -> int {
    24 + var_default_bytes(d, o) + if major >= 5 {
        16int
    } else {
        0int
    }
}

/// The position of the `j`-th record of a packed shader-variable array
/// starting at `o`: the records follow each other without gaps.
pub open spec fn variable_pos(d: Seq<u8>, o: int, major: u8, j: int) -> int
    decreases j,
{
    if j <= 0 {
        o
    } else {
        variable_pos(d, o, major, j - 1) + variable_size(
            d,
            variable_pos(d, o, major, j - 1),
            major,
        )
    }
}

/// The non-recursive part of [`type_wf`]: the 16-byte type record at `o`
/// fits the scope, its two enumerations validate, and (for `major >= 5`)
/// the extension block's out-of-line references resolve in scope.
pub open spec fn type_flat_wf(d: Seq<u8>, bound: int, base: int, major: u8, o: int) -> bool {
    &&& 0 <= o
    &&& o + 16 <= bound
    &&& ShaderVariableClass::spec_from_u32(le_u16(d, o) as u32) is Some
    &&& ShaderVariableType::spec_from_u32(le_u16(d, o + 2) as u32) is Some
    &&& (major >= 5 ==> {
        &&& o + 36 <= bound
        &&& (le_u32(d, o + 16) != 0 ==> spec_sat_add(base, le_u32(d, o + 16) as int) + 4 <= bound
            && ShaderVariableClass::spec_from_u32(
                le_u16(d, spec_sat_add(base, le_u32(d, o + 16) as int)) as u32,
            ) is Some)
        &&& (le_u32(d, o + 20) != 0 ==> spec_sat_add(base, le_u32(d, o + 20) as int) + 4 <= bound)
        &&& (le_u32(d, o + 28) != 0 ==> spec_sat_add(base, le_u32(d, o + 28) as int) + 4 <= bound)
        &&& (le_u32(d, o + 32) != 0 ==> str_at(
            d,
            spec_sat_add(base, le_u32(d, o + 32) as int),
            bound,
        ) is Some)
    })
}

/// Whether the type record at `o` decodes without error under recursion
/// budget `fuel`: the record itself is well formed and so is every member
/// record, recursively. A budget of the scope's size can only run out on
/// a cyclic member graph, which no well-formed chunk holds.
pub open spec fn type_wf(d: Seq<u8>, bound: int, base: int, major: u8, o: int, fuel: nat) -> bool
    decreases fuel, 1nat, 0int,
{
    &&& fuel >= 1
    &&& type_flat_wf(d, bound, base, major, o)
    &&& members_wf(
        d,
        bound,
        base,
        major,
        spec_sat_add(base, le_u32(d, o + 12) as int),
        le_u16(d, o + 10) as int,
        fuel,
    )
}

/// Whether `n` member records, packed at a 12-byte stride from `o`, all
/// decode without error under the owning type's budget `fuel`.
pub open spec fn members_wf(
    d: Seq<u8>,
    bound: int,
    base: int,
    major: u8,
    o: int,
    n: int,
    fuel: nat,
) -> bool
    decreases fuel, 0nat, n,
{
    n <= 0 || (fuel >= 1 && member_wf(d, bound, base, major, o, (fuel - 1) as nat) && members_wf(
        d,
        bound,
        base,
        major,
        o + 12,
        n - 1,
        fuel,
    ))
}

/// Whether the 12-byte member record at `o` decodes without error under
/// recursion budget `fuel`: it fits the scope, its name resolves, and its
/// type record does too.
pub open spec fn member_wf(d: Seq<u8>, bound: int, base: int, major: u8, o: int, fuel: nat) -> bool
    decreases fuel, 2nat, 0int,
{
    &&& 0 <= o
    &&& o + 12 <= bound
    &&& str_at(d, spec_sat_add(base, le_u32(d, o) as int), bound) is Some
    &&& type_wf(d, bound, base, major, spec_sat_add(base, le_u32(d, o + 4) as int), fuel)
}

/// The non-recursive part of [`type_match`]: every scalar field of `t`,
/// its member count, and the resolved extension values equal what the
/// bytes of the record at `o` hold.
pub open spec fn type_flat_match(
    d: Seq<u8>,
    bound: int,
    base: int,
    major: u8,
    o: int,
    t: ShaderType,
) -> bool {
    &&& Some(t.class) == ShaderVariableClass::spec_from_u32(le_u16(d, o) as u32)
    &&& Some(t.ty) == ShaderVariableType::spec_from_u32(le_u16(d, o + 2) as u32)
    &&& t.rows == le_u16(d, o + 4)
    &&& t.columns == le_u16(d, o + 6)
    &&& t.count == le_u16(d, o + 8)
    &&& t.members@.len() == le_u16(d, o + 10)
    &&& (major < 5 ==> t.parent_ty_class is None && t.parent_name is None && t.unknowns@[0]
        is None && t.unknowns@[1] is None && t.unknowns@[2] is None && t.unknowns@[3] is None)
    &&& (major >= 5 ==> {
        &&& (t.parent_ty_class is Some <==> le_u32(d, o + 16) != 0)
        &&& (t.unknowns@[0] is Some <==> le_u32(d, o + 16) != 0)
        &&& (t.unknowns@[1] is Some <==> le_u32(d, o + 20) != 0)
        &&& t.unknowns@[2] == Some(le_u32(d, o + 24))
        &&& (t.unknowns@[3] is Some <==> le_u32(d, o + 28) != 0)
        &&& (t.parent_name is Some <==> le_u32(d, o + 32) != 0)
        &&& (le_u32(d, o + 16) != 0 ==> t.parent_ty_class == ShaderVariableClass::spec_from_u32(
            le_u16(d, spec_sat_add(base, le_u32(d, o + 16) as int)) as u32,
        ) && t.unknowns@[0] == Some(
            le_u16(d, spec_sat_add(base, le_u32(d, o + 16) as int) + 2) as u32,
        ))
        &&& (le_u32(d, o + 20) != 0 ==> t.unknowns@[1] == Some(
            le_u32(d, spec_sat_add(base, le_u32(d, o + 20) as int)),
        ))
        &&& (le_u32(d, o + 28) != 0 ==> t.unknowns@[3] == Some(
            le_u32(d, spec_sat_add(base, le_u32(d, o + 28) as int)),
        ))
        &&& (le_u32(d, o + 32) != 0 ==> (str_at(
            d,
            spec_sat_add(base, le_u32(d, o + 32) as int),
            bound,
        ) matches Some(cs) && t.parent_name matches Some(ps) && ps@ == cs))
    })
}

/// Every field of `t` — recursively including its members — equals what
/// the bytes of the type record at `o` determine. A successful parse
/// never exhausts the budget it was given, so the whole graph is pinned.
pub open spec fn type_match(
    d: Seq<u8>,
    bound: int,
    base: int,
    major: u8,
    o: int,
    t: ShaderType,
    fuel: nat,
) -> bool
    decreases fuel, 1nat, 0int,
{
    &&& fuel >= 1
    &&& type_flat_match(d, bound, base, major, o, t)
    &&& members_match(
        d,
        bound,
        base,
        major,
        spec_sat_add(base, le_u32(d, o + 12) as int),
        t.members@,
        fuel,
    )
}

/// The members `ms`, packed at a 12-byte stride from `o`, all match what
/// their records determine under the owning type's budget `fuel`.
pub open spec fn members_match(
    d: Seq<u8>,
    bound: int,
    base: int,
    major: u8,
    o: int,
    ms: Seq<ShaderTypeMember>,
    fuel: nat,
) -> bool
    decreases fuel, 0nat, ms.len(),
{
    ms.len() == 0 || (fuel >= 1 && member_match(
        d,
        bound,
        base,
        major,
        o,
        ms[0],
        (fuel - 1) as nat,
    ) && members_match(d, bound, base, major, o + 12, ms.skip(1), fuel))
}

/// Every field of the member `m` equals what the bytes of the 12-byte
/// member record at `o` determine, recursively through its type.
pub open spec fn member_match(
    d: Seq<u8>,
    bound: int,
    base: int,
    major: u8,
    o: int,
    m: ShaderTypeMember,
    fuel: nat,
) -> bool
    decreases fuel, 2nat, 0int,
{
    &&& (str_at(d, spec_sat_add(base, le_u32(d, o) as int), bound) matches Some(cs) && m.name@
        == cs)
    &&& m.offset == le_u32(d, o + 8)
    &&& type_match(d, bound, base, major, spec_sat_add(base, le_u32(d, o + 4) as int), m.ty, fuel)
}

/// Law-support: extending a matched member prefix by one more matched
/// record extends the match to the longer prefix.
proof fn lemma_members_match_push(
    d: Seq<u8>,
    bound: int,
    base: int,
    major: u8,
    o: int,
    ms: Seq<ShaderTypeMember>,
    m: ShaderTypeMember,
    fuel: nat,
)
    requires
        fuel >= 1,
        members_match(d, bound, base, major, o, ms, fuel),
        member_match(d, bound, base, major, o + 12 * ms.len(), m, (fuel - 1) as nat),
    ensures
        members_match(d, bound, base, major, o, ms.push(m), fuel),
    decreases ms.len(),
{
    if ms.len() == 0 {
        assert(ms.push(m)[0] == m);
        assert(ms.push(m).skip(1) =~= Seq::<ShaderTypeMember>::empty());
        assert(member_match(d, bound, base, major, o, ms.push(m)[0], (fuel - 1) as nat));
        assert(members_match(
            d,
            bound,
            base,
            major,
            o + 12,
            Seq::<ShaderTypeMember>::empty(),
            fuel,
        ));
        assert(members_match(d, bound, base, major, o, ms.push(m), fuel));
    } else {
        assert(member_match(d, bound, base, major, o, ms[0], (fuel - 1) as nat));
        assert(members_match(d, bound, base, major, o + 12, ms.skip(1), fuel));
        assert(ms.skip(1).len() == ms.len() - 1);
        assert((o + 12) + 12 * ms.skip(1).len() == o + 12 * ms.len());
        lemma_members_match_push(d, bound, base, major, o + 12, ms.skip(1), m, fuel);
        assert(ms.push(m).skip(1) =~= ms.skip(1).push(m));
        assert(members_match(d, bound, base, major, o + 12, ms.push(m).skip(1), fuel));
        assert(ms.push(m)[0] == ms[0]);
        assert(members_match(d, bound, base, major, o, ms.push(m), fuel));
    }
}

/// One member of a structured shader type; members nest types to
/// arbitrary depth.
#[derive(Debug, PartialEq)]
pub struct ShaderTypeMember {
    pub name: String,
    pub ty: ShaderType,
    pub offset: u32,
}

/// The type descriptor of a shader variable, including nested members and
/// the partially understood fields of the major-version-5 extension
/// block, which are preserved verbatim rather than reinterpreted.
#[derive(Debug, PartialEq)]
pub struct ShaderType {
    pub class: ShaderVariableClass,
    pub ty: ShaderVariableType,
    pub rows: u16,
    pub columns: u16,
    pub count: u16,
    pub members: Vec<ShaderTypeMember>,
    pub parent_ty_class: Option<ShaderVariableClass>,
    pub parent_name: Option<String>,
    pub unknowns: [Option<u32>; 4],
}

impl ShaderTypeMember {
    /// Decodes one member record at the cursor: a name offset, a type
    /// offset, and the member's byte offset within the owning type. The
    /// record is 12 bytes; the name and the nested type are resolved
    /// through sibling views against the chunk-body start `base`.
    /// Decoding succeeds exactly when the record is well formed in scope.
    pub fn parse(decoder: &mut Decoder<'_>, base: usize, major: u8) -> (r: Result<
        ShaderTypeMember,
        State,
    >)
        requires
            old(decoder).wf(),
        ensures
            final(decoder).wf(),
            (r is Ok) == member_wf(
                old(decoder)@.data,
                old(decoder)@.bound,
                base as int,
                major,
                old(decoder)@.offset,
                old(decoder)@.bound as nat,
            ),
            r matches Ok(m) ==> (member_match(
                old(decoder)@.data,
                old(decoder)@.bound,
                base as int,
                major,
                old(decoder)@.offset,
                m,
                old(decoder)@.bound as nat,
            ) && final(decoder)@ == old(decoder)@.advanced(12)),
            r matches Err(s) ==> s matches State::DecoderError(_),
    {
        let fuel = decoder.scope_end();
        Self::parse_bounded(decoder, base, major, fuel)
    }

    /// The recursion-bounded worker behind [`ShaderTypeMember::parse`].
    fn parse_bounded(decoder: &mut Decoder<'_>, base: usize, major: u8, fuel: usize) -> (r: Result<
        ShaderTypeMember,
        State,
    >)
        requires
            old(decoder).wf(),
        ensures
            final(decoder).wf(),
            (r is Ok) == member_wf(
                old(decoder)@.data,
                old(decoder)@.bound,
                base as int,
                major,
                old(decoder)@.offset,
                fuel as nat,
            ),
            r matches Ok(m) ==> (member_match(
                old(decoder)@.data,
                old(decoder)@.bound,
                base as int,
                major,
                old(decoder)@.offset,
                m,
                fuel as nat,
            ) && final(decoder)@ == old(decoder)@.advanced(12)),
            r matches Err(s) ==> s matches State::DecoderError(_),
        decreases fuel, 1int,
    {
        let name_offset = read_word(decoder)?;
        let ty_offset = read_word(decoder)?;
        let offset = read_word(decoder)?;
        let name = read_str_at(decoder, sat_add(base, name_offset as usize))?;
        let mut ty_decoder = decoder.seek(sat_add(base, ty_offset as usize));
        let ty = ShaderType::parse_bounded(&mut ty_decoder, base, major, fuel)?;
        Ok(ShaderTypeMember { name, ty, offset })
    }
}

impl ShaderType {
    /// Decodes one type record at the cursor: validated class and
    /// element-type tags, row/column/array counts, and the member list at
    /// the record's member-array offset — each member recursively
    /// embedding another type. When `major >= 5` an extension block
    /// follows the fixed fields: a parent-type reference, three reserved
    /// words resolved exactly as laid down, and a parent-name offset.
    ///
    /// Decoding succeeds exactly when the record is well formed in scope
    /// ([`type_wf`]); every field of the result, recursively through the
    /// member graph, is then the one the bytes determine ([`type_match`]).
    /// The cursor ends at the end of the member array. A member graph
    /// nested deeper than the scope could hold distinct records is
    /// rejected with a decode failure rather than followed.
    pub fn parse(decoder: &mut Decoder<'_>, base: usize, major: u8) -> (r: Result<
        ShaderType,
        State,
    >)
        requires
            old(decoder).wf(),
        ensures
            final(decoder).wf(),
            (r is Ok) == type_wf(
                old(decoder)@.data,
                old(decoder)@.bound,
                base as int,
                major,
                old(decoder)@.offset,
                old(decoder)@.bound as nat,
            ),
            r matches Ok(t) ==> (type_match(
                old(decoder)@.data,
                old(decoder)@.bound,
                base as int,
                major,
                old(decoder)@.offset,
                t,
                old(decoder)@.bound as nat,
            ) && final(decoder)@ == old(decoder)@.at(
                spec_sat_add(
                    base as int,
                    le_u32(old(decoder)@.data, old(decoder)@.offset + 12) as int,
                ) + 12 * (le_u16(old(decoder)@.data, old(decoder)@.offset + 10) as int),
            )),
            old(decoder)@.can_read(2) && ShaderVariableClass::spec_from_u32(
                le_u16(old(decoder)@.data, old(decoder)@.offset) as u32,
            ) is None ==> r == Err::<ShaderType, State>(
                State::DecoderError(Error::DecodeEnumFailed((old(decoder)@.offset + 2) as usize)),
            ),
            old(decoder)@.can_read(4) && ShaderVariableClass::spec_from_u32(
                le_u16(old(decoder)@.data, old(decoder)@.offset) as u32,
            ) is Some && ShaderVariableType::spec_from_u32(
                le_u16(old(decoder)@.data, old(decoder)@.offset + 2) as u32,
            ) is None ==> r == Err::<ShaderType, State>(
                State::DecoderError(Error::DecodeEnumFailed((old(decoder)@.offset + 4) as usize)),
            ),
            r matches Err(s) ==> s matches State::DecoderError(_),
    {
        let fuel = decoder.scope_end();
        Self::parse_bounded(decoder, base, major, fuel)
    }

    /// The recursion-bounded worker behind [`ShaderType::parse`]: `fuel`
    /// shrinks at each nesting level, and a well-formed (acyclic) member
    /// graph inside the scope can never exhaust it.
    #[verifier::rlimit(100)]
    fn parse_bounded(decoder: &mut Decoder<'_>, base: usize, major: u8, fuel: usize) -> (r: Result<
        ShaderType,
        State,
    >)
        requires
            old(decoder).wf(),
        ensures
            final(decoder).wf(),
            (r is Ok) == type_wf(
                old(decoder)@.data,
                old(decoder)@.bound,
                base as int,
                major,
                old(decoder)@.offset,
                fuel as nat,
            ),
            r matches Ok(t) ==> (type_match(
                old(decoder)@.data,
                old(decoder)@.bound,
                base as int,
                major,
                old(decoder)@.offset,
                t,
                fuel as nat,
            ) && final(decoder)@ == old(decoder)@.at(
                spec_sat_add(
                    base as int,
                    le_u32(old(decoder)@.data, old(decoder)@.offset + 12) as int,
                ) + 12 * (le_u16(old(decoder)@.data, old(decoder)@.offset + 10) as int),
            )),
            fuel >= 1 && old(decoder)@.can_read(2) && ShaderVariableClass::spec_from_u32(
                le_u16(old(decoder)@.data, old(decoder)@.offset) as u32,
            ) is None ==> r == Err::<ShaderType, State>(
                State::DecoderError(Error::DecodeEnumFailed((old(decoder)@.offset + 2) as usize)),
            ),
            fuel >= 1 && old(decoder)@.can_read(4) && ShaderVariableClass::spec_from_u32(
                le_u16(old(decoder)@.data, old(decoder)@.offset) as u32,
            ) is Some && ShaderVariableType::spec_from_u32(
                le_u16(old(decoder)@.data, old(decoder)@.offset + 2) as u32,
            ) is None ==> r == Err::<ShaderType, State>(
                State::DecoderError(Error::DecodeEnumFailed((old(decoder)@.offset + 4) as usize)),
            ),
            r matches Err(s) ==> s matches State::DecoderError(_),
        decreases fuel, 0int,
    {
        let ghost d = decoder@.data;
        let ghost b = decoder@.bound;
        let ghost o0 = decoder@.offset;
        if fuel == 0 {
            // the member graph is deeper than distinct records in scope
            // could make it: it must hold a cycle
            return Err(State::DecoderError(Error::LimitReached(decoder.get_offset())));
        }
        let class_w = read_half(decoder)?;
        let class = match ShaderVariableClass::from_u32(class_w as u32) {
            Some(c) => c,
            None => {
                return Err(State::DecoderError(Error::DecodeEnumFailed(decoder.get_offset())));
            },
        };
        let ty_w = read_half(decoder)?;
        let ty = match ShaderVariableType::from_u32(ty_w as u32) {
            Some(t) => t,
            None => {
                return Err(State::DecoderError(Error::DecodeEnumFailed(decoder.get_offset())));
            },
        };
        let rows = read_half(decoder)?;
        let columns = read_half(decoder)?;
        let count = read_half(decoder)?;
        let member_count = read_half(decoder)?;
        let member_offset = read_word(decoder)?;
        let mut parent_ty_class: Option<ShaderVariableClass> = None;
        let mut parent_name: Option<String> = None;
        let mut unknown_0: Option<u32> = None;
        let mut unknown_1: Option<u32> = None;
        let mut unknown_2: Option<u32> = None;
        let mut unknown_3: Option<u32> = None;
        if major >= 5 {
            let parent_ty_offset = read_word(decoder)?;
            if parent_ty_offset != 0 {
                let mut parent_decoder = decoder.seek(sat_add(base, parent_ty_offset as usize));
                let parent_w = match parent_decoder.read_u16() {
                    Ok(v) => v,
                    Err(e) => {
                        return Err(State::DecoderError(e));
                    },
                };
                let parent_class = match ShaderVariableClass::from_u32(parent_w as u32) {
                    Some(c) => c,
                    None => {
                        return Err(
                            State::DecoderError(
                                Error::DecodeEnumFailed(parent_decoder.get_offset()),
                            ),
                        );
                    },
                };
                parent_ty_class = Some(parent_class);
                let reserved_w = match parent_decoder.read_u16() {
                    Ok(v) => v,
                    Err(e) => {
                        return Err(State::DecoderError(e));
                    },
                };
                unknown_0 = Some(reserved_w as u32);
            }
            let unknown_2_offset = read_word(decoder)?;
            if unknown_2_offset != 0 {
                let mut unknown_decoder = decoder.seek(sat_add(base, unknown_2_offset as usize));
                let w = match unknown_decoder.read_u32() {
                    Ok(v) => v,
                    Err(e) => {
                        return Err(State::DecoderError(e));
                    },
                };
                unknown_1 = Some(w);
            }
            unknown_2 = Some(read_word(decoder)?);
            let unknown_5_offset = read_word(decoder)?;
            if unknown_5_offset != 0 {
                let mut unknown_decoder = decoder.seek(sat_add(base, unknown_5_offset as usize));
                let w = match unknown_decoder.read_u32() {
                    Ok(v) => v,
                    Err(e) => {
                        return Err(State::DecoderError(e));
                    },
                };
                unknown_3 = Some(w);
            }
            let parent_name_offset = read_word(decoder)?;
            if parent_name_offset != 0 {
                let s = read_str_at(decoder, sat_add(base, parent_name_offset as usize))?;
                parent_name = Some(s);
            }
        }
        let member_base = sat_add(base, member_offset as usize);
        decoder.seek_mut(member_base);
        let member_total = member_count as usize;
        let mut members: Vec<ShaderTypeMember> = Vec::new();
        let mut i: usize = 0;
        while i < member_total
            invariant
                decoder.wf(),
                fuel >= 1,
                i <= member_total,
                members@.len() == i,
                decoder@.data == d,
                decoder@.bound == b,
                d == old(decoder)@.data,
                b == old(decoder)@.bound,
                o0 == old(decoder)@.offset,
                decoder@.offset == member_base + 12 * i,
                member_base as int == spec_sat_add(base as int, le_u32(d, o0 + 12) as int),
                member_total == le_u16(d, o0 + 10),
                type_flat_wf(d, b, base as int, major, o0),
                ShaderVariableClass::spec_from_u32(le_u16(d, o0) as u32) == Some(class),
                ShaderVariableType::spec_from_u32(le_u16(d, o0 + 2) as u32) == Some(ty),
                rows == le_u16(d, o0 + 4),
                columns == le_u16(d, o0 + 6),
                count == le_u16(d, o0 + 8),
                major < 5 ==> parent_ty_class is None && parent_name is None && unknown_0 is None
                    && unknown_1 is None && unknown_2 is None && unknown_3 is None,
                major >= 5 ==> {
                    &&& (parent_ty_class is Some <==> le_u32(d, o0 + 16) != 0)
                    &&& (unknown_0 is Some <==> le_u32(d, o0 + 16) != 0)
                    &&& (unknown_1 is Some <==> le_u32(d, o0 + 20) != 0)
                    &&& unknown_2 == Some(le_u32(d, o0 + 24))
                    &&& (unknown_3 is Some <==> le_u32(d, o0 + 28) != 0)
                    &&& (parent_name is Some <==> le_u32(d, o0 + 32) != 0)
                    &&& (le_u32(d, o0 + 16) != 0 ==> parent_ty_class
                        == ShaderVariableClass::spec_from_u32(
                        le_u16(d, spec_sat_add(base as int, le_u32(d, o0 + 16) as int)) as u32,
                    ) && unknown_0 == Some(
                        le_u16(d, spec_sat_add(base as int, le_u32(d, o0 + 16) as int) + 2) as u32,
                    ))
                    &&& (le_u32(d, o0 + 20) != 0 ==> unknown_1 == Some(
                        le_u32(d, spec_sat_add(base as int, le_u32(d, o0 + 20) as int)),
                    ))
                    &&& (le_u32(d, o0 + 28) != 0 ==> unknown_3 == Some(
                        le_u32(d, spec_sat_add(base as int, le_u32(d, o0 + 28) as int)),
                    ))
                    &&& (le_u32(d, o0 + 32) != 0 ==> (str_at(
                        d,
                        spec_sat_add(base as int, le_u32(d, o0 + 32) as int),
                        b,
                    ) matches Some(cs) && parent_name matches Some(ps) && ps@ == cs))
                },
                members_wf(
                    d,
                    b,
                    base as int,
                    major,
                    member_base as int,
                    member_total as int,
                    fuel as nat,
                ) == members_wf(
                    d,
                    b,
                    base as int,
                    major,
                    member_base as int + 12 * i,
                    member_total - i,
                    fuel as nat,
                ),
                members_match(d, b, base as int, major, member_base as int, members@, fuel as nat),
            decreases member_total - i,
        {
            let ghost cur = decoder@.offset;
            proof {
                assert(cur == spec_sat_add(base as int, le_u32(d, o0 + 12) as int) + 12 * (
                i as int));
            }
            let m = match ShaderTypeMember::parse_bounded(decoder, base, major, (fuel - 1)) {
                Ok(m) => m,
                Err(s) => {
                    proof {
                        assert(!member_wf(d, b, base as int, major, cur, (fuel - 1) as nat));
                        assert(!members_wf(
                            d,
                            b,
                            base as int,
                            major,
                            cur,
                            member_total - i,
                            fuel as nat,
                        ));
                        assert(!members_wf(
                            d,
                            b,
                            base as int,
                            major,
                            member_base as int,
                            member_total as int,
                            fuel as nat,
                        ));
                        assert(!type_wf(d, b, base as int, major, o0, fuel as nat));
                    }
                    return Err(s);
                },
            };
            proof {
                assert(member_wf(d, b, base as int, major, cur, (fuel - 1) as nat));
                assert(members_wf(d, b, base as int, major, cur, member_total - i, fuel as nat)
                    == members_wf(
                    d,
                    b,
                    base as int,
                    major,
                    cur + 12,
                    member_total - (i + 1),
                    fuel as nat,
                ));
                assert(member_match(d, b, base as int, major, cur, m, (fuel - 1) as nat));
                assert(members@.len() == i && cur == member_base as int + 12 * (
                members@.len() as int));
                lemma_members_match_push(
                    d,
                    b,
                    base as int,
                    major,
                    member_base as int,
                    members@,
                    m,
                    fuel as nat,
                );
            }
            members.push(m);
            i = i + 1;
        }
        let unknowns = [unknown_0, unknown_1, unknown_2, unknown_3];
        proof {
            assert(members_wf(
                d,
                b,
                base as int,
                major,
                member_base as int + 12 * (member_total as int),
                0int,
                fuel as nat,
            ));
            assert(members_wf(
                d,
                b,
                base as int,
                major,
                member_base as int,
                member_total as int,
                fuel as nat,
            ));
            assert(type_wf(d, b, base as int, major, o0, fuel as nat));
        }
        Ok(
            ShaderType {
                class,
                ty,
                rows,
                columns,
                count,
                members,
                parent_ty_class,
                parent_name,
                unknowns,
            },
        )
    }
}


/// Whether the variable record at `o` decodes without error: it fits the
/// scope, its name resolves, its type record is well formed, and the
/// inline default words and (for `major >= 5`) bookkeeping words fit.
pub open spec fn variable_wf(d: Seq<u8>, bound: int, base: int, major: u8, o: int) -> bool {
    &&& 0 <= o
    &&& o + 24 <= bound
    &&& str_at(d, spec_sat_add(base, le_u32(d, o) as int), bound) is Some
    &&& type_wf(d, bound, base, major, spec_sat_add(base, le_u32(d, o + 16) as int), bound as nat)
    &&& (le_u32(d, o + 20) != 0 ==> o + 24 + 4 * ((le_u32(d, o + 8) as int) / 4) <= bound)
    &&& (major >= 5 ==> o + 24 + var_default_bytes(d, o) + 16 <= bound)
}

/// Every field of the variable `v` equals what the bytes of the record at
/// `o` determine, recursively through its type.
pub open spec fn variable_match(
    d: Seq<u8>,
    bound: int,
    base: int,
    major: u8,
    o: int,
    v: ShaderVariable,
) -> bool {
    &&& (str_at(d, spec_sat_add(base, le_u32(d, o) as int), bound) matches Some(cs) && v.name@
        == cs)
    &&& v.offset == le_u32(d, o + 4)
    &&& v.size == le_u32(d, o + 8)
    &&& v.flags.bits == le_u32(d, o + 12) & 0xf
    &&& type_match(
        d,
        bound,
        base,
        major,
        spec_sat_add(base, le_u32(d, o + 16) as int),
        v.ty,
        bound as nat,
    )
    &&& v.default_value@.len() == (if le_u32(d, o + 20) != 0 {
        (le_u32(d, o + 8) / 4) as int
    } else {
        0int
    })
    &&& (le_u32(d, o + 20) != 0 ==> (forall|k: int|
        0 <= k < v.default_value@.len() ==> #[trigger] v.default_value@[k] == le_u32(
            d,
            o + 24 + 4 * k,
        )))
    &&& (v.start_texture is Some <==> major >= 5)
    &&& (v.texture_size is Some <==> major >= 5)
    &&& (v.start_sampler is Some <==> major >= 5)
    &&& (v.sampler_size is Some <==> major >= 5)
    &&& (major >= 5 ==> v.start_texture == Some(le_u32(d, o + 24 + var_default_bytes(d, o)))
        && v.texture_size == Some(le_u32(d, o + 28 + var_default_bytes(d, o))) && v.start_sampler
        == Some(le_u32(d, o + 32 + var_default_bytes(d, o))) && v.sampler_size == Some(
        le_u32(d, o + 36 + var_default_bytes(d, o)),
    ))
}

/// Whether `n` variable records, packed without gaps from `o`, all decode
/// without error.
pub open spec fn variables_wf(
    d: Seq<u8>,
    bound: int,
    base: int,
    major: u8,
    o: int,
    n: int,
) -> bool
    decreases n,
{
    n <= 0 || (variable_wf(d, bound, base, major, o) && variables_wf(
        d,
        bound,
        base,
        major,
        o + variable_size(d, o, major),
        n - 1,
    ))
}

/// Whether the constant-buffer record at `o` decodes without error: the
/// 24-byte record fits the scope, its name resolves, and its declared
/// variable array decodes.
pub open spec fn constant_buffer_wf(
    d: Seq<u8>,
    bound: int,
    base: int,
    major: u8,
    o: int,
) -> bool {
    &&& 0 <= o
    &&& o + 24 <= bound
    &&& str_at(d, spec_sat_add(base, le_u32(d, o) as int), bound) is Some
    &&& variables_wf(
        d,
        bound,
        base,
        major,
        spec_sat_add(base, le_u32(d, o + 8) as int),
        le_u32(d, o + 4) as int,
    )
}

/// Every field of the constant buffer `cb` — including every variable of
/// its packed array — equals what the bytes of the record at `o`
/// determine.
pub open spec fn constant_buffer_match(
    d: Seq<u8>,
    bound: int,
    base: int,
    major: u8,
    o: int,
    cb: ConstantBuffer,
) -> bool {
    &&& (str_at(d, spec_sat_add(base, le_u32(d, o) as int), bound) matches Some(cs) && cb.name@
        == cs)
    &&& cb.variables@.len() == le_u32(d, o + 4)
    &&& cb.size == le_u32(d, o + 12)
    &&& cb.flags.bits == le_u32(d, o + 16) & 0x1
    &&& cb.ty == le_u32(d, o + 20)
    &&& (forall|j: int|
        0 <= j < cb.variables@.len() ==> variable_match(
            d,
            bound,
            base,
            major,
            variable_pos(d, spec_sat_add(base, le_u32(d, o + 8) as int), major, j),
            #[trigger] cb.variables@[j],
        ))
}

/// Whether the 32-byte binding record at `o` decodes without error: it
/// fits the scope, its three enumerations validate, and its name
/// resolves.
pub open spec fn binding_wf(d: Seq<u8>, bound: int, base: int, o: int) -> bool {
    &&& 0 <= o
    &&& o + 32 <= bound
    &&& ShaderInputType::spec_from_u32(le_u32(d, o + 4)) is Some
    &&& ResourceReturnType::spec_from_u32(le_u32(d, o + 8)) is Some
    &&& ViewDimension::spec_from_u32(le_u32(d, o + 12)) is Some
    &&& str_at(d, spec_sat_add(base, le_u32(d, o) as int), bound) is Some
}

/// Every field of the binding `rb` equals what the bytes of the 32-byte
/// record at `o` determine.
pub open spec fn binding_match(
    d: Seq<u8>,
    bound: int,
    base: int,
    o: int,
    rb: ResourceBinding,
) -> bool {
    &&& (str_at(d, spec_sat_add(base, le_u32(d, o) as int), bound) matches Some(cs) && rb.name@
        == cs)
    &&& Some(rb.input_type) == ShaderInputType::spec_from_u32(le_u32(d, o + 4))
    &&& Some(rb.return_type) == ResourceReturnType::spec_from_u32(le_u32(d, o + 8))
    &&& Some(rb.view_dimension) == ViewDimension::spec_from_u32(le_u32(d, o + 12))
    &&& rb.sample_count == le_u32(d, o + 16)
    &&& rb.bind_point == le_u32(d, o + 20)
    &&& rb.bind_count == le_u32(d, o + 24)
    &&& rb.input_flags.bits == le_u32(d, o + 28) & 0x1f
}

/// Whether `n` constant-buffer records, packed at a 24-byte stride from
/// `o`, all decode without error.
pub open spec fn constant_buffers_wf(
    d: Seq<u8>,
    bound: int,
    base: int,
    major: u8,
    o: int,
    n: int,
) -> bool
    decreases n,
{
    n <= 0 || (constant_buffer_wf(d, bound, base, major, o) && constant_buffers_wf(
        d,
        bound,
        base,
        major,
        o + 24,
        n - 1,
    ))
}

/// Whether `n` binding records, packed at a 32-byte stride from `o`, all
/// decode without error.
pub open spec fn bindings_wf(d: Seq<u8>, bound: int, base: int, o: int, n: int) -> bool
    decreases n,
{
    n <= 0 || (binding_wf(d, bound, base, o) && bindings_wf(d, bound, base, o + 32, n - 1))
}

/// Whether the resource-definition chunk whose body starts at `o` decodes
/// without error: the preamble fits its scope, the program type
/// validates, the extension block (for major versions of at least 5)
/// fits, both record arrays decode, and the author name resolves.
pub open spec fn rdef_wf(d: Seq<u8>, bound: int, o: int) -> bool {
    &&& 0 <= o
    &&& o + 28 <= bound
    &&& ProgramType::spec_from_u16(le_u16(d, o + 18)) is Some
    &&& (d[o + 17] >= 5 ==> o + 60 <= bound)
    &&& constant_buffers_wf(
        d,
        bound,
        o,
        d[o + 17],
        spec_sat_add(o, le_u32(d, o + 4) as int),
        le_u32(d, o) as int,
    )
    &&& bindings_wf(d, bound, o, spec_sat_add(o, le_u32(d, o + 12) as int), le_u32(d, o + 8) as int)
    &&& str_at(d, spec_sat_add(o, le_u32(d, o + 24) as int), bound) is Some
}

/// One shader variable of a constant buffer.
#[derive(Debug, PartialEq)]
pub struct ShaderVariable {
    pub name: String,
    pub offset: u32,
    pub size: u32,
    pub flags: ShaderVariableFlags,
    pub ty: ShaderType,
    pub default_value: Vec<u32>,
    pub start_texture: Option<u32>,
    pub texture_size: Option<u32>,
    pub start_sampler: Option<u32>,
    pub sampler_size: Option<u32>,
}

impl ShaderVariable {
    /// Decodes one variable record at the cursor: name offset, byte
    /// offset, byte size, flag set (unknown bits discarded), type offset,
    /// and default-value offset. When the default-value offset is
    /// non-zero, `size / 4` words follow the fixed fields positionally —
    /// a layout quirk, not a pointer dereference. When `major >= 5`, four
    /// texture/sampler bookkeeping words follow the default-value area.
    /// Decoding succeeds exactly when the record is well formed in scope.
    pub fn parse(decoder: &mut Decoder<'_>, base: usize, major: u8) -> (r: Result<
        ShaderVariable,
        State,
    >)
        requires
            old(decoder).wf(),
        ensures
            final(decoder).wf(),
            (r is Ok) == variable_wf(
                old(decoder)@.data,
                old(decoder)@.bound,
                base as int,
                major,
                old(decoder)@.offset,
            ),
            r matches Ok(v) ==> (variable_match(
                old(decoder)@.data,
                old(decoder)@.bound,
                base as int,
                major,
                old(decoder)@.offset,
                v,
            ) && final(decoder)@ == old(decoder)@.advanced(
                variable_size(old(decoder)@.data, old(decoder)@.offset, major),
            )),
            r matches Err(s) ==> s matches State::DecoderError(_),
    {
        let name_offset = read_word(decoder)?;
        let offset = read_word(decoder)?;
        let size = read_word(decoder)?;
        let flags_w = read_word(decoder)?;
        let flags = ShaderVariableFlags::from_bits_truncate(flags_w);
        let ty_offset = read_word(decoder)?;
        let default_offset = read_word(decoder)?;
        let name = read_str_at(decoder, sat_add(base, name_offset as usize))?;
        let mut ty_decoder = decoder.seek(sat_add(base, ty_offset as usize));
        let ty = ShaderType::parse(&mut ty_decoder, base, major)?;
        let values_count = (size / 4) as usize;
        let default_value: Vec<u32> = if default_offset != 0 {
            match decoder.words(values_count) {
                Ok(v) => v,
                Err(e) => {
                    return Err(State::DecoderError(e));
                },
            }
        } else {
            Vec::new()
        };
        let mut start_texture: Option<u32> = None;
        let mut texture_size: Option<u32> = None;
        let mut start_sampler: Option<u32> = None;
        let mut sampler_size: Option<u32> = None;
        if major >= 5 {
            start_texture = Some(read_word(decoder)?);
            texture_size = Some(read_word(decoder)?);
            start_sampler = Some(read_word(decoder)?);
            sampler_size = Some(read_word(decoder)?);
        }
        Ok(
            ShaderVariable {
                name,
                offset,
                size,
                flags,
                ty,
                default_value,
                start_texture,
                texture_size,
                start_sampler,
                sampler_size,
            },
        )
    }
}

/// One constant buffer of a resource-definition chunk.
#[derive(Debug, PartialEq)]
pub struct ConstantBuffer {
    pub name: String,
    pub variables: Vec<ShaderVariable>,
    pub size: u32,
    pub flags: ConstantBufferFlags,
    pub ty: u32,
}

impl ConstantBuffer {
    /// Decodes one constant-buffer record at the cursor: name offset,
    /// variable count, variable-array offset, size, flags (unknown bits
    /// discarded), and the raw buffer-type tag. The declared number of
    /// variable records is parsed as a packed array starting at the
    /// variable-array offset. The cursor ends 24 bytes after the record's
    /// start, so sibling records decode back to back. Decoding succeeds
    /// exactly when the record and its variable array are well formed.
    pub fn parse(decoder: &mut Decoder<'_>, base: usize, major: u8) -> (r: Result<
        ConstantBuffer,
        State,
    >)
        requires
            old(decoder).wf(),
        ensures
            final(decoder).wf(),
            (r is Ok) == constant_buffer_wf(
                old(decoder)@.data,
                old(decoder)@.bound,
                base as int,
                major,
                old(decoder)@.offset,
            ),
            r matches Ok(cb) ==> (constant_buffer_match(
                old(decoder)@.data,
                old(decoder)@.bound,
                base as int,
                major,
                old(decoder)@.offset,
                cb,
            ) && final(decoder)@ == old(decoder)@.advanced(24)),
            r matches Err(s) ==> s matches State::DecoderError(_),
    {
        let ghost d = decoder@.data;
        let ghost b = decoder@.bound;
        let ghost o0 = decoder@.offset;
        let name_offset = read_word(decoder)?;
        let var_count = read_word(decoder)?;
        let var_offset = read_word(decoder)?;
        let size = read_word(decoder)?;
        let flags_w = read_word(decoder)?;
        let ty = read_word(decoder)?;
        let name = read_str_at(decoder, sat_add(base, name_offset as usize))?;
        let var_base = sat_add(base, var_offset as usize);
        let mut var_decoder = decoder.seek(var_base);
        let var_total = var_count as usize;
        let mut variables: Vec<ShaderVariable> = Vec::new();
        let mut i: usize = 0;
        while i < var_total
            invariant
                decoder.wf(),
                decoder@ == old(decoder)@.advanced(24),
                d == old(decoder)@.data,
                b == old(decoder)@.bound,
                o0 == old(decoder)@.offset,
                var_decoder.wf(),
                var_decoder@.data == d,
                var_decoder@.bound == b,
                var_base as int == spec_sat_add(base as int, le_u32(d, o0 + 8) as int),
                var_total == le_u32(d, o0 + 4),
                i <= var_total,
                variables@.len() == i,
                var_decoder@.offset == variable_pos(d, var_base as int, major, i as int),
                variables_wf(d, b, base as int, major, var_base as int, var_total as int)
                    == variables_wf(
                    d,
                    b,
                    base as int,
                    major,
                    var_decoder@.offset,
                    var_total - i,
                ),
                forall|j: int|
                    0 <= j < i ==> variable_match(
                        d,
                        b,
                        base as int,
                        major,
                        variable_pos(d, var_base as int, major, j),
                        #[trigger] variables@[j],
                    ),
            decreases var_total - i,
        {
            let ghost cur = var_decoder@.offset;
            let v = match ShaderVariable::parse(&mut var_decoder, base, major) {
                Ok(v) => v,
                Err(s) => {
                    proof {
                        assert(!variable_wf(d, b, base as int, major, cur));
                        assert(!variables_wf(d, b, base as int, major, cur, var_total - i));
                        assert(!variables_wf(
                            d,
                            b,
                            base as int,
                            major,
                            var_base as int,
                            var_total as int,
                        ));
                        assert(!constant_buffer_wf(d, b, base as int, major, o0));
                    }
                    return Err(s);
                },
            };
            proof {
                assert(variable_wf(d, b, base as int, major, cur));
                assert(variables_wf(d, b, base as int, major, cur, var_total - i)
                    == variables_wf(
                    d,
                    b,
                    base as int,
                    major,
                    cur + variable_size(d, cur, major),
                    var_total - (i + 1),
                ));
                assert(variable_pos(d, var_base as int, major, i + 1) == variable_pos(
                    d,
                    var_base as int,
                    major,
                    i as int,
                ) + variable_size(d, variable_pos(d, var_base as int, major, i as int), major));
                assert(variable_match(d, b, base as int, major, cur, v));
            }
            variables.push(v);
            i = i + 1;
        }
        proof {
            assert(variables_wf(
                d,
                b,
                base as int,
                major,
                variable_pos(d, var_base as int, major, var_total as int),
                0int,
            ));
            assert(variables_wf(d, b, base as int, major, var_base as int, var_total as int));
            assert(constant_buffer_wf(d, b, base as int, major, o0));
        }
        Ok(
            ConstantBuffer {
                name,
                variables,
                size,
                flags: ConstantBufferFlags::from_bits_truncate(flags_w),
                ty,
            },
        )
    }
}

/// One resource binding of a resource-definition chunk.
#[derive(Debug, PartialEq)]
pub struct ResourceBinding {
    pub name: String,
    pub input_type: ShaderInputType,
    pub return_type: ResourceReturnType,
    pub view_dimension: ViewDimension,
    pub sample_count: u32,
    pub bind_point: u32,
    pub bind_count: u32,
    pub input_flags: ShaderInputFlags,
}

impl ResourceBinding {
    /// Decodes one 32-byte binding record at the cursor. The three
    /// enumerated fields reject unmapped integers; the flag set discards
    /// unmapped bits. Decoding succeeds exactly when the record fits the
    /// scope, the three enumerations validate, and the name resolves; an
    /// unmapped enumeration integer fails with `DecodeEnumFailed` at the
    /// offending field.
    pub fn parse(decoder: &mut Decoder<'_>, base: usize) -> (r: Result<ResourceBinding, State>)
        requires
            old(decoder).wf(),
        ensures
            final(decoder).wf(),
            (r is Ok) == binding_wf(
                old(decoder)@.data,
                old(decoder)@.bound,
                base as int,
                old(decoder)@.offset,
            ),
            r matches Ok(rb) ==> (binding_match(
                old(decoder)@.data,
                old(decoder)@.bound,
                base as int,
                old(decoder)@.offset,
                rb,
            ) && final(decoder)@ == old(decoder)@.advanced(32)),
            old(decoder)@.can_read(8) && ShaderInputType::spec_from_u32(
                le_u32(old(decoder)@.data, old(decoder)@.offset + 4),
            ) is None ==> r == Err::<ResourceBinding, State>(
                State::DecoderError(Error::DecodeEnumFailed((old(decoder)@.offset + 8) as usize)),
            ),
            old(decoder)@.can_read(12) && ShaderInputType::spec_from_u32(
                le_u32(old(decoder)@.data, old(decoder)@.offset + 4),
            ) is Some && ResourceReturnType::spec_from_u32(
                le_u32(old(decoder)@.data, old(decoder)@.offset + 8),
            ) is None ==> r == Err::<ResourceBinding, State>(
                State::DecoderError(Error::DecodeEnumFailed((old(decoder)@.offset + 12) as usize)),
            ),
            old(decoder)@.can_read(16) && ShaderInputType::spec_from_u32(
                le_u32(old(decoder)@.data, old(decoder)@.offset + 4),
            ) is Some && ResourceReturnType::spec_from_u32(
                le_u32(old(decoder)@.data, old(decoder)@.offset + 8),
            ) is Some && ViewDimension::spec_from_u32(
                le_u32(old(decoder)@.data, old(decoder)@.offset + 12),
            ) is None ==> r == Err::<ResourceBinding, State>(
                State::DecoderError(Error::DecodeEnumFailed((old(decoder)@.offset + 16) as usize)),
            ),
            r matches Err(s) ==> s matches State::DecoderError(_),
    {
        let name_offset = read_word(decoder)?;
        let input_w = read_word(decoder)?;
        let input_type = match ShaderInputType::from_u32(input_w) {
            Some(v) => v,
            None => {
                return Err(State::DecoderError(Error::DecodeEnumFailed(decoder.get_offset())));
            },
        };
        let return_w = read_word(decoder)?;
        let return_type = match ResourceReturnType::from_u32(return_w) {
            Some(v) => v,
            None => {
                return Err(State::DecoderError(Error::DecodeEnumFailed(decoder.get_offset())));
            },
        };
        let view_w = read_word(decoder)?;
        let view_dimension = match ViewDimension::from_u32(view_w) {
            Some(v) => v,
            None => {
                return Err(State::DecoderError(Error::DecodeEnumFailed(decoder.get_offset())));
            },
        };
        let sample_count = read_word(decoder)?;
        let bind_point = read_word(decoder)?;
        let bind_count = read_word(decoder)?;
        let flags_w = read_word(decoder)?;
        let input_flags = ShaderInputFlags::from_bits_truncate(flags_w);
        let name = read_str_at(decoder, sat_add(base, name_offset as usize))?;
        Ok(
            ResourceBinding {
                name,
                input_type,
                return_type,
                view_dimension,
                sample_count,
                bind_point,
                bind_count,
                input_flags,
            },
        )
    }
}

/// A decoded resource-definition chunk.
#[derive(Debug, PartialEq)]
pub struct RdefChunk {
    pub constant_buffers: Vec<ConstantBuffer>,
    pub resource_bindings: Vec<ResourceBinding>,
    pub program_ty: ProgramType,
    pub minor: u8,
    pub major: u8,
    pub flags: u32,
    pub author: String,
    pub rd11: Option<[u32; 7]>,
}

impl RdefChunk {
    /// Decodes the resource-definition chunk whose body starts at the
    /// cursor of its bounded view: counts and offsets of the
    /// constant-buffer and binding arrays, version bytes, the validated
    /// program type, flags, the author name, and — exactly when the major
    /// version is at least 5 — an extension marker word (not validated;
    /// reserved for forward compatibility) followed by seven reserved
    /// words kept verbatim. Decoding succeeds exactly when the whole
    /// chunk, including both record arrays, is well formed in scope; every
    /// record of the result is then the one its bytes determine.
    pub fn parse(decoder: &mut Decoder<'_>) -> (r: Result<RdefChunk, State>)
        requires
            old(decoder).wf(),
        ensures
            final(decoder).wf(),
            (r is Ok) == rdef_wf(old(decoder)@.data, old(decoder)@.bound, old(decoder)@.offset),
            r matches Ok(c) ==> ({
                let d = old(decoder)@.data;
                let o = old(decoder)@.offset;
                &&& c.constant_buffers@.len() == le_u32(d, o)
                &&& c.resource_bindings@.len() == le_u32(d, o + 8)
                &&& c.minor == d[o + 16]
                &&& c.major == d[o + 17]
                &&& Some(c.program_ty) == ProgramType::spec_from_u16(le_u16(d, o + 18))
                &&& c.flags == le_u32(d, o + 20)
                &&& str_at(
                    d,
                    spec_sat_add(o, le_u32(d, o + 24) as int),
                    old(decoder)@.bound,
                ) matches Some(cs) && c.author@ == cs
                &&& (c.rd11 is Some <==> d[o + 17] >= 5)
                &&& c.rd11 matches Some(w) ==> (forall|k: int|
                    0 <= k < 7 ==> w@[k] == le_u32(d, o + 32 + 4 * k))
                &&& (forall|k: int|
                    0 <= k < c.constant_buffers@.len() ==> constant_buffer_match(
                        d,
                        old(decoder)@.bound,
                        o,
                        d[o + 17],
                        spec_sat_add(o, le_u32(d, o + 4) as int) + 24 * k,
                        #[trigger] c.constant_buffers@[k],
                    ))
                &&& (forall|k: int|
                    0 <= k < c.resource_bindings@.len() ==> binding_match(
                        d,
                        old(decoder)@.bound,
                        o,
                        spec_sat_add(o, le_u32(d, o + 12) as int) + 32 * k,
                        #[trigger] c.resource_bindings@[k],
                    ))
            }),
            old(decoder)@.can_read(20) && ProgramType::spec_from_u16(
                le_u16(old(decoder)@.data, old(decoder)@.offset + 18),
            ) is None ==> r == Err::<RdefChunk, State>(
                State::DecoderError(Error::DecodeEnumFailed((old(decoder)@.offset + 20) as usize)),
            ),
            r matches Err(s) ==> s matches State::DecoderError(_),
    {
        let ghost d = decoder@.data;
        let ghost b = decoder@.bound;
        let ghost o0 = decoder@.offset;
        let base = decoder.get_offset();
        let cb_count = read_word(decoder)?;
        let cb_offset = read_word(decoder)?;
        let bind_count = read_word(decoder)?;
        let bind_offset = read_word(decoder)?;
        let minor = match decoder.read_u8() {
            Ok(v) => v,
            Err(e) => {
                return Err(State::DecoderError(e));
            },
        };
        let major = match decoder.read_u8() {
            Ok(v) => v,
            Err(e) => {
                return Err(State::DecoderError(e));
            },
        };
        let program_w = read_half(decoder)?;
        let program_ty = match ProgramType::from_u16(program_w) {
            Some(v) => v,
            None => {
                return Err(State::DecoderError(Error::DecodeEnumFailed(decoder.get_offset())));
            },
        };
        let flags = read_word(decoder)?;
        let author_offset = read_word(decoder)?;
        let rd11 = if major >= 5 {
            // the extension marker word is read but not validated against
            // a fixed constant: reserved for forward compatibility
            let _marker = read_word(decoder)?;
            let w0 = read_word(decoder)?;
            let w1 = read_word(decoder)?;
            let w2 = read_word(decoder)?;
            let w3 = read_word(decoder)?;
            let w4 = read_word(decoder)?;
            let w5 = read_word(decoder)?;
            let w6 = read_word(decoder)?;
            Some([w0, w1, w2, w3, w4, w5, w6])
        } else {
            None
        };
        let cb_total = cb_count as usize;
        let cb_base = sat_add(base, cb_offset as usize);
        decoder.seek_mut(cb_base);
        let mut constant_buffers: Vec<ConstantBuffer> = Vec::new();
        let mut i: usize = 0;
        while i < cb_total
            invariant
                decoder.wf(),
                d == old(decoder)@.data,
                b == old(decoder)@.bound,
                o0 == old(decoder)@.offset,
                decoder@.data == d,
                decoder@.bound == b,
                base as int == o0,
                cb_base as int == spec_sat_add(o0, le_u32(d, o0 + 4) as int),
                cb_total == le_u32(d, o0),
                major == d[o0 + 17],
                ProgramType::spec_from_u16(le_u16(d, o0 + 18)) == Some(program_ty),
                i <= cb_total,
                constant_buffers@.len() == i,
                decoder@.offset == cb_base + 24 * i,
                constant_buffers_wf(d, b, o0, major, cb_base as int, cb_total as int)
                    == constant_buffers_wf(
                    d,
                    b,
                    o0,
                    major,
                    cb_base as int + 24 * i,
                    cb_total - i,
                ),
                forall|k: int|
                    0 <= k < i ==> constant_buffer_match(
                        d,
                        b,
                        o0,
                        major,
                        cb_base as int + 24 * k,
                        #[trigger] constant_buffers@[k],
                    ),
            decreases cb_total - i,
        {
            let ghost cur = decoder@.offset;
            let cb = match ConstantBuffer::parse(decoder, base, major) {
                Ok(v) => v,
                Err(s) => {
                    proof {
                        assert(!constant_buffer_wf(d, b, o0, major, cur));
                        assert(!constant_buffers_wf(d, b, o0, major, cur, cb_total - i));
                        assert(!constant_buffers_wf(
                            d,
                            b,
                            o0,
                            major,
                            cb_base as int,
                            cb_total as int,
                        ));
                        assert(!rdef_wf(d, b, o0));
                    }
                    return Err(s);
                },
            };
            proof {
                assert(constant_buffer_wf(d, b, o0, major, cur));
                assert(constant_buffers_wf(d, b, o0, major, cur, cb_total - i)
                    == constant_buffers_wf(d, b, o0, major, cur + 24, cb_total - (i + 1)));
                assert(constant_buffer_match(d, b, o0, major, cur, cb));
            }
            constant_buffers.push(cb);
            i = i + 1;
        }
        proof {
            assert(constant_buffers_wf(d, b, o0, major, cb_base as int + 24 * (cb_total as int), 0int));
            assert(constant_buffers_wf(d, b, o0, major, cb_base as int, cb_total as int));
        }
        let bind_total = bind_count as usize;
        let bind_base = sat_add(base, bind_offset as usize);
        decoder.seek_mut(bind_base);
        let mut resource_bindings: Vec<ResourceBinding> = Vec::new();
        let mut j: usize = 0;
        while j < bind_total
            invariant
                decoder.wf(),
                d == old(decoder)@.data,
                b == old(decoder)@.bound,
                o0 == old(decoder)@.offset,
                decoder@.data == d,
                decoder@.bound == b,
                base as int == o0,
                bind_base as int == spec_sat_add(o0, le_u32(d, o0 + 12) as int),
                bind_total == le_u32(d, o0 + 8),
                ProgramType::spec_from_u16(le_u16(d, o0 + 18)) == Some(program_ty),
                constant_buffers_wf(
                    d,
                    b,
                    o0,
                    d[o0 + 17],
                    spec_sat_add(o0, le_u32(d, o0 + 4) as int),
                    le_u32(d, o0) as int,
                ),
                j <= bind_total,
                resource_bindings@.len() == j,
                decoder@.offset == bind_base + 32 * j,
                bindings_wf(d, b, o0, bind_base as int, bind_total as int) == bindings_wf(
                    d,
                    b,
                    o0,
                    bind_base as int + 32 * j,
                    bind_total - j,
                ),
                forall|k: int|
                    0 <= k < j ==> binding_match(
                        d,
                        b,
                        o0,
                        bind_base as int + 32 * k,
                        #[trigger] resource_bindings@[k],
                    ),
            decreases bind_total - j,
        {
            let ghost cur = decoder@.offset;
            let rb = match ResourceBinding::parse(decoder, base) {
                Ok(v) => v,
                Err(s) => {
                    proof {
                        assert(!binding_wf(d, b, o0, cur));
                        assert(!bindings_wf(d, b, o0, cur, bind_total - j));
                        assert(!bindings_wf(d, b, o0, bind_base as int, bind_total as int));
                        assert(!rdef_wf(d, b, o0));
                    }
                    return Err(s);
                },
            };
            proof {
                assert(binding_wf(d, b, o0, cur));
                assert(bindings_wf(d, b, o0, cur, bind_total - j) == bindings_wf(
                    d,
                    b,
                    o0,
                    cur + 32,
                    bind_total - (j + 1),
                ));
                assert(binding_match(d, b, o0, cur, rb));
            }
            resource_bindings.push(rb);
            j = j + 1;
        }
        proof {
            assert(bindings_wf(d, b, o0, bind_base as int + 32 * (bind_total as int), 0int));
            assert(bindings_wf(d, b, o0, bind_base as int, bind_total as int));
        }
        let author = read_str_at(decoder, sat_add(base, author_offset as usize))?;
        Ok(
            RdefChunk {
                constant_buffers,
                resource_bindings,
                program_ty,
                minor,
                major,
                flags,
                author,
                rd11,
            },
        )
    }
}

} // verus!
