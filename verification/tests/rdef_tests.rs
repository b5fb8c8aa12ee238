use dxbc::binary::decoder::Decoder;
use dxbc::binary::error::Error;
use dxbc::binary::parser::State;
use dxbc::dr::rdef::{
    ConstantBufferFlags, ProgramType, RdefChunk, ResourceBinding, ShaderInputFlags,
    ShaderInputType, ShaderType, ShaderVariable, ShaderVariableClass, ShaderVariableFlags,
    ShaderVariableType, ViewDimension,
};
use dxbc::dr::ResourceReturnType;

fn push_u32(v: &mut Vec<u8>, x: u32) {
    v.extend_from_slice(&x.to_le_bytes());
}

fn push_u16(v: &mut Vec<u8>, x: u16) {
    v.extend_from_slice(&x.to_le_bytes());
}

fn put_at(v: &mut Vec<u8>, at: usize, bytes: &[u8]) {
    if v.len() < at + bytes.len() {
        v.resize(at + bytes.len(), 0);
    }
    v[at..at + bytes.len()].copy_from_slice(bytes);
}

#[test]
fn enum_conversions_reject_unmapped_integers() {
    assert_eq!(ShaderVariableType::from_u32(9999), None);
    assert_eq!(ShaderVariableType::from_u32(3), Some(ShaderVariableType::Float));
    assert_eq!(ShaderVariableClass::from_u32(8), None);
    assert_eq!(ShaderInputType::from_u32(12), None);
    assert_eq!(ViewDimension::from_u32(12), None);
    assert_eq!(ResourceReturnType::from_u32(9), None);
    assert_eq!(ProgramType::from_u16(0x1234), None);
    assert_eq!(ProgramType::from_u16(0xFFFE), Some(ProgramType::Vertex));
}

#[test]
fn flag_sets_silently_discard_unmapped_bits() {
    assert_eq!(ShaderInputFlags::from_bits_truncate(0xffff_ffff).bits(), 0x1f);
    assert_eq!(ShaderVariableFlags::from_bits_truncate(0xdead_beef).bits(), 0xf);
    assert_eq!(ConstantBufferFlags::from_bits_truncate(0xffff_fffe).bits(), 0);
    assert_eq!(
        ShaderVariableFlags::from_bits_truncate(ShaderVariableFlags::USED).bits(),
        ShaderVariableFlags::USED
    );
}

#[test]
fn shader_type_with_unmapped_element_code_fails_decode() {
    let mut b = Vec::new();
    push_u16(&mut b, 0); // class: scalar
    push_u16(&mut b, 9999); // element type outside the enumeration
    push_u16(&mut b, 1);
    push_u16(&mut b, 1);
    push_u16(&mut b, 0);
    push_u16(&mut b, 0);
    push_u32(&mut b, 0);
    let mut d = Decoder::new(&b);
    let r = ShaderType::parse(&mut d, 0, 4);
    // the element-type field is the second 16-bit word of the record
    assert_eq!(
        r.unwrap_err(),
        State::DecoderError(Error::DecodeEnumFailed(4))
    );
}

#[test]
fn shader_type_resolves_nested_members() {
    let mut b = Vec::new();
    // outer struct type at 0
    push_u16(&mut b, 5); // class: struct
    push_u16(&mut b, 0); // element type: void
    push_u16(&mut b, 0);
    push_u16(&mut b, 0);
    push_u16(&mut b, 0);
    push_u16(&mut b, 1); // one member
    push_u32(&mut b, 40); // member array offset
    // member record at 40: name offset, type offset, byte offset
    put_at(&mut b, 40, &80u32.to_le_bytes());
    put_at(&mut b, 44, &60u32.to_le_bytes());
    put_at(&mut b, 48, &4u32.to_le_bytes());
    // nested float type at 60
    put_at(&mut b, 60, &0u16.to_le_bytes());
    put_at(&mut b, 62, &3u16.to_le_bytes());
    put_at(&mut b, 64, &1u16.to_le_bytes());
    put_at(&mut b, 66, &4u16.to_le_bytes());
    put_at(&mut b, 68, &[0; 8]);
    put_at(&mut b, 80, b"m0\0");
    let mut d = Decoder::new(&b);
    let t = ShaderType::parse(&mut d, 0, 4).unwrap();
    assert_eq!(t.class, ShaderVariableClass::Struct);
    assert_eq!(t.members.len(), 1);
    assert_eq!(t.members[0].name, "m0");
    assert_eq!(t.members[0].offset, 4);
    assert_eq!(t.members[0].ty.ty, ShaderVariableType::Float);
    assert_eq!(t.members[0].ty.columns, 4);
    assert!(t.parent_ty_class.is_none());
    assert!(t.unknowns.iter().all(|u| u.is_none()));
}

#[test]
fn cyclic_member_graph_fails_instead_of_diverging() {
    let mut b = Vec::new();
    push_u16(&mut b, 5); // class: struct
    push_u16(&mut b, 0);
    push_u16(&mut b, 0);
    push_u16(&mut b, 0);
    push_u16(&mut b, 0);
    push_u16(&mut b, 1); // one member
    push_u32(&mut b, 16); // member array right after this record
    push_u32(&mut b, 28); // member name offset
    push_u32(&mut b, 0); // member type offset: points back at this type
    push_u32(&mut b, 0); // member byte offset
    b.extend_from_slice(b"n\0");
    let mut d = Decoder::new(&b);
    let r = ShaderType::parse(&mut d, 0, 4);
    assert!(matches!(r.unwrap_err(), State::DecoderError(_)));
}

#[test]
fn resource_binding_record_decodes_every_field() {
    let mut b = Vec::new();
    push_u32(&mut b, 40); // name offset
    push_u32(&mut b, 2); // input type: texture
    push_u32(&mut b, 5); // return type: float
    push_u32(&mut b, 4); // view dimension: texture2d
    push_u32(&mut b, 0); // sample count
    push_u32(&mut b, 3); // bind point
    push_u32(&mut b, 1); // bind count
    push_u32(&mut b, 0xffff_ffff); // flags with unmapped bits
    put_at(&mut b, 40, b"tex0\0");
    let mut d = Decoder::new(&b);
    let rb = ResourceBinding::parse(&mut d, 0).unwrap();
    assert_eq!(rb.name, "tex0");
    assert_eq!(rb.input_type, ShaderInputType::Texture);
    assert_eq!(rb.return_type, ResourceReturnType::Float);
    assert_eq!(rb.view_dimension, ViewDimension::Texture2D);
    assert_eq!(rb.sample_count, 0);
    assert_eq!(rb.bind_point, 3);
    assert_eq!(rb.bind_count, 1);
    assert_eq!(rb.input_flags.bits(), 0x1f);
    assert_eq!(d.get_offset(), 32);
}

#[test]
fn resource_binding_with_unmapped_input_type_fails_decode() {
    let mut b = Vec::new();
    push_u32(&mut b, 40);
    push_u32(&mut b, 9999); // unmapped input type
    for _ in 0..6 {
        push_u32(&mut b, 0);
    }
    put_at(&mut b, 40, b"t\0");
    let mut d = Decoder::new(&b);
    let r = ResourceBinding::parse(&mut d, 0);
    // the input-type field is the second 32-bit word of the record
    assert_eq!(
        r.unwrap_err(),
        State::DecoderError(Error::DecodeEnumFailed(8))
    );
}

fn rdef_with_one_buffer() -> Vec<u8> {
    let mut b = Vec::new();
    push_u32(&mut b, 1); // constant-buffer count
    push_u32(&mut b, 60); // constant-buffer offset
    push_u32(&mut b, 1); // binding count
    push_u32(&mut b, 120); // binding offset
    b.push(0); // minor
    b.push(4); // major
    push_u16(&mut b, 0xFFFF); // pixel
    push_u32(&mut b, 0x100); // flags
    push_u32(&mut b, 52); // author offset
    put_at(&mut b, 52, b"me\0");
    // constant buffer record at 60
    put_at(&mut b, 60, &160u32.to_le_bytes()); // name offset
    put_at(&mut b, 64, &1u32.to_le_bytes()); // one variable
    put_at(&mut b, 68, &84u32.to_le_bytes()); // variable array offset
    put_at(&mut b, 72, &16u32.to_le_bytes()); // size
    put_at(&mut b, 76, &0xffff_ffffu32.to_le_bytes()); // flags, truncated to 1
    put_at(&mut b, 80, &0u32.to_le_bytes()); // buffer-type tag
    // variable record at 84, with two inline default words
    put_at(&mut b, 84, &170u32.to_le_bytes()); // name offset
    put_at(&mut b, 88, &0u32.to_le_bytes()); // byte offset
    put_at(&mut b, 92, &8u32.to_le_bytes()); // byte size: two words
    put_at(&mut b, 96, &0xffff_ffffu32.to_le_bytes()); // flags, truncated
    put_at(&mut b, 100, &180u32.to_le_bytes()); // type offset
    put_at(&mut b, 104, &1u32.to_le_bytes()); // default values present
    put_at(&mut b, 108, &0x1111_1111u32.to_le_bytes());
    put_at(&mut b, 112, &0x2222_2222u32.to_le_bytes());
    // binding record at 120
    put_at(&mut b, 120, &160u32.to_le_bytes()); // shares the buffer name
    put_at(&mut b, 124, &0u32.to_le_bytes()); // cbuffer
    put_at(&mut b, 128, &0u32.to_le_bytes()); // not applicable
    put_at(&mut b, 132, &0u32.to_le_bytes()); // unknown dimension
    put_at(&mut b, 136, &0u32.to_le_bytes());
    put_at(&mut b, 140, &0u32.to_le_bytes());
    put_at(&mut b, 144, &1u32.to_le_bytes());
    put_at(&mut b, 148, &1u32.to_le_bytes());
    put_at(&mut b, 160, b"cb0\0");
    put_at(&mut b, 170, b"var0\0");
    // float4 type record at 180
    put_at(&mut b, 180, &1u16.to_le_bytes()); // class: vector
    put_at(&mut b, 182, &3u16.to_le_bytes()); // float
    put_at(&mut b, 184, &1u16.to_le_bytes()); // rows
    put_at(&mut b, 186, &4u16.to_le_bytes()); // columns
    put_at(&mut b, 188, &[0; 8]);
    put_at(&mut b, 196, b"pad\0");
    b
}

#[test]
fn rdef_chunk_resolves_buffers_variables_and_bindings() {
    let b = rdef_with_one_buffer();
    let mut d = Decoder::new(&b);
    let c = RdefChunk::parse(&mut d).unwrap();
    assert_eq!(c.program_ty, ProgramType::Pixel);
    assert_eq!(c.minor, 0);
    assert_eq!(c.major, 4);
    assert_eq!(c.flags, 0x100);
    assert_eq!(c.author, "me");
    assert!(c.rd11.is_none());
    assert_eq!(c.constant_buffers.len(), 1);
    let cb = &c.constant_buffers[0];
    assert_eq!(cb.name, "cb0");
    assert_eq!(cb.size, 16);
    assert_eq!(cb.flags.bits(), 1);
    assert_eq!(cb.ty, 0);
    assert_eq!(cb.variables.len(), 1);
    let v = &cb.variables[0];
    assert_eq!(v.name, "var0");
    assert_eq!(v.offset, 0);
    assert_eq!(v.size, 8);
    assert_eq!(v.flags.bits(), 0xf);
    assert_eq!(v.default_value, vec![0x1111_1111, 0x2222_2222]);
    assert_eq!(v.ty.class, ShaderVariableClass::Vector);
    assert_eq!(v.ty.ty, ShaderVariableType::Float);
    assert_eq!(v.ty.rows, 1);
    assert_eq!(v.ty.columns, 4);
    assert!(v.start_texture.is_none()); // no major-5 bookkeeping
    assert_eq!(c.resource_bindings.len(), 1);
    assert_eq!(c.resource_bindings[0].name, "cb0"); // shares the buffer's name
}

#[test]
fn major_five_rdef_carries_the_extension_block() {
    let mut b = Vec::new();
    push_u32(&mut b, 0); // constant-buffer count
    push_u32(&mut b, 0);
    push_u32(&mut b, 0); // binding count
    push_u32(&mut b, 0);
    b.push(1); // minor
    b.push(5); // major
    push_u16(&mut b, 0x4353); // compute
    push_u32(&mut b, 0);
    push_u32(&mut b, 88); // author offset
    push_u32(&mut b, 0x3131_4452); // extension marker, not validated
    for w in 1..=7u32 {
        push_u32(&mut b, w);
    }
    put_at(&mut b, 88, b"a\0");
    let mut d = Decoder::new(&b);
    let c = RdefChunk::parse(&mut d).unwrap();
    assert_eq!(c.major, 5);
    assert_eq!(c.minor, 1);
    assert_eq!(c.program_ty, ProgramType::Compute);
    assert_eq!(c.rd11, Some([1, 2, 3, 4, 5, 6, 7]));
    assert_eq!(c.author, "a");
}

#[test]
fn rdef_offsets_are_relative_to_the_chunk_start() {
    // the same chunk bytes decode identically at a different absolute
    // position, because embedded offsets resolve against the chunk base
    let body = rdef_with_one_buffer();
    let mut shifted = vec![0xaa; 96];
    shifted.extend_from_slice(&body);
    let mut d = Decoder::new(&shifted);
    d.seek_mut(96);
    let c = RdefChunk::parse(&mut d).unwrap();
    assert_eq!(c.author, "me");
    assert_eq!(c.constant_buffers[0].variables[0].name, "var0");
}

#[test]
fn major_five_shader_type_resolves_the_extension_block() {
    let mut b = Vec::new();
    push_u16(&mut b, 1); // class: vector
    push_u16(&mut b, 3); // float
    push_u16(&mut b, 1);
    push_u16(&mut b, 4);
    push_u16(&mut b, 0);
    push_u16(&mut b, 0); // no members
    push_u32(&mut b, 0); // member array offset
    push_u32(&mut b, 40); // parent-type offset
    push_u32(&mut b, 44); // reserved word offset
    push_u32(&mut b, 0xabc); // inline reserved word
    push_u32(&mut b, 48); // second reserved word offset
    push_u32(&mut b, 52); // parent-name offset
    put_at(&mut b, 40, &1u16.to_le_bytes()); // parent class: vector
    put_at(&mut b, 42, &7u16.to_le_bytes()); // reserved 16-bit value
    put_at(&mut b, 44, &0xdead_beefu32.to_le_bytes());
    put_at(&mut b, 48, &0x55u32.to_le_bytes());
    put_at(&mut b, 52, b"base\0");
    let mut d = Decoder::new(&b);
    let t = ShaderType::parse(&mut d, 0, 5).unwrap();
    assert_eq!(t.parent_ty_class, Some(ShaderVariableClass::Vector));
    assert_eq!(t.unknowns, [Some(7), Some(0xdead_beef), Some(0xabc), Some(0x55)]);
    assert_eq!(t.parent_name.as_deref(), Some("base"));
}

#[test]
fn major_five_variable_reads_texture_and_sampler_bookkeeping() {
    let mut b = Vec::new();
    push_u32(&mut b, 60); // name offset
    push_u32(&mut b, 16); // byte offset
    push_u32(&mut b, 4); // byte size
    push_u32(&mut b, 2); // flags: used
    push_u32(&mut b, 70); // type offset
    push_u32(&mut b, 0); // no default values
    push_u32(&mut b, 9); // start texture
    push_u32(&mut b, 2); // texture size
    push_u32(&mut b, 5); // start sampler
    push_u32(&mut b, 1); // sampler size
    put_at(&mut b, 60, b"v\0");
    // scalar float type at 70
    put_at(&mut b, 70, &0u16.to_le_bytes());
    put_at(&mut b, 72, &3u16.to_le_bytes());
    put_at(&mut b, 74, &1u16.to_le_bytes());
    put_at(&mut b, 76, &1u16.to_le_bytes());
    put_at(&mut b, 78, &[0; 8]);
    put_at(&mut b, 86, &[0; 20]); // the type's major-5 extension block, all zero
    let mut d = Decoder::new(&b);
    let v = ShaderVariable::parse(&mut d, 0, 5).unwrap();
    assert_eq!(v.name, "v");
    assert!(v.default_value.is_empty());
    assert_eq!(v.start_texture, Some(9));
    assert_eq!(v.texture_size, Some(2));
    assert_eq!(v.start_sampler, Some(5));
    assert_eq!(v.sampler_size, Some(1));
    assert_eq!(d.get_offset(), 40);
}

#[test]
fn error_descriptions_name_the_failure_kind() {
    assert_eq!(
        Error::StreamExpected(3).description(),
        "a read would cross the current scope bound"
    );
    assert_eq!(
        Error::DecodeEnumFailed(8).description(),
        "an integer lies outside a validated enumeration"
    );
}
