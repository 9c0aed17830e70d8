//! The binary layout contract between CPU-side memory and the shaders.
//!
//! The GPU reads the uniform structs and the per-instance vertex records as
//! raw bytes, so field order, size, offset and alignment are promises the
//! CPU side must keep, not something a compiler may choose. This module
//! states those layouts as data with proofs that they are tightly packed
//! and aligned as the shaders expect; the unverified layer builds its
//! descriptors from these tables and sizes its structs to match.

use vstd::prelude::*;

verus! {

/// Byte stride of one per-instance vertex record: a 4 by 4 model matrix
/// followed by a 3 by 3 normal matrix, both in column-major order.
pub const INSTANCE_STRIDE: u32 = 100;

/// Byte size of the camera uniform: a 4-component view position followed
/// by a 4 by 4 view-projection matrix.
pub const CAMERA_UNIFORM_BYTES: u32 = 80;

/// Byte size of the light uniform: a 3-component position padded to 16
/// bytes, then a 3-component colour.
pub const LIGHT_UNIFORM_BYTES: u32 = 28;

/// Vertex attribute formats the instance record uses.
#[derive(Clone, Copy, Debug, PartialEq, Eq, Structural)]
pub enum AttributeFormat {
    /// Three 32-bit floats, 12 bytes.
    Float32x3,
    /// Four 32-bit floats, 16 bytes.
    Float32x4,
}

/// Byte size of one attribute of the given format.
pub open spec fn format_size_spec(f: AttributeFormat) -> int {
    match f {
        AttributeFormat::Float32x3 => 12,
        AttributeFormat::Float32x4 => 16,
    }
}

impl AttributeFormat {
    pub fn size(self) -> (n: u32)
        ensures
            n == format_size_spec(self),
    {
        match self {
            AttributeFormat::Float32x3 => 12,
            AttributeFormat::Float32x4 => 16,
        }
    }
}

/// One vertex attribute: the shader input slot it feeds and where its
/// bytes start within each record.
#[derive(Clone, Copy, Debug, PartialEq, Eq, Structural)]
pub struct VertexAttributeDesc {
    pub shader_location: u32,
    pub offset: u32,
    pub format: AttributeFormat,
}

/// A vertex buffer layout: the byte stride of one record, whether the
/// buffer steps per instance or per vertex, and its attributes in order.
#[derive(Clone, Debug)]
pub struct VertexLayoutDesc {
    pub stride: u32,
    pub per_instance: bool,
    pub attributes: Vec<VertexAttributeDesc>,
}

/// The attributes fill the record tightly: the first starts at byte zero,
/// each next one starts where the previous ended, and the last ends
/// exactly at the stride.
pub open spec fn packed_spec(attrs: Seq<VertexAttributeDesc>, stride: int) -> bool {
    &&& attrs.len() > 0 ==> attrs[0].offset == 0
    &&& forall|k: int|
        1 <= k < attrs.len() ==> (#[trigger] attrs[k]).offset == attrs[k - 1].offset
            + format_size_spec(attrs[k - 1].format)
    &&& attrs.len() > 0 ==> attrs.last().offset + format_size_spec(attrs.last().format) == stride
}

/// The attribute table of the per-instance record: the four columns of
/// the model matrix, then the three columns of the normal matrix. Shader
/// locations start at 5; the mesh's own vertex buffer owns 0 through 4.
pub open spec fn instance_attributes_spec() -> Seq<VertexAttributeDesc> {
    seq![
        (VertexAttributeDesc { shader_location: 5, offset: 0, format: AttributeFormat::Float32x4 }),
        (VertexAttributeDesc { shader_location: 6, offset: 16, format: AttributeFormat::Float32x4 }),
        (VertexAttributeDesc { shader_location: 7, offset: 32, format: AttributeFormat::Float32x4 }),
        (VertexAttributeDesc { shader_location: 8, offset: 48, format: AttributeFormat::Float32x4 }),
        (VertexAttributeDesc { shader_location: 9, offset: 64, format: AttributeFormat::Float32x3 }),
        (VertexAttributeDesc { shader_location: 10, offset: 76, format: AttributeFormat::Float32x3 }),
        (VertexAttributeDesc { shader_location: 11, offset: 88, format: AttributeFormat::Float32x3 }),
    ]
}

/// Build the per-instance vertex buffer layout: stride of one record,
/// instance stepping, and the packed attribute table whose shader
/// locations run consecutively from 5, clear of the mesh vertex inputs.
pub fn instance_buffer_layout() -> (l: VertexLayoutDesc)
    ensures
        l.stride == INSTANCE_STRIDE,
        l.per_instance,
        l.attributes@ == instance_attributes_spec(),
        packed_spec(l.attributes@, l.stride as int),
        forall|k: int|
            0 <= k < l.attributes@.len() ==> (#[trigger] l.attributes@[k]).shader_location == 5 + k,
{
    let mut attributes: Vec<VertexAttributeDesc> = Vec::new();
    attributes.push(VertexAttributeDesc {
        shader_location: 5,
        offset: 0,
        format: AttributeFormat::Float32x4,
    });
    attributes.push(VertexAttributeDesc {
        shader_location: 6,
        offset: 16,
        format: AttributeFormat::Float32x4,
    });
    attributes.push(VertexAttributeDesc {
        shader_location: 7,
        offset: 32,
        format: AttributeFormat::Float32x4,
    });
    attributes.push(VertexAttributeDesc {
        shader_location: 8,
        offset: 48,
        format: AttributeFormat::Float32x4,
    });
    attributes.push(VertexAttributeDesc {
        shader_location: 9,
        offset: 64,
        format: AttributeFormat::Float32x3,
    });
    attributes.push(VertexAttributeDesc {
        shader_location: 10,
        offset: 76,
        format: AttributeFormat::Float32x3,
    });
    attributes.push(VertexAttributeDesc {
        shader_location: 11,
        offset: 88,
        format: AttributeFormat::Float32x3,
    });
    assert(attributes@ =~= instance_attributes_spec());
    VertexLayoutDesc { stride: INSTANCE_STRIDE, per_instance: true, attributes }
}

/// One field of a GPU-visible struct: where its bytes start and how many
/// it has.
#[derive(Clone, Copy, Debug, PartialEq, Eq, Structural)]
pub struct FieldDesc {
    pub offset: u32,
    pub size: u32,
}

/// Byte layout of one GPU-visible struct: its fields in declaration
/// order and its total size.
#[derive(Clone, Debug)]
pub struct StructLayout {
    pub fields: Vec<FieldDesc>,
    pub size: u32,
}

/// The fields stand in declaration order without overlap, and every field
/// fits inside the struct.
pub open spec fn fields_ordered_spec(fields: Seq<FieldDesc>, size: int) -> bool {
    &&& forall|k: int|
        1 <= k < fields.len() ==> (#[trigger] fields[k]).offset >= fields[k - 1].offset + fields[k
            - 1].size
    &&& forall|k: int|
        0 <= k < fields.len() ==> (#[trigger] fields[k]).offset + fields[k].size <= size
}

/// Every field starts on a 16-byte boundary, as the shader-side vector
/// and matrix types demand.
pub open spec fn fields_aligned_spec(fields: Seq<FieldDesc>) -> bool {
    forall|k: int| 0 <= k < fields.len() ==> (#[trigger] fields[k]).offset % 16 == 0
}

/// Byte layout of the camera uniform: the 4-component view position at
/// byte 0, the 4 by 4 view-projection matrix at byte 16, 80 bytes in all.
pub fn camera_uniform_layout() -> (l: StructLayout)
    ensures
        l.fields@ == seq![(FieldDesc { offset: 0, size: 16 }), (FieldDesc { offset: 16, size: 64 })],
        l.size == CAMERA_UNIFORM_BYTES,
        fields_ordered_spec(l.fields@, l.size as int),
        fields_aligned_spec(l.fields@),
{
    let mut fields: Vec<FieldDesc> = Vec::new();
    fields.push(FieldDesc { offset: 0, size: 16 });
    fields.push(FieldDesc { offset: 16, size: 64 });
    assert(fields@ =~= seq![
        (FieldDesc { offset: 0, size: 16 }),
        (FieldDesc { offset: 16, size: 64 }),
    ]);
    StructLayout { fields, size: CAMERA_UNIFORM_BYTES }
}

/// Byte layout of the light uniform: the 3-component position at byte 0
/// padded to 16 bytes, the 3-component colour at byte 16, 28 bytes in
/// all.
pub fn light_uniform_layout() -> (l: StructLayout)
    ensures
        l.fields@ == seq![(FieldDesc { offset: 0, size: 12 }), (FieldDesc { offset: 16, size: 12 })],
        l.size == LIGHT_UNIFORM_BYTES,
        fields_ordered_spec(l.fields@, l.size as int),
        fields_aligned_spec(l.fields@),
{
    let mut fields: Vec<FieldDesc> = Vec::new();
    fields.push(FieldDesc { offset: 0, size: 12 });
    fields.push(FieldDesc { offset: 16, size: 12 });
    assert(fields@ =~= seq![
        (FieldDesc { offset: 0, size: 12 }),
        (FieldDesc { offset: 16, size: 12 }),
    ]);
    StructLayout { fields, size: LIGHT_UNIFORM_BYTES }
}

/// Byte layout of one instance record as the instanced vertex stream
/// carries it: the model matrix at byte 0, the normal matrix at byte 64,
/// one stride in all.
pub fn instance_record_layout() -> (l: StructLayout)
    ensures
        l.fields@ == seq![(FieldDesc { offset: 0, size: 64 }), (FieldDesc { offset: 64, size: 36 })],
        l.size == INSTANCE_STRIDE,
        fields_ordered_spec(l.fields@, l.size as int),
{
    let mut fields: Vec<FieldDesc> = Vec::new();
    fields.push(FieldDesc { offset: 0, size: 64 });
    fields.push(FieldDesc { offset: 64, size: 36 });
    assert(fields@ =~= seq![
        (FieldDesc { offset: 0, size: 64 }),
        (FieldDesc { offset: 64, size: 36 }),
    ]);
    StructLayout { fields, size: INSTANCE_STRIDE }
}

/// The attribute table covers the instance record exactly: the matrix
/// columns land where the record layout puts the two matrices.
pub proof fn lemma_instance_attributes_cover_record()
    ensures
        packed_spec(instance_attributes_spec(), INSTANCE_STRIDE as int),
        instance_attributes_spec()[0].offset == 0,
        instance_attributes_spec()[4].offset == 64,
{
}

} // verus!
