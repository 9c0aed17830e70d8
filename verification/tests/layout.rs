use render_core::layout::{
    camera_uniform_layout, instance_buffer_layout, instance_record_layout, light_uniform_layout,
    AttributeFormat, FieldDesc, CAMERA_UNIFORM_BYTES, INSTANCE_STRIDE, LIGHT_UNIFORM_BYTES,
};

#[test]
fn instance_layout_matches_the_shader_inputs() {
    let l = instance_buffer_layout();
    assert!(l.per_instance);
    assert_eq!(l.stride, 100);
    assert_eq!(l.stride, INSTANCE_STRIDE);
    let got: Vec<(u32, u32, AttributeFormat)> = l
        .attributes
        .iter()
        .map(|a| (a.shader_location, a.offset, a.format))
        .collect();
    assert_eq!(
        got,
        vec![
            // The four columns of the model matrix.
            (5, 0, AttributeFormat::Float32x4),
            (6, 16, AttributeFormat::Float32x4),
            (7, 32, AttributeFormat::Float32x4),
            (8, 48, AttributeFormat::Float32x4),
            // The three columns of the normal matrix.
            (9, 64, AttributeFormat::Float32x3),
            (10, 76, AttributeFormat::Float32x3),
            (11, 88, AttributeFormat::Float32x3),
        ]
    );
}

#[test]
fn instance_attributes_pack_the_record_tightly() {
    let l = instance_buffer_layout();
    let mut expected_offset = 0u32;
    for a in l.attributes.iter() {
        assert_eq!(a.offset, expected_offset);
        expected_offset += a.format.size();
    }
    assert_eq!(expected_offset, l.stride);
}

#[test]
fn instance_stride_matches_the_host_matrices() {
    // The instance record the GPU walks is a column-major 4x4 model
    // matrix followed by a column-major 3x3 normal matrix.
    let model = std::mem::size_of::<[[f32; 4]; 4]>() as u32;
    let normal = std::mem::size_of::<[[f32; 3]; 3]>() as u32;
    assert_eq!(model, 64);
    assert_eq!(normal, 36);
    assert_eq!(INSTANCE_STRIDE, model + normal);
    let record = instance_record_layout();
    assert_eq!(record.size, INSTANCE_STRIDE);
    assert_eq!(
        record.fields,
        vec![
            FieldDesc { offset: 0, size: model },
            FieldDesc { offset: model, size: normal },
        ]
    );
}

#[test]
fn camera_uniform_layout_matches_glam_types() {
    let l = camera_uniform_layout();
    assert_eq!(l.size, CAMERA_UNIFORM_BYTES);
    assert_eq!(l.size as usize, std::mem::size_of::<glam::Vec4>() + std::mem::size_of::<glam::Mat4>());
    assert_eq!(
        l.fields,
        vec![FieldDesc { offset: 0, size: 16 }, FieldDesc { offset: 16, size: 64 }]
    );
    for f in l.fields.iter() {
        assert_eq!(f.offset % 16, 0);
    }
}

#[test]
fn light_uniform_layout_pads_position_to_sixteen_bytes() {
    let l = light_uniform_layout();
    assert_eq!(l.size, LIGHT_UNIFORM_BYTES);
    // Three floats of position, four bytes of explicit padding, three
    // floats of colour.
    assert_eq!(l.size, 12 + 4 + 12);
    assert_eq!(
        l.fields,
        vec![FieldDesc { offset: 0, size: 12 }, FieldDesc { offset: 16, size: 12 }]
    );
}

#[test]
fn attribute_format_sizes() {
    assert_eq!(AttributeFormat::Float32x3.size(), 12);
    assert_eq!(AttributeFormat::Float32x4.size(), 16);
}
