use rbar::structures::{
    decode_words, encode_indices, encode_instances, encode_positions, encode_words, packed_layout,
    quad_indices, quad_vertices, Color, Globals, Position, Size, VertexAttribute,
    VertexBufferLayout, VertexFormat, VertexStepMode, WidgetInstance, GLOBALS_SIZE,
    INSTANCE_STRIDE, POSITION_STRIDE,
};

fn bits(x: f32) -> u32 {
    x.to_bits()
}

fn little_endian() -> bool {
    u16::from_ne_bytes([1, 0]) == 1
}

fn sample() -> WidgetInstance {
    WidgetInstance::new(
        bits(12.5),
        bits(-3.0),
        bits(100.0),
        bits(30.0),
        Color(bits(1.0), bits(0.25), bits(0.0), bits(0.5)),
        bits(4.0),
    )
}

#[test]
fn new_puts_each_argument_in_its_field() {
    let w = sample();
    assert_eq!(w.position, Position(bits(12.5), bits(-3.0)));
    assert_eq!(w.size, Size(bits(100.0), bits(30.0)));
    assert_eq!(w.color, Color(bits(1.0), bits(0.25), bits(0.0), bits(0.5)));
    assert_eq!(w.radius, bits(4.0));
}

#[test]
fn a_widget_record_is_thirty_six_bytes() {
    assert_eq!(INSTANCE_STRIDE, 36);
    assert_eq!(sample().to_bytes().len(), 36);
}

#[test]
fn fields_stand_at_offsets_0_8_16_32() {
    let bytes = sample().to_bytes();
    assert_eq!(&bytes[0..4], &12.5f32.to_le_bytes());
    assert_eq!(&bytes[4..8], &(-3.0f32).to_le_bytes());
    assert_eq!(&bytes[8..12], &100.0f32.to_le_bytes());
    assert_eq!(&bytes[12..16], &30.0f32.to_le_bytes());
    assert_eq!(&bytes[16..20], &1.0f32.to_le_bytes());
    assert_eq!(&bytes[20..24], &0.25f32.to_le_bytes());
    assert_eq!(&bytes[24..28], &0.0f32.to_le_bytes());
    assert_eq!(&bytes[28..32], &0.5f32.to_le_bytes());
    assert_eq!(&bytes[32..36], &4.0f32.to_le_bytes());
}

#[test]
fn a_widget_record_has_the_bytes_of_its_floats_in_memory() {
    let floats: [f32; 9] = [12.5, -3.0, 100.0, 30.0, 1.0, 0.25, 0.0, 0.5, 4.0];
    let raw: &[u8] = bytemuck::cast_slice(&floats);
    if little_endian() {
        assert_eq!(sample().to_bytes().as_slice(), raw);
    }
}

#[test]
fn a_widget_record_survives_the_round_trip() {
    let w = sample();
    assert_eq!(WidgetInstance::from_bytes(&w.to_bytes()), Some(w));
    let nan = WidgetInstance::new(0x7fc0_0001, 0xffff_ffff, 0, 0x8000_0000, Color(1, 2, 3, 4), 5);
    assert_eq!(WidgetInstance::from_bytes(&nan.to_bytes()), Some(nan));
}

#[test]
fn bytes_survive_the_round_trip() {
    let bytes: Vec<u8> = (0..36u8).map(|i| i.wrapping_mul(37).wrapping_add(11)).collect();
    let w = WidgetInstance::from_bytes(&bytes).unwrap();
    assert_eq!(w.to_bytes(), bytes);
    assert_eq!(w.position.0, u32::from_le_bytes([bytes[0], bytes[1], bytes[2], bytes[3]]));
    assert_eq!(w.radius, u32::from_le_bytes([bytes[32], bytes[33], bytes[34], bytes[35]]));
}

#[test]
fn from_bytes_wants_exactly_one_record() {
    assert_eq!(WidgetInstance::from_bytes(&[]), None);
    assert_eq!(WidgetInstance::from_bytes(&[0u8; 35]), None);
    assert_eq!(WidgetInstance::from_bytes(&[0u8; 37]), None);
    assert_eq!(WidgetInstance::from_bytes(&[0u8; 72]), None);
    assert!(WidgetInstance::from_bytes(&[0u8; 36]).is_some());
}

#[test]
fn words_are_encoded_least_significant_byte_first() {
    assert_eq!(encode_words(&vec![0x0403_0201, 0xaabb_ccdd]), vec![1, 2, 3, 4, 0xdd, 0xcc, 0xbb, 0xaa]);
    assert_eq!(encode_words(&vec![]), Vec::<u8>::new());
}

#[test]
fn decode_words_reads_whole_words_only() {
    assert_eq!(decode_words(&[1, 2, 3, 4, 0xdd, 0xcc, 0xbb, 0xaa]), Some(vec![0x0403_0201, 0xaabb_ccdd]));
    assert_eq!(decode_words(&[]), Some(vec![]));
    assert_eq!(decode_words(&[1, 2, 3]), None);
    assert_eq!(decode_words(&[1, 2, 3, 4, 5]), None);
}

#[test]
fn indices_are_encoded_as_two_bytes_each() {
    assert_eq!(encode_indices(&vec![0x0102, 0xff00, 7]), vec![2, 1, 0, 0xff, 7, 0]);
    let quad = quad_indices();
    assert_eq!(quad, vec![0, 1, 2, 2, 1, 3]);
    let raw: &[u8] = bytemuck::cast_slice(&quad);
    if little_endian() {
        assert_eq!(encode_indices(&quad).as_slice(), raw);
    }
    assert_eq!(encode_indices(&quad).len(), 12);
}

#[test]
fn the_quad_has_its_corners_half_a_unit_from_the_centre() {
    let corners: Vec<(f32, f32)> = quad_vertices()
        .iter()
        .map(|p| (f32::from_bits(p.0), f32::from_bits(p.1)))
        .collect();
    assert_eq!(corners, vec![(-0.5, -0.5), (0.5, -0.5), (-0.5, 0.5), (0.5, 0.5)]);
    let floats: [f32; 8] = [-0.5, -0.5, 0.5, -0.5, -0.5, 0.5, 0.5, 0.5];
    let bytes = encode_positions(&quad_vertices());
    assert_eq!(bytes.len(), 32);
    for (i, f) in floats.iter().enumerate() {
        assert_eq!(&bytes[4 * i..4 * i + 4], &f.to_le_bytes());
    }
}

#[test]
fn instances_follow_one_another_at_the_stride() {
    let a = sample();
    let b = WidgetInstance::new(1, 2, 3, 4, Color(5, 6, 7, 8), 9);
    let bytes = encode_instances(&vec![a, b, a]);
    assert_eq!(bytes.len(), 108);
    assert_eq!(&bytes[0..36], a.to_bytes().as_slice());
    assert_eq!(&bytes[36..72], b.to_bytes().as_slice());
    assert_eq!(&bytes[72..108], a.to_bytes().as_slice());
    assert_eq!(encode_instances(&vec![]), Vec::<u8>::new());
}

#[test]
fn the_position_layout_feeds_location_0_per_vertex() {
    let layout = Position::descriptor();
    assert_eq!(POSITION_STRIDE, 8);
    assert_eq!(
        layout,
        VertexBufferLayout {
            array_stride: 8,
            step_mode: VertexStepMode::Vertex,
            attributes: vec![VertexAttribute {
                format: VertexFormat::Float32x2,
                offset: 0,
                shader_location: 0,
            }],
        }
    );
}

#[test]
fn the_instance_layout_feeds_locations_1_to_4_per_instance() {
    let layout = WidgetInstance::descriptor();
    assert_eq!(layout.array_stride, 36);
    assert_eq!(layout.step_mode, VertexStepMode::Instance);
    let seen: Vec<(u32, VertexFormat, u64)> = layout
        .attributes
        .iter()
        .map(|a| (a.shader_location, a.format, a.offset))
        .collect();
    assert_eq!(
        seen,
        vec![
            (1, VertexFormat::Float32x2, 0),
            (2, VertexFormat::Float32x2, 8),
            (3, VertexFormat::Float32x4, 16),
            (4, VertexFormat::Float32, 32),
        ]
    );
}

#[test]
fn format_sizes_are_those_of_the_graphics_library() {
    assert_eq!(VertexFormat::Float32.size(), wgpu::VertexFormat::Float32.size());
    assert_eq!(VertexFormat::Float32x2.size(), wgpu::VertexFormat::Float32x2.size());
    assert_eq!(VertexFormat::Float32x4.size(), wgpu::VertexFormat::Float32x4.size());
}

#[test]
fn packed_layout_adds_up_the_sizes() {
    let layout = packed_layout(
        VertexStepMode::Vertex,
        &vec![(9, VertexFormat::Float32), (3, VertexFormat::Float32x4), (5, VertexFormat::Float32x2)],
    );
    assert_eq!(layout.array_stride, 28);
    let offsets: Vec<u64> = layout.attributes.iter().map(|a| a.offset).collect();
    assert_eq!(offsets, vec![0, 4, 20]);
    let locations: Vec<u32> = layout.attributes.iter().map(|a| a.shader_location).collect();
    assert_eq!(locations, vec![9, 3, 5]);
    let empty = packed_layout(VertexStepMode::Instance, &vec![]);
    assert_eq!(empty.array_stride, 0);
    assert!(empty.attributes.is_empty());
}

#[test]
fn globals_hold_the_size_as_floats() {
    let g = Globals::for_size(300, 30);
    assert_eq!(f32::from_bits(g.resolution.0), 300.0);
    assert_eq!(f32::from_bits(g.resolution.1), 30.0);
    assert_eq!(GLOBALS_SIZE, 8);
    let mut expected = Vec::new();
    expected.extend_from_slice(&300.0f32.to_le_bytes());
    expected.extend_from_slice(&30.0f32.to_le_bytes());
    assert_eq!(g.to_bytes(), expected);
    let big = Globals::for_size(16_777_217, u32::MAX);
    assert_eq!(big.resolution, Size((16_777_217u32 as f32).to_bits(), (u32::MAX as f32).to_bits()));
}
