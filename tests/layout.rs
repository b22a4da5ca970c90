use griw::layout::{block_size, field_offsets, FieldKind};
use griw::uniforms::{uniform_fields, CameraUniforms, Uniforms, Vec3Bits, UNIFORM_BLOCK_SIZE};

#[test]
fn uniform_block_offsets_follow_padding_rule() {
    let fields = uniform_fields();
    let offsets = field_offsets(&fields);
    assert_eq!(offsets, vec![0, 4, 8, 12, 16, 28, 32, 44, 48, 60, 64, 76]);
    for (k, off) in fields.iter().zip(offsets.iter()) {
        if *k == FieldKind::Vector {
            assert_eq!(off % 16, 0);
        }
    }
    assert_eq!(block_size(&fields), 80);
    assert_eq!(UNIFORM_BLOCK_SIZE, 80);
}

#[test]
fn vector_after_scalar_is_aligned_to_sixteen() {
    let fields = vec![FieldKind::Scalar, FieldKind::Vector, FieldKind::Scalar];
    assert_eq!(field_offsets(&fields), vec![0, 16, 28]);
    assert_eq!(block_size(&fields), 32);
}

#[test]
fn empty_schema_has_no_size() {
    let fields: Vec<FieldKind> = Vec::new();
    assert_eq!(field_offsets(&fields), Vec::<u32>::new());
    assert_eq!(block_size(&fields), 0);
}

#[test]
fn scalars_only_round_up_to_sixteen() {
    let fields = vec![FieldKind::Scalar, FieldKind::Padding, FieldKind::Scalar];
    assert_eq!(field_offsets(&fields), vec![0, 4, 8]);
    assert_eq!(block_size(&fields), 16);
}

fn sample_block() -> Uniforms {
    let mut b = Uniforms::new(400, 225);
    let cam = CameraUniforms::new(
        Vec3Bits::new(0.0f32.to_bits(), 0.5f32.to_bits(), 1.0f32.to_bits()),
        Vec3Bits::new(1.0f32.to_bits(), 0, 0),
        Vec3Bits::new(0, 1.0f32.to_bits(), 0),
        Vec3Bits::new(0, 0, (-1.0f32).to_bits()),
    );
    b.begin_frame(&cam);
    b
}

#[test]
fn words_place_each_field_at_its_offset() {
    let b = sample_block();
    let ws = b.to_words();
    assert_eq!(ws.len() * 4, UNIFORM_BLOCK_SIZE);
    assert_eq!(&ws[0..4], &[400, 225, 1, 0]);
    assert_eq!(&ws[4..8], &[0.0f32.to_bits(), 0.5f32.to_bits(), 1.0f32.to_bits(), 0]);
    assert_eq!(&ws[8..12], &[1.0f32.to_bits(), 0, 0, 0]);
    assert_eq!(&ws[12..16], &[0, 1.0f32.to_bits(), 0, 0]);
    assert_eq!(&ws[16..20], &[0, 0, (-1.0f32).to_bits(), 0]);
}

#[test]
fn bytes_are_the_words_in_machine_order() {
    let b = sample_block();
    let ws = b.to_words();
    let bytes = b.to_bytes();
    assert_eq!(bytes.len(), 80);
    let mut expected = Vec::new();
    for w in ws {
        expected.extend_from_slice(&w.to_ne_bytes());
    }
    assert_eq!(bytes, expected);
    assert_eq!(&bytes[0..2], &400u32.to_ne_bytes()[0..2]);
}
