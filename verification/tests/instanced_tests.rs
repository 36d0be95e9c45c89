use primes::instanced::{extract_globals, globals_bytes, Globals, InstanceMaterialData};

#[test]
fn from_iter_starts_with_empty_cell() {
    let data = InstanceMaterialData::from_iter(vec![2, 3, 5]);
    assert_eq!(data.instance_count(), 3);
    assert!(!data.has_rendered());
}

#[test]
fn ensure_gpu_buffer_uploads_exactly_once() {
    let mut data = InstanceMaterialData::from_iter(vec![2, 3, 5]);
    let first = data.ensure_gpu_buffer();
    let second = data.ensure_gpu_buffer();
    assert!(first);
    assert!(!second);
    assert!(data.has_rendered());
    assert_eq!(data.buffer_length(), 3);
    let third = data.ensure_gpu_buffer();
    assert!(!third);
    assert!(data.has_rendered());
}

#[test]
fn ensure_gpu_buffer_on_empty_target_allocates_nothing() {
    let mut data = InstanceMaterialData::from_iter(Vec::new());
    assert!(!data.ensure_gpu_buffer());
    assert!(!data.has_rendered());
    assert!(!data.ensure_gpu_buffer());
    assert!(!data.has_rendered());
}

#[test]
fn upload_is_the_records_byte_image() {
    let values = vec![2u32, 3, 0xDEAD_BEEF];
    let mut data = InstanceMaterialData::from_iter(values.clone());
    assert!(data.buffer_contents().is_none());
    data.ensure_gpu_buffer();
    let expected = primes::codec::encode(&primes::primes::Primes::from_unchecked(values));
    assert_eq!(data.buffer_contents().unwrap(), &expected);
}

#[test]
fn extract_component_shares_the_same_state() {
    let mut data = InstanceMaterialData::from_iter(vec![7, 11]);
    let early = data.extract_component().unwrap();
    assert_eq!(early.instance_count(), 2);
    assert!(!early.has_rendered());

    data.ensure_gpu_buffer();
    let late = data.extract_component().unwrap();
    assert!(late.has_rendered());
    assert_eq!(late.buffer_length(), 2);
}

#[test]
fn extract_globals_copies_present_values() {
    let g = extract_globals(Some(0x4000_0000), Some(0xBF80_0000));
    assert_eq!(g.elapsed_seconds_bits, 0x4000_0000);
    assert_eq!(g.zoom_bits, 0xBF80_0000);
}

#[test]
fn extract_globals_defaults_to_zero_seconds_and_unit_zoom() {
    let g = extract_globals(None, None);
    assert_eq!(g.elapsed_seconds_bits, 0.0f32.to_bits());
    assert_eq!(g.zoom_bits, 1.0f32.to_bits());
}

#[test]
fn globals_bytes_is_the_eight_byte_little_endian_image() {
    let g = Globals { elapsed_seconds_bits: 0x0403_0201, zoom_bits: 0x3F80_0000 };
    assert_eq!(globals_bytes(&g), vec![0x01, 0x02, 0x03, 0x04, 0x00, 0x00, 0x80, 0x3F]);
}
