use voxel_client::networking::{component_count, component_frame_fits, component_payload, COMPONENT_SIZE};

#[test]
fn count_is_little_endian() {
    assert_eq!(component_count(&[2, 0, 0, 0, 99]), 2);
    assert_eq!(component_count(&[0x78, 0x56, 0x34, 0x12]), 0x1234_5678);
    assert_eq!(component_count(&[0xff, 0xff, 0xff, 0xff]), u32::MAX);
}

#[test]
fn frame_fits_only_when_records_are_inside() {
    let mut d = vec![2u8, 0, 0, 0];
    d.extend(std::iter::repeat(7u8).take(2 * COMPONENT_SIZE));
    assert!(component_frame_fits(&d));
    d.pop();
    assert!(!component_frame_fits(&d));
    assert!(!component_frame_fits(&[1, 0, 0]));
    assert!(component_frame_fits(&[0, 0, 0, 0]));
    assert!(!component_frame_fits(&[0xff, 0xff, 0xff, 0xff, 0]));
}

#[test]
fn payload_is_the_declared_records() {
    let mut d = vec![1u8, 0, 0, 0];
    d.extend((0..COMPONENT_SIZE as u8).map(|b| b + 1));
    d.extend([200u8; 10]);
    assert!(component_frame_fits(&d));
    let p = component_payload(&d);
    assert_eq!(p.len(), COMPONENT_SIZE);
    assert_eq!(p, &d[4..4 + COMPONENT_SIZE]);
    assert_eq!(p[0], 1);
}

#[test]
fn empty_frame_has_empty_payload() {
    let d = [0u8; 16];
    assert!(component_payload(&d).is_empty());
}
