use voxel_client::scene::{instance_positions, InstancePosition, Surface};

#[test]
fn instance_grid_positions() {
    let v = instance_positions();
    assert_eq!(v.len(), 100);
    assert_eq!(v[0], InstancePosition { x: -5, y: 0, z: -5 });
    assert_eq!(v[1], InstancePosition { x: -3, y: 0, z: -5 });
    assert_eq!(v[10], InstancePosition { x: -5, y: 0, z: -3 });
    assert_eq!(v[99], InstancePosition { x: 13, y: 0, z: 13 });
}

#[test]
fn no_instance_at_origin_and_all_distinct() {
    let v = instance_positions();
    assert!(v.iter().all(|p| *p != InstancePosition { x: 0, y: 0, z: 0 }));
    for i in 0..v.len() {
        for j in 0..i {
            assert_ne!(v[i], v[j]);
        }
    }
}

#[test]
fn surface_configures_on_positive_size_only() {
    let mut s = Surface::new(1200, 800);
    assert!(!s.should_render());
    assert!(!s.resize(0, 600));
    assert!(!s.should_render());
    assert_eq!((s.width(), s.height()), (1200, 800));
    assert!(s.resize(640, 480));
    assert!(s.should_render());
    assert_eq!((s.width(), s.height()), (640, 480));
    assert!(!s.resize(640, 0));
    assert!(s.should_render());
    assert_eq!((s.width(), s.height()), (640, 480));
}
