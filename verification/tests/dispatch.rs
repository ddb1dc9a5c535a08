use goldenrod::dispatch::{workgroups_for, WORKGROUP_SIZE};

#[test]
fn workgroups_round_up() {
    assert_eq!(workgroups_for(800, 8), 100);
    assert_eq!(workgroups_for(801, 8), 101);
    assert_eq!(workgroups_for(807, 8), 101);
    assert_eq!(workgroups_for(808, 8), 101);
    assert_eq!(workgroups_for(0, 8), 0);
    assert_eq!(workgroups_for(1, 8), 1);
    assert_eq!(workgroups_for(u32::MAX, 8), 536_870_912);
}

#[test]
fn workgroups_for_even_remainder_still_cover() {
    // A remainder of two texels needs a workgroup of its own as well.
    assert_eq!(workgroups_for(10, 8), 2);
    assert_eq!(workgroups_for(12, 8), 2);
    assert_eq!(workgroups_for(14, 8), 2);
}

#[test]
fn workgroups_cover_every_size_tightly() {
    for dimension in 0u32..4096 {
        let count = workgroups_for(dimension, WORKGROUP_SIZE) as i64;
        assert!(count * 8 >= dimension as i64);
        assert!((count - 1) * 8 < dimension as i64);
    }
}

#[test]
fn workgroups_for_full_hd() {
    assert_eq!(workgroups_for(1920, WORKGROUP_SIZE), 240);
    assert_eq!(workgroups_for(1080, WORKGROUP_SIZE), 135);
    assert_eq!(workgroups_for(600, WORKGROUP_SIZE), 75);
}

#[test]
fn workgroups_of_one_invocation() {
    assert_eq!(workgroups_for(1, 1), 1);
    assert_eq!(workgroups_for(7, 1), 7);
}
