use libcamera::{coalesce_planes, FrameBufferPlane};

fn plane(fd: u32, offset: u32, length: u32) -> FrameBufferPlane {
    FrameBufferPlane { fd, offset, length }
}

#[test]
fn contiguous_planes_merge_until_a_gap() {
    let planes = vec![plane(5, 0, 100), plane(5, 100, 50), plane(5, 200, 10)];
    let windows = coalesce_planes(&planes);
    assert_eq!(windows, vec![plane(5, 0, 150), plane(5, 200, 10)]);
}

#[test]
fn different_descriptors_never_merge() {
    let planes = vec![plane(5, 0, 100), plane(6, 100, 50)];
    let windows = coalesce_planes(&planes);
    assert_eq!(windows, vec![plane(5, 0, 100), plane(6, 100, 50)]);
}

#[test]
fn no_planes_give_no_windows() {
    let planes: Vec<FrameBufferPlane> = vec![];
    assert!(coalesce_planes(&planes).is_empty());
}

#[test]
fn single_plane_is_one_window() {
    let planes = vec![plane(3, 16, 4096)];
    assert_eq!(coalesce_planes(&planes), vec![plane(3, 16, 4096)]);
}

#[test]
fn three_contiguous_planes_become_one_window() {
    let planes = vec![plane(7, 0, 10), plane(7, 10, 20), plane(7, 30, 30)];
    assert_eq!(coalesce_planes(&planes), vec![plane(7, 0, 60)]);
}

#[test]
fn returning_to_an_earlier_descriptor_opens_a_new_window() {
    let planes = vec![plane(5, 0, 10), plane(6, 10, 10), plane(5, 10, 10)];
    assert_eq!(
        coalesce_planes(&planes),
        vec![plane(5, 0, 10), plane(6, 10, 10), plane(5, 10, 10)]
    );
}

#[test]
fn overlapping_planes_do_not_merge() {
    let planes = vec![plane(5, 0, 100), plane(5, 50, 100)];
    assert_eq!(coalesce_planes(&planes), vec![plane(5, 0, 100), plane(5, 50, 100)]);
}

#[test]
fn a_window_too_long_for_a_plane_is_not_formed() {
    let planes = vec![plane(5, 0, u32::MAX - 10), plane(5, u32::MAX - 10, 20)];
    assert_eq!(
        coalesce_planes(&planes),
        vec![plane(5, 0, u32::MAX - 10), plane(5, u32::MAX - 10, 20)]
    );
}

#[test]
fn coalescing_keeps_the_total_length() {
    let planes = vec![plane(1, 0, 8), plane(1, 8, 8), plane(2, 0, 4), plane(2, 4, 4), plane(1, 100, 1)];
    let windows = coalesce_planes(&planes);
    let before: u64 = planes.iter().map(|p| p.length as u64).sum();
    let after: u64 = windows.iter().map(|p| p.length as u64).sum();
    assert_eq!(before, after);
    assert_eq!(windows, vec![plane(1, 0, 16), plane(2, 0, 8), plane(1, 100, 1)]);
}
