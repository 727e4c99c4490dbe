use capture_bridge::frames::concat_frames;
use capture_bridge::frames::copy_frame;

#[test]
fn copy_frame_takes_exact_prefix() {
    assert_eq!(copy_frame(&[5, 6, 7], 2), vec![5, 6]);
    assert_eq!(copy_frame(&[5, 6, 7], 0), Vec::<u8>::new());
    assert_eq!(copy_frame(&[5, 6, 7], 3), vec![5, 6, 7]);
}

#[test]
fn concat_frames_is_plain_concatenation() {
    let frames = vec![vec![1, 2], vec![], vec![3], vec![4, 5, 6]];
    assert_eq!(concat_frames(&frames), vec![1, 2, 3, 4, 5, 6]);
    assert_eq!(concat_frames(&Vec::new()), Vec::<u8>::new());
}
