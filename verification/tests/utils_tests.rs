use aviutl2::utils::{
    bgr_to_rgb, bgr_to_rgb_bytes, bgra_to_rgba, bgra_to_rgba_bytes, flip_vertical, rgb_to_bgr,
    rgb_to_bgr_bytes, rgba_to_bgra, rgba_to_bgra_bytes,
};

#[test]
fn test_flip_vertical() {
    let mut data = vec![
        1, 2, 3, 4, 5, 6, // Row 0
        7, 8, 9, 10, 11, 12, // Row 1
        13, 14, 15, 16, 17, 18, // Row 2
    ];
    flip_vertical(&mut data, 6, 3);
    assert_eq!(
        data,
        vec![13, 14, 15, 16, 17, 18, 7, 8, 9, 10, 11, 12, 1, 2, 3, 4, 5, 6]
    );
}

#[test]
fn test_bgr_to_rgb() {
    let mut data = vec![(0, 0, 255), (0, 255, 0), (255, 0, 0)];
    bgr_to_rgb(&mut data);
    assert_eq!(data, vec![(255, 0, 0), (0, 255, 0), (0, 0, 255)]);
}

#[test]
fn test_rgb_to_bgr() {
    let mut data = vec![(255, 0, 0), (0, 255, 0), (0, 0, 255)];
    rgb_to_bgr(&mut data);
    assert_eq!(data, vec![(0, 0, 255), (0, 255, 0), (255, 0, 0)]);
}

#[test]
fn test_bgr_to_rgb_bytes() {
    let mut data = vec![0, 0, 255, 0, 255, 0, 255, 0, 0];
    bgr_to_rgb_bytes(&mut data);
    assert_eq!(data, vec![255, 0, 0, 0, 255, 0, 0, 0, 255]);
}

#[test]
fn test_rgb_to_bgr_bytes() {
    let mut data = vec![255, 0, 0, 0, 255, 0, 0, 0, 255];
    rgb_to_bgr_bytes(&mut data);
    assert_eq!(data, vec![0, 0, 255, 0, 255, 0, 255, 0, 0]);
}

#[test]
fn test_rgba_to_bgra() {
    let mut data = vec![(255, 0, 0, 255), (0, 255, 0, 255), (0, 0, 255, 255)];
    rgba_to_bgra(&mut data);
    assert_eq!(
        data,
        vec![(0, 0, 255, 255), (0, 255, 0, 255), (255, 0, 0, 255)]
    );
}

#[test]
fn test_bgra_to_rgba() {
    let mut data = vec![(0, 0, 255, 255), (0, 255, 0, 255), (255, 0, 0, 255)];
    bgra_to_rgba(&mut data);
    assert_eq!(
        data,
        vec![(255, 0, 0, 255), (0, 255, 0, 255), (0, 0, 255, 255)]
    );
}

#[test]
fn test_rgba_to_bgra_bytes() {
    let mut data = vec![255, 0, 0, 255, 0, 255, 0, 255, 0, 0, 255, 255];
    rgba_to_bgra_bytes(&mut data);
    assert_eq!(data, vec![0, 0, 255, 255, 0, 255, 0, 255, 255, 0, 0, 255]);
}

#[test]
fn test_bgra_to_rgba_bytes() {
    let mut data = vec![0, 0, 255, 255, 0, 255, 0, 255, 255, 0, 0, 255];
    bgra_to_rgba_bytes(&mut data);
    assert_eq!(data, vec![255, 0, 0, 255, 0, 255, 0, 255, 0, 0, 255, 255]);
}

#[test]
fn channel_swaps_are_their_own_inverse() {
    let original = vec![(1, 2, 3), (4, 5, 6)];
    let mut data = original.clone();
    bgr_to_rgb(&mut data);
    rgb_to_bgr(&mut data);
    assert_eq!(data, original);

    let original_bytes = vec![1u8, 2, 3, 4, 5, 6, 7, 8];
    let mut bytes = original_bytes.clone();
    rgba_to_bgra_bytes(&mut bytes);
    assert_eq!(bytes, vec![3, 2, 1, 4, 7, 6, 5, 8]);
    bgra_to_rgba_bytes(&mut bytes);
    assert_eq!(bytes, original_bytes);
}

#[test]
fn flipping_twice_gives_back_the_rows() {
    let original = vec![1u8, 2, 3, 4, 5, 6, 7, 8];
    let mut data = original.clone();
    flip_vertical(&mut data, 2, 4);
    assert_eq!(data, vec![7, 8, 5, 6, 3, 4, 1, 2]);
    flip_vertical(&mut data, 2, 4);
    assert_eq!(data, original);
}

#[test]
fn flipping_an_odd_number_of_rows_keeps_the_middle() {
    let mut data = vec![(1u8, 1u8, 1u8), (2, 2, 2), (3, 3, 3)];
    flip_vertical(&mut data, 1, 3);
    assert_eq!(data, vec![(3, 3, 3), (2, 2, 2), (1, 1, 1)]);
}
