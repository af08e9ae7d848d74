use grayscale::gray::process_image;
use grayscale::gray::to_gray;

fn expected_gray(r: u8, g: u8, b: u8) -> u8 {
    ((299 * r as u32 + 587 * g as u32 + 114 * b as u32) / 1000) as u8
}

#[test]
fn gray_formula_exact_values() {
    assert_eq!(to_gray(10, 20, 30), 18);
    assert_eq!(to_gray(0, 0, 0), 0);
    assert_eq!(to_gray(255, 255, 255), 255);
    assert_eq!(to_gray(255, 0, 0), 76);
    assert_eq!(to_gray(0, 255, 0), 149);
    assert_eq!(to_gray(0, 0, 255), 29);
}

#[test]
fn gray_deterministic_and_bounded() {
    for r in [0u8, 1, 17, 128, 254, 255] {
        for g in [0u8, 3, 99, 200, 255] {
            for b in [0u8, 5, 77, 255] {
                let first = to_gray(r, g, b);
                let second = to_gray(r, g, b);
                assert_eq!(first, second);
                assert_eq!(first, expected_gray(r, g, b));
            }
        }
    }
}

#[test]
fn scenario_single_pixel() {
    let data = [10u8, 20, 30, 255];
    let out = process_image(&data, 1, 1);
    assert_eq!(out, vec![18, 18, 18, 255]);
}

#[test]
fn scenario_length_mismatch() {
    let data = [1u8, 2, 3, 4, 5];
    let out = process_image(&data, 1, 1);
    assert_eq!(out.len(), 0);
}

#[test]
fn length_mismatch_variants() {
    assert_eq!(process_image(&[0u8; 4], 1, 2).len(), 0);
    assert_eq!(process_image(&[0u8; 8], 1, 1).len(), 0);
    assert_eq!(process_image(&[0u8; 3], 1, 1).len(), 0);
    assert_eq!(process_image(&[], 1, 1).len(), 0);
}

#[test]
fn empty_image_is_valid() {
    let out = process_image(&[], 0, 0);
    assert_eq!(out.len(), 0);
}

#[test]
fn preserves_length_and_alpha() {
    let data = [
        1u8, 2, 3, 9, 200, 100, 50, 128, 255, 255, 255, 0, 0, 0, 0, 77,
    ];
    let out = process_image(&data, 2, 2);
    assert_eq!(out.len(), data.len());
    for p in 0..4 {
        assert_eq!(out[4 * p + 3], data[4 * p + 3]);
        let gray = expected_gray(data[4 * p], data[4 * p + 1], data[4 * p + 2]);
        assert_eq!(out[4 * p], gray);
        assert_eq!(out[4 * p + 1], gray);
        assert_eq!(out[4 * p + 2], gray);
    }
}

#[test]
fn transform_is_idempotent() {
    let data = [
        10u8, 20, 30, 255, 200, 100, 50, 128, 0, 255, 17, 3, 254, 1, 99, 200,
    ];
    let once = process_image(&data, 4, 1);
    let twice = process_image(&once, 4, 1);
    assert_eq!(twice, once);
}
