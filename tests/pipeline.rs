use eink::color::RGB;
use eink::pipeline::{check_geometry, fit_to_panel, prepare_for_panel, rotate90, ConvertError};

const RED: RGB<u8> = RGB { red: 255, green: 0, blue: 0 };
const WHITE: RGB<u8> = RGB { red: 255, green: 255, blue: 255 };

#[test]
fn resize_rotate_composition() {
    let (w, h) = (1600usize, 1200usize);
    let mut src = vec![WHITE; w * h];
    src[0] = RED;
    let turned = rotate90(&src, w, h);
    assert_eq!(turned.len(), w * h);
    // 1200 wide, 1600 high: (1199, 0) is index 1199.
    assert_eq!(turned[1199], RED);
    assert_eq!(turned.iter().filter(|p| **p == RED).count(), 1);
    let fitted = fit_to_panel(&src, w as u32, h as u32).unwrap();
    assert_eq!(fitted.len(), 1200 * 1600);
    assert_eq!(fitted[1199], RED);
    assert_eq!(fitted[0], WHITE);
}

#[test]
fn rotate_small_image() {
    // 3 wide, 2 high:  a b c / d e f  ->  2 wide, 3 high:  d a / e b / f c
    let p = |v: u8| RGB { red: v, green: 0, blue: 0 };
    let src = vec![p(1), p(2), p(3), p(4), p(5), p(6)];
    let r = rotate90(&src, 3, 2);
    assert_eq!(r, vec![p(4), p(1), p(5), p(2), p(6), p(3)]);
}

#[test]
fn small_source_is_resized_to_panel() {
    let src = vec![RED; 20 * 10];
    let fitted = fit_to_panel(&src, 20, 10).unwrap();
    assert_eq!(fitted.len(), 1200 * 1600);
}

#[test]
fn empty_source_is_rejected() {
    assert_eq!(fit_to_panel(&[], 0, 0), Err(ConvertError::EmptySource));
    assert_eq!(fit_to_panel(&[], 0, 7), Err(ConvertError::EmptySource));
    assert_eq!(fit_to_panel(&[], 7, 0), Err(ConvertError::EmptySource));
}

#[test]
fn tall_source_covers_the_panel() {
    let src = vec![RED; 4 * 30];
    let fitted = fit_to_panel(&src, 4, 30).unwrap();
    assert_eq!(fitted.len(), 1200 * 1600);
}

#[test]
fn geometry_mismatch_is_reported() {
    assert_eq!(
        check_geometry(vec![WHITE; 6], 2, 3),
        Err(ConvertError::Geometry { width: 2, height: 3 })
    );
    let ok = check_geometry(vec![WHITE; 1200 * 1600], 1200, 1600).unwrap();
    assert_eq!(ok.len(), 1200 * 1600);
}

#[test]
fn orientation_is_applied_before_the_turn() {
    // EXIF 6 turns the source a quarter clockwise; the panel turn adds
    // another, so the source's first pixel ends at the bottom right.
    let (w, h) = (1200usize, 1600usize);
    let mut src = vec![WHITE; w * h];
    src[0] = RED;
    let fitted = prepare_for_panel(&src, w as u32, h as u32, 6).unwrap();
    assert_eq!(fitted.len(), 1200 * 1600);
    assert_eq!(fitted[1200 * 1600 - 1], RED);
    assert_eq!(fitted.iter().filter(|p| **p == RED).count(), 1);
    // An unknown code leaves the source as it is.
    let mut wide = vec![WHITE; 1600 * 1200];
    wide[0] = RED;
    let plain = prepare_for_panel(&wide, 1600, 1200, 0).unwrap();
    assert_eq!(plain[1199], RED);
    assert_eq!(prepare_for_panel(&[], 0, 0, 1), Err(ConvertError::EmptySource));
}
