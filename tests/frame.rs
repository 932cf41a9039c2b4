use eink::frame::split_halves;
use eink::geometry::{DISPLAY_BYTES_PER_CHIP, DISPLAY_BYTES_TOTAL};

#[test]
fn frame_halving() {
    let frame: Vec<u8> = (0..DISPLAY_BYTES_TOTAL).map(|k| (k % 256) as u8).collect();
    let (main, peri) = split_halves(&frame);
    assert_eq!(main.len(), DISPLAY_BYTES_PER_CHIP);
    assert_eq!(peri.len(), DISPLAY_BYTES_PER_CHIP);
    for j in 0..DISPLAY_BYTES_PER_CHIP {
        assert_eq!(main[j], frame[(j / 600) * 1200 + (j % 600)]);
        assert_eq!(peri[j], frame[(j / 600) * 1200 + 600 + (j % 600)]);
    }
}

#[test]
fn halves_are_even_then_odd_chunks() {
    let frame: Vec<u8> = (0..DISPLAY_BYTES_TOTAL).map(|k| ((k / 600) % 251) as u8).collect();
    let (main, peri) = split_halves(&frame);
    let even: Vec<u8> = frame.chunks(600).enumerate().filter(|(i, _)| i % 2 == 0).flat_map(|(_, c)| c.to_vec()).collect();
    let odd: Vec<u8> = frame.chunks(600).enumerate().filter(|(i, _)| i % 2 == 1).flat_map(|(_, c)| c.to_vec()).collect();
    assert_eq!(main, even);
    assert_eq!(peri, odd);
    assert_eq!(main.len() + peri.len(), 960_000);
}
