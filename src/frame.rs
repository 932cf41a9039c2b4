use vstd::prelude::*;
use crate::geometry::{CHUNK_BYTES, DISPLAY_BYTES_PER_CHIP, DISPLAY_BYTES_TOTAL};

verus! {

/// Position in the full frame of byte `j` of the main controller's half:
/// the even-numbered 600-byte chunks, in order.
pub open spec fn main_source(j: int) -> int {
    (j / 600) * 1200 + j % 600
}

/// Position in the full frame of byte `j` of the peripheral controller's
/// half: the odd-numbered 600-byte chunks, in order.
pub open spec fn peri_source(j: int) -> int {
    (j / 600) * 1200 + 600 + j % 600
}

/// The bytes that the main controller receives of frame `f`.
pub open spec fn main_half(f: Seq<u8>) -> Seq<u8> {
    Seq::new(480000, |j: int| f[main_source(j)])
}

/// The bytes that the peripheral controller receives of frame `f`.
pub open spec fn peri_half(f: Seq<u8>) -> Seq<u8> {
    Seq::new(480000, |j: int| f[peri_source(j)])
}

proof fn lemma_chunk_position(row: int, col: int)
    requires
        0 <= row,
        0 <= col < 600,
    ensures
        (row * 600 + col) / 600 == row,
        (row * 600 + col) % 600 == col,
{
    vstd::arithmetic::div_mod::lemma_fundamental_div_mod_converse(row * 600 + col, 600, row, col);
}

/// Splits a frame into the two halves that the controllers receive.
pub fn split_halves(frame: &[u8]) -> (r: (Vec<u8>, Vec<u8>))
    requires
        frame@.len() == 960000,
    ensures
        r.0@ == main_half(frame@),
        r.1@ == peri_half(frame@),
{
    let mut main: Vec<u8> = Vec::with_capacity(DISPLAY_BYTES_PER_CHIP);
    let mut peri: Vec<u8> = Vec::with_capacity(DISPLAY_BYTES_PER_CHIP);
    let mut base: usize = 0;
    while base < DISPLAY_BYTES_TOTAL
        invariant
            frame@.len() == 960000,
            base % 1200 == 0,
            base <= 960000,
            main@ =~= main_half(frame@).subrange(0, base as int / 2),
            peri@ =~= peri_half(frame@).subrange(0, base as int / 2),
        decreases DISPLAY_BYTES_TOTAL - base,
    {
        let mut col: usize = 0;
        while col < CHUNK_BYTES
            invariant
                frame@.len() == 960000,
                base % 1200 == 0,
                base < 960000,
                col <= 600,
                main@ =~= main_half(frame@).subrange(0, base as int / 2 + col),
                peri@ =~= peri_half(frame@).subrange(0, base as int / 2 + col),
            decreases CHUNK_BYTES - col,
        {
            proof {
                lemma_chunk_position(base as int / 1200, col as int);
            }
            main.push(frame[base + col]);
            peri.push(frame[base + CHUNK_BYTES + col]);
            col += 1;
        }
        base += 2 * CHUNK_BYTES;
    }
    (main, peri)
}

proof fn lemma_frame_position(k: int)
    requires
        0 <= k < 960000,
    ensures
        0 <= (k / 1200) * 600 + k % 600 < 480000,
        (k / 600) % 2 == 0 ==> main_source((k / 1200) * 600 + k % 600) == k,
        (k / 600) % 2 == 1 ==> peri_source((k / 1200) * 600 + k % 600) == k,
{
    let row = k / 1200;
    let rem = k % 1200;
    vstd::arithmetic::div_mod::lemma_fundamental_div_mod(k, 1200);
    assert(0 <= row < 800);
    if rem < 600 {
        lemma_chunk_position(row, rem);
        vstd::arithmetic::div_mod::lemma_fundamental_div_mod_converse(k, 600, row * 2, rem);
    } else {
        lemma_chunk_position(row, rem - 600);
        vstd::arithmetic::div_mod::lemma_fundamental_div_mod_converse(k, 600, row * 2 + 1, rem - 600);
    }
}

/// Every byte of a frame reaches exactly one controller: the main half
/// followed by the peripheral half has the frame's length, and each byte of
/// the frame is found in the half that its 600-byte chunk belongs to.
pub proof fn lemma_halves_cover_frame(f: Seq<u8>)
    requires
        f.len() == 960000,
    ensures
        main_half(f).len() + peri_half(f).len() == f.len(),
        forall|k: int|
            #![trigger f[k]]
            0 <= k < 960000 && (k / 600) % 2 == 0 ==> main_half(f)[(k / 1200) * 600 + k % 600] == f[k],
        forall|k: int|
            #![trigger f[k]]
            0 <= k < 960000 && (k / 600) % 2 == 1 ==> peri_half(f)[(k / 1200) * 600 + k % 600] == f[k],
{
    assert forall|k: int| 0 <= k < 960000 && (k / 600) % 2 == 0 implies #[trigger] main_half(f)[(k / 1200) * 600 + k % 600] == f[k] by {
        lemma_frame_position(k);
    }
    assert forall|k: int| 0 <= k < 960000 && (k / 600) % 2 == 1 implies #[trigger] peri_half(f)[(k / 1200) * 600 + k % 600] == f[k] by {
        lemma_frame_position(k);
    }
}

} // verus!
