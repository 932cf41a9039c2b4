use vstd::prelude::*;
use palette::color_difference::HyAb;
use palette::{IntoColor, Oklab, Srgb};

verus! {

/// An 8-bit-per-channel sRGB pixel.
#[derive(Debug, Clone, Copy, PartialEq, Eq, Structural)]
pub struct RGB<T> {
    pub red: T,
    pub green: T,
    pub blue: T,
}

/// The six colours that the panel can show.
#[derive(Debug, Clone, Copy, PartialEq, Eq, Hash, Structural)]
pub enum DisplayColor {
    Black,
    White,
    Yellow,
    Red,
    Blue,
    Green,
}

/// The palette index that the panel expects for a colour.
pub open spec fn color_index(c: DisplayColor) -> u8 {
    match c {
        DisplayColor::Black => 0,
        DisplayColor::White => 1,
        DisplayColor::Yellow => 2,
        DisplayColor::Red => 3,
        DisplayColor::Blue => 4,
        DisplayColor::Green => 5,
    }
}

pub open spec fn rgb(red: u8, green: u8, blue: u8) -> RGB<u8> {
    RGB { red, green, blue }
}

/// The sRGB value of a panel colour.
pub open spec fn color_rgb(c: DisplayColor) -> RGB<u8> {
    match c {
        DisplayColor::Black => rgb(0, 0, 0),
        DisplayColor::White => rgb(255, 255, 255),
        DisplayColor::Yellow => rgb(255, 243, 56),
        DisplayColor::Red => rgb(191, 0, 0),
        DisplayColor::Blue => rgb(100, 64, 255),
        DisplayColor::Green => rgb(67, 138, 28),
    }
}

/// The colour with a given palette index; any index out of range is White.
pub open spec fn color_of_index(i: int) -> DisplayColor {
    if i == 0 {
        DisplayColor::Black
    } else if i == 1 {
        DisplayColor::White
    } else if i == 2 {
        DisplayColor::Yellow
    } else if i == 3 {
        DisplayColor::Red
    } else if i == 4 {
        DisplayColor::Blue
    } else if i == 5 {
        DisplayColor::Green
    } else {
        DisplayColor::White
    }
}

/// The panel colour whose sRGB value is exactly `p`; White when there is none.
pub open spec fn color_of_rgb(p: RGB<u8>) -> DisplayColor {
    if p == color_rgb(DisplayColor::Black) {
        DisplayColor::Black
    } else if p == color_rgb(DisplayColor::Yellow) {
        DisplayColor::Yellow
    } else if p == color_rgb(DisplayColor::Red) {
        DisplayColor::Red
    } else if p == color_rgb(DisplayColor::Blue) {
        DisplayColor::Blue
    } else if p == color_rgb(DisplayColor::Green) {
        DisplayColor::Green
    } else {
        DisplayColor::White
    }
}

impl DisplayColor {
    pub fn index(self) -> (r: u8)
        ensures
            r == color_index(self),
    {
        match self {
            DisplayColor::Black => 0,
            DisplayColor::White => 1,
            DisplayColor::Yellow => 2,
            DisplayColor::Red => 3,
            DisplayColor::Blue => 4,
            DisplayColor::Green => 5,
        }
    }

    pub fn rgb(self) -> (r: RGB<u8>)
        ensures
            r == color_rgb(self),
    {
        match self {
            DisplayColor::Black => RGB { red: 0, green: 0, blue: 0 },
            DisplayColor::White => RGB { red: 255, green: 255, blue: 255 },
            DisplayColor::Yellow => RGB { red: 255, green: 243, blue: 56 },
            DisplayColor::Red => RGB { red: 191, green: 0, blue: 0 },
            DisplayColor::Blue => RGB { red: 100, green: 64, blue: 255 },
            DisplayColor::Green => RGB { red: 67, green: 138, blue: 28 },
        }
    }

    pub fn from_index(i: usize) -> (r: DisplayColor)
        ensures
            r == color_of_index(i as int),
    {
        match i {
            0 => DisplayColor::Black,
            1 => DisplayColor::White,
            2 => DisplayColor::Yellow,
            3 => DisplayColor::Red,
            4 => DisplayColor::Blue,
            5 => DisplayColor::Green,
            _ => DisplayColor::White,
        }
    }

    pub fn from_rgb(p: &RGB<u8>) -> (r: DisplayColor)
        ensures
            r == color_of_rgb(*p),
    {
        if *p == DisplayColor::Black.rgb() {
            DisplayColor::Black
        } else if *p == DisplayColor::Yellow.rgb() {
            DisplayColor::Yellow
        } else if *p == DisplayColor::Red.rgb() {
            DisplayColor::Red
        } else if *p == DisplayColor::Blue.rgb() {
            DisplayColor::Blue
        } else if *p == DisplayColor::Green.rgb() {
            DisplayColor::Green
        } else {
            DisplayColor::White
        }
    }

    /// The palette as (colour, sRGB) pairs, in palette-index order.
    pub fn rgb_map() -> (r: Vec<(DisplayColor, RGB<u8>)>)
        ensures
            r@.len() == 6,
            forall|i: int| 0 <= i < 6 ==> #[trigger] r@[i] == (color_of_index(i), color_rgb(color_of_index(i))),
    {
        let mut r: Vec<(DisplayColor, RGB<u8>)> = Vec::with_capacity(6);
        let mut i: usize = 0;
        while i < 6
            invariant
                i <= 6,
                r@.len() == i,
                forall|k: int| 0 <= k < i ==> #[trigger] r@[k] == (color_of_index(k), color_rgb(color_of_index(k))),
            decreases 6 - i,
        {
            let c = DisplayColor::from_index(i);
            r.push((c, c.rgb()));
            i += 1;
        }
        r
    }
}

/// Relies on palette: `Srgb::into_format` to scale the channels to [0, 1],
/// `IntoColor` to reach Oklab, and `HyAb::hybrid_distance` (the absolute
/// lightness difference plus the Euclidean chroma distance). The result is
/// a non-negative `f32`, whose bit pattern orders as its value does; the
/// conversion uses `powf` and `cbrt`, whose precision std leaves open, so
/// nothing is stated of the value.
#[verifier::external_body]
fn perceptual_distance(a: &RGB<u8>, b: &RGB<u8>) -> u32 {
    let a: Srgb = Srgb::new(a.red, a.green, a.blue).into_format();
    let b: Srgb = Srgb::new(b.red, b.green, b.blue).into_format();
    let a: Oklab = a.into_color();
    let b: Oklab = b.into_color();
    a.hybrid_distance(b).to_bits()
}

/// Index of the first smallest of `d[0..n]`.
pub open spec fn argmin_upto(d: Seq<u32>, n: int) -> int
    decreases n,
{
    if n <= 1 {
        0
    } else {
        let m = argmin_upto(d, n - 1);
        if d[n - 1] < d[m] {
            n - 1
        } else {
            m
        }
    }
}

/// `argmin_upto` picks a smallest entry, and the first of them.
pub proof fn lemma_argmin_upto(d: Seq<u32>, n: int)
    requires
        1 <= n <= d.len(),
    ensures
        0 <= argmin_upto(d, n) < n,
        forall|j: int| 0 <= j < n ==> d[argmin_upto(d, n)] <= #[trigger] d[j],
        forall|j: int| 0 <= j < argmin_upto(d, n) ==> d[argmin_upto(d, n)] < #[trigger] d[j],
    decreases n,
{
    if n > 1 {
        lemma_argmin_upto(d, n - 1);
    }
}

/// Picks the first smallest of six distances.
pub fn nearest_index(d: &[u32; 6]) -> (r: usize)
    ensures
        r == argmin_upto(d@, 6),
{
    let mut best: usize = 0;
    let mut i: usize = 1;
    while i < 6
        invariant
            1 <= i <= 6,
            d@.len() == 6,
            best == argmin_upto(d@, i as int),
            best < i,
        decreases 6 - i,
    {
        if d[i] < d[best] {
            best = i;
        }
        i += 1;
    }
    best
}

/// Maps sRGB pixels to the nearest panel colour.
pub struct EPaperColorMap {}

impl EPaperColorMap {
    pub fn new() -> (r: EPaperColorMap) {
        EPaperColorMap {}
    }

    /// The palette index nearest to `color` by hybrid Oklab distance, the
    /// lowest among equals. A palette colour is at distance zero from its
    /// own entry only, so it is matched exactly and keeps its own index.
    pub fn index_of(&self, color: &RGB<u8>) -> (r: usize)
        ensures
            r < 6,
            forall|c: DisplayColor| *color == #[trigger] color_rgb(c) ==> r == color_index(c),
    {
        let exact = DisplayColor::from_rgb(color);
        if exact.rgb() == *color {
            return exact.index() as usize;
        }
        let mut d: [u32; 6] = [0; 6];
        let mut i: usize = 0;
        while i < 6
            invariant
                i <= 6,
                d@.len() == 6,
            decreases 6 - i,
        {
            let entry = DisplayColor::from_index(i).rgb();
            d[i] = perceptual_distance(color, &entry);
            i += 1;
        }
        proof {
            lemma_argmin_upto(d@, 6);
        }
        nearest_index(&d)
    }

    /// The palette's sRGB value at `index`; White's for an index out of range.
    pub fn lookup(&self, index: usize) -> (r: Option<RGB<u8>>)
        ensures
            r == Some(color_rgb(color_of_index(index as int))),
    {
        Some(DisplayColor::from_index(index).rgb())
    }

    pub fn has_lookup(&self) -> (r: bool)
        ensures
            r,
    {
        true
    }

    /// Replaces a pixel with the nearest palette colour.
    pub fn map_color(&self, color: &mut RGB<u8>)
        ensures
            *final(color) == color_rgb(color_of_rgb(*final(color))),
            forall|c: DisplayColor| *old(color) == #[trigger] color_rgb(c) ==> *final(color) == *old(color),
    {
        let index = self.index_of(color);
        *color = DisplayColor::from_index(index).rgb();
    }
}

/// The palette index of a pixel that holds a panel colour exactly (White
/// for any other value).
pub open spec fn pixel_code(p: RGB<u8>) -> int {
    color_index(color_of_rgb(p)) as int
}

/// Two pixels to a byte: the left one in the high nibble.
pub open spec fn pack_pair(left: RGB<u8>, right: RGB<u8>) -> u8 {
    (pixel_code(left) * 16 + pixel_code(right)) as u8
}

/// The packed form of a row-major run of pixels of even length.
pub open spec fn packed(pixels: Seq<RGB<u8>>) -> Seq<u8> {
    Seq::new(pixels.len() / 2, |k: int| pack_pair(pixels[2 * k], pixels[2 * k + 1]))
}

/// The palette index of each pixel.
pub fn rgb_to_display_u8(pixels: &[RGB<u8>]) -> (r: Vec<u8>)
    ensures
        r@ == Seq::new(pixels@.len(), |k: int| pixel_code(pixels@[k]) as u8),
{
    let mut r: Vec<u8> = Vec::with_capacity(pixels.len());
    let mut k: usize = 0;
    while k < pixels.len()
        invariant
            k <= pixels@.len(),
            r@ =~= Seq::new(k as nat, |i: int| pixel_code(pixels@[i]) as u8),
        decreases pixels@.len() - k,
    {
        r.push(DisplayColor::from_rgb(&pixels[k]).index());
        k += 1;
    }
    r
}

/// Packs pixels two to a byte, the left pixel's palette index in the high
/// nibble.
pub fn rgb_to_display_nybbles(pixels: &[RGB<u8>]) -> (r: Vec<u8>)
    requires
        pixels@.len() % 2 == 0,
    ensures
        r@ == packed(pixels@),
{
    let mut r: Vec<u8> = Vec::with_capacity(pixels.len() / 2);
    let mut k: usize = 0;
    while k < pixels.len() / 2
        invariant
            pixels@.len() % 2 == 0,
            k <= pixels@.len() / 2,
            r@ =~= packed(pixels@).subrange(0, k as int),
        decreases pixels@.len() / 2 - k,
    {
        let high = DisplayColor::from_rgb(&pixels[2 * k]).index();
        let low = DisplayColor::from_rgb(&pixels[2 * k + 1]).index();
        r.push(high * 16 + low);
        k += 1;
    }
    r
}

/// A full panel image packs to a frame of exactly 960 000 bytes.
pub proof fn lemma_packed_frame_length(pixels: Seq<RGB<u8>>)
    requires
        pixels.len() == 1200 * 1600,
    ensures
        packed(pixels).len() == 960000,
{
}

/// Index lookup never fails: indices 0 to 5 give the palette colours, and
/// every other index gives White.
pub proof fn lemma_lookup_total(i: int)
    ensures
        0 <= i < 6 ==> color_index(color_of_index(i)) == i,
        i >= 6 ==> color_rgb(color_of_index(i)) == rgb(255, 255, 255),
{
}

} // verus!
