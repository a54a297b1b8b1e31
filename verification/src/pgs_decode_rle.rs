//! Colour conversion and run-length decoding of ODS bitmap payloads.
//!
//! Pixels are palette indices; a PDS palette entry carries luminance (Y),
//! chrominance (Cb, Cr) and transparency. The ARGB conversion follows the
//! BT.601 coefficients, evaluated in binary fixed point with every
//! intermediate value rounded to 24 significant bits — the precision of
//! IEEE single-precision arithmetic — so that results are reproducible
//! bit for bit. The grayscale conversion is pure integer arithmetic.

use vstd::arithmetic::div_mod::lemma_fundamental_div_mod;
use vstd::arithmetic::power2::{
    lemma2_to64, lemma2_to64_rest, lemma_pow2_strictly_increases, lemma_pow2_unfold, pow2,
};
use vstd::math::abs;
use vstd::prelude::*;

use crate::pgs_error::{Error, PgsResult};
use crate::pgs_memory_buffer::{PgsMemoryBuffer, ReadBytes};
use crate::pgs_ods_segment::PgsOdsSegment;
use crate::pgs_pds_segment::{PgsPdsSegment, PgsPdsSegmentPaletteEntry};
use crate::pgs_read::PgsSeek;

verus! {

/// The fixed-point scale: all colour arithmetic is carried out in units
/// of 2^-24.
pub const PIXEL_SCALE: i64 = 0x1000000;

/// The BT.601 red coefficient 1.40200, rounded to single precision, in
/// units of 2^-24.
pub const COEF_RED_CR: i64 = 23521656;

/// The BT.601 green Cb coefficient 0.34414, rounded to single precision,
/// in units of 2^-24.
pub const COEF_GREEN_CB: i64 = 5773711;

/// The BT.601 green Cr coefficient 0.71414, rounded to single precision,
/// in units of 2^-24.
pub const COEF_GREEN_CR: i64 = 11981281;

/// The BT.601 blue coefficient 1.77200, rounded to single precision, in
/// units of 2^-24.
pub const COEF_BLUE_CB: i64 = 29729226;

/// Converts a single byte to an unsigned 32-bit integer.
pub fn byte_to_int(byte: u8) -> (r: u32)
    ensures
        r == byte as u32,
{
    byte as u32
}

/// The number of binary digits of `n`: zero for zero, and the unique `b`
/// with `pow2(b - 1) <= n < pow2(b)` otherwise.
pub open spec fn spec_bit_len(n: nat) -> nat
    decreases n,
{
    if n == 0 {
        0
    } else {
        (1 + spec_bit_len(n / 2)) as nat
    }
}

/// `n` rounded to 24 significant binary digits, to nearest, ties to even:
/// the rounding a single-precision significand applies. Values that
/// already fit in 24 digits are unchanged.
pub open spec fn spec_round24(n: int) -> int {
    let a = abs(n) as int;
    let b = spec_bit_len(abs(n));
    if b <= 24 {
        n
    } else {
        let sh = (b - 24) as nat;
        let p = pow2(sh) as int;
        let half = pow2((sh - 1) as nat) as int;
        let q = a / p;
        let rem = a % p;
        let q2 = if rem > half || (rem == half && q % 2 == 1) {
            q + 1
        } else {
            q
        };
        if n >= 0 {
            q2 * p
        } else {
            -(q2 * p)
        }
    }
}

/// 2 to the power `e`, for exponents below the width of `u64`.
fn pow2_u64(e: u64) -> (r: u64)
    requires
        e <= 63,
    ensures
        r as nat == pow2(e as nat),
        r >= 1,
{
    let mut r: u64 = 1;
    let mut i: u64 = 0;
    proof {
        lemma2_to64();
    }
    while i < e
        invariant
            i <= e <= 63,
            r as nat == pow2(i as nat),
            r >= 1,
        decreases e - i,
    {
        proof {
            lemma2_to64();
            lemma2_to64_rest();
            if (i as nat) < 63 {
                lemma_pow2_strictly_increases(i as nat, 63);
            }
            lemma_pow2_unfold((i + 1) as nat);
        }
        r = r * 2;
        i = i + 1;
    }
    r
}

/// Rounds `n` to 24 significant binary digits, to nearest, ties to even.
fn round24(n: i64) -> (r: i64)
    requires
        -0x100_0000_0000 <= n <= 0x100_0000_0000,
    ensures
        r as int == spec_round24(n as int),
        abs(r as int) <= abs(n as int) + 0x20000,
{
    let neg = n < 0;
    let a: u64 = if neg {
        (-n) as u64
    } else {
        n as u64
    };
    proof {
        lemma2_to64();
        lemma2_to64_rest();
        assert(a as nat == abs(n as int));
    }
    let mut b: u64 = 0;
    let mut x: u64 = a;
    while x > 0
        invariant
            spec_bit_len(a as nat) == b + spec_bit_len(x as nat),
            (x as nat) < pow2((41 - b) as nat),
            b <= 41,
        decreases x,
    {
        proof {
            lemma2_to64();
            if b < 41 {
                lemma_pow2_unfold((41 - b) as nat);
            }
        }
        x = x / 2;
        b = b + 1;
    }
    assert(b == spec_bit_len(a as nat));
    if b <= 24 {
        return n;
    }
    let sh = b - 24;
    let p: u64 = pow2_u64(sh);
    let half: u64 = pow2_u64(sh - 1);
    let q = a / p;
    let rem = a % p;
    let q2 = if rem > half || (rem == half && q % 2 == 1) {
        q + 1
    } else {
        q
    };
    proof {
        lemma_fundamental_div_mod(a as int, p as int);
        assert(q2 * p <= a + p) by (nonlinear_arith)
            requires
                a as int == (p as int) * (q as int) + (rem as int),
                rem >= 0,
                q2 <= q + 1,
                p >= 1,
        ;
        assert(p as nat == pow2((sh) as nat));
        lemma2_to64();
        lemma2_to64_rest();
        if (sh as nat) < 17 {
            lemma_pow2_strictly_increases(sh as nat, 17);
        }
        assert(p <= 0x20000);
    }
    let r0 = q2 * p;
    let r1 = r0 as i64;
    if neg {
        -r1
    } else {
        r1
    }
}

/// The fixed-point value `n` (in units of 2^-24) clamped to the range
/// 0 to 255 and truncated to a whole number.
pub open spec fn spec_clamp_u8(n: int) -> u8 {
    if n <= 0 {
        0u8
    } else if n >= 255 * 0x1000000 {
        255u8
    } else {
        (n / 0x1000000) as u8
    }
}

fn clamp_scaled(s: i64) -> (r: u8)
    requires
        -0x100_0000_0000 <= s <= 0x100_0000_0000,
    ensures
        r == spec_clamp_u8(s as int),
{
    if s <= 0 {
        0
    } else if s >= 255 * PIXEL_SCALE {
        255
    } else {
        proof {
            lemma_fundamental_div_mod(s as int, 0x1000000);
        }
        (s / PIXEL_SCALE) as u8
    }
}

/// The red channel of the BT.601 conversion: luminance plus the red
/// coefficient times the centred Cr, each step rounded to 24 significant
/// digits, clamped to a byte.
pub open spec fn spec_calc_red(y: u8, cr: u8) -> u8 {
    spec_clamp_u8(
        spec_round24((y as int) * 0x1000000 + spec_round24(23521656 * ((cr as int) - 128))),
    )
}

/// The green channel of the BT.601 conversion: luminance less the two
/// green coefficients times the centred Cb and Cr, each step rounded to
/// 24 significant digits, clamped to a byte.
pub open spec fn spec_calc_green(y: u8, cb: u8, cr: u8) -> u8 {
    spec_clamp_u8(
        spec_round24(
            spec_round24((y as int) * 0x1000000 - spec_round24(5773711 * ((cb as int) - 128)))
                - spec_round24(11981281 * ((cr as int) - 128)),
        ),
    )
}

/// The blue channel of the BT.601 conversion: luminance plus the blue
/// coefficient times the centred Cb, each step rounded to 24 significant
/// digits, clamped to a byte.
pub open spec fn spec_calc_blue(y: u8, cb: u8) -> u8 {
    spec_clamp_u8(
        spec_round24((y as int) * 0x1000000 + spec_round24(29729226 * ((cb as int) - 128))),
    )
}

/// Calculates the red channel from luminance (Y) and chrominance red (Cr).
pub fn calc_red(y: u8, cr: u8) -> (r: u8)
    ensures
        r == spec_calc_red(y, cr),
{
    let d: i64 = (cr as i64) - 128;
    let p = round24(COEF_RED_CR * d);
    let s = round24((y as i64) * PIXEL_SCALE + p);
    clamp_scaled(s)
}

/// Calculates the green channel from luminance (Y), chrominance blue (Cb)
/// and chrominance red (Cr).
pub fn calc_green(y: u8, cb: u8, cr: u8) -> (r: u8)
    ensures
        r == spec_calc_green(y, cb, cr),
{
    let d1: i64 = (cb as i64) - 128;
    let d2: i64 = (cr as i64) - 128;
    let p1 = round24(COEF_GREEN_CB * d1);
    let p2 = round24(COEF_GREEN_CR * d2);
    let s1 = round24((y as i64) * PIXEL_SCALE - p1);
    let s2 = round24(s1 - p2);
    clamp_scaled(s2)
}

/// Calculates the blue channel from luminance (Y) and chrominance blue
/// (Cb).
pub fn calc_blue(y: u8, cb: u8) -> (r: u8)
    ensures
        r == spec_calc_blue(y, cb),
{
    let d: i64 = (cb as i64) - 128;
    let p = round24(COEF_BLUE_CB * d);
    let s = round24((y as i64) * PIXEL_SCALE + p);
    clamp_scaled(s)
}

/// The ARGB value packed from the three converted channels and the raw
/// transparency. The luminance is fed to all three channel conversions.
#[verifier::opaque]
pub open spec fn spec_get_argb(y: u8, cb: u8, cr: u8, transparency: u8) -> u32 {
    (spec_calc_blue(y, cb) as u32) | ((spec_calc_green(y, cb, cr) as u32) << 8) | ((spec_calc_red(
        y,
        cr,
    ) as u32) << 16) | ((transparency as u32) << 24)
}

/// Combines Y, Cb, Cr and transparency into a 32-bit ARGB colour.
pub fn get_argb(y: u8, cb: u8, cr: u8, transparency: u8) -> (r: u32)
    ensures
        r == spec_get_argb(y, cb, cr, transparency),
{
    proof {
        reveal(spec_get_argb);
    }
    (calc_blue(y, cb) as u32) | ((calc_green(y, cb, cr) as u32) << 8) | ((calc_red(y, cr)
        as u32) << 16) | ((transparency as u32) << 24)
}

/// The grayscale value of a palette entry: the gray level
/// `255 - transparency * luminance / 255`, replicated across the three
/// colour channels.
#[verifier::opaque]
pub open spec fn spec_calc_gray(transparency: u8, luminance: u8) -> u32 {
    let g = (255 - (transparency as int) * (luminance as int) / 255) as u32;
    g | g << 8 | g << 16
}

/// Calculates a 32-bit grayscale colour from transparency and luminance.
pub fn calc_gray(transparency: u8, luminance: u8) -> (r: u32)
    ensures
        r == spec_calc_gray(transparency, luminance),
{
    proof {
        reveal(spec_calc_gray);
        lemma_fundamental_div_mod((transparency as int) * (luminance as int), 255);
        assert((transparency as int) * (luminance as int) <= 255 * 255) by (nonlinear_arith)
            requires
                transparency as int <= 255,
                luminance as int <= 255,
                transparency as int >= 0,
                luminance as int >= 0,
        ;
    }
    let tmp: u32 = 255 - (transparency as u32) * (luminance as u32) / 255;
    tmp | tmp << 8 | tmp << 16
}

/// The grayscale colour of palette index `color`: the default white when
/// the index lies beyond the palette, the entry's gray value otherwise.
pub open spec fn spec_get_gray_color(color: int, entries: Seq<PgsPdsSegmentPaletteEntry>) -> u32 {
    if color >= entries.len() {
        0xFFFFFFu32
    } else {
        spec_calc_gray(entries[color].transparency, entries[color].luminance)
    }
}

/// Retrieves the grayscale colour of a palette index, or white if the
/// index lies beyond the palette.
pub fn get_gray_color(color: usize, pds: &PgsPdsSegment) -> (r: u32)
    ensures
        r == spec_get_gray_color(color as int, pds@.palette_entries),
{
    if color >= pds.palette_entries.len() {
        0xFFFFFF
    } else {
        calc_gray(pds.palette_entries[color].transparency, pds.palette_entries[color].luminance)
    }
}

/// The ARGB colour of palette index `color`: the default white when the
/// index lies beyond the palette, the converted entry otherwise.
pub open spec fn spec_get_argb_color(color: int, entries: Seq<PgsPdsSegmentPaletteEntry>) -> u32 {
    if color >= entries.len() {
        0xFFFFFFu32
    } else {
        spec_get_argb(
            entries[color].luminance,
            entries[color].color_difference_blue,
            entries[color].color_difference_red,
            entries[color].transparency,
        )
    }
}

/// Retrieves the ARGB colour of a palette index, or white if the index
/// lies beyond the palette.
pub fn get_argb_color(color: usize, pds: &PgsPdsSegment) -> (r: u32)
    ensures
        r == spec_get_argb_color(color as int, pds@.palette_entries),
{
    if color >= pds.palette_entries.len() {
        0xFFFFFF
    } else {
        let palette = &pds.palette_entries[color];
        get_argb(
            palette.luminance,
            palette.color_difference_blue,
            palette.color_difference_red,
            palette.transparency,
        )
    }
}

/// The colour of palette index `color` in the chosen mode.
pub open spec fn spec_get_pixel_color(
    color: int,
    entries: Seq<PgsPdsSegmentPaletteEntry>,
    gray: bool,
) -> u32 {
    if gray {
        spec_get_gray_color(color, entries)
    } else {
        spec_get_argb_color(color, entries)
    }
}

/// Retrieves either the grayscale or the ARGB colour of a palette index,
/// depending on the `gray` flag.
pub fn get_pixel_color(color: usize, pds: &PgsPdsSegment, gray: bool) -> (r: u32)
    ensures
        r == spec_get_pixel_color(color as int, pds@.palette_entries, gray),
{
    if gray {
        get_gray_color(color, pds)
    } else {
        get_argb_color(color, pds)
    }
}

/// Purity law: the colour conversion depends on nothing but its four
/// inputs; equal inputs give equal ARGB values.
pub proof fn lemma_color_conversion_pure(
    y1: u8,
    cb1: u8,
    cr1: u8,
    t1: u8,
    y2: u8,
    cb2: u8,
    cr2: u8,
    t2: u8,
)
    requires
        y1 == y2,
        cb1 == cb2,
        cr1 == cr2,
        t1 == t2,
    ensures
        spec_get_argb(y1, cb1, cr1, t1) == spec_get_argb(y2, cb2, cr2, t2),
{
}

/// Default-white law: a palette lookup at an index at or beyond the end
/// of the palette yields 0x00FFFFFF in the gray mode and in the ARGB mode
/// alike.
pub proof fn lemma_palette_lookup_default_white(
    color: int,
    entries: Seq<PgsPdsSegmentPaletteEntry>,
    gray: bool,
)
    requires
        color >= entries.len(),
    ensures
        spec_get_pixel_color(color, entries, gray) == 0xFFFFFFu32,
{
}

/// Opaque-white law: zero transparency decodes to white, whatever the
/// luminance.
pub proof fn lemma_calc_gray_opaque_white(y: u8)
    ensures
        spec_calc_gray(0, y) == 0xFFFFFFu32,
{
    reveal(spec_calc_gray);
    assert((255u32 | 255u32 << 8 | 255u32 << 16) == 0xFFFFFFu32) by (bit_vector);
}

/// Full-transparency law: at full transparency the gray level is
/// `255 - luminance`, so full luminance decodes to black. (At other
/// luminances the value is not black: luminance zero gives white.)
pub proof fn lemma_calc_gray_transparent_black(y: u8)
    requires
        y == 255,
    ensures
        spec_calc_gray(255, y) == 0x000000u32,
{
    reveal(spec_calc_gray);
    assert((0u32 | 0u32 << 8 | 0u32 << 16) == 0x000000u32) by (bit_vector);
}

/// Replication law: the grayscale value is the gray level `g`, with `g`
/// repeated in the three channel positions `g | g << 8 | g << 16`, where
/// `g = 255 - transparency * luminance / 255`.
pub proof fn lemma_calc_gray_formula(t: u8, y: u8)
    ensures
        ({
            let g = (255 - (t as int) * (y as int) / 255) as u32;
            spec_calc_gray(t, y) == (g | g << 8 | g << 16)
        }),
{
    reveal(spec_calc_gray);
}



/// The outcome of decoding an RLE payload against a pixel matrix.
pub enum RleOutcome {
    /// The payload was consumed; the matrix holds the decoded image.
    Done(Seq<Seq<u32>>),
    /// The payload ended in the middle of a multi-byte code.
    Truncated,
    /// A pixel fell on a row or column outside the matrix.
    Overrun,
}

/// A `height` by `width` matrix of zero pixels.
pub open spec fn spec_zero_matrix(width: nat, height: nat) -> Seq<Seq<u32>> {
    Seq::new(height, |i: int| Seq::new(width, |j: int| 0u32))
}

/// The mathematical content of a row-major pixel matrix.
pub open spec fn spec_matrix_view(rows: Seq<Vec<u32>>) -> Seq<Seq<u32>> {
    rows.map_values(|row: Vec<u32>| row@)
}

/// The matrix `mat` with the pixel at (`row`, `col`) set to `color`.
pub open spec fn spec_write_pixel(mat: Seq<Seq<u32>>, row: int, col: int, color: u32) -> Seq<
    Seq<u32>,
> {
    mat.update(row, mat[row].update(col, color))
}

/// The matrix after a run of `count` pixels of `color` written from
/// (`row`, `col`) rightwards, or nothing when a pixel falls outside the
/// matrix.
#[verifier::opaque]
pub open spec fn spec_run(mat: Seq<Seq<u32>>, row: int, col: int, count: int, color: u32) -> Option<
    Seq<Seq<u32>>,
>
    decreases count,
{
    if count <= 0 {
        Some(mat)
    } else if 0 <= row < mat.len() && 0 <= col < mat[row].len() {
        spec_run(spec_write_pixel(mat, row, col, color), row, col + 1, count - 1, color)
    } else {
        None
    }
}

/// The outcome of the run-length decoder on `data` from offset `pos`,
/// with the cursor at (`row`, `col`) and the matrix `mat`:
/// - a nonzero byte paints one pixel of that palette index;
/// - `0x00 0x00` moves the cursor to the start of the next row;
/// - `0x00 D` with `D` below 64 paints a run of `D` pixels of index 0;
/// - `0x00 D L` with `D` from 64 to 127 paints `(D - 64) * 256 + L`
///   pixels of index 0;
/// - `0x00 D C` with `D` from 128 to 191 paints `D - 128` pixels of
///   index `C`;
/// - `0x00 D L C` with `D` from 192 to 255 paints `(D - 192) * 256 + L`
///   pixels of index `C`.
/// Decoding is done when the payload is consumed; a payload that ends
/// inside a code is truncated; a pixel outside the matrix is an overrun.
#[verifier::opaque]
pub open spec fn spec_decode_rle_from(
    data: Seq<u8>,
    pos: int,
    row: int,
    col: int,
    mat: Seq<Seq<u32>>,
    entries: Seq<PgsPdsSegmentPaletteEntry>,
    gray: bool,
) -> RleOutcome
    decreases data.len() - pos,
{
    if pos >= data.len() {
        RleOutcome::Done(mat)
    } else {
        let b = data[pos];
        if b != 0 {
            if 0 <= row < mat.len() && 0 <= col < mat[row].len() {
                spec_decode_rle_from(
                    data,
                    pos + 1,
                    row,
                    col + 1,
                    spec_write_pixel(mat, row, col, spec_get_pixel_color(b as int, entries, gray)),
                    entries,
                    gray,
                )
            } else {
                RleOutcome::Overrun
            }
        } else if pos + 1 >= data.len() {
            RleOutcome::Truncated
        } else {
            let d = data[pos + 1];
            if d == 0 {
                spec_decode_rle_from(data, pos + 2, row + 1, 0, mat, entries, gray)
            } else if d < 64 {
                match spec_run(mat, row, col, d as int, spec_get_pixel_color(0, entries, gray)) {
                    Some(m) => spec_decode_rle_from(
                        data,
                        pos + 2,
                        row,
                        col + d,
                        m,
                        entries,
                        gray,
                    ),
                    None => RleOutcome::Overrun,
                }
            } else if d < 128 {
                if pos + 2 >= data.len() {
                    RleOutcome::Truncated
                } else {
                    let count = (d - 64) * 256 + data[pos + 2];
                    match spec_run(
                        mat,
                        row,
                        col,
                        count as int,
                        spec_get_pixel_color(0, entries, gray),
                    ) {
                        Some(m) => spec_decode_rle_from(
                            data,
                            pos + 3,
                            row,
                            col + count,
                            m,
                            entries,
                            gray,
                        ),
                        None => RleOutcome::Overrun,
                    }
                }
            } else if d < 192 {
                if pos + 2 >= data.len() {
                    RleOutcome::Truncated
                } else {
                    let count = d - 128;
                    let color_index = data[pos + 2];
                    match spec_run(
                        mat,
                        row,
                        col,
                        count as int,
                        spec_get_pixel_color(color_index as int, entries, gray),
                    ) {
                        Some(m) => spec_decode_rle_from(
                            data,
                            pos + 3,
                            row,
                            col + count,
                            m,
                            entries,
                            gray,
                        ),
                        None => RleOutcome::Overrun,
                    }
                }
            } else {
                if pos + 3 >= data.len() {
                    RleOutcome::Truncated
                } else {
                    let count = (d - 192) * 256 + data[pos + 2];
                    let color_index = data[pos + 3];
                    match spec_run(
                        mat,
                        row,
                        col,
                        count as int,
                        spec_get_pixel_color(color_index as int, entries, gray),
                    ) {
                        Some(m) => spec_decode_rle_from(
                            data,
                            pos + 4,
                            row,
                            col + count,
                            m,
                            entries,
                            gray,
                        ),
                        None => RleOutcome::Overrun,
                    }
                }
            }
        }
    }
}

/// The outcome of decoding `data` into a fresh `height` by `width` zero
/// matrix, coloured through `entries`.
pub open spec fn spec_decode_rle(
    data: Seq<u8>,
    width: nat,
    height: nat,
    entries: Seq<PgsPdsSegmentPaletteEntry>,
    gray: bool,
) -> RleOutcome {
    spec_decode_rle_from(data, 0, 0, 0, spec_zero_matrix(width, height), entries, gray)
}

proof fn lemma_matrix_view_update(rows: Seq<Vec<u32>>, i: int, v: Vec<u32>)
    requires
        0 <= i < rows.len(),
    ensures
        spec_matrix_view(rows.update(i, v)) == spec_matrix_view(rows).update(i, v@),
{
    assert(spec_matrix_view(rows.update(i, v)) =~= spec_matrix_view(rows).update(i, v@));
}

/// Builds a `height` by `width` matrix of zero pixels.
fn zero_matrix(width: usize, height: usize) -> (r: Vec<Vec<u32>>)
    ensures
        spec_matrix_view(r@) == spec_zero_matrix(width as nat, height as nat),
        r@.len() == height,
        forall|i: int| 0 <= i < height ==> r@[i]@.len() == width,
{
    let mut rows: Vec<Vec<u32>> = Vec::new();
    let mut i: usize = 0;
    while i < height
        invariant
            i <= height,
            rows@.len() == i,
            forall|k: int|
                0 <= k < i ==> rows@[k]@ == Seq::new(width as nat, |j: int| 0u32),
        decreases height - i,
    {
        let mut row: Vec<u32> = Vec::new();
        let mut j: usize = 0;
        while j < width
            invariant
                j <= width,
                row@.len() == j,
                forall|k: int| 0 <= k < j ==> row@[k] == 0u32,
            decreases width - j,
        {
            row.push(0);
            j = j + 1;
        }
        proof {
            assert(row@ =~= Seq::new(width as nat, |j: int| 0u32));
        }
        rows.push(row);
        i = i + 1;
    }
    proof {
        assert(spec_matrix_view(rows@) =~~= spec_zero_matrix(width as nat, height as nat));
    }
    rows
}


/// A run that fits (`spec_run` succeeds) lies inside its row: the row
/// index is valid and the run ends at or before the row's width.
proof fn lemma_spec_run_bounds(mat: Seq<Seq<u32>>, row: int, col: int, count: int, color: u32)
    requires
        spec_run(mat, row, col, count, color) is Some,
        count > 0,
    ensures
        0 <= row < mat.len(),
        0 <= col,
        col + count <= mat[row].len(),
    decreases count,
{
    reveal(spec_run);
    if count > 1 {
        lemma_spec_run_bounds(
            spec_write_pixel(mat, row, col, color),
            row,
            col + 1,
            count - 1,
            color,
        );
    }
}

fn write_pixel(pixels: &mut Vec<Vec<u32>>, row: usize, col: usize, color: u32)
    requires
        (row as int) < old(pixels)@.len(),
        (col as int) < old(pixels)@[row as int]@.len(),
    ensures
        spec_matrix_view(final(pixels)@) == spec_write_pixel(
            spec_matrix_view(old(pixels)@),
            row as int,
            col as int,
            color,
        ),
        final(pixels)@.len() == old(pixels)@.len(),
        forall|i: int|
            0 <= i < final(pixels)@.len() ==> final(pixels)@[i]@.len() == old(
                pixels,
            )@[i]@.len(),
{
    let ghost m0 = spec_matrix_view(pixels@);
    pixels[row][col] = color;
    proof {
        lemma_matrix_view_update(pixels@, row as int, pixels@[row as int]);
        assert(spec_matrix_view(pixels@) =~~= spec_write_pixel(m0, row as int, col as int, color));
    }
}

/// Paints a run of `count` pixels of `color` from (`row`, `col`)
/// rightwards and returns the column after the run. The caller warrants
/// that the run stays inside the matrix.
#[verifier::loop_isolation(false)]
fn paint_run(pixels: &mut Vec<Vec<u32>>, row: usize, col: usize, count: u32, color: u32) -> (newcol:
    usize)
    requires
        spec_run(
            spec_matrix_view(old(pixels)@),
            row as int,
            col as int,
            count as int,
            color,
        ) is Some,
        col <= old(pixels)@[row as int]@.len() || count == 0,
    ensures
        Some(spec_matrix_view(final(pixels)@)) == spec_run(
            spec_matrix_view(old(pixels)@),
            row as int,
            col as int,
            count as int,
            color,
        ),
        newcol as int == col + count,
        final(pixels)@.len() == old(pixels)@.len(),
        forall|i: int|
            0 <= i < final(pixels)@.len() ==> final(pixels)@[i]@.len() == old(
                pixels,
            )@[i]@.len(),
{
    proof {
        reveal(spec_run);
    }
    let ghost m0 = spec_matrix_view(pixels@);
    let ghost mt = spec_run(m0, row as int, col as int, count as int, color);
    let mut c = col;
    let mut j: u32 = 0;
    while j < count
        invariant
            j <= count,
            c as int == col + j,
            spec_run(
                spec_matrix_view(pixels@),
                row as int,
                c as int,
                count - j,
                color,
            ) == mt,
            pixels@.len() == old(pixels)@.len(),
            forall|i: int|
                0 <= i < pixels@.len() ==> pixels@[i]@.len() == old(pixels)@[i]@.len(),
        decreases count - j,
    {
        proof {
            reveal(spec_run);
            assert((row as int) < pixels@.len() && (c as int) < pixels@[row as int]@.len());
        }
        let row_len = pixels[row].len();
        proof {
            assert(c < row_len);
        }
        write_pixel(pixels, row, c, color);
        c = c + 1;
        j = j + 1;
    }
    c
}

/// Reads the tail bytes of an extended run code whose second byte is
/// `d`, returning the run length and the palette index it paints.
fn read_run_code(buffer: &mut PgsMemoryBuffer, d: u8) -> (r: PgsResult<(u32, usize)>)
    requires
        d != 0,
    ensures
        final(buffer).stream() == old(buffer).stream(),
        ({
            let cur = old(buffer).cursor();
            let s = old(buffer).stream();
            &&& d < 64 ==> r == Ok::<(u32, usize), Error>(((d as u32), 0usize))
                && final(buffer).cursor() == cur
            &&& (64 <= d < 128 && cur + 1 <= s.len()) ==> r == Ok::<(u32, usize), Error>(
                (((((d - 64) as u32) * 256 + (s[cur] as u32)) as u32, 0usize)),
            ) && final(buffer).cursor() == cur + 1
            &&& (128 <= d < 192 && cur + 1 <= s.len()) ==> r == Ok::<(u32, usize), Error>(
                (((d - 128) as u32), s[cur] as usize),
            ) && final(buffer).cursor() == cur + 1
            &&& (192 <= d && cur + 2 <= s.len()) ==> r == Ok::<(u32, usize), Error>(
                (((((d - 192) as u32) * 256 + (s[cur] as u32)) as u32, s[cur + 1] as usize)),
            ) && final(buffer).cursor() == cur + 2
            &&& (64 <= d < 192 && cur + 1 > s.len()) ==> r == Err::<(u32, usize), Error>(
                Error::EndOfData,
            )
            &&& (192 <= d && cur + 2 > s.len()) ==> r == Err::<(u32, usize), Error>(
                Error::EndOfData,
            )
        }),
{
    if d < 64 {
        Ok((d as u32, 0usize))
    } else if d < 128 {
        let lo = match buffer.read_u8() {
            Ok(v) => v,
            Err(e) => return Err(e),
        };
        Ok((((d - 64) as u32) * 256 + lo as u32, 0usize))
    } else if d < 192 {
        let c = match buffer.read_u8() {
            Ok(v) => v,
            Err(e) => return Err(e),
        };
        Ok(((d - 128) as u32, byte_to_int(c) as usize))
    } else {
        let lo = match buffer.read_u8() {
            Ok(v) => v,
            Err(e) => return Err(e),
        };
        let c = match buffer.read_u8() {
            Ok(v) => v,
            Err(e) => return Err(e),
        };
        Ok((((d - 192) as u32) * 256 + lo as u32, byte_to_int(c) as usize))
    }
}

/// Applies an extended run code whose second byte is `d`, with the two
/// code bytes already consumed from `buffer`, and returns the column
/// after the run.
#[verifier::loop_isolation(false)]
#[verifier::rlimit(100)]
fn run_step(
    buffer: &mut PgsMemoryBuffer,
    pixels: &mut Vec<Vec<u32>>,
    row: usize,
    col: usize,
    d: u8,
    pds: &PgsPdsSegment,
    gray: bool,
) -> (r: PgsResult<usize>)
    requires
        d != 0,
        old(buffer).cursor() >= 2,
        old(buffer).cursor() <= old(buffer).stream().len(),
        old(buffer).stream()[old(buffer).cursor() - 2] == 0,
        old(buffer).stream()[old(buffer).cursor() - 1] == d,
        !(spec_decode_rle_from(
            old(buffer).stream(),
            old(buffer).cursor() - 2,
            row as int,
            col as int,
            spec_matrix_view(old(pixels)@),
            pds@.palette_entries,
            gray,
        ) matches RleOutcome::Overrun),
    ensures
        final(buffer).stream() == old(buffer).stream(),
        r matches Ok(newcol) ==> {
            &&& old(buffer).cursor() <= final(buffer).cursor() <= final(buffer).stream().len()
            &&& spec_decode_rle_from(
                final(buffer).stream(),
                final(buffer).cursor(),
                row as int,
                newcol as int,
                spec_matrix_view(final(pixels)@),
                pds@.palette_entries,
                gray,
            ) == spec_decode_rle_from(
                old(buffer).stream(),
                old(buffer).cursor() - 2,
                row as int,
                col as int,
                spec_matrix_view(old(pixels)@),
                pds@.palette_entries,
                gray,
            )
        },
        r matches Err(e) ==> e == Error::EndOfData && spec_decode_rle_from(
            old(buffer).stream(),
            old(buffer).cursor() - 2,
            row as int,
            col as int,
            spec_matrix_view(old(pixels)@),
            pds@.palette_entries,
            gray,
        ) == RleOutcome::Truncated,
{
    let ghost data = buffer.stream();
    let ghost entries = pds@.palette_entries;
    let ghost p0 = buffer.cursor() - 2;
    let ghost m0 = spec_matrix_view(pixels@);
    let (count, color_index): (u32, usize) = match read_run_code(&mut *buffer, d) {
        Ok(v) => v,
        Err(e) => {
            proof {
                reveal(spec_decode_rle_from);
            }
            return Err(e);
        },
    };
    let color = get_pixel_color(color_index, pds, gray);
    proof {
        reveal(spec_decode_rle_from);
        if spec_run(m0, row as int, col as int, count as int, color) is None {
            assert(spec_decode_rle_from(data, p0, row as int, col as int, m0, entries, gray)
                == RleOutcome::Overrun);
            assert(false);
        }
        if count > 0 {
            lemma_spec_run_bounds(m0, row as int, col as int, count as int, color);
        }
    }
    let newcol = paint_run(pixels, row, col, count, color);
    Ok(newcol)
}

/// Paints the single pixel that a nonzero payload byte `b` denotes, the
/// byte already consumed from `buffer`, and returns the column after it.
#[verifier::loop_isolation(false)]
#[verifier::rlimit(100)]
fn pixel_step(
    buffer: &PgsMemoryBuffer,
    pixels: &mut Vec<Vec<u32>>,
    row: usize,
    col: usize,
    b: u8,
    pds: &PgsPdsSegment,
    gray: bool,
) -> (newcol: usize)
    requires
        b != 0,
        buffer.cursor() >= 1,
        buffer.cursor() <= buffer.stream().len(),
        buffer.stream()[buffer.cursor() - 1] == b,
        !(spec_decode_rle_from(
            buffer.stream(),
            buffer.cursor() - 1,
            row as int,
            col as int,
            spec_matrix_view(old(pixels)@),
            pds@.palette_entries,
            gray,
        ) matches RleOutcome::Overrun),
    ensures
        newcol as int == col + 1,
        spec_decode_rle_from(
            buffer.stream(),
            buffer.cursor(),
            row as int,
            newcol as int,
            spec_matrix_view(final(pixels)@),
            pds@.palette_entries,
            gray,
        ) == spec_decode_rle_from(
            buffer.stream(),
            buffer.cursor() - 1,
            row as int,
            col as int,
            spec_matrix_view(old(pixels)@),
            pds@.palette_entries,
            gray,
        ),
{
    let ghost data = buffer.stream();
    let ghost entries = pds@.palette_entries;
    let ghost p = buffer.cursor() - 1;
    let ghost m0 = spec_matrix_view(pixels@);
    let ghost pixel = spec_get_pixel_color(b as int, entries, gray);
    proof {
        assert((row as int) < m0.len() && (col as int) < m0[row as int].len()) by {
            reveal(spec_decode_rle_from);
            if !((row as int) < m0.len() && (col as int) < m0[row as int].len()) {
                assert(spec_decode_rle_from(data, p, row as int, col as int, m0, entries, gray)
                    == RleOutcome::Overrun);
            }
        }
        assert(spec_decode_rle_from(data, p, row as int, col as int, m0, entries, gray)
            == spec_decode_rle_from(
            data,
            p + 1,
            row as int,
            col as int + 1,
            spec_write_pixel(m0, row as int, col as int, pixel),
            entries,
            gray,
        )) by {
            reveal(spec_decode_rle_from);
        }
    }
    let color_index = byte_to_int(b) as usize;
    let color = get_pixel_color(color_index, pds, gray);
    let row_len = pixels[row].len();
    proof {
        assert(col < row_len);
    }
    write_pixel(pixels, row, col, color);
    col + 1
}

/// Performs one step of the run-length decoder: reads one code from
/// `buffer` and applies it to the matrix and the cursor, returning the
/// new row and column. The decoder state before and after denote the
/// same outcome.
#[verifier::loop_isolation(false)]
#[verifier::rlimit(100)]
fn decode_step(
    buffer: &mut PgsMemoryBuffer,
    pixels: &mut Vec<Vec<u32>>,
    row: usize,
    col: usize,
    pds: &PgsPdsSegment,
    gray: bool,
) -> (r: PgsResult<(usize, usize)>)
    requires
        old(buffer).cursor() < old(buffer).stream().len(),
        old(buffer).cursor() <= usize::MAX,
        2 * (row as int) <= old(buffer).cursor(),
        !(spec_decode_rle_from(
            old(buffer).stream(),
            old(buffer).cursor(),
            row as int,
            col as int,
            spec_matrix_view(old(pixels)@),
            pds@.palette_entries,
            gray,
        ) matches RleOutcome::Overrun),
    ensures
        final(buffer).stream() == old(buffer).stream(),
        r matches Ok(rc) ==> {
            &&& old(buffer).cursor() < final(buffer).cursor() <= final(buffer).stream().len()
            &&& 2 * (rc.0 as int) <= final(buffer).cursor()
            &&& spec_decode_rle_from(
                final(buffer).stream(),
                final(buffer).cursor(),
                rc.0 as int,
                rc.1 as int,
                spec_matrix_view(final(pixels)@),
                pds@.palette_entries,
                gray,
            ) == spec_decode_rle_from(
                old(buffer).stream(),
                old(buffer).cursor(),
                row as int,
                col as int,
                spec_matrix_view(old(pixels)@),
                pds@.palette_entries,
                gray,
            )
        },
        r matches Err(e) ==> e == Error::EndOfData && spec_decode_rle_from(
            old(buffer).stream(),
            old(buffer).cursor(),
            row as int,
            col as int,
            spec_matrix_view(old(pixels)@),
            pds@.palette_entries,
            gray,
        ) == RleOutcome::Truncated,
{
    let ghost data = buffer.stream();
    let ghost entries = pds@.palette_entries;
    let ghost p = buffer.cursor();
    let ghost m0 = spec_matrix_view(pixels@);
    let b = match buffer.read_u8() {
        Ok(v) => v,
        Err(e) => return Err(e),
    };
    if b != 0 {
        let newcol = pixel_step(&*buffer, pixels, row, col, b, pds, gray);
        Ok((row, newcol))
    } else {
        let d = match buffer.read_u8() {
            Ok(v) => v,
            Err(e) => {
                proof {
                    reveal(spec_decode_rle_from);
                    assert(spec_decode_rle_from(data, p, row as int, col as int, m0, entries, gray)
                        == RleOutcome::Truncated);
                }
                return Err(e);
            },
        };
        if d == 0 {
            proof {
                reveal(spec_decode_rle_from);
                assert(spec_decode_rle_from(data, p, row as int, col as int, m0, entries, gray)
                    == spec_decode_rle_from(data, p + 2, row as int + 1, 0, m0, entries, gray));
            }
            Ok((row + 1, 0))
        } else {
            let newcol = match run_step(&mut *buffer, pixels, row, col, d, pds, gray) {
                Ok(v) => v,
                Err(e) => return Err(e),
            };
            Ok((row, newcol))
        }
    }
}

/// Decodes the run-length-encoded bitmap of `ods` into a
/// `height` by `width` matrix of pixels, coloured through the palette of
/// `pds`, in grayscale or ARGB form.
///
/// The payload must not paint outside the matrix (no
/// [`RleOutcome::Overrun`]); a payload that ends inside a code fails
/// with [`Error::EndOfData`].
#[verifier::loop_isolation(false)]
pub fn decode_rle(pds: &PgsPdsSegment, ods: &PgsOdsSegment, gray: bool) -> (r: PgsResult<
    Vec<Vec<u32>>,
>)
    requires
        !(spec_decode_rle(
            ods@.object_data,
            ods@.width as nat,
            ods@.height as nat,
            pds@.palette_entries,
            gray,
        ) matches RleOutcome::Overrun),
    ensures
        spec_decode_rle(
            ods@.object_data,
            ods@.width as nat,
            ods@.height as nat,
            pds@.palette_entries,
            gray,
        ) matches RleOutcome::Done(m) ==> r matches Ok(px) && spec_matrix_view(px@) == m,
        spec_decode_rle(
            ods@.object_data,
            ods@.width as nat,
            ods@.height as nat,
            pds@.palette_entries,
            gray,
        ) matches RleOutcome::Truncated ==> r == Err::<Vec<Vec<u32>>, Error>(Error::EndOfData),
{
    let ghost data = ods@.object_data;
    let ghost entries = pds@.palette_entries;
    let ghost target = spec_decode_rle(
        data,
        ods@.width as nat,
        ods@.height as nat,
        entries,
        gray,
    );

    let width = ods.width as usize;
    let height = ods.height as usize;
    let mut pixels: Vec<Vec<u32>> = zero_matrix(width, height);

    let mut buffer: PgsMemoryBuffer = PgsMemoryBuffer::from_slice(ods.object_data.as_slice());
    let buffer_len = match buffer.len() {
        Ok(v) => v,
        Err(e) => return Err(e),
    };
    let mut col: usize = 0;
    let mut row: usize = 0;
    let mut p: usize = match buffer.pos() {
        Ok(v) => v,
        Err(e) => return Err(e),
    };
    while p < buffer_len
        invariant
            buffer.stream() == data,
            buffer_len == data.len(),
            p as int == buffer.cursor(),
            buffer.cursor() <= data.len(),
            2 * (row as int) <= buffer.cursor(),
            spec_decode_rle_from(
                data,
                buffer.cursor(),
                row as int,
                col as int,
                spec_matrix_view(pixels@),
                entries,
                gray,
            ) == target,
        decreases buffer_len - p,
    {
        let rc = match decode_step(&mut buffer, &mut pixels, row, col, pds, gray) {
            Ok(v) => v,
            Err(e) => return Err(e),
        };
        row = rc.0;
        col = rc.1;
        p = match buffer.pos() {
            Ok(v) => v,
            Err(e) => return Err(e),
        };
    }
    proof {
        reveal(spec_decode_rle_from);
        assert(target == RleOutcome::Done(spec_matrix_view(pixels@)));
    }
    Ok(pixels)
}

proof fn lemma_rle_zeros_from(
    data: Seq<u8>,
    pos: int,
    row: int,
    col: int,
    mat: Seq<Seq<u32>>,
    entries: Seq<PgsPdsSegmentPaletteEntry>,
    gray: bool,
)
    requires
        0 <= pos <= data.len(),
        (data.len() - pos) % 2 == 0,
        forall|i: int| pos <= i < data.len() ==> data[i] == 0,
    ensures
        spec_decode_rle_from(data, pos, row, col, mat, entries, gray) == RleOutcome::Done(mat),
    decreases data.len() - pos,
{
    reveal(spec_decode_rle_from);
    if pos < data.len() {
        assert(data[pos] == 0);
        assert(pos + 1 < data.len());
        assert(data[pos + 1] == 0);
        lemma_rle_zeros_from(data, pos + 2, row + 1, 0, mat, entries, gray);
    }
}

/// End-of-line law: a payload made of end-of-line codes alone — any run
/// of `0x00 0x00` pairs — paints nothing: it decodes to the all-zero
/// matrix.
pub proof fn lemma_rle_all_zero_payload(
    data: Seq<u8>,
    width: nat,
    height: nat,
    entries: Seq<PgsPdsSegmentPaletteEntry>,
    gray: bool,
)
    requires
        data.len() % 2 == 0,
        forall|i: int| 0 <= i < data.len() ==> data[i] == 0,
    ensures
        spec_decode_rle(data, width, height, entries, gray) == RleOutcome::Done(
            spec_zero_matrix(width, height),
        ),
{
    lemma_rle_zeros_from(data, 0, 0, 0, spec_zero_matrix(width, height), entries, gray);
}

proof fn lemma_spec_run_dims(mat: Seq<Seq<u32>>, row: int, col: int, count: int, color: u32)
    requires
        spec_run(mat, row, col, count, color) is Some,
    ensures
        ({
            let m = spec_run(mat, row, col, count, color)->Some_0;
            &&& m.len() == mat.len()
            &&& forall|i: int| 0 <= i < mat.len() ==> #[trigger] m[i].len() == mat[i].len()
        }),
    decreases count,
{
    reveal(spec_run);
    if count > 0 {
        lemma_spec_run_dims(
            spec_write_pixel(mat, row, col, color),
            row,
            col + 1,
            count - 1,
            color,
        );
    }
}

proof fn lemma_decode_rle_from_dims(
    data: Seq<u8>,
    pos: int,
    row: int,
    col: int,
    mat: Seq<Seq<u32>>,
    entries: Seq<PgsPdsSegmentPaletteEntry>,
    gray: bool,
)
    requires
        spec_decode_rle_from(data, pos, row, col, mat, entries, gray) matches RleOutcome::Done(m),
    ensures
        ({
            let m = spec_decode_rle_from(data, pos, row, col, mat, entries, gray)->Done_0;
            &&& m.len() == mat.len()
            &&& forall|i: int| 0 <= i < mat.len() ==> #[trigger] m[i].len() == mat[i].len()
        }),
    decreases data.len() - pos,
{
    reveal(spec_decode_rle_from);
    reveal(spec_run);
    if pos >= data.len() {
    } else {
        let b = data[pos];
        if b != 0 {
            lemma_decode_rle_from_dims(
                data,
                pos + 1,
                row,
                col + 1,
                spec_write_pixel(mat, row, col, spec_get_pixel_color(b as int, entries, gray)),
                entries,
                gray,
            );
        } else {
            let d = data[pos + 1];
            if d == 0 {
                lemma_decode_rle_from_dims(data, pos + 2, row + 1, 0, mat, entries, gray);
            } else if d < 64 {
                let color = spec_get_pixel_color(0, entries, gray);
                let m1 = spec_run(mat, row, col, d as int, color)->Some_0;
                lemma_spec_run_dims(mat, row, col, d as int, color);
                lemma_decode_rle_from_dims(data, pos + 2, row, col + d, m1, entries, gray);
            } else if d < 128 {
                let color = spec_get_pixel_color(0, entries, gray);
                let count = (d - 64) * 256 + data[pos + 2];
                let m1 = spec_run(mat, row, col, count as int, color)->Some_0;
                lemma_spec_run_dims(mat, row, col, count as int, color);
                lemma_decode_rle_from_dims(data, pos + 3, row, col + count, m1, entries, gray);
            } else if d < 192 {
                let color = spec_get_pixel_color(data[pos + 2] as int, entries, gray);
                let count = d - 128;
                let m1 = spec_run(mat, row, col, count as int, color)->Some_0;
                lemma_spec_run_dims(mat, row, col, count as int, color);
                lemma_decode_rle_from_dims(data, pos + 3, row, col + count, m1, entries, gray);
            } else {
                let color = spec_get_pixel_color(data[pos + 3] as int, entries, gray);
                let count = (d - 192) * 256 + data[pos + 2];
                let m1 = spec_run(mat, row, col, count as int, color)->Some_0;
                lemma_spec_run_dims(mat, row, col, count as int, color);
                lemma_decode_rle_from_dims(data, pos + 4, row, col + count, m1, entries, gray);
            }
        }
    }
}

/// Dimension law: a decoded image has exactly `height` rows, and every
/// row has exactly `width` pixels.
pub proof fn lemma_decoded_image_dimensions(
    data: Seq<u8>,
    width: nat,
    height: nat,
    entries: Seq<PgsPdsSegmentPaletteEntry>,
    gray: bool,
)
    requires
        spec_decode_rle(data, width, height, entries, gray) matches RleOutcome::Done(m),
    ensures
        ({
            let m = spec_decode_rle(data, width, height, entries, gray)->Done_0;
            &&& m.len() == height
            &&& forall|i: int| 0 <= i < m.len() ==> #[trigger] m[i].len() == width
        }),
{
    lemma_decode_rle_from_dims(
        data,
        0,
        0,
        0,
        spec_zero_matrix(width, height),
        entries,
        gray,
    );
}

} // verus!
