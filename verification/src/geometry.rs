use vstd::prelude::*;
use vstd::string::StringExecFns;

verus! {

/// The character of a decimal digit.
pub open spec fn digit_char(d: nat) -> char {
    if d == 0 {
        '0'
    } else if d == 1 {
        '1'
    } else if d == 2 {
        '2'
    } else if d == 3 {
        '3'
    } else if d == 4 {
        '4'
    } else if d == 5 {
        '5'
    } else if d == 6 {
        '6'
    } else if d == 7 {
        '7'
    } else if d == 8 {
        '8'
    } else {
        '9'
    }
}

/// The decimal form of a number, without leading zeros.
pub open spec fn decimal(n: nat) -> Seq<char>
    decreases n,
{
    if n < 10 {
        seq![digit_char(n)]
    } else {
        decimal(n / 10).push(digit_char(n % 10))
    }
}

/// The CSS that gives the canvas a size in CSS pixels.
pub open spec fn css_size(width: u32, height: u32) -> Seq<char> {
    "width:"@ + decimal(width as nat) + "px;height:"@ + decimal(height as nat) + "px;"@
}

/// The size in device pixels of a canvas of a given size in CSS pixels.
pub open spec fn physical_size(logical_size: (u32, u32), pixel_ratio: usize) -> (int, int) {
    ((pixel_ratio as u32) * logical_size.0, (pixel_ratio as u32) * logical_size.1)
}

/// The size in CSS pixels of a canvas of a given size in device pixels.
pub open spec fn logical_size(canvas_size: (u32, u32), pixel_ratio: usize) -> (int, int) {
    (canvas_size.0 as int / pixel_ratio as int, canvas_size.1 as int / pixel_ratio as int)
}

/// The text of one decimal digit.
fn digit_text(d: u32) -> (r: &'static str)
    requires
        d < 10,
    ensures
        r@ == seq![digit_char(d as nat)],
{
    if d == 0 {
        proof { reveal_strlit("0"); }
        "0"
    } else if d == 1 {
        proof { reveal_strlit("1"); }
        "1"
    } else if d == 2 {
        proof { reveal_strlit("2"); }
        "2"
    } else if d == 3 {
        proof { reveal_strlit("3"); }
        "3"
    } else if d == 4 {
        proof { reveal_strlit("4"); }
        "4"
    } else if d == 5 {
        proof { reveal_strlit("5"); }
        "5"
    } else if d == 6 {
        proof { reveal_strlit("6"); }
        "6"
    } else if d == 7 {
        proof { reveal_strlit("7"); }
        "7"
    } else if d == 8 {
        proof { reveal_strlit("8"); }
        "8"
    } else {
        proof { reveal_strlit("9"); }
        "9"
    }
}

/// Writes a number in decimal.
pub fn decimal_text(n: u32) -> (s: String)
    ensures
        s@ == decimal(n as nat),
    decreases n,
{
    if n < 10 {
        String::from_str(digit_text(n))
    } else {
        let mut s = decimal_text(n / 10);
        s.append(digit_text(n % 10));
        s
    }
}

/// The CSS text that sets the canvas to a size in CSS pixels.
pub fn css_size_text(width: u32, height: u32) -> (s: String)
    ensures
        s@ == css_size(width, height),
{
    let mut s = String::from_str("width:");
    let w = decimal_text(width);
    s.append(w.as_str());
    s.append("px;height:");
    let h = decimal_text(height);
    s.append(h.as_str());
    s.append("px;");
    s
}

/// How the canvas is to be set for a size in CSS pixels: its style, and its size in
/// device pixels.
pub struct CanvasLayout {
    pub css_text: String,
    pub width: u32,
    pub height: u32,
}

/// Lays the canvas out at a size in CSS pixels, for a ratio of device pixels to CSS
/// pixels.
pub fn canvas_layout(logical: (u32, u32), pixel_ratio: usize) -> (r: CanvasLayout)
    requires
        (pixel_ratio as u32) * logical.0 <= u32::MAX,
        (pixel_ratio as u32) * logical.1 <= u32::MAX,
    ensures
        r.css_text@ == css_size(logical.0, logical.1),
        (r.width as int, r.height as int) == physical_size(logical, pixel_ratio),
{
    let css_text = css_size_text(logical.0, logical.1);
    let ratio = pixel_ratio as u32;
    CanvasLayout { css_text, width: ratio * logical.0, height: ratio * logical.1 }
}

/// The size in CSS pixels of a canvas, from its size in device pixels.
pub fn logical_canvas_size(canvas_width: u32, canvas_height: u32, pixel_ratio: usize) -> (r: (
    usize,
    usize,
))
    requires
        pixel_ratio > 0,
    ensures
        (r.0 as int, r.1 as int) == logical_size((canvas_width, canvas_height), pixel_ratio),
{
    (canvas_width as usize / pixel_ratio, canvas_height as usize / pixel_ratio)
}

/// The sizes a frame is drawn with: the window in CSS pixels, and the viewport in
/// device pixels.
pub struct FrameGeometry {
    pub window_width: usize,
    pub window_height: usize,
    pub viewport_width: usize,
    pub viewport_height: usize,
}

/// The sizes of a frame, from the canvas size in device pixels.
pub fn frame_geometry(canvas_width: u32, canvas_height: u32, pixel_ratio: usize) -> (r:
    FrameGeometry)
    requires
        pixel_ratio > 0,
    ensures
        (r.window_width as int, r.window_height as int) == logical_size(
            (canvas_width, canvas_height),
            pixel_ratio,
        ),
        r.viewport_width == pixel_ratio * r.window_width,
        r.viewport_height == pixel_ratio * r.window_height,
{
    let (width, height) = logical_canvas_size(canvas_width, canvas_height, pixel_ratio);
    proof {
        lemma_scaled_back_fits(canvas_width as int, pixel_ratio as int);
        lemma_scaled_back_fits(canvas_height as int, pixel_ratio as int);
    }
    FrameGeometry {
        window_width: width,
        window_height: height,
        viewport_width: pixel_ratio * width,
        viewport_height: pixel_ratio * height,
    }
}

/// Dividing by a ratio and multiplying back loses less than the ratio.
proof fn lemma_scaled_back_fits(c: int, r: int)
    requires
        c >= 0,
        r > 0,
    ensures
        r * (c / r) <= c,
        c - r * (c / r) < r,
{
    assert(r * (c / r) + c % r == c) by (nonlinear_arith)
        requires
            r > 0,
    ;
    assert(0 <= c % r < r) by (nonlinear_arith)
        requires
            r > 0,
    ;
}

/// Whether the canvas follows the browser window, and the size in CSS pixels to
/// give it first: the size asked for, or the browser window's inner size.
pub fn initial_sizing(size: Option<(u32, u32)>, inner_size: (u32, u32)) -> (r: (bool, (u32, u32)))
    ensures
        r.0 == (size is None),
        r.1 == match size {
            Some(s) => s,
            None => inner_size,
        },
{
    match size {
        Some(s) => (false, s),
        None => (true, inner_size),
    }
}

/// Setting the canvas to a size in CSS pixels and reading its size back gives that
/// size, for a ratio that a `u32` holds and a canvas that fits.
pub proof fn lemma_canvas_size_round_trip(logical: (u32, u32), pixel_ratio: usize)
    requires
        0 < pixel_ratio <= u32::MAX,
        (pixel_ratio as u32) * logical.0 <= u32::MAX,
        (pixel_ratio as u32) * logical.1 <= u32::MAX,
    ensures
        logical_size(
            (physical_size(logical, pixel_ratio).0 as u32, physical_size(logical, pixel_ratio).1 as u32),
            pixel_ratio,
        ) == (logical.0 as int, logical.1 as int),
{
    let r = pixel_ratio as int;
    assert(pixel_ratio as u32 == r);
    assert((r * logical.0) / r == logical.0 as int) by (nonlinear_arith)
        requires
            r > 0,
    ;
    assert((r * logical.1) / r == logical.1 as int) by (nonlinear_arith)
        requires
            r > 0,
    ;
}

/// The viewport covers the canvas but for less than one CSS pixel at its right and
/// bottom edges.
pub proof fn lemma_viewport_within_canvas(canvas_size: (u32, u32), pixel_ratio: usize)
    requires
        pixel_ratio > 0,
    ensures
        pixel_ratio * logical_size(canvas_size, pixel_ratio).0 <= canvas_size.0,
        canvas_size.0 - pixel_ratio * logical_size(canvas_size, pixel_ratio).0 < pixel_ratio,
        pixel_ratio * logical_size(canvas_size, pixel_ratio).1 <= canvas_size.1,
        canvas_size.1 - pixel_ratio * logical_size(canvas_size, pixel_ratio).1 < pixel_ratio,
{
    lemma_scaled_back_fits(canvas_size.0 as int, pixel_ratio as int);
    lemma_scaled_back_fits(canvas_size.1 as int, pixel_ratio as int);
}


/// The number that a text of decimal digits stands for, each digit valued by its
/// offset from `'0'`.
pub open spec fn digits_value(text: Seq<char>) -> int
    decreases text.len(),
{
    if text.len() == 0 {
        0
    } else {
        10 * digits_value(text.drop_last()) + (text.last() as int - '0' as int)
    }
}

/// A character from `'0'` to `'9'`.
pub open spec fn is_decimal_digit(c: char) -> bool {
    '0' <= c <= '9'
}

/// The digit character of `d` lies `d` places after `'0'`.
proof fn lemma_digit_char_offset(d: nat)
    requires
        d < 10,
    ensures
        digit_char(d) as int - '0' as int == d,
        is_decimal_digit(digit_char(d)),
{
}

/// The decimal text of a number is made of digits, has no leading zero, and reads
/// back as that number.
pub proof fn lemma_decimal_reads_back(n: nat)
    ensures
        decimal(n).len() >= 1,
        forall|i: int| 0 <= i < decimal(n).len() ==> is_decimal_digit(#[trigger] decimal(n)[i]),
        digits_value(decimal(n)) == n,
        decimal(n)[0] == '0' ==> n == 0,
    decreases n,
{
    if n < 10 {
        lemma_digit_char_offset(n);
        assert(decimal(n).drop_last() =~= Seq::<char>::empty());
        assert(digits_value(decimal(n).drop_last()) == 0);
        assert(decimal(n).last() == digit_char(n));
    } else {
        lemma_decimal_reads_back(n / 10);
        lemma_digit_char_offset(n % 10);
        let t = decimal(n);
        assert(t.drop_last() =~= decimal(n / 10));
        assert(t.last() == digit_char(n % 10));
        assert(n == 10 * (n / 10) + n % 10);
        assert(digits_value(t) == 10 * digits_value(t.drop_last()) + (t.last() as int - '0' as int));
        assert forall|i: int| 0 <= i < t.len() implies is_decimal_digit(#[trigger] t[i]) by {
            if i < t.len() - 1 {
                assert(t[i] == decimal(n / 10)[i]);
            }
        }
        assert(t[0] == decimal(n / 10)[0]);
    }
}

} // verus!
