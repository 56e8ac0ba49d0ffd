use crate::round::RoundStage;
use vstd::prelude::*;

verus! {

/// A rectangle of terminal cells.
#[derive(Clone, Copy, Debug, PartialEq, Eq, Structural)]
pub struct Area {
    pub x: u16,
    pub y: u16,
    pub width: u16,
    pub height: u16,
}

/// Whether a frame is large enough to draw in: wider than 20 cells and
/// taller than 5.
pub fn fits(width: u16, height: u16) -> (r: bool)
    ensures
        r == (width > 20 && height > 5),
{
    width > 20 && height > 5
}

/// The left margin of the prompt: a fifth of the frame's width.
pub open spec fn margin(width: nat) -> nat {
    width * 20 / 100
}

/// The number of rows that `len` characters take at `columns` to a row:
/// rounded up, at least one, and no more than `rows`.
pub open spec fn rows_for(len: nat, columns: nat, rows: nat) -> nat
    recommends
        columns > 0,
{
    let n: nat = if len == 0 { 1 } else { (len + columns - 1) as nat / columns };
    if n > rows { rows } else { n }
}

/// Where the prompt is drawn in a `width` by `height` frame when it and the
/// error buffer hold `len` characters together: between margins of a fifth
/// of the width, centred vertically.
pub open spec fn prompt_area(width: nat, height: nat, len: nat) -> Area {
    let x = margin(width);
    let w = (width - 2 * x) as nat;
    let h = rows_for(len, w, height);
    Area { x: x as u16, y: ((height - h) as nat / 2) as u16, width: w as u16, height: h as u16 }
}

proof fn lemma_ceil_div(len: int, w: int)
    requires
        len > 0,
        w > 0,
    ensures
        (len + w - 1) / w == len / w + if len % w == 0 { 0int } else { 1int },
{
    let q = len / w;
    let r = len % w;
    vstd::arithmetic::div_mod::lemma_fundamental_div_mod(len, w);
    if r == 0 {
        vstd::arithmetic::div_mod::lemma_fundamental_div_mod_converse(len + w - 1, w, q, w - 1);
    } else {
        assert(len + w - 1 == (q + 1) * w + (r - 1)) by (nonlinear_arith)
            requires len == w * q + r;
        vstd::arithmetic::div_mod::lemma_fundamental_div_mod_converse(len + w - 1, w, q + 1, r - 1);
    }
}

fn area_of(width: u16, height: u16, len: u128) -> (r: Area)
    requires
        width > 20,
        len <= 2 * (usize::MAX as nat),
    ensures
        r == prompt_area(width as nat, height as nat, len as nat),
{
    let x: u16 = ((width as u32) * 20 / 100) as u16;
    let w: u16 = width - 2 * x;
    let n: u128 = if len == 0 { 1 } else { len / (w as u128) + if len % (w as u128) == 0 { 0 } else { 1 } };
    proof {
        if len > 0 {
            lemma_ceil_div(len as int, w as int);
        }
    }
    let h: u16 = if n > height as u128 { height } else { n as u16 };
    Area { x, y: (height - h) / 2, width: w, height: h }
}

/// Where the prompt is drawn in a `width` by `height` frame when it and the
/// error buffer hold `len` characters together.
pub fn round_area(width: u16, height: u16, len: usize) -> (r: Area)
    requires
        width > 20,
    ensures
        r == prompt_area(width as nat, height as nat, len as nat),
{
    area_of(width, height, len as u128)
}

/// Where the scores are drawn in a `width` by `height` frame: two full-width
/// rows starting at the middle row.
pub fn end_area(width: u16, height: u16) -> (r: Area)
    ensures
        r == (Area { x: 0, y: height / 2, width, height: 2 }),
{
    Area { x: 0, y: height / 2, width, height: 2 }
}

impl RoundStage {
    /// Where this round's prompt is drawn in a `width` by `height` frame.
    pub fn area(&self, width: u16, height: u16) -> (r: Area)
        requires
            self.wf(),
            width > 20,
        ensures
            r == prompt_area(width as nat, height as nat, (self.prompt().len() + self.error@.len()) as nat),
    {
        let len: u128 = self.text().unicode_len() as u128 + self.error.len() as u128;
        area_of(width, height, len)
    }
}

} // verus!
