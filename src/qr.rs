//! The QR code screen: a payload drawn with half-block characters, two rows
//! of modules to a line of text, so that it comes out roughly square.

use vstd::prelude::*;
use crate::app::App;
use crate::text::{push_char, push_text, text_of};
use crate::theme::Theme;

verus! {

/// The modules of the QR code (error correction level M) that encodes
/// `data`, row by row, true for dark; none where the data does not fit.
pub uninterp spec fn qr_modules(data: Seq<char>) -> Option<Seq<bool>>;

/// Relies on `qrcode::QrCode::new` and `QrCode::to_colors`: the code's
/// modules row by row, `Color::Dark` as true; none where encoding fails.
#[verifier::external_body]
fn encode_qr(data: &str) -> (r: Option<Vec<bool>>)
    ensures
        r is Some == qr_modules(data@) is Some,
        r is Some ==> r.unwrap()@ == qr_modules(data@).unwrap(),
{
    qrcode::QrCode::new(data).ok().map(|q| q.to_colors().iter().map(|c| *c == qrcode::Color::Dark).collect())
}

/// The glyph for a top and a bottom module.
pub open spec fn glyph(top: bool, bottom: bool) -> char {
    if top && bottom {
        '\u{2588}'
    } else if top {
        '\u{2580}'
    } else if bottom {
        '\u{2584}'
    } else {
        ' '
    }
}

/// `w` is the side of the largest square that `n` modules fill.
pub open spec fn is_side(w: nat, n: nat) -> bool {
    w * w <= n < (w + 1) * (w + 1)
}

pub open spec fn side(n: nat) -> nat {
    choose|w: nat| is_side(w, n)
}

/// Module (x, y) of a `w`-wide code; rows past the end are light.
pub open spec fn module_at(bits: Seq<bool>, w: int, x: int, y: int) -> bool {
    if y < w { bits[x + y * w] } else { false }
}

/// The text line for module rows `y` and `y + 1`, with two cells of margin.
pub open spec fn qr_line(bits: Seq<bool>, w: int, y: int) -> Seq<char> {
    "  "@ + Seq::new(w as nat, |x: int| glyph(module_at(bits, w, x, y), module_at(bits, w, x, y + 1))) + "  "@
}

proof fn lemma_side_unique(w1: nat, w2: nat, n: nat)
    requires
        is_side(w1, n),
        is_side(w2, n),
    ensures
        w1 == w2,
{
    if w1 < w2 {
        assert((w1 + 1) * (w1 + 1) <= w2 * w2) by (nonlinear_arith)
            requires
                w1 + 1 <= w2,
        ;
    } else if w2 < w1 {
        assert((w2 + 1) * (w2 + 1) <= w1 * w1) by (nonlinear_arith)
            requires
                w2 + 1 <= w1,
        ;
    }
}

fn glyph_exec(top: bool, bottom: bool) -> (r: char)
    ensures
        r == glyph(top, bottom),
{
    if top && bottom {
        '\u{2588}'
    } else if top {
        '\u{2580}'
    } else if bottom {
        '\u{2584}'
    } else {
        ' '
    }
}

/// The side of the largest square that `n` modules fill.
fn side_of(n: usize) -> (w: usize)
    ensures
        w as nat == side(n as nat),
        is_side(w as nat, n as nat),
        w + 1 <= usize::MAX,
{
    let mut w: u128 = 0;
    let mut next: u128 = 1;
    while next <= n as u128
        invariant
            w * w <= n,
            w <= n,
            next == (w + 1) * (w + 1),
            w < 0x1_0000_0000,
        decreases n - w,
    {
        assert(w + 1 <= (w + 1) * (w + 1)) by (nonlinear_arith);
        assert(w + 1 < 0x1_0000_0000) by (nonlinear_arith)
            requires
                (w + 1) * (w + 1) <= 0xFFFF_FFFF_FFFF_FFFFu128,
        ;
        assert((w + 2) * (w + 2) == (w + 1) * (w + 1) + 2 * w + 3) by (nonlinear_arith);
        next = next + 2 * w + 3;
        w = w + 1;
    }
    proof {
        assert(exists|v: nat| is_side(v, n as nat)) by {
            assert(is_side(w as nat, n as nat));
        }
        lemma_side_unique(w as nat, side(n as nat), n as nat);
        if w >= 2 {
            assert(w < w * w) by (nonlinear_arith)
                requires
                    w >= 2,
            ;
        }
    }
    w as usize
}

/// The text lines of a `w`-wide code of modules `bits`, two rows to a line.
pub fn half_block_lines(bits: &Vec<bool>) -> (r: Vec<String>)
    ensures
        r@.len() == (side(bits@.len()) + 1) / 2,
        forall|k: int| 0 <= k < r@.len() ==> #[trigger] r@[k]@ == qr_line(bits@, side(bits@.len()) as int, 2 * k),
{
    let w = side_of(bits.len());
    let mut lines: Vec<String> = Vec::new();
    let mut y: usize = 0;
    while y < w
        invariant
            w as nat == side(bits@.len()),
            w * w <= bits@.len(),
            w + 1 <= usize::MAX,
            bits@.len() <= usize::MAX,
            y <= w + 1,
            y % 2 == 0,
            lines@.len() == y / 2,
            forall|k: int| 0 <= k < lines@.len() ==> #[trigger] lines@[k]@ == qr_line(bits@, w as int, 2 * k),
        decreases w + 1 - y,
    {
        let mut line = text_of("  ");
        let mut x: usize = 0;
        while x < w
            invariant
                y < w,
                w * w <= bits@.len(),
                bits@.len() <= usize::MAX,
                x <= w,
                line@ == "  "@ + Seq::new(x as nat, |i: int| glyph(module_at(bits@, w as int, i, y as int), module_at(bits@, w as int, i, y + 1))),
            decreases w - x,
        {
            assert(x + y * w < w * w && y * w <= w * w) by (nonlinear_arith)
                requires
                    x < w,
                    y < w,
            ;
            let top = bits[x + y * w];
            let bottom = if y + 1 < w {
                assert(x + (y + 1) * w < w * w && (y + 1) * w <= w * w) by (nonlinear_arith)
                    requires
                        x < w,
                        y + 1 < w,
                ;
                bits[x + (y + 1) * w]
            } else {
                false
            };
            let ghost before = line@;
            push_char(&mut line, glyph_exec(top, bottom));
            proof {
                assert(line@ =~= "  "@ + Seq::new((x + 1) as nat, |i: int| glyph(module_at(bits@, w as int, i, y as int), module_at(bits@, w as int, i, y + 1))));
            }
            x = x + 1;
        }
        push_text(&mut line, "  ");
        proof {
            assert(line@ =~= qr_line(bits@, w as int, y as int));
        }
        lines.push(line);
        proof {
            assert(lines@[lines@.len() - 1]@ == qr_line(bits@, w as int, 2 * (y / 2) as int));
        }
        y = y + 2;
    }
    lines
}

/// The QR screen's content: the payload, the status line under it, and the colours.
pub struct QRView {
    pub qr_data: String,
    pub status: String,
    pub theme: Theme,
}

impl QRView {
    pub fn new(qr_data: String, status: String, theme: Theme) -> (r: QRView)
        ensures
            r.qr_data == qr_data,
            r.status == status,
            r.theme == theme,
    {
        QRView { qr_data, status, theme }
    }

    /// The code as text lines, or a single notice where the payload cannot
    /// be encoded.
    pub fn generate_qr_text(&self) -> (r: Vec<String>)
        ensures
            qr_modules(self.qr_data@) is None ==> r@.len() == 1 && r@[0]@ == "Failed to generate QR code"@,
            qr_modules(self.qr_data@) is Some ==> ({
                let bits = qr_modules(self.qr_data@).unwrap();
                &&& r@.len() == (side(bits.len()) + 1) / 2
                &&& forall|k: int| 0 <= k < r@.len() ==> #[trigger] r@[k]@ == qr_line(bits, side(bits.len()) as int, 2 * k)
            }),
    {
        match encode_qr(self.qr_data.as_str()) {
            Some(bits) => half_block_lines(&bits),
            None => {
                let mut v: Vec<String> = Vec::new();
                v.push(text_of("Failed to generate QR code"));
                v
            },
        }
    }
}

/// Height of the QR panel in a screen `area_height` tall: what the title
/// and the instructions leave, and at least 25 lines.
pub fn qr_panel_height(area_height: u16) -> (r: u16)
    ensures
        r == (if area_height >= 15 && area_height - 15 > 25 { area_height - 15 } else { 25 }),
{
    let rest: u16 = if area_height >= 15 { area_height - 15 } else { 0 };
    if rest > 25 { rest } else { 25 }
}

impl App {
    /// The QR screen for the pending payload, with the status line and the
    /// way out.
    pub fn render_qr(&self) -> (r: Option<QRView>)
        ensures
            r is Some == self.qr_code is Some,
            r is Some ==> r.unwrap().qr_data == self.qr_code.unwrap() && r.unwrap().status@ == self.status_message@
                + " (Ctrl+C to Quit)"@ && r.unwrap().theme == self.theme,
    {
        match &self.qr_code {
            Some(q) => {
                let mut status = self.status_message.clone();
                push_text(&mut status, " (Ctrl+C to Quit)");
                Some(QRView::new(q.clone(), status, self.theme))
            },
            None => None,
        }
    }
}

} // verus!
