//! What is drawn over a frame: the outline of each located symbol, its decoded text
//! and, on request, its size in cells.

use vstd::prelude::*;
use vstd::string::*;
use crate::code::{byte_len, quarter, Detected, QuircCode, QUIRC_MAX_PAYLOAD};
use crate::text::{
    decimal, lemma_decimal_ascii, lemma_decimal_len, pow10, push_decimal, push_signed_decimal,
    signed_decimal,
};

verus! {

/// Opaque black, the colour of a text's outline.
pub const BLACK: u32 = 0x000000ff;

/// Opaque red, the colour of a text's fill and of a symbol's edges.
pub const RED: u32 = 0xff0000ff;

/// Half the width of one glyph cell, in pixels. The sink draws one cell per byte.
pub const HALF_GLYPH: i64 = 4;

/// How far above the centre of a symbol its size is written, in pixels.
pub const LABEL_RISE: i64 = 20;

/// Where a frame-rate text is put on the screen.
pub const CORNER: i32 = 5;

/// One rendering of a text: where its top left corner goes, and in which colour.
#[derive(Debug, Clone, Copy, PartialEq, Eq, Structural)]
pub struct Stroke {
    pub x: i64,
    pub y: i64,
    pub color: u32,
}

/// A text that stays legible on any background: the strokes are drawn in order, each
/// rendering `text` at its own position.
#[derive(Debug)]
pub struct FatText {
    pub text: String,
    pub strokes: Vec<Stroke>,
}

/// A straight line between two pixels.
#[derive(Debug, Clone, Copy, PartialEq, Eq, Structural)]
pub struct Line {
    pub x1: i32,
    pub y1: i32,
    pub x2: i32,
    pub y2: i32,
    pub color: u32,
}

/// All that one located symbol adds to a frame and to the log.
#[derive(Debug)]
pub struct Overlay {
    /// The four edges of the symbol.
    pub outline: Vec<Line>,
    /// The symbol's size in cells, above its centre; only in verbose mode.
    pub label: Option<FatText>,
    /// The decoded text, centred on the symbol; only where decoding succeeded.
    pub payload: Option<FatText>,
    /// The line to print for this symbol.
    pub report: String,
}

/// The cell of a three-by-three grid, counted column by column, in which the `k`-th
/// outline stroke lies. The middle cell is left out: the fill goes there.
pub open spec fn outline_cell(k: int) -> int {
    if k < 4 {
        k
    } else {
        k + 1
    }
}

/// The horizontal offset of the `k`-th outline stroke.
pub open spec fn outline_dx(k: int) -> int {
    outline_cell(k) / 3 - 1
}

/// The vertical offset of the `k`-th outline stroke.
pub open spec fn outline_dy(k: int) -> int {
    outline_cell(k) % 3 - 1
}

/// Whether `fat` renders `text` at (`x`, `y`): eight black strokes, one pixel away
/// in each direction, and on top of them a red one in place.
pub open spec fn is_fat_text(fat: FatText, x: int, y: int, text: Seq<char>) -> bool {
    &&& fat.text@ == text
    &&& fat.strokes@.len() == 9
    &&& forall|k: int|
        0 <= k < 8 ==> {
            &&& (#[trigger] fat.strokes@[k]).x == x + outline_dx(k)
            &&& fat.strokes@[k].y == y + outline_dy(k)
            &&& fat.strokes@[k].color == BLACK
        }
    &&& fat.strokes@[8].x == x
    &&& fat.strokes@[8].y == y
    &&& fat.strokes@[8].color == RED
}

/// The horizontal position at which a text of `bytes` bytes starts when it is centred
/// on `x`: half its estimated width to the left.
pub open spec fn centered_x(x: int, bytes: nat) -> int {
    x - HALF_GLYPH * bytes
}

fn fat_text_at(x: i64, y: i64, text: &str) -> (fat: FatText)
    requires
        i64::MIN < x < i64::MAX,
        i64::MIN < y < i64::MAX,
    ensures
        is_fat_text(fat, x as int, y as int, text@),
{
    let mut strokes: Vec<Stroke> = Vec::new();
    let mut k: i64 = 0;
    while k < 8
        invariant
            0 <= k <= 8,
            i64::MIN < x < i64::MAX,
            i64::MIN < y < i64::MAX,
            strokes@.len() == k,
            forall|m: int|
                0 <= m < k ==> {
                    &&& (#[trigger] strokes@[m]).x == x + outline_dx(m)
                    &&& strokes@[m].y == y + outline_dy(m)
                    &&& strokes@[m].color == BLACK
                },
        decreases 8 - k,
    {
        let cell: i64 = if k < 4 {
            k
        } else {
            k + 1
        };
        strokes.push(Stroke { x: x + (cell / 3 - 1), y: y + (cell % 3 - 1), color: BLACK });
        k += 1;
    }
    strokes.push(Stroke { x, y, color: RED });
    FatText { text: text.to_owned(), strokes }
}

/// Renders `text` with its top left corner at (`x`, `y`), outlined in black and filled
/// in red.
pub fn fat_text(x: i32, y: i32, text: &str) -> (fat: FatText)
    ensures
        is_fat_text(fat, x as int, y as int, text@),
{
    fat_text_at(x as i64, y as i64, text)
}

fn centered_at(x: i32, y: i64, text: &str) -> (fat: FatText)
    requires
        HALF_GLYPH * byte_len(text@) <= i32::MAX,
        i64::MIN < y < i64::MAX,
    ensures
        is_fat_text(fat, centered_x(x as int, byte_len(text@)), y as int, text@),
{
    let bytes: usize = text.as_bytes().len();
    fat_text_at(x as i64 - HALF_GLYPH * (bytes as i64), y, text)
}

/// Renders `text` like `fat_text`, centred horizontally on `x`. The width of the text
/// is an estimate: one glyph cell for each of its bytes, so half of it must fit the
/// range of a coordinate.
pub fn fat_text_centered(x: i32, y: i32, text: &str) -> (fat: FatText)
    requires
        HALF_GLYPH * byte_len(text@) <= i32::MAX,
    ensures
        is_fat_text(fat, centered_x(x as int, byte_len(text@)), y as int, text@),
{
    centered_at(x, y as i64, text)
}

/// The edge of `code` that starts at corner `j`.
pub open spec fn edge(code: QuircCode, j: int) -> Line {
    Line {
        x1: code.corners[j].x,
        y1: code.corners[j].y,
        x2: code.corners[(j + 1) % 4].x,
        y2: code.corners[(j + 1) % 4].y,
        color: RED,
    }
}

/// What is written above a symbol of `size` cells in verbose mode.
pub open spec fn label_text(size: int) -> Seq<char> {
    "Code size: "@ + signed_decimal(size) + " cells"@
}

/// The line printed for a symbol that was decoded to `text`.
pub open spec fn success_report(text: Seq<char>) -> Seq<char> {
    "==> "@ + text + " (len "@ + decimal(byte_len(text)) + ")"@
}

/// The line printed for a symbol that could not be decoded; `message` says why.
pub open spec fn failure_report(message: Seq<char>) -> Seq<char> {
    "Error: "@ + message
}

/// Whether `overlay` is what `found` adds to a frame.
pub open spec fn is_overlay_of(overlay: Overlay, verbose: bool, found: Detected) -> bool {
    let cx = quarter(found.code.sum_x());
    let cy = quarter(found.code.sum_y());
    let label = label_text(found.code.size as int);
    &&& overlay.outline@.len() == 4
    &&& forall|j: int| 0 <= j < 4 ==> #[trigger] overlay.outline@[j] == edge(found.code, j)
    &&& match overlay.label {
        Some(fat) => verbose && is_fat_text(
            fat,
            centered_x(cx, byte_len(label)),
            cy - LABEL_RISE,
            label,
        ),
        None => !verbose,
    }
    &&& match found.decoded {
        Ok(data) => {
            &&& overlay.payload matches Some(fat)
            &&& is_fat_text(fat, centered_x(cx, byte_len(data.text())), cy, data.text())
            &&& overlay.report@ == success_report(data.text())
        },
        Err(failure) => {
            &&& overlay.payload is None
            &&& overlay.report@ == failure_report(failure.message@)
        },
    }
}

proof fn lemma_label_is_short(size: i32)
    ensures
        byte_len(label_text(size as int)) <= 28,
{
    reveal_strlit("Code size: ");
    reveal_strlit(" cells");
    reveal_with_fuel(pow10, 11);
    let number = signed_decimal(size as int);
    let magnitude: nat = if size < 0 {
        (-size) as nat
    } else {
        size as nat
    };
    lemma_decimal_len(magnitude, 10);
    lemma_decimal_ascii(magnitude);
    assert(number.len() <= 11);
    let label = label_text(size as int);
    assert(label.len() <= 28);
    assert(vstd::utf8::is_ascii_chars(label));
    vstd::utf8::is_ascii_chars_encode_utf8(label);
}

fn size_label(size: i32) -> (label: String)
    ensures
        label@ == label_text(size as int),
{
    let mut label: String = String::new();
    label.append("Code size: ");
    push_signed_decimal(&mut label, size as i64);
    label.append(" cells");
    assert(label@ =~= label_text(size as int));
    label
}

fn success_line(text: &str) -> (line: String)
    ensures
        line@ == success_report(text@),
{
    let mut line: String = String::new();
    line.append("==> ");
    line.append(text);
    line.append(" (len ");
    push_decimal(&mut line, text.as_bytes().len() as u64);
    line.append(")");
    assert(line@ =~= success_report(text@));
    line
}

fn failure_line(message: &str) -> (line: String)
    ensures
        line@ == failure_report(message@),
{
    let mut line: String = String::new();
    line.append("Error: ");
    line.append(message);
    assert(line@ =~= failure_report(message@));
    line
}

fn outline_of(code: &QuircCode) -> (outline: Vec<Line>)
    ensures
        outline@.len() == 4,
        forall|j: int| 0 <= j < 4 ==> #[trigger] outline@[j] == edge(*code, j),
{
    let mut outline: Vec<Line> = Vec::new();
    let mut j: usize = 0;
    while j < 4
        invariant
            0 <= j <= 4,
            outline@.len() == j,
            forall|m: int| 0 <= m < j ==> #[trigger] outline@[m] == edge(*code, m),
        decreases 4 - j,
    {
        let from = code.corners[j];
        let to = code.corners[(j + 1) % 4];
        outline.push(Line { x1: from.x, y1: from.y, x2: to.x, y2: to.y, color: RED });
        j += 1;
    }
    outline
}

/// What one located symbol adds to a frame: its four edges in red; in verbose mode
/// its size in cells, centred `LABEL_RISE` pixels above its centre; where it was
/// decoded, the text centred on it and a line that reports the text and its length
/// in bytes; where it was not, no text and a line that reports why.
pub fn overlay_of(verbose: bool, found: &Detected) -> (overlay: Overlay)
    ensures
        is_overlay_of(overlay, verbose, *found),
{
    let centre = found.code.centroid();
    let outline = outline_of(&found.code);
    let label: Option<FatText> = if verbose {
        let words = size_label(found.code.size);
        proof {
            lemma_label_is_short(found.code.size);
        }
        Some(centered_at(centre.x, centre.y as i64 - LABEL_RISE, words.as_str()))
    } else {
        None
    };
    match &found.decoded {
        Ok(data) => {
            let text = data.payload();
            let report = success_line(text);
            let payload = centered_at(centre.x, centre.y as i64, text);
            Overlay { outline, label, payload: Some(payload), report }
        },
        Err(failure) => {
            let report = failure_line(failure.message.as_str());
            Overlay { outline, label, payload: None, report }
        },
    }
}

/// The overlays of a frame, one for each located symbol and in the same order. A
/// symbol that could not be decoded still gets its overlay, without a text.
pub fn draw_qr(verbose: bool, codes: &Vec<Detected>) -> (overlays: Vec<Overlay>)
    ensures
        overlays@.len() == codes@.len(),
        forall|i: int|
            0 <= i < codes@.len() ==> is_overlay_of(#[trigger] overlays@[i], verbose, codes@[i]),
        forall|i: int|
            0 <= i < codes@.len() ==> ((#[trigger] overlays@[i]).payload is Some
                <==> codes@[i].decoded is Ok),
{
    let mut overlays: Vec<Overlay> = Vec::new();
    let mut i: usize = 0;
    while i < codes.len()
        invariant
            0 <= i <= codes@.len(),
            overlays@.len() == i,
            forall|m: int|
                0 <= m < i ==> is_overlay_of(#[trigger] overlays@[m], verbose, codes@[m]),
        decreases codes@.len() - i,
    {
        overlays.push(overlay_of(verbose, &codes[i]));
        i += 1;
    }
    overlays
}

} // verus!
