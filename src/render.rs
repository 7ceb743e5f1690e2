//! Drawing a prompt. A frame is a sequence of pieces, each a run of bytes for
//! the terminal and whether it is shown in the highlight colour. Each row is
//! a mark followed by its label; a frame starts with a control sequence.
use vstd::prelude::*;
use vstd::utf8::encode_utf8;
use crate::OptionStore;

verus! {

/// How a row is marked at its left edge.
#[derive(Clone, Copy, Debug, PartialEq, Eq, Structural)]
pub enum Mark {
    /// Two spaces.
    Blank,
    /// An outlined circle, not highlighted.
    Outline,
    /// An outlined circle, highlighted: the cursor's row.
    Cursor,
    /// A filled circle, highlighted: a checked row.
    Checked,
}

/// A run of bytes to write, and whether to write it in the highlight colour.
#[derive(Debug)]
pub struct Piece {
    pub bytes: Vec<u8>,
    pub highlighted: bool,
}

/// The bytes and the highlight flag of each piece.
pub open spec fn pieces_view(ps: Seq<Piece>) -> Seq<(Seq<u8>, bool)> {
    ps.map_values(|p: Piece| (p.bytes@, p.highlighted))
}

/// The bytes of a mark, each the same width on screen: a circle (U+29BE
/// outlined, U+29BF filled) and a space, or two spaces.
pub open spec fn mark_bytes(m: Mark) -> Seq<u8> {
    match m {
        Mark::Blank => seq![0x20u8, 0x20u8],
        Mark::Outline | Mark::Cursor => seq![0xe2u8, 0xa6u8, 0xbeu8, 0x20u8],
        Mark::Checked => seq![0xe2u8, 0xa6u8, 0xbfu8, 0x20u8],
    }
}

/// Whether a mark is written in the highlight colour.
pub open spec fn mark_highlighted(m: Mark) -> bool {
    m is Cursor || m is Checked
}

/// One row: the mark, then the label in UTF-8 and a carriage return and line
/// feed, not highlighted.
pub open spec fn row_pieces(m: Mark, label: Seq<char>) -> Seq<(Seq<u8>, bool)> {
    seq![(mark_bytes(m), mark_highlighted(m)), (encode_utf8(label) + seq![0x0du8, 0x0au8], false)]
}

/// The rows of the options, top to bottom, each with its mark.
pub open spec fn rows_pieces(options: Seq<OptionStore>, marks: Seq<Mark>) -> Seq<(Seq<u8>, bool)>
    decreases options.len(),
{
    if options.len() == 0 {
        Seq::empty()
    } else {
        rows_pieces(options.drop_last(), marks.drop_last()) + row_pieces(
            marks.last(),
            options.last().key@,
        )
    }
}

/// A frame: the control sequence `header`, not highlighted, then the rows.
pub open spec fn frame_pieces(options: Seq<OptionStore>, marks: Seq<Mark>, header: Seq<u8>) -> Seq<
    (Seq<u8>, bool),
> {
    seq![(header, false)] + rows_pieces(options, marks)
}

/// The decimal digits of `n` in ASCII, most significant first.
pub open spec fn decimal_digits(n: nat) -> Seq<u8>
    decreases n,
{
    if n < 10 {
        seq![(48 + n) as u8]
    } else {
        decimal_digits(n / 10).push((48 + n % 10) as u8)
    }
}

/// ESC [ ? 2 5 l: hide the terminal's cursor.
pub open spec fn hide_cursor_seq() -> Seq<u8> {
    seq![0x1bu8, 0x5bu8, 0x3fu8, 0x32u8, 0x35u8, 0x6cu8]
}

/// ESC [ ? 2 5 h: show the terminal's cursor.
pub open spec fn show_cursor_seq() -> Seq<u8> {
    seq![0x1bu8, 0x5bu8, 0x3fu8, 0x32u8, 0x35u8, 0x68u8]
}

/// ESC [ n F, then ESC [ 1 G: back to the start of the line `n` lines up.
pub open spec fn rewind_seq(n: nat) -> Seq<u8> {
    seq![0x1bu8, 0x5bu8] + decimal_digits(n) + seq![0x46u8, 0x1bu8, 0x5bu8, 0x31u8, 0x47u8]
}

/// The decimal digits of `n` in ASCII.
pub fn decimal(n: usize) -> (r: Vec<u8>)
    ensures
        r@ == decimal_digits(n as nat),
    decreases n,
{
    if n < 10 {
        let d = (48 + n) as u8;
        vec![d]
    } else {
        let mut r = decimal(n / 10);
        let d = (48 + n % 10) as u8;
        r.push(d);
        r
    }
}

/// The bytes that hide the terminal's cursor.
pub fn hide_cursor() -> (r: Vec<u8>)
    ensures
        r@ == hide_cursor_seq(),
{
    let r = vec![0x1bu8, 0x5bu8, 0x3fu8, 0x32u8, 0x35u8, 0x6cu8];
    assert(r@ =~= hide_cursor_seq());
    r
}

/// The bytes that show the terminal's cursor again.
pub fn show_cursor() -> (r: Vec<u8>)
    ensures
        r@ == show_cursor_seq(),
{
    let r = vec![0x1bu8, 0x5bu8, 0x3fu8, 0x32u8, 0x35u8, 0x68u8];
    assert(r@ =~= show_cursor_seq());
    r
}

/// The bytes that move the terminal's cursor to the first column, `n` lines up.
pub fn rewind(n: usize) -> (r: Vec<u8>)
    ensures
        r@ == rewind_seq(n as nat),
{
    let mut r: Vec<u8> = vec![0x1bu8, 0x5bu8];
    let mut digits = decimal(n);
    r.append(&mut digits);
    r.push(0x46u8);
    r.push(0x1bu8);
    r.push(0x5bu8);
    r.push(0x31u8);
    r.push(0x47u8);
    assert(r@ =~= rewind_seq(n as nat));
    r
}

fn push_bytes(v: &mut Vec<u8>, b: &[u8])
    ensures
        final(v)@ == old(v)@ + b@,
{
    let mut i: usize = 0;
    while i < b.len()
        invariant
            i <= b@.len(),
            v@ == old(v)@ + b@.take(i as int),
        decreases b@.len() - i,
    {
        v.push(b[i]);
        i += 1;
        assert(v@ =~= old(v)@ + b@.take(i as int));
    }
    assert(b@.take(b@.len() as int) =~= b@);
}

fn mark_piece(m: Mark) -> (r: Piece)
    ensures
        r.bytes@ == mark_bytes(m),
        r.highlighted == mark_highlighted(m),
{
    let r = match m {
        Mark::Blank => Piece { bytes: vec![0x20u8, 0x20u8], highlighted: false },
        Mark::Outline => Piece { bytes: vec![0xe2u8, 0xa6u8, 0xbeu8, 0x20u8], highlighted: false },
        Mark::Cursor => Piece { bytes: vec![0xe2u8, 0xa6u8, 0xbeu8, 0x20u8], highlighted: true },
        Mark::Checked => Piece { bytes: vec![0xe2u8, 0xa6u8, 0xbfu8, 0x20u8], highlighted: true },
    };
    assert(r.bytes@ =~= mark_bytes(m));
    r
}

fn label_piece(label: &String) -> (r: Piece)
    ensures
        r.bytes@ == encode_utf8(label@) + seq![0x0du8, 0x0au8],
        !r.highlighted,
{
    let mut bytes: Vec<u8> = Vec::new();
    push_bytes(&mut bytes, label.as_str().as_bytes());
    bytes.push(0x0du8);
    bytes.push(0x0au8);
    assert(bytes@ =~= encode_utf8(label@) + seq![0x0du8, 0x0au8]);
    Piece { bytes, highlighted: false }
}

/// Draws a frame: `header` first, then one row per option with its mark.
pub fn draw(options: &Vec<OptionStore>, marks: &Vec<Mark>, header: Vec<u8>) -> (r: Vec<Piece>)
    requires
        marks@.len() == options@.len(),
    ensures
        pieces_view(r@) == frame_pieces(options@, marks@, header@),
{
    let ghost h = header@;
    let mut r: Vec<Piece> = Vec::new();
    r.push(Piece { bytes: header, highlighted: false });
    let mut i: usize = 0;
    assert(pieces_view(r@) =~= frame_pieces(options@.take(0), marks@.take(0), h));
    while i < options.len()
        invariant
            i <= options@.len(),
            marks@.len() == options@.len(),
            pieces_view(r@) == frame_pieces(options@.take(i as int), marks@.take(i as int), h),
        decreases options@.len() - i,
    {
        let ghost before = pieces_view(r@);
        r.push(mark_piece(marks[i]));
        r.push(label_piece(&options[i].key));
        let ghost opts = options@.take(i + 1);
        let ghost ms = marks@.take(i + 1);
        assert(opts.drop_last() =~= options@.take(i as int));
        assert(ms.drop_last() =~= marks@.take(i as int));
        assert(pieces_view(r@) =~= before + row_pieces(marks@[i as int], options@[i as int].key@));
        i += 1;
        assert(pieces_view(r@) =~= frame_pieces(opts, ms, h));
    }
    assert(options@.take(options@.len() as int) =~= options@);
    assert(marks@.take(marks@.len() as int) =~= marks@);
    r
}

/// The first frame of a prompt: hide the cursor, then draw the rows.
pub fn first_frame(options: &Vec<OptionStore>, marks: &Vec<Mark>) -> (r: Vec<Piece>)
    requires
        marks@.len() == options@.len(),
    ensures
        pieces_view(r@) == frame_pieces(options@, marks@, hide_cursor_seq()),
{
    draw(options, marks, hide_cursor())
}

/// A later frame: go back up over the rows drawn before, then draw them anew.
pub fn redraw_frame(options: &Vec<OptionStore>, marks: &Vec<Mark>) -> (r: Vec<Piece>)
    requires
        marks@.len() == options@.len(),
    ensures
        pieces_view(r@) == frame_pieces(options@, marks@, rewind_seq(options@.len() as nat)),
{
    draw(options, marks, rewind(options.len()))
}

} // verus!
