//! Decoding of the raw bytes of one keystroke into a navigation event.
use vstd::prelude::*;

verus! {

/// One keystroke, as the prompts understand it.
#[derive(Clone, Copy, Debug, PartialEq, Eq, Structural)]
pub enum Event {
    Up,
    Down,
    Right,
    Left,
    Space,
    Enter,
    CtrlC,
    CtrlD,
    Other,
}

/// The event that a keystroke's exact bytes stand for.
pub open spec fn event_of(bytes: Seq<u8>) -> Event {
    if bytes == seq![0x1bu8, 0x5bu8, 0x41u8] {
        Event::Up
    } else if bytes == seq![0x1bu8, 0x5bu8, 0x42u8] {
        Event::Down
    } else if bytes == seq![0x1bu8, 0x5bu8, 0x43u8] {
        Event::Right
    } else if bytes == seq![0x1bu8, 0x5bu8, 0x44u8] {
        Event::Left
    } else if bytes == seq![0x0du8] {
        Event::Enter
    } else if bytes == seq![0x20u8] {
        Event::Space
    } else if bytes == seq![0x04u8] {
        Event::CtrlD
    } else if bytes == seq![0x03u8] {
        Event::CtrlC
    } else {
        Event::Other
    }
}

/// Decodes exactly the bytes of one read: an arrow key's escape sequence,
/// Enter, Space, Ctrl-D or Ctrl-C; anything else is `Other`.
pub fn decode_event(bytes: &[u8]) -> (r: Event)
    ensures
        r == event_of(bytes@),
{
    let n = bytes.len();
    if n == 3 {
        if bytes[0] != 0x1b || bytes[1] != 0x5b {
            return Event::Other;
        }
        let k = bytes[2];
        assert(bytes@ =~= seq![0x1bu8, 0x5bu8, k]);
        if k == 0x41 {
            Event::Up
        } else if k == 0x42 {
            Event::Down
        } else if k == 0x43 {
            Event::Right
        } else if k == 0x44 {
            Event::Left
        } else {
            Event::Other
        }
    } else if n == 1 {
        let b = bytes[0];
        assert(bytes@ =~= seq![b]);
        if b == 0x0d {
            Event::Enter
        } else if b == 0x20 {
            Event::Space
        } else if b == 0x04 {
            Event::CtrlD
        } else if b == 0x03 {
            Event::CtrlC
        } else {
            Event::Other
        }
    } else {
        Event::Other
    }
}

/// Decodes the outcome of one read into a buffer: `count` is what the read
/// returned. A failed read (a negative count) or a count beyond the buffer
/// gives `Other`; otherwise the first `count` bytes are decoded.
pub fn decode_read(buf: &[u8], count: i64) -> (r: Event)
    ensures
        count < 0 || count > buf@.len() ==> r == Event::Other,
        0 <= count <= buf@.len() ==> r == event_of(buf@.subrange(0, count as int)),
{
    if count < 0 || count as u64 > buf.len() as u64 {
        return Event::Other;
    }
    let n = count as usize;
    let head = slice_prefix(buf, n);
    decode_event(head)
}

fn slice_prefix(buf: &[u8], n: usize) -> (r: &[u8])
    requires
        n <= buf@.len(),
    ensures
        r@ == buf@.subrange(0, n as int),
{
    let r = &buf[0..n];
    r
}

} // verus!
