//! The framing of canonical bytes: how far each item reaches, without what it
//! holds. Bytes are decoded only where every item announces no more than the
//! input has left and nothing is nested too deep, so that decoding takes
//! memory and stack in proportion to the input.

use vstd::prelude::*;

verus! {

/// How deep lists and maps may be nested in bytes that are decoded.
pub const MAX_DEPTH: usize = 256;

/// What the head of an item says of the item's extent.
#[derive(Clone, Copy, Debug, PartialEq, Eq, Structural)]
pub enum Header {
    /// The item holds no further items and ends before `next`.
    Leaf { next: usize },
    /// The item is a list or a map whose items start at `next`: `count` of
    /// them, or as many as come before a break where no count is given.
    Open { next: usize, count: Option<usize> },
    /// The head is none that the encoding has, or the item announces more
    /// than the input has left.
    Bad,
}

/// The number that the `n` bytes from `pos` on say, most significant byte
/// first, for `n` of 1, 2, 4 or 8.
pub open spec fn big_endian(bytes: Seq<u8>, pos: int, n: int) -> int {
    if n == 1 {
        bytes[pos] as int
    } else if n == 2 {
        bytes[pos] * 0x100 + bytes[pos + 1]
    } else if n == 4 {
        ((bytes[pos] * 0x100 + bytes[pos + 1]) * 0x100 + bytes[pos + 2]) * 0x100 + bytes[pos + 3]
    } else {
        ((((((bytes[pos] * 0x100 + bytes[pos + 1]) * 0x100 + bytes[pos + 2]) * 0x100 + bytes[pos
            + 3]) * 0x100 + bytes[pos + 4]) * 0x100 + bytes[pos + 5]) * 0x100 + bytes[pos + 6])
            * 0x100 + bytes[pos + 7]
    }
}

/// How many bytes after the head hold the head's argument: none where the
/// head holds it itself, and `None` for a head without an argument.
pub open spec fn argument_width(head: u8) -> Option<int> {
    let info = head % 32;
    if info < 24 {
        Some(0)
    } else if info == 24 {
        Some(1)
    } else if info == 25 {
        Some(2)
    } else if info == 26 {
        Some(4)
    } else if info == 27 {
        Some(8)
    } else {
        None
    }
}

/// The argument of the head at `pos` and the position after it, where the
/// head has an argument and the input holds all of it.
pub open spec fn argument(bytes: Seq<u8>, pos: int) -> Option<(int, int)> {
    match argument_width(bytes[pos]) {
        Some(width) => if width == 0 {
            Some(((bytes[pos] % 32) as int, pos + 1))
        } else if pos + 1 + width <= bytes.len() {
            Some((big_endian(bytes, pos + 1, width), pos + 1 + width))
        } else {
            None
        },
        None => None,
    }
}

/// What the head at `pos` says of its item; nothing good at a position
/// outside the input.
pub open spec fn header(bytes: Seq<u8>, pos: int) -> Header {
    let head = bytes[pos];
    let major = head / 32;
    let left = bytes.len() - pos;
    if pos < 0 || pos >= bytes.len() {
        Header::Bad
    } else if major == 0 || major == 1 {
        match argument(bytes, pos) {
            Some((_, next)) => Header::Leaf { next: next as usize },
            None => Header::Bad,
        }
    } else if major == 2 || major == 3 {
        match argument(bytes, pos) {
            Some((len, next)) => if len <= bytes.len() - next {
                Header::Leaf { next: (next + len) as usize }
            } else {
                Header::Bad
            },
            None => Header::Bad,
        }
    } else if major == 4 || major == 5 {
        if head % 32 == 31 {
            Header::Open { next: (pos + 1) as usize, count: None }
        } else {
            match argument(bytes, pos) {
                Some((len, next)) => {
                    let items = if major == 4 {
                        len
                    } else {
                        2 * len
                    };
                    if items <= bytes.len() - next {
                        Header::Open { next: next as usize, count: Some(items as usize) }
                    } else {
                        Header::Bad
                    }
                },
                None => Header::Bad,
            }
        }
    } else if major == 6 {
        if head == 0xd8 && 4 <= left && bytes[pos + 1] == 42 && bytes[pos + 2] == 0x58 && bytes[pos
            + 3] != 0 && 4 + bytes[pos + 3] <= left {
            Header::Leaf { next: (pos + 4 + bytes[pos + 3]) as usize }
        } else {
            Header::Bad
        }
    } else if 0xf4 <= head <= 0xf7 {
        Header::Leaf { next: (pos + 1) as usize }
    } else if head == 0xfa && 5 <= left {
        Header::Leaf { next: (pos + 5) as usize }
    } else if head == 0xfb && 9 <= left {
        Header::Leaf { next: (pos + 9) as usize }
    } else {
        Header::Bad
    }
}

/// What is pending after one item of the innermost open list or map has
/// been taken.
pub open spec fn taken(pending: Seq<Option<usize>>) -> Seq<Option<usize>> {
    match pending.last() {
        Some(n) => pending.update(pending.len() - 1, Some((n - 1) as usize)),
        None => pending,
    }
}

/// From `pos` on the input holds what is pending: for each open list or map,
/// outermost first, the items that are still to come (`None`: all that come
/// before a break), each with a good head, none nested deeper than
/// [`MAX_DEPTH`].
pub open spec fn scan(bytes: Seq<u8>, pos: int, pending: Seq<Option<usize>>) -> bool
    decreases bytes.len() - pos, pending.len(),
{
    if pending.len() == 0 {
        true
    } else if pending.last() == Some(0usize) {
        scan(bytes, pos, pending.drop_last())
    } else if pos < 0 || pos >= bytes.len() {
        false
    } else if bytes[pos] == 0xff && pending.last() is None {
        scan(bytes, pos + 1, pending.drop_last())
    } else {
        match header(bytes, pos) {
            Header::Leaf { next } => pos < next <= bytes.len() && scan(bytes, next as int, taken(pending)),
            Header::Open { next, count } => pos < next <= bytes.len() && pending.len() < MAX_DEPTH
                && scan(bytes, next as int, taken(pending).push(count)),
            Header::Bad => false,
        }
    }
}

/// The input starts with one item that is well framed.
pub open spec fn framed(bytes: Seq<u8>) -> bool {
    scan(bytes, 0, seq![Some(1usize)])
}

/// Reads the number that the `n` bytes from `pos` on say.
fn read_big_endian(bytes: &[u8], pos: usize, n: usize) -> (value: u64)
    requires
        n == 1 || n == 2 || n == 4 || n == 8,
        pos + n <= bytes.len(),
    ensures
        value == big_endian(bytes@, pos as int, n as int),
{
    if n == 1 {
        bytes[pos] as u64
    } else if n == 2 {
        bytes[pos] as u64 * 0x100 + bytes[pos + 1] as u64
    } else if n == 4 {
        ((bytes[pos] as u64 * 0x100 + bytes[pos + 1] as u64) * 0x100 + bytes[pos + 2] as u64)
            * 0x100 + bytes[pos + 3] as u64
    } else {
        let high: u64 = ((bytes[pos] as u64 * 0x100 + bytes[pos + 1] as u64) * 0x100 + bytes[pos
            + 2] as u64) * 0x100 + bytes[pos + 3] as u64;
        let low: u64 = ((bytes[pos + 4] as u64 * 0x100 + bytes[pos + 5] as u64) * 0x100 + bytes[pos
            + 6] as u64) * 0x100 + bytes[pos + 7] as u64;
        high * 0x1_0000_0000 + low
    }
}

/// Reads the argument of the head at `pos`.
fn read_argument(bytes: &[u8], pos: usize) -> (arg: Option<(u64, usize)>)
    requires
        pos < bytes.len(),
    ensures
        match argument(bytes@, pos as int) {
            Some((value, next)) => arg matches Some((v, n)) && v == value && n == next,
            None => arg is None,
        },
{
    let info = bytes[pos] % 32;
    if info < 24 {
        Some((info as u64, pos + 1))
    } else if info > 27 {
        None
    } else {
        let width: usize = if info == 24 {
            1
        } else if info == 25 {
            2
        } else if info == 26 {
            4
        } else {
            8
        };
        if width <= bytes.len() - pos - 1 {
            Some((read_big_endian(bytes, pos + 1, width), pos + 1 + width))
        } else {
            None
        }
    }
}

/// Reads what the head at `pos` says of its item.
pub fn read_header(bytes: &[u8], pos: usize) -> (h: Header)
    ensures
        h == header(bytes@, pos as int),
{
    if pos >= bytes.len() {
        return Header::Bad;
    }
    let head = bytes[pos];
    let major = head / 32;
    let left = bytes.len() - pos;
    if major == 0 || major == 1 {
        match read_argument(bytes, pos) {
            Some((_, next)) => Header::Leaf { next },
            None => Header::Bad,
        }
    } else if major == 2 || major == 3 {
        match read_argument(bytes, pos) {
            Some((len, next)) => {
                if len <= (bytes.len() - next) as u64 {
                    Header::Leaf { next: next + len as usize }
                } else {
                    Header::Bad
                }
            },
            None => Header::Bad,
        }
    } else if major == 4 || major == 5 {
        if head % 32 == 31 {
            Header::Open { next: pos + 1, count: None }
        } else {
            match read_argument(bytes, pos) {
                Some((len, next)) => {
                    let room = (bytes.len() - next) as u64;
                    if major == 4 {
                        if len <= room {
                            Header::Open { next, count: Some(len as usize) }
                        } else {
                            Header::Bad
                        }
                    } else {
                        if len <= room / 2 {
                            Header::Open { next, count: Some(2 * (len as usize)) }
                        } else {
                            Header::Bad
                        }
                    }
                },
                None => Header::Bad,
            }
        }
    } else if major == 6 {
        if head == 0xd8 && 4 <= left && bytes[pos + 1] == 42 && bytes[pos + 2] == 0x58 && bytes[pos
            + 3] != 0 && 4 + bytes[pos + 3] as usize <= left {
            Header::Leaf { next: pos + 4 + bytes[pos + 3] as usize }
        } else {
            Header::Bad
        }
    } else if 0xf4 <= head && head <= 0xf7 {
        Header::Leaf { next: pos + 1 }
    } else if head == 0xfa && 5 <= left {
        Header::Leaf { next: pos + 5 }
    } else if head == 0xfb && 9 <= left {
        Header::Leaf { next: pos + 9 }
    } else {
        Header::Bad
    }
}

/// Whether the input starts with one item that is well framed.
pub fn well_framed(bytes: &[u8]) -> (ok: bool)
    ensures
        ok == framed(bytes@),
{
    let mut pending: Vec<Option<usize>> = Vec::new();
    pending.push(Some(1));
    assert(pending@ =~= seq![Some(1usize)]);
    let mut pos: usize = 0;
    loop
        invariant
            pos <= bytes.len(),
            framed(bytes@) == scan(bytes@, pos as int, pending@),
        decreases bytes.len() - pos, pending.len(),
    {
        if pending.len() == 0 {
            return true;
        }
        let last = pending[pending.len() - 1];
        let ghost before = pending@;
        match last {
            Some(0) => {
                pending.pop();
                assert(pending@ =~= before.drop_last());
            },
            _ => {
                if pos >= bytes.len() {
                    return false;
                }
                if bytes[pos] == 0xff && last.is_none() {
                    pending.pop();
                    assert(pending@ =~= before.drop_last());
                    pos = pos + 1;
                } else {
                    let h = read_header(bytes, pos);
                    match last {
                        Some(n) => {
                            let at = pending.len() - 1;
                            pending.set(at, Some(n - 1));
                        },
                        None => {},
                    }
                    assert(pending@ =~= taken(before));
                    match h {
                        Header::Leaf { next } => {
                            if !(pos < next && next <= bytes.len()) {
                                return false;
                            }
                            pos = next;
                        },
                        Header::Open { next, count } => {
                            if !(pos < next && next <= bytes.len() && pending.len() < MAX_DEPTH) {
                                return false;
                            }
                            pending.push(count);
                            pos = next;
                        },
                        Header::Bad => {
                            return false;
                        },
                    }
                }
            },
        }
    }
}

} // verus!
