//! A bound on how deeply a TOML text nests, found by one scan over its bytes
//! that skips strings and comments.
//!
//! Outside strings and comments, every `[` or `{` opens a level and every
//! `]` or `}` closes one, and every `.` on a line adds a level (a dotted key
//! or a table header part). The measure is the largest sum of open levels
//! and dots on the current line met anywhere in the text.
use vstd::prelude::*;
use vstd::string::*;

verus! {

/// The deepest nesting that a text handed to the `toml` crate may reach.
pub const MAX_NESTING: u64 = 128;

/// Where the scan stands: outside strings, in a one-line string, in a
/// multi-line string, or in a comment.
#[derive(Clone, Copy, PartialEq, Eq, Structural)]
pub enum Mode {
    Normal,
    Basic,
    Literal,
    MultiBasic,
    MultiLiteral,
    Comment,
}

/// The state of the scan as plain values.
pub struct ScanView {
    pub mode: Mode,
    pub depth: nat,
    pub dots: nat,
    pub max: nat,
}

/// The byte at `i`, or zero past the end.
pub open spec fn at(b: Seq<u8>, i: int) -> u8 {
    if 0 <= i < b.len() {
        b[i]
    } else {
        0u8
    }
}

/// Whether three copies of `q` start at `i`.
pub open spec fn triple(b: Seq<u8>, i: int, q: u8) -> bool {
    at(b, i) == q && at(b, i + 1) == q && at(b, i + 2) == q
}

/// Past a closing triple quote at `i`, with up to two more quotes that
/// belong to the string.
pub open spec fn after_close(b: Seq<u8>, i: int, q: u8) -> int {
    if at(b, i + 3) == q {
        if at(b, i + 4) == q {
            i + 5
        } else {
            i + 4
        }
    } else {
        i + 3
    }
}

/// A scan state with a new depth and dots, and the largest measure so far.
pub open spec fn measured(s: ScanView, depth: nat, dots: nat) -> ScanView {
    ScanView {
        mode: s.mode,
        depth,
        dots,
        max: if depth + dots > s.max { depth + dots } else { s.max },
    }
}

/// One step of the scan at `i`: the next state and where the scan goes on.
pub open spec fn step(b: Seq<u8>, i: int, s: ScanView) -> (ScanView, int) {
    let c = at(b, i);
    match s.mode {
        Mode::Normal => if c == 0x23u8 {
            (ScanView { mode: Mode::Comment, ..s }, i + 1)
        } else if c == 0x22u8 {
            if triple(b, i, 0x22u8) {
                (ScanView { mode: Mode::MultiBasic, ..s }, i + 3)
            } else {
                (ScanView { mode: Mode::Basic, ..s }, i + 1)
            }
        } else if c == 0x27u8 {
            if triple(b, i, 0x27u8) {
                (ScanView { mode: Mode::MultiLiteral, ..s }, i + 3)
            } else {
                (ScanView { mode: Mode::Literal, ..s }, i + 1)
            }
        } else if c == 0x5bu8 || c == 0x7bu8 {
            (measured(s, s.depth + 1, s.dots), i + 1)
        } else if c == 0x5du8 || c == 0x7du8 {
            (ScanView { depth: if s.depth > 0 { (s.depth - 1) as nat } else { 0 }, ..s }, i + 1)
        } else if c == 0x2eu8 {
            (measured(s, s.depth, s.dots + 1), i + 1)
        } else if c == 0x0au8 {
            (ScanView { dots: 0, ..s }, i + 1)
        } else {
            (s, i + 1)
        },
        Mode::Basic => if c == 0x5cu8 {
            (s, i + 2)
        } else if c == 0x22u8 {
            (ScanView { mode: Mode::Normal, ..s }, i + 1)
        } else if c == 0x0au8 {
            (ScanView { mode: Mode::Normal, dots: 0, ..s }, i + 1)
        } else {
            (s, i + 1)
        },
        Mode::Literal => if c == 0x27u8 {
            (ScanView { mode: Mode::Normal, ..s }, i + 1)
        } else if c == 0x0au8 {
            (ScanView { mode: Mode::Normal, dots: 0, ..s }, i + 1)
        } else {
            (s, i + 1)
        },
        Mode::MultiBasic => if c == 0x5cu8 {
            (s, i + 2)
        } else if triple(b, i, 0x22u8) {
            (ScanView { mode: Mode::Normal, ..s }, after_close(b, i, 0x22u8))
        } else {
            (s, i + 1)
        },
        Mode::MultiLiteral => if triple(b, i, 0x27u8) {
            (ScanView { mode: Mode::Normal, ..s }, after_close(b, i, 0x27u8))
        } else {
            (s, i + 1)
        },
        Mode::Comment => if c == 0x0au8 {
            (ScanView { mode: Mode::Normal, dots: 0, ..s }, i + 1)
        } else {
            (s, i + 1)
        },
    }
}

/// The largest measure met scanning from `i` on in state `s`.
pub open spec fn scan(b: Seq<u8>, i: int, s: ScanView) -> nat
    decreases b.len() - i,
{
    if i < 0 || i >= b.len() {
        s.max
    } else {
        let (t, j) = step(b, i, s);
        if j <= i || j >= b.len() {
            t.max
        } else {
            scan(b, j, t)
        }
    }
}

/// The nesting measure of a text's bytes.
pub open spec fn nesting(b: Seq<u8>) -> nat {
    scan(b, 0, ScanView { mode: Mode::Normal, depth: 0, dots: 0, max: 0 })
}

/// The measure never drops as the scan goes on.
proof fn lemma_scan_grows(b: Seq<u8>, i: int, s: ScanView)
    ensures
        scan(b, i, s) >= s.max,
    decreases b.len() - i,
{
    if 0 <= i < b.len() {
        let (t, j) = step(b, i, s);
        if j > i && j < b.len() {
            lemma_scan_grows(b, j, t);
        }
    }
}

fn byte_at(b: &[u8], i: usize, k: usize) -> (r: u8)
    requires
        i < b@.len(),
    ensures
        r == at(b@, i + k),
{
    if b.len() - i > k {
        b[i + k]
    } else {
        0u8
    }
}

fn offset(i: usize, k: usize, n: usize) -> (r: usize)
    requires
        i < n,
    ensures
        r == if i + k < n { i + k } else { n as int },
{
    if n - i > k {
        i + k
    } else {
        n
    }
}

/// Whether a text nests no deeper than `MAX_NESTING` by the measure above.
pub fn nesting_within(text: &str) -> (r: bool)
    ensures
        r == (nesting(text.spec_bytes()) <= MAX_NESTING),
{
    let b = text.as_bytes();
    let n = b.len();
    let mut mode = Mode::Normal;
    let mut depth: u64 = 0;
    let mut dots: u64 = 0;
    let mut max: u64 = 0;
    let mut i: usize = 0;
    while i < n
        invariant
            n == b@.len(),
            b@ == text.spec_bytes(),
            i <= n,
            max <= MAX_NESTING,
            depth + dots <= MAX_NESTING,
            nesting(b@) == scan(
                b@,
                i as int,
                ScanView { mode, depth: depth as nat, dots: dots as nat, max: max as nat },
            ),
        decreases n - i,
    {
        let ghost s = ScanView { mode, depth: depth as nat, dots: dots as nat, max: max as nat };
        let ghost (t, j) = step(b@, i as int, s);
        let c = b[i];
        let mut next: usize = i + 1;
        match mode {
            Mode::Normal => {
                if c == 0x23u8 {
                    mode = Mode::Comment;
                } else if c == 0x22u8 {
                    if byte_at(b, i, 1) == 0x22u8 && byte_at(b, i, 2) == 0x22u8 {
                        mode = Mode::MultiBasic;
                        next = offset(i, 3, n);
                    } else {
                        mode = Mode::Basic;
                    }
                } else if c == 0x27u8 {
                    if byte_at(b, i, 1) == 0x27u8 && byte_at(b, i, 2) == 0x27u8 {
                        mode = Mode::MultiLiteral;
                        next = offset(i, 3, n);
                    } else {
                        mode = Mode::Literal;
                    }
                } else if c == 0x5bu8 || c == 0x7bu8 || c == 0x2eu8 {
                    if depth + dots + 1 > MAX_NESTING {
                        proof {
                            lemma_scan_grows(b@, j, t);
                        }
                        return false;
                    }
                    if c == 0x2eu8 {
                        dots = dots + 1;
                    } else {
                        depth = depth + 1;
                    }
                    if depth + dots > max {
                        max = depth + dots;
                    }
                } else if c == 0x5du8 || c == 0x7du8 {
                    if depth > 0 {
                        depth = depth - 1;
                    }
                } else if c == 0x0au8 {
                    dots = 0;
                }
            },
            Mode::Basic => {
                if c == 0x5cu8 {
                    next = offset(i, 2, n);
                } else if c == 0x22u8 {
                    mode = Mode::Normal;
                } else if c == 0x0au8 {
                    mode = Mode::Normal;
                    dots = 0;
                }
            },
            Mode::Literal => {
                if c == 0x27u8 {
                    mode = Mode::Normal;
                } else if c == 0x0au8 {
                    mode = Mode::Normal;
                    dots = 0;
                }
            },
            Mode::MultiBasic => {
                if c == 0x5cu8 {
                    next = offset(i, 2, n);
                } else if byte_at(b, i, 1) == 0x22u8 && byte_at(b, i, 2) == 0x22u8 && c == 0x22u8 {
                    mode = Mode::Normal;
                    next = if byte_at(b, i, 3) == 0x22u8 {
                        if byte_at(b, i, 4) == 0x22u8 { offset(i, 5, n) } else { offset(i, 4, n) }
                    } else {
                        offset(i, 3, n)
                    };
                }
            },
            Mode::MultiLiteral => {
                if byte_at(b, i, 1) == 0x27u8 && byte_at(b, i, 2) == 0x27u8 && c == 0x27u8 {
                    mode = Mode::Normal;
                    next = if byte_at(b, i, 3) == 0x27u8 {
                        if byte_at(b, i, 4) == 0x27u8 { offset(i, 5, n) } else { offset(i, 4, n) }
                    } else {
                        offset(i, 3, n)
                    };
                }
            },
            Mode::Comment => {
                if c == 0x0au8 {
                    mode = Mode::Normal;
                    dots = 0;
                }
            },
        }
        assert(t == ScanView { mode, depth: depth as nat, dots: dots as nat, max: max as nat });
        assert(j == next as int || (j >= n && next == n));
        i = next;
    }
    true
}

} // verus!
