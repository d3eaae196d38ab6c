//! Small text helpers: string comparison, path joining and number rendering.
use vstd::prelude::*;
use vstd::string::*;

verus! {

/// Compares two strings character by character.
pub fn str_eq(a: &str, b: &str) -> (r: bool)
    ensures
        r == (a@ == b@),
{
    let n = a.unicode_len();
    let m = b.unicode_len();
    if n != m {
        return false;
    }
    let mut i: usize = 0;
    while i < n
        invariant
            n == a@.len(),
            m == b@.len(),
            n == m,
            i <= n,
            forall|j: int| 0 <= j < i ==> a@[j] == b@[j],
        decreases n - i,
    {
        if a.get_char(i) != b.get_char(i) {
            return false;
        }
        i = i + 1;
    }
    assert(a@ =~= b@);
    true
}

/// Makes an owned copy of a string slice.
pub fn owned(s: &str) -> (r: String)
    ensures
        r@ == s@,
{
    String::from_str(s)
}

/// A path is absolute when it starts at the root directory.
pub open spec fn is_absolute(p: Seq<char>) -> bool {
    p.len() > 0 && p[0] == '/'
}

/// Joining `p` onto `base`: an absolute `p` replaces `base`, otherwise the two
/// are put together with one separator between them.
pub open spec fn join_spec(base: Seq<char>, p: Seq<char>) -> Seq<char> {
    if is_absolute(p) {
        p
    } else if base.len() == 0 || base.last() == '/' {
        base + p
    } else {
        base + seq!['/'] + p
    }
}

/// A relative path is evaluated against `base` when one is given; any other
/// path is kept as it is.
pub open spec fn relative_to_spec(p: Seq<char>, base: Option<Seq<char>>) -> Seq<char> {
    match base {
        Some(b) => if is_absolute(p) {
            p
        } else {
            join_spec(b, p)
        },
        None => p,
    }
}

/// Joins two paths, with the meaning of `Path::join` on a Unix system.
pub fn join_path(base: &str, p: &str) -> (r: String)
    ensures
        r@ == join_spec(base@, p@),
{
    let pn = p.unicode_len();
    if pn > 0 && p.get_char(0) == '/' {
        return owned(p);
    }
    let bn = base.unicode_len();
    let mut r = owned(base);
    if bn > 0 && base.get_char(bn - 1) != '/' {
        r.append("/");
        proof {
            reveal_strlit("/");
        }
    }
    r.append(p);
    proof {
        assert(base@.len() > 0 ==> base@.last() == base@[bn - 1]);
    }
    r
}

/// The text of an optional string.
pub open spec fn opt_text(o: Option<String>) -> Option<Seq<char>> {
    match o {
        Some(s) => Some(s@),
        None => None,
    }
}

/// Evaluates `p` against `base`, as `relative_to_spec` describes.
pub fn relative_to(p: &String, base: &Option<String>) -> (r: String)
    ensures
        r@ == relative_to_spec(p@, opt_text(*base)),
{
    match base {
        Some(b) => join_path(b.as_str(), p.as_str()),
        None => p.clone(),
    }
}

/// The decimal digits of a natural number, most significant first.
pub open spec fn decimal_digits(n: nat) -> Seq<char>
    decreases n,
{
    let d = seq!['0', '1', '2', '3', '4', '5', '6', '7', '8', '9'];
    if n < 10 {
        seq![d[n as int]]
    } else {
        decimal_digits(n / 10) + seq![d[(n % 10) as int]]
    }
}

/// The decimal text of an integer, with a leading minus sign when negative.
pub open spec fn decimal_text(i: int) -> Seq<char> {
    if i < 0 {
        seq!['-'] + decimal_digits((-i) as nat)
    } else {
        decimal_digits(i as nat)
    }
}

/// The lower-case hexadecimal digits of a natural number, most significant first.
pub open spec fn hex_digits(n: nat) -> Seq<char>
    decreases n,
{
    let d = seq!['0', '1', '2', '3', '4', '5', '6', '7', '8', '9', 'a', 'b', 'c', 'd', 'e', 'f'];
    if n < 16 {
        seq![d[n as int]]
    } else {
        hex_digits(n / 16) + seq![d[(n % 16) as int]]
    }
}

/// The one-character text of a digit below sixteen.
fn digit_text(v: u64) -> (r: &'static str)
    requires
        v < 16,
    ensures
        r@ == seq![seq!['0', '1', '2', '3', '4', '5', '6', '7', '8', '9', 'a', 'b', 'c', 'd', 'e', 'f'][v as int]],
{
    match v {
        0 => {
            proof {
                reveal_strlit("0");
            }
            "0"
        },
        1 => {
            proof {
                reveal_strlit("1");
            }
            "1"
        },
        2 => {
            proof {
                reveal_strlit("2");
            }
            "2"
        },
        3 => {
            proof {
                reveal_strlit("3");
            }
            "3"
        },
        4 => {
            proof {
                reveal_strlit("4");
            }
            "4"
        },
        5 => {
            proof {
                reveal_strlit("5");
            }
            "5"
        },
        6 => {
            proof {
                reveal_strlit("6");
            }
            "6"
        },
        7 => {
            proof {
                reveal_strlit("7");
            }
            "7"
        },
        8 => {
            proof {
                reveal_strlit("8");
            }
            "8"
        },
        9 => {
            proof {
                reveal_strlit("9");
            }
            "9"
        },
        10 => {
            proof {
                reveal_strlit("a");
            }
            "a"
        },
        11 => {
            proof {
                reveal_strlit("b");
            }
            "b"
        },
        12 => {
            proof {
                reveal_strlit("c");
            }
            "c"
        },
        13 => {
            proof {
                reveal_strlit("d");
            }
            "d"
        },
        14 => {
            proof {
                reveal_strlit("e");
            }
            "e"
        },
        _ => {
            proof {
                reveal_strlit("f");
            }
            "f"
        },
    }
}

/// The decimal digits of a number.
fn decimal_of(n: u64) -> (r: String)
    ensures
        r@ == decimal_digits(n as nat),
    decreases n,
{
    if n < 10 {
        owned(digit_text(n))
    } else {
        let mut r = decimal_of(n / 10);
        r.append(digit_text(n % 10));
        r
    }
}

/// The decimal text of an integer, with a leading minus sign when negative.
pub fn int_text(i: i64) -> (r: String)
    ensures
        r@ == decimal_text(i as int),
{
    if i < 0 {
        let magnitude: u64 = (0i128 - (i as i128)) as u64;
        let mut r = owned("-");
        proof {
            reveal_strlit("-");
        }
        let d = decimal_of(magnitude);
        r.append(d.as_str());
        r
    } else {
        decimal_of(i as u64)
    }
}

/// The lower-case hexadecimal digits of a number, without prefix or padding.
pub fn hex_text(h: u64) -> (r: String)
    ensures
        r@ == hex_digits(h as nat),
    decreases h,
{
    if h < 16 {
        owned(digit_text(h))
    } else {
        let mut r = hex_text(h / 16);
        r.append(digit_text(h % 16));
        r
    }
}

/// `true` or `false`.
pub fn bool_text(b: bool) -> (r: String)
    ensures
        r@ == (if b { "true"@ } else { "false"@ }),
{
    if b {
        owned("true")
    } else {
        owned("false")
    }
}

} // verus!
