//! Small verified text primitives: decimal digits, character-exact
//! string comparison, ASCII trimming and lowering, and reading a small
//! number. The session protocol and the board renderer are built on
//! these.

use vstd::prelude::*;
use vstd::string::StrSliceExecFns;

verus! {

/// The decimal digit character for `d` in 0..=9.
pub open spec fn digit_char(d: int) -> char {
    if d == 0 {
        '0'
    } else if d == 1 {
        '1'
    } else if d == 2 {
        '2'
    } else if d == 3 {
        '3'
    } else if d == 4 {
        '4'
    } else if d == 5 {
        '5'
    } else if d == 6 {
        '6'
    } else if d == 7 {
        '7'
    } else if d == 8 {
        '8'
    } else {
        '9'
    }
}

/// The one-character string for the digit `d`.
pub fn digit_str(d: usize) -> (r: &'static str)
    requires
        d < 10,
    ensures
        r@ =~= seq![digit_char(d as int)],
{
    proof {
        reveal_strlit("0");
        reveal_strlit("1");
        reveal_strlit("2");
        reveal_strlit("3");
        reveal_strlit("4");
        reveal_strlit("5");
        reveal_strlit("6");
        reveal_strlit("7");
        reveal_strlit("8");
        reveal_strlit("9");
    }
    match d {
        0 => "0",
        1 => "1",
        2 => "2",
        3 => "3",
        4 => "4",
        5 => "5",
        6 => "6",
        7 => "7",
        8 => "8",
        _ => "9",
    }
}

/// ASCII whitespace, the blanks trimmed off around an inbound command.
pub open spec fn is_space_char(c: char) -> bool {
    c == ' ' || c == '\t' || c == '\n' || c == '\r'
}

/// An ASCII capital letter mapped to its small form; anything else
/// unchanged. Keyword commands are matched case-insensitively through
/// this map.
pub open spec fn lower_char(c: char) -> char {
    if 'A' <= c && c <= 'Z' {
        (((c as u8) + 32) as char)
    } else {
        c
    }
}

/// The text with every character lowered.
pub open spec fn lower_seq(s: Seq<char>) -> Seq<char> {
    s.map_values(|c: char| lower_char(c))
}

/// The text without its leading whitespace.
pub open spec fn trim_front(s: Seq<char>) -> Seq<char>
    decreases s.len(),
{
    if s.len() > 0 && is_space_char(s.first()) {
        trim_front(s.drop_first())
    } else {
        s
    }
}

/// The text without its trailing whitespace.
pub open spec fn trim_back(s: Seq<char>) -> Seq<char>
    decreases s.len(),
{
    if s.len() > 0 && is_space_char(s.last()) {
        trim_back(s.drop_last())
    } else {
        s
    }
}

/// The text without leading and trailing whitespace.
pub open spec fn trim_seq(s: Seq<char>) -> Seq<char> {
    trim_back(trim_front(s))
}

/// A decimal digit character.
pub open spec fn is_digit_char(c: char) -> bool {
    '0' <= c && c <= '9'
}

/// Every character of the text is a decimal digit.
pub open spec fn is_digit_seq(s: Seq<char>) -> bool {
    forall|i: int| 0 <= i < s.len() ==> is_digit_char(s[i])
}

/// The numeric value of a digit character.
pub open spec fn digit_val(c: char) -> int {
    (c as u32) - ('0' as u32)
}

/// The numeric value of a digit string, most significant digit first.
pub open spec fn digits_val(s: Seq<char>) -> int
    decreases s.len(),
{
    if s.len() == 0 {
        0
    } else {
        digits_val(s.drop_last()) * 10 + digit_val(s.last())
    }
}

/// The characters of a string slice, in order.
pub fn chars_vec(s: &str) -> (r: Vec<char>)
    ensures
        r@ == s@,
{
    let n = s.unicode_len();
    let mut r: Vec<char> = Vec::new();
    let mut i: usize = 0;
    while i < n
        invariant
            i <= n,
            n == s@.len(),
            r@ =~= s@.take(i as int),
        decreases n - i,
    {
        r.push(s.get_char(i));
        proof {
            assert(r@ =~= s@.take(i + 1));
        }
        i += 1;
    }
    proof {
        assert(s@.take(n as int) =~= s@);
    }
    r
}

/// Whether `c` is ASCII whitespace.
fn is_space(c: char) -> (r: bool)
    ensures
        r == is_space_char(c),
{
    c == ' ' || c == '\t' || c == '\n' || c == '\r'
}

/// Drops leading whitespace in place.
fn trim_front_exec(v: &mut Vec<char>)
    ensures
        final(v)@ == trim_front(old(v)@),
{
    while v.len() > 0 && is_space(v[0])
        invariant
            trim_front(v@) == trim_front(old(v)@),
        decreases v@.len(),
    {
        let ghost prev = v@;
        v.remove(0);
        proof {
            assert(v@ =~= prev.drop_first());
        }
    }
}

/// Drops trailing whitespace in place.
fn trim_back_exec(v: &mut Vec<char>)
    ensures
        final(v)@ == trim_back(old(v)@),
{
    while v.len() > 0 && is_space(v[v.len() - 1])
        invariant
            trim_back(v@) == trim_back(old(v)@),
        decreases v@.len(),
    {
        let ghost prev = v@;
        v.pop();
        proof {
            assert(v@ =~= prev.drop_last());
        }
    }
}

/// Lowers every character in place.
fn lower_exec(v: &mut Vec<char>)
    ensures
        final(v)@ == lower_seq(old(v)@),
{
    let n = v.len();
    let mut i: usize = 0;
    while i < n
        invariant
            i <= n,
            n == v@.len(),
            v@.len() == old(v)@.len(),
            forall|j: int| 0 <= j < i ==> v@[j] == lower_char(old(v)@[j]),
            forall|j: int| i <= j < n ==> v@[j] == old(v)@[j],
        decreases n - i,
    {
        let c = v[i];
        if c >= 'A' && c <= 'Z' {
            v[i] = ((c as u8) + 32) as char;
        }
        i += 1;
    }
    proof {
        assert(v@ =~= lower_seq(old(v)@));
    }
}

/// Computes the trimmed form of the text, case kept.
pub fn trim_chars(s: &str) -> (r: Vec<char>)
    ensures
        r@ == trim_seq(s@),
{
    let mut v = chars_vec(s);
    trim_front_exec(&mut v);
    trim_back_exec(&mut v);
    v
}

/// The trimmed, lowered form of the text: what command matching and
/// digit reading look at.
pub open spec fn canon(s: Seq<char>) -> Seq<char> {
    lower_seq(trim_seq(s))
}

/// Computes the trimmed, lowered form of the text.
pub fn canon_chars(s: &str) -> (r: Vec<char>)
    ensures
        r@ == canon(s@),
{
    let mut v = chars_vec(s);
    trim_front_exec(&mut v);
    trim_back_exec(&mut v);
    lower_exec(&mut v);
    v
}

/// Character-exact equality of a character vector and a string slice.
pub fn chars_eq_str(v: &Vec<char>, s: &str) -> (r: bool)
    ensures
        r == (v@ == s@),
{
    let n = s.unicode_len();
    if v.len() != n {
        proof {
            assert(v@ != s@) by {
                if v@ == s@ {
                    assert(v@.len() == s@.len());
                }
            }
        }
        return false;
    }
    let mut i: usize = 0;
    while i < n
        invariant
            i <= n,
            n == v@.len(),
            n == s@.len(),
            forall|j: int| 0 <= j < i ==> v@[j] == s@[j],
        decreases n - i,
    {
        if v[i] != s.get_char(i) {
            proof {
                assert(v@ != s@) by {
                    if v@ == s@ {
                        assert(v@[i as int] == s@[i as int]);
                    }
                }
            }
            return false;
        }
        i += 1;
    }
    proof {
        assert(v@ =~= s@);
    }
    true
}

/// Reads the text as a number, capped at 10: the result is the exact
/// value when that value is at most 9, and 10 when the text names
/// anything larger; `None` when the text is empty or not all digits.
pub fn read_small_number(v: &Vec<char>) -> (r: Option<usize>)
    ensures
        match r {
            Some(val) => {
                &&& is_digit_seq(v@)
                &&& v@.len() > 0
                &&& (digits_val(v@) <= 9 ==> val == digits_val(v@))
                &&& (digits_val(v@) > 9 ==> val == 10)
            },
            None => !(is_digit_seq(v@) && v@.len() > 0),
        },
{
    let n = v.len();
    if n == 0 {
        return None;
    }
    let mut val: usize = 0;
    let mut i: usize = 0;
    while i < n
        invariant
            i <= n,
            n == v@.len(),
            val <= 10,
            forall|j: int| 0 <= j < i ==> is_digit_char(v@[j]),
            digits_val(v@.take(i as int)) <= 9 ==> val == digits_val(v@.take(i as int)),
            digits_val(v@.take(i as int)) > 9 ==> val == 10,
            digits_val(v@.take(i as int)) >= 0,
        decreases n - i,
    {
        let c = v[i];
        if c < '0' || c > '9' {
            return None;
        }
        let d: usize = ((c as u8) - 48) as usize;
        proof {
            assert(d == digit_val(c));
            assert(v@.take(i + 1).drop_last() =~= v@.take(i as int));
            assert(v@.take(i + 1).last() == v@[i as int]);
        }
        let nv = val * 10 + d;
        if nv > 9 {
            val = 10;
        } else {
            val = nv;
        }
        i += 1;
    }
    proof {
        assert(v@.take(n as int) =~= v@);
    }
    Some(val)
}

/// Character-exact equality of two string slices.
pub fn str_eq(a: &str, b: &str) -> (r: bool)
    ensures
        r == (a@ == b@),
{
    let n = a.unicode_len();
    let m = b.unicode_len();
    if n != m {
        proof {
            assert(a@ != b@) by {
                if a@ == b@ {
                    assert(a@.len() == b@.len());
                }
            }
        }
        return false;
    }
    let mut i: usize = 0;
    while i < n
        invariant
            i <= n,
            n == a@.len(),
            n == b@.len(),
            forall|j: int| 0 <= j < i ==> a@[j] == b@[j],
        decreases n - i,
    {
        if a.get_char(i) != b.get_char(i) {
            proof {
                assert(a@ != b@) by {
                    if a@ == b@ {
                        assert(a@[i as int] == b@[i as int]);
                    }
                }
            }
            return false;
        }
        i += 1;
    }
    proof {
        assert(a@ =~= b@);
    }
    true
}

} // verus!
