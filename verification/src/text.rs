//! Decimal text: parsing and formatting of `u32` values, and trimming of
//! surrounding whitespace, as the configuration sources use them.

use vstd::prelude::*;
use vstd::string::StrSliceExecFns;
use vstd::string::StringExecFns;

verus! {

pub open spec fn is_digit_char(c: char) -> bool {
    c == '0' || c == '1' || c == '2' || c == '3' || c == '4' || c == '5' || c == '6' || c == '7'
        || c == '8' || c == '9'
}

pub open spec fn digit_val(c: char) -> nat {
    if c == '0' {
        0
    } else if c == '1' {
        1
    } else if c == '2' {
        2
    } else if c == '3' {
        3
    } else if c == '4' {
        4
    } else if c == '5' {
        5
    } else if c == '6' {
        6
    } else if c == '7' {
        7
    } else if c == '8' {
        8
    } else {
        9
    }
}

pub open spec fn digit_char(d: nat) -> char {
    if d == 0 {
        '0'
    } else if d == 1 {
        '1'
    } else if d == 2 {
        '2'
    } else if d == 3 {
        '3'
    } else if d == 4 {
        '4'
    } else if d == 5 {
        '5'
    } else if d == 6 {
        '6'
    } else if d == 7 {
        '7'
    } else if d == 8 {
        '8'
    } else {
        '9'
    }
}

/// The numeric value of a digit string, most significant digit first.
pub open spec fn dec_val(s: Seq<char>) -> nat
    decreases s.len(),
{
    if s.len() == 0 {
        0
    } else {
        dec_val(s.drop_last()) * 10 + digit_val(s.last())
    }
}

pub open spec fn all_digits(s: Seq<char>) -> bool {
    forall|i: int| 0 <= i < s.len() ==> is_digit_char(s[i])
}

/// The canonical decimal representation of a number: no leading zeros, but
/// a single digit for zero itself.
pub open spec fn dec_rep(n: nat) -> Seq<char>
    decreases n,
{
    if n < 10 {
        seq![digit_char(n)]
    } else {
        dec_rep(n / 10) + seq![digit_char(n % 10)]
    }
}

/// What parsing a decimal string yields: the value, when the string is a
/// nonempty run of digits whose value fits in a `u32`; nothing otherwise.
pub open spec fn parse_u32_model(s: Seq<char>) -> Option<u32> {
    if s.len() > 0 && all_digits(s) && dec_val(s) <= u32::MAX {
        Some(dec_val(s) as u32)
    } else {
        None
    }
}

pub open spec fn view_of_opt_string(o: Option<String>) -> Option<Seq<char>> {
    match o {
        Some(s) => Some(s@),
        None => None,
    }
}

fn digit_of(c: char) -> (r: Option<u8>)
    ensures
        r == (if is_digit_char(c) {
            Some(digit_val(c) as u8)
        } else {
            None::<u8>
        }),
{
    match c {
        '0' => Some(0),
        '1' => Some(1),
        '2' => Some(2),
        '3' => Some(3),
        '4' => Some(4),
        '5' => Some(5),
        '6' => Some(6),
        '7' => Some(7),
        '8' => Some(8),
        '9' => Some(9),
        _ => None,
    }
}

proof fn lemma_dec_val_take_le(s: Seq<char>, k: int)
    requires
        0 <= k <= s.len(),
    ensures
        dec_val(s.take(k)) <= dec_val(s),
    decreases s.len() - k,
{
    if k < s.len() {
        assert(s.take(k) =~= s.drop_last().take(k));
        lemma_dec_val_take_le(s.drop_last(), k);
    } else {
        assert(s.take(k) =~= s);
    }
}

/// Parses a nonempty run of decimal digits as a `u32`; any other text, or a
/// value too large for a `u32`, yields nothing.
pub fn parse_u32(s: &str) -> (r: Option<u32>)
    ensures
        r == parse_u32_model(s@),
{
    let len: usize = s.unicode_len();
    if len == 0 {
        return None;
    }
    let mut acc: u64 = 0;
    let mut i: usize = 0;
    while i < len
        invariant
            i <= len,
            len == s@.len(),
            forall|j: int| 0 <= j < i ==> is_digit_char(s@[j]),
            acc == dec_val(s@.take(i as int)),
            acc <= u32::MAX,
        decreases len - i,
    {
        let c = s.get_char(i);
        match digit_of(c) {
            None => {
                return None;
            },
            Some(d) => {
                proof {
                    assert(s@.take(i + 1).drop_last() =~= s@.take(i as int));
                    assert(s@.take(i + 1).last() == s@[i as int]);
                }
                acc = acc * 10 + (d as u64);
                if acc > 0xFFFF_FFFFu64 {
                    proof {
                        lemma_dec_val_take_le(s@, i + 1);
                    }
                    return None;
                }
            },
        }
        i += 1;
    }
    proof {
        assert(s@.take(len as int) =~= s@);
    }
    Some(acc as u32)
}

/// The characters of the digit values in `ds` (least significant first),
/// read out most significant first.
pub open spec fn rev_chars(ds: Seq<u8>) -> Seq<char>
    decreases ds.len(),
{
    if ds.len() == 0 {
        Seq::empty()
    } else {
        seq![digit_char(ds.last() as nat)] + rev_chars(ds.drop_last())
    }
}

proof fn lemma_rev_chars_len(ds: Seq<u8>)
    ensures
        rev_chars(ds).len() == ds.len(),
    decreases ds.len(),
{
    if ds.len() > 0 {
        lemma_rev_chars_len(ds.drop_last());
    }
}

proof fn lemma_rev_chars_index(ds: Seq<u8>, k: int)
    requires
        0 <= k < ds.len(),
    ensures
        rev_chars(ds).len() == ds.len(),
        rev_chars(ds)[k] == digit_char(ds[ds.len() - 1 - k] as nat),
    decreases ds.len(),
{
    lemma_rev_chars_len(ds);
    lemma_rev_chars_len(ds.drop_last());
    if k > 0 {
        lemma_rev_chars_index(ds.drop_last(), k - 1);
    }
}

fn digit_str(d: u8) -> (r: &'static str)
    requires
        d < 10,
    ensures
        r@ =~= seq![digit_char(d as nat)],
{
    proof {
        reveal_strlit("0");
        reveal_strlit("1");
        reveal_strlit("2");
        reveal_strlit("3");
        reveal_strlit("4");
        reveal_strlit("5");
        reveal_strlit("6");
        reveal_strlit("7");
        reveal_strlit("8");
        reveal_strlit("9");
    }
    match d {
        0 => "0",
        1 => "1",
        2 => "2",
        3 => "3",
        4 => "4",
        5 => "5",
        6 => "6",
        7 => "7",
        8 => "8",
        _ => "9",
    }
}

/// Formats a `u32` as its canonical decimal representation.
pub fn u32_to_decimal(n: u32) -> (r: String)
    ensures
        r@ == dec_rep(n as nat),
{
    let mut digits: Vec<u8> = Vec::new();
    let mut cur: u32 = n;
    proof {
        assert(dec_rep(n as nat) =~= dec_rep(n as nat) + rev_chars(digits@));
    }
    while cur >= 10
        invariant
            dec_rep(n as nat) =~= dec_rep(cur as nat) + rev_chars(digits@),
            forall|j: int| 0 <= j < digits@.len() ==> digits@[j] < 10,
        decreases cur,
    {
        let d: u8 = (cur % 10) as u8;
        let ghost before = digits@;
        digits.push(d);
        proof {
            assert(digits@.drop_last() =~= before);
            assert(rev_chars(digits@) =~= seq![digit_char(d as nat)] + rev_chars(before));
            assert(dec_rep(cur as nat) == dec_rep(cur as nat / 10) + seq![
                digit_char(cur as nat % 10),
            ]);
            assert(dec_rep((cur / 10) as nat) + rev_chars(digits@) =~= dec_rep(cur as nat)
                + rev_chars(before));
        }
        cur = cur / 10;
    }
    let ghost before = digits@;
    digits.push(cur as u8);
    proof {
        assert(digits@.drop_last() =~= before);
        assert(dec_rep(cur as nat) =~= seq![digit_char(cur as nat)]);
        assert(rev_chars(digits@) =~= seq![digit_char(cur as nat)] + rev_chars(before));
        assert(dec_rep(n as nat) =~= rev_chars(digits@));
        lemma_rev_chars_len(digits@);
    }
    let mut out = String::new();
    let mut i: usize = digits.len();
    while i > 0
        invariant
            i <= digits@.len(),
            forall|j: int| 0 <= j < digits@.len() ==> digits@[j] < 10,
            dec_rep(n as nat) =~= rev_chars(digits@),
            rev_chars(digits@).len() == digits@.len(),
            out@ =~= rev_chars(digits@).take(digits@.len() - i),
        decreases i,
    {
        i = i - 1;
        let part = digit_str(digits[i]);
        out.append(part);
        proof {
            lemma_rev_chars_index(digits@, digits@.len() - 1 - i);
            assert(rev_chars(digits@).take(digits@.len() - i) =~= rev_chars(digits@).take(
                digits@.len() - i - 1,
            ) + seq![rev_chars(digits@)[digits@.len() - 1 - i]]);
        }
    }
    proof {
        assert(rev_chars(digits@).take(digits@.len() as int) =~= rev_chars(digits@));
        assert(out@ =~= dec_rep(n as nat));
    }
    out
}

proof fn lemma_digit_char_val(d: nat)
    requires
        d < 10,
    ensures
        is_digit_char(digit_char(d)),
        digit_val(digit_char(d)) == d,
{
}

proof fn lemma_dec_rep_value(n: nat)
    ensures
        dec_rep(n).len() > 0,
        all_digits(dec_rep(n)),
        dec_val(dec_rep(n)) == n,
    decreases n,
{
    if n < 10 {
        lemma_digit_char_val(n);
        assert(dec_rep(n).drop_last() =~= Seq::<char>::empty());
        assert(dec_rep(n).last() == digit_char(n));
        assert(dec_val(Seq::<char>::empty()) == 0);
    } else {
        lemma_dec_rep_value(n / 10);
        lemma_digit_char_val(n % 10);
        let s = dec_rep(n);
        assert(s.drop_last() =~= dec_rep(n / 10));
        assert(s.last() == digit_char(n % 10));
        vstd::arithmetic::div_mod::lemma_fundamental_div_mod(n as int, 10);
    }
}

/// Parsing the canonical decimal representation of a number gives back the
/// number: the formatted application id means the id it was formatted from.
pub proof fn lemma_decimal_round_trip(n: u32)
    ensures
        parse_u32_model(dec_rep(n as nat)) == Some(n),
{
    lemma_dec_rep_value(n as nat);
}

pub open spec fn is_space_char(c: char) -> bool {
    c == ' ' || c == '\t' || c == '\n' || c == '\r'
}

pub open spec fn trim_front(s: Seq<char>) -> Seq<char>
    decreases s.len(),
{
    if s.len() > 0 && is_space_char(s.first()) {
        trim_front(s.drop_first())
    } else {
        s
    }
}

pub open spec fn trim_back(s: Seq<char>) -> Seq<char>
    decreases s.len(),
{
    if s.len() > 0 && is_space_char(s.last()) {
        trim_back(s.drop_last())
    } else {
        s
    }
}

/// The string with leading and trailing whitespace removed.
pub open spec fn trim_model(s: Seq<char>) -> Seq<char> {
    trim_back(trim_front(s))
}

fn is_space(c: char) -> (r: bool)
    ensures
        r == is_space_char(c),
{
    c == ' ' || c == '\t' || c == '\n' || c == '\r'
}

/// Removes leading and trailing whitespace.
pub fn trim_spaces(s: &str) -> (r: String)
    ensures
        r@ == trim_model(s@),
{
    let len: usize = s.unicode_len();
    let mut start: usize = 0;
    proof {
        assert(s@.skip(0) =~= s@);
    }
    while start < len && is_space(s.get_char(start))
        invariant
            start <= len,
            len == s@.len(),
            trim_front(s@) == trim_front(s@.skip(start as int)),
        decreases len - start,
    {
        proof {
            assert(s@.skip(start as int).drop_first() =~= s@.skip(start + 1));
        }
        start = start + 1;
    }
    proof {
        if start < len {
            assert(trim_front(s@.skip(start as int)) == s@.skip(start as int));
        } else {
            assert(s@.skip(start as int) =~= Seq::<char>::empty());
        }
    }
    let ghost t = s@.skip(start as int);
    let mut end: usize = len;
    proof {
        assert(t.take(end - start) =~= t);
    }
    while end > start && is_space(s.get_char(end - 1))
        invariant
            start <= end <= len,
            len == s@.len(),
            t == s@.skip(start as int),
            trim_front(s@) == t,
            trim_back(t) == trim_back(t.take(end - start)),
        decreases end,
    {
        proof {
            assert(t.take(end - start).last() == s@[end - 1]);
            assert(t.take(end - start).drop_last() =~= t.take(end - 1 - start));
        }
        end = end - 1;
    }
    proof {
        if end > start {
            assert(t.take(end - start).last() == s@[end - 1]);
            assert(trim_back(t.take(end - start)) == t.take(end - start));
        } else {
            assert(t.take(0) =~= Seq::<char>::empty());
        }
        assert(t.take(end - start) =~= s@.subrange(start as int, end as int));
    }
    let part = s.substring_char(start, end);
    String::from_str(part)
}

} // verus!
