//! Character-level text utilities.
//!
//! The manifest decoder works on a `Vec<char>` so that every position is
//! addressable in constant time; these helpers move between that form and
//! `String`/`&str`, compare character runs, and render and read unsigned
//! decimal numbers.

use vstd::prelude::*;

verus! {

/// Relies on `str::chars` and `Iterator::collect` for `Vec<char>`: the
/// collected vector holds exactly the characters of the slice, in order.
#[verifier::external_body]
pub fn str_to_chars(s: &str) -> (v: Vec<char>)
    ensures
        v@ == s@,
{
    s.chars().collect()
}

/// Relies on `Iterator::collect` for `String` over a `char` iterator: the
/// collected string holds exactly the characters of the slice, in order.
#[verifier::external_body]
pub fn chars_to_string(v: &[char]) -> (s: String)
    ensures
        s@ == v@,
{
    v.iter().collect()
}

/// Whether a character run equals the characters of a string slice.
pub fn chars_eq_str(v: &[char], s: &str) -> (r: bool)
    ensures
        r == (v@ == s@),
{
    let n = s.unicode_len();
    if v.len() != n {
        proof {
            assert(v@.len() != s@.len());
        }
        return false;
    }
    let mut i: usize = 0;
    while i < n
        invariant
            0 <= i <= n,
            n == s@.len(),
            v@.len() == n,
            forall|j: int| 0 <= j < i ==> v@[j] == s@[j],
        decreases n - i,
    {
        if v[i] != s.get_char(i) {
            proof {
                assert(v@[i as int] != s@[i as int]);
            }
            return false;
        }
        i += 1;
    }
    proof {
        assert(v@ =~= s@);
    }
    true
}

/// Whether two character runs are equal.
pub fn chars_eq(a: &[char], b: &[char]) -> (r: bool)
    ensures
        r == (a@ == b@),
{
    if a.len() != b.len() {
        proof {
            assert(a@.len() != b@.len());
        }
        return false;
    }
    let mut i: usize = 0;
    while i < a.len()
        invariant
            0 <= i <= a@.len(),
            a@.len() == b@.len(),
            forall|j: int| 0 <= j < i ==> a@[j] == b@[j],
        decreases a@.len() - i,
    {
        if a[i] != b[i] {
            proof {
                assert(a@[i as int] != b@[i as int]);
            }
            return false;
        }
        i += 1;
    }
    proof {
        assert(a@ =~= b@);
    }
    true
}

/// Whether two string slices hold the same characters.
pub fn str_eq(a: &str, b: &str) -> (r: bool)
    ensures
        r == (a@ == b@),
{
    let n = a.unicode_len();
    if b.unicode_len() != n {
        proof {
            assert(a@.len() != b@.len());
        }
        return false;
    }
    let mut i: usize = 0;
    while i < n
        invariant
            0 <= i <= n,
            n == a@.len(),
            b@.len() == n,
            forall|j: int| 0 <= j < i ==> a@[j] == b@[j],
        decreases n - i,
    {
        if a.get_char(i) != b.get_char(i) {
            proof {
                assert(a@[i as int] != b@[i as int]);
            }
            return false;
        }
        i += 1;
    }
    proof {
        assert(a@ =~= b@);
    }
    true
}

/// Whether a character is a decimal digit.
pub open spec fn spec_is_digit(c: char) -> bool {
    '0' <= c <= '9'
}

/// Numeric value of a decimal digit character.
pub open spec fn spec_digit_val(c: char) -> int {
    c as int - '0' as int
}

/// The digit character for a value in `0..10`.
pub open spec fn spec_digit_char(d: int) -> char {
    if d == 0 {
        '0'
    } else if d == 1 {
        '1'
    } else if d == 2 {
        '2'
    } else if d == 3 {
        '3'
    } else if d == 4 {
        '4'
    } else if d == 5 {
        '5'
    } else if d == 6 {
        '6'
    } else if d == 7 {
        '7'
    } else if d == 8 {
        '8'
    } else {
        '9'
    }
}

/// Decimal rendering of a natural number, most significant digit first,
/// without leading zeros (`0` renders as `"0"`).
pub open spec fn spec_dec(n: nat) -> Seq<char>
    decreases n,
{
    if n < 10 {
        seq![spec_digit_char(n as int)]
    } else {
        spec_dec(n / 10).push(spec_digit_char((n % 10) as int))
    }
}

/// A decimal rendering holds at least one character.
pub proof fn lemma_spec_dec_len(n: nat)
    ensures
        spec_dec(n).len() >= 1,
        n >= 10 ==> spec_dec(n).len() >= 2,
        forall|i: int| 0 <= i < spec_dec(n).len() ==> spec_is_digit(#[trigger] spec_dec(n)[i]),
    decreases n,
{
    if n >= 10 {
        lemma_spec_dec_len(n / 10);
    }
}

/// Distinct numbers have distinct decimal renderings.
pub proof fn lemma_spec_dec_injective(a: nat, b: nat)
    requires
        spec_dec(a) == spec_dec(b),
    ensures
        a == b,
    decreases a + b,
{
    lemma_spec_dec_len(a);
    lemma_spec_dec_len(b);
    if a < 10 && b < 10 {
        assert(spec_dec(a)[0] == spec_digit_char(a as int));
        assert(spec_dec(b)[0] == spec_digit_char(b as int));
    } else if a < 10 {
        assert(spec_dec(a).len() == 1);
    } else if b < 10 {
        assert(spec_dec(b).len() == 1);
    } else {
        let pa = spec_dec(a / 10);
        let pb = spec_dec(b / 10);
        assert(pa.push(spec_digit_char((a % 10) as int)) == pb.push(
            spec_digit_char((b % 10) as int),
        ));
        let ca = spec_digit_char((a % 10) as int);
        let cb = spec_digit_char((b % 10) as int);
        assert(pa.push(ca).len() == pb.push(cb).len());
        assert(pa.len() == pb.len());
        assert forall|i: int| 0 <= i < pa.len() implies pa[i] == pb[i] by {
            assert(pa.push(ca)[i] == pa[i]);
            assert(pb.push(cb)[i] == pb[i]);
        }
        assert(pa =~= pb);
        lemma_spec_dec_injective(a / 10, b / 10);
        assert(spec_digit_char((a % 10) as int) == spec_dec(a).last());
        assert(spec_digit_char((b % 10) as int) == spec_dec(b).last());
        assert(a % 10 == b % 10);
        assert(a == 10 * (a / 10) + a % 10);
        assert(b == 10 * (b / 10) + b % 10);
    }
}

/// The digit character of a value in `0..10`.
fn digit_char(d: u64) -> (c: char)
    requires
        d < 10,
    ensures
        c == spec_digit_char(d as int),
{
    match d {
        0 => '0',
        1 => '1',
        2 => '2',
        3 => '3',
        4 => '4',
        5 => '5',
        6 => '6',
        7 => '7',
        8 => '8',
        _ => '9',
    }
}

/// Append the decimal rendering of `n` to `out`.
pub fn push_dec(n: u64, out: &mut Vec<char>)
    ensures
        final(out)@ == old(out)@ + spec_dec(n as nat),
    decreases n,
{
    if n >= 10 {
        push_dec(n / 10, out);
    }
    out.push(digit_char(n % 10));
    proof {
        assert(out@ =~= old(out)@ + spec_dec(n as nat));
    }
}

/// Value of a run of decimal digit characters, most significant first.
pub open spec fn spec_dec_val(s: Seq<char>) -> int
    decreases s.len(),
{
    if s.len() == 0 {
        0
    } else {
        spec_dec_val(s.drop_last()) * 10 + spec_digit_val(s.last())
    }
}

/// Whether every character of a run is a decimal digit.
pub open spec fn spec_all_digits(s: Seq<char>) -> bool {
    forall|i: int| 0 <= i < s.len() ==> spec_is_digit(#[trigger] s[i])
}

/// The value of a digit run is no less than the value of any of its prefixes.
pub proof fn lemma_dec_val_prefix(s: Seq<char>, i: int)
    requires
        spec_all_digits(s),
        0 <= i <= s.len(),
    ensures
        spec_dec_val(s) >= spec_dec_val(s.subrange(0, i)),
        spec_dec_val(s) >= 0,
    decreases s.len(),
{
    if s.len() == 0 {
    } else {
        lemma_dec_val_prefix(s.drop_last(), if i < s.len() { i } else { i - 1 });
        if i < s.len() {
            assert(s.subrange(0, i) =~= s.drop_last().subrange(0, i));
        } else {
            assert(s.subrange(0, i) =~= s);
        }
        assert(spec_digit_val(s.last()) >= 0);
        assert(spec_dec_val(s.drop_last()) * 10 >= spec_dec_val(s.drop_last())) by {
            assert(spec_dec_val(s.drop_last()) >= 0);
        }
    }
}

/// Read an unsigned decimal number from a character run. Returns the value
/// exactly when the run is nonempty, all digits, and the value fits in
/// `u64`.
pub fn parse_u64_chars(v: &[char]) -> (r: Option<u64>)
    ensures
        match r {
            Some(x) => {
                &&& v@.len() > 0
                &&& spec_all_digits(v@)
                &&& x == spec_dec_val(v@)
            },
            None => v@.len() == 0 || !spec_all_digits(v@) || spec_dec_val(v@) > u64::MAX,
        },
{
    if v.len() == 0 {
        return None;
    }
    let mut acc: u64 = 0;
    let mut i: usize = 0;
    while i < v.len()
        invariant
            0 <= i <= v@.len(),
            spec_all_digits(v@.subrange(0, i as int)),
            acc == spec_dec_val(v@.subrange(0, i as int)),
        decreases v@.len() - i,
    {
        let c = v[i];
        if c < '0' || c > '9' {
            proof {
                assert(!spec_is_digit(v@[i as int]));
            }
            return None;
        }
        let d: u64 = (c as u64) - ('0' as u64);
        proof {
            assert(d == spec_digit_val(v@[i as int]));
            assert(d < 10);
        }
        let next = match acc.checked_mul(10) {
            Some(m) => m.checked_add(d),
            None => None,
        };
        proof {
            assert(v@.subrange(0, i + 1).drop_last() =~= v@.subrange(0, i as int));
            assert(v@.subrange(0, i + 1).last() == v@[i as int]);
        }
        match next {
            Some(x) => {
                acc = x;
            },
            None => {
                proof {
                    assert(spec_dec_val(v@.subrange(0, i + 1)) > u64::MAX);
                    if spec_all_digits(v@) {
                        lemma_dec_val_prefix(v@, i + 1);
                        assert(spec_dec_val(v@) >= spec_dec_val(v@.subrange(0, i + 1)));
                    }
                }
                return None;
            },
        }
        i += 1;
    }
    proof {
        assert(v@.subrange(0, v@.len() as int) =~= v@);
    }
    Some(acc)
}

/// Read an unsigned decimal number that must fit in `u32`.
pub fn parse_u32_chars(v: &[char]) -> (r: Option<u32>)
    ensures
        match r {
            Some(x) => {
                &&& v@.len() > 0
                &&& spec_all_digits(v@)
                &&& x == spec_dec_val(v@)
            },
            None => v@.len() == 0 || !spec_all_digits(v@) || spec_dec_val(v@) > u32::MAX,
        },
{
    match parse_u64_chars(v) {
        Some(x) => {
            if x <= u32::MAX as u64 {
                Some(x as u32)
            } else {
                None
            }
        },
        None => None,
    }
}

/// Read an unsigned decimal number that must fit in `usize`.
pub fn parse_usize_chars(v: &[char]) -> (r: Option<usize>)
    ensures
        match r {
            Some(x) => {
                &&& v@.len() > 0
                &&& spec_all_digits(v@)
                &&& x == spec_dec_val(v@)
            },
            None => v@.len() == 0 || !spec_all_digits(v@) || spec_dec_val(v@) > usize::MAX,
        },
{
    match parse_u64_chars(v) {
        Some(x) => {
            if x <= usize::MAX as u64 {
                Some(x as usize)
            } else {
                None
            }
        },
        None => None,
    }
}

/// Whether a character run is a well-formed signed decimal number: an
/// optional sign followed by at least one digit.
pub open spec fn spec_signed_wf(s: Seq<char>) -> bool {
    if s.len() > 0 && (s[0] == '-' || s[0] == '+') {
        s.len() > 1 && spec_all_digits(s.skip(1))
    } else {
        s.len() > 0 && spec_all_digits(s)
    }
}

/// Value of a well-formed signed decimal character run.
pub open spec fn spec_signed_val(s: Seq<char>) -> int {
    if s.len() > 0 && s[0] == '-' {
        -spec_dec_val(s.skip(1))
    } else if s.len() > 0 && s[0] == '+' {
        spec_dec_val(s.skip(1))
    } else {
        spec_dec_val(s)
    }
}

/// Read a signed decimal number from a character run. Returns the value
/// exactly when the run is an optional sign followed by digits and the
/// value fits in `i64`.
pub fn parse_i64_chars(v: &[char]) -> (r: Option<i64>)
    ensures
        match r {
            Some(x) => {
                &&& spec_signed_wf(v@)
                &&& x == spec_signed_val(v@)
            },
            None => !spec_signed_wf(v@) || spec_signed_val(v@) < i64::MIN || spec_signed_val(v@)
                > i64::MAX,
        },
{
    if v.len() == 0 {
        return None;
    }
    let first = v[0];
    if first == '-' {
        let rest = vstd::slice::slice_subrange(v, 1, v.len());
        proof {
            assert(rest@ =~= v@.skip(1));
        }
        match parse_u64_chars(rest) {
            Some(m) => {
                if m <= i64::MAX as u64 {
                    Some(-(m as i64))
                } else if m == 9223372036854775808u64 {
                    Some(i64::MIN)
                } else {
                    None
                }
            },
            None => None,
        }
    } else if first == '+' {
        let rest = vstd::slice::slice_subrange(v, 1, v.len());
        proof {
            assert(rest@ =~= v@.skip(1));
        }
        match parse_u64_chars(rest) {
            Some(m) => {
                if m <= i64::MAX as u64 {
                    Some(m as i64)
                } else {
                    None
                }
            },
            None => None,
        }
    } else {
        match parse_u64_chars(v) {
            Some(m) => {
                if m <= i64::MAX as u64 {
                    Some(m as i64)
                } else {
                    None
                }
            },
            None => None,
        }
    }
}

/// The boolean denoted by a manifest word. The manifest's vocabulary for
/// booleans is exactly `true`, `false`, `1` and `0`.
pub open spec fn spec_bool_of(t: Seq<char>) -> Option<bool> {
    if t == "true"@ || t == "1"@ {
        Some(true)
    } else if t == "false"@ || t == "0"@ {
        Some(false)
    } else {
        None
    }
}

/// Read a manifest boolean word, case-exactly.
pub fn parse_bool_chars(v: &[char]) -> (r: Option<bool>)
    ensures
        r == spec_bool_of(v@),
{
    if chars_eq_str(v, "true") || chars_eq_str(v, "1") {
        Some(true)
    } else if chars_eq_str(v, "false") || chars_eq_str(v, "0") {
        Some(false)
    } else {
        None
    }
}

} // verus!
