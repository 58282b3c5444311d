//! Character-level string utilities: decimal rendering and parsing,
//! trailing-slash trimming, and character search.
use vstd::prelude::*;
use vstd::string::*;

verus! {

/// The decimal digit character for a value below ten.
pub open spec fn spec_digit_char(d: nat) -> char {
    if d == 0 {
        '0'
    } else if d == 1 {
        '1'
    } else if d == 2 {
        '2'
    } else if d == 3 {
        '3'
    } else if d == 4 {
        '4'
    } else if d == 5 {
        '5'
    } else if d == 6 {
        '6'
    } else if d == 7 {
        '7'
    } else if d == 8 {
        '8'
    } else {
        '9'
    }
}

/// The decimal rendering of a natural number, most significant digit first,
/// with no leading zeros (a lone zero for zero itself).
pub open spec fn spec_dec_digits(n: nat) -> Seq<char>
    decreases n,
{
    if n < 10 {
        seq![spec_digit_char(n)]
    } else {
        spec_dec_digits(n / 10).push(spec_digit_char(n % 10))
    }
}

fn digit_str(d: u64) -> (r: &'static str)
    requires
        d < 10,
    ensures
        r@ == seq![spec_digit_char(d as nat)],
{
    proof {
        reveal_strlit("0");
        reveal_strlit("1");
        reveal_strlit("2");
        reveal_strlit("3");
        reveal_strlit("4");
        reveal_strlit("5");
        reveal_strlit("6");
        reveal_strlit("7");
        reveal_strlit("8");
        reveal_strlit("9");
    }
    let r: &'static str = match d {
        0 => "0",
        1 => "1",
        2 => "2",
        3 => "3",
        4 => "4",
        5 => "5",
        6 => "6",
        7 => "7",
        8 => "8",
        _ => "9",
    };
    proof {
        assert(r@ =~= seq![spec_digit_char(d as nat)]);
    }
    r
}

/// Renders a number in decimal.
pub fn u64_to_dec_string(n: u64) -> (r: String)
    ensures
        r@ == spec_dec_digits(n as nat),
    decreases n,
{
    let d = digit_str(n % 10);
    if n < 10 {
        let r = String::from_str(d);
        proof {
            assert(r@ =~= spec_dec_digits(n as nat));
        }
        r
    } else {
        let prefix = u64_to_dec_string(n / 10);
        let r = prefix.concat(d);
        proof {
            assert(r@ =~= spec_dec_digits(n as nat));
        }
        r
    }
}

/// Whether a character is a decimal digit.
pub open spec fn spec_is_digit(c: char) -> bool {
    48 <= c as u32 <= 57
}

/// The value of a decimal digit character.
pub open spec fn spec_digit_val(c: char) -> nat {
    (c as u32 - 48) as nat
}

/// Whether every character of a sequence is a decimal digit.
pub open spec fn spec_all_digits(s: Seq<char>) -> bool {
    forall|i: int| 0 <= i < s.len() ==> spec_is_digit(#[trigger] s[i])
}

/// The numeric value of a sequence of decimal digits.
pub open spec fn spec_dec_val(s: Seq<char>) -> nat
    decreases s.len(),
{
    if s.len() == 0 {
        0
    } else {
        spec_dec_val(s.drop_last()) * 10 + spec_digit_val(s.last())
    }
}

/// What `str::parse::<u64>` accepts: an optional leading plus sign, then one
/// or more decimal digits whose value fits in a `u64`.
pub open spec fn spec_parse_u64(s: Seq<char>) -> Option<u64> {
    let digits = if s.len() > 0 && s[0] == '+' {
        s.subrange(1, s.len() as int)
    } else {
        s
    };
    if digits.len() > 0 && spec_all_digits(digits) && spec_dec_val(digits) <= u64::MAX {
        Some(spec_dec_val(digits) as u64)
    } else {
        None
    }
}

/// A longer run of digits never has a smaller value than its prefix.
proof fn lemma_dec_val_prefix_le(s: Seq<char>, k: int)
    requires
        0 <= k <= s.len(),
    ensures
        spec_dec_val(s.subrange(0, k)) <= spec_dec_val(s),
    decreases s.len() - k,
{
    if k == s.len() {
        assert(s.subrange(0, k) =~= s);
    } else {
        let t = s.subrange(0, k + 1);
        assert(t.drop_last() =~= s.subrange(0, k));
        assert(spec_dec_val(s.subrange(0, k)) <= spec_dec_val(t));
        lemma_dec_val_prefix_le(s, k + 1);
    }
}

/// Parses a decimal `u64` as `str::parse::<u64>` does: an optional leading
/// `+`, then only digits, rejecting overflow and anything else.
pub fn parse_u64(s: &str) -> (r: Option<u64>)
    ensures
        r == spec_parse_u64(s@),
{
    let n = s.unicode_len();
    let start: usize = if n > 0 && s.get_char(0) == '+' {
        1
    } else {
        0
    };
    let ghost digits: Seq<char> = s@.subrange(start as int, n as int);
    proof {
        if start == 0 {
            assert(digits =~= s@);
        }
    }
    if n == start {
        return None;
    }
    let mut acc: u64 = 0;
    let mut i: usize = start;
    while i < n
        invariant
            start <= i <= n,
            n == s@.len(),
            (start == 1 <==> (s@.len() > 0 && s@[0] == '+')),
            start <= 1,
            digits == s@.subrange(start as int, n as int),
            (start == 0 ==> digits == s@),
            spec_all_digits(s@.subrange(start as int, i as int)),
            acc == spec_dec_val(s@.subrange(start as int, i as int)),
        decreases n - i,
    {
        let c = s.get_char(i);
        let cv = c as u32;
        if cv < 48 || cv > 57 {
            proof {
                assert(digits[i - start] == s@[i as int]);
                assert(!spec_all_digits(digits));
            }
            return None;
        }
        let d: u64 = (cv - 48) as u64;
        let ghost pre = s@.subrange(start as int, i as int);
        let ghost cur = s@.subrange(start as int, i + 1 as int);
        proof {
            assert(cur.drop_last() =~= pre);
            assert(cur.last() == c);
        }
        let stepped = match acc.checked_mul(10) {
            Some(m) => m.checked_add(d),
            None => None,
        };
        match stepped {
            Some(v) => {
                acc = v;
            },
            None => {
                proof {
                    assert(spec_dec_val(cur) > u64::MAX);
                    assert(cur =~= digits.subrange(0, i + 1 - start as int));
                    lemma_dec_val_prefix_le(digits, i + 1 - start as int);
                    assert(spec_dec_val(digits) > u64::MAX);
                }
                return None;
            },
        }
        i = i + 1;
    }
    proof {
        assert(s@.subrange(start as int, n as int) =~= digits);
    }
    Some(acc)
}

/// A sequence with every trailing slash removed.
pub open spec fn spec_trim_end_slashes(s: Seq<char>) -> Seq<char>
    decreases s.len(),
{
    if s.len() > 0 && s.last() == '/' {
        spec_trim_end_slashes(s.drop_last())
    } else {
        s
    }
}

/// Adding one trailing slash does not change the trimmed form; by induction,
/// no number of trailing slashes does.
pub proof fn lemma_trim_end_slashes_push(s: Seq<char>)
    ensures
        spec_trim_end_slashes(s.push('/')) == spec_trim_end_slashes(s),
{
    assert(s.push('/').last() == '/');
    assert(s.push('/').drop_last() =~= s);
}

/// Removes every trailing `/`.
pub fn trim_end_slashes(s: &str) -> (r: String)
    ensures
        r@ == spec_trim_end_slashes(s@),
{
    let n = s.unicode_len();
    let mut k = n;
    proof {
        assert(s@.subrange(0, n as int) =~= s@);
    }
    while k > 0 && s.get_char(k - 1) == '/'
        invariant
            0 <= k <= n,
            n == s@.len(),
            spec_trim_end_slashes(s@) == spec_trim_end_slashes(s@.subrange(0, k as int)),
        decreases k,
    {
        proof {
            let cur = s@.subrange(0, k as int);
            assert(cur.last() == s@[k - 1]);
            assert(cur.drop_last() =~= s@.subrange(0, k - 1 as int));
        }
        k = k - 1;
    }
    let cut = s.substring_char(0, k);
    proof {
        let cur = s@.subrange(0, k as int);
        assert(!(cur.len() > 0 && cur.last() == '/'));
        assert(spec_trim_end_slashes(cur) == cur);
    }
    String::from_str(cut)
}

/// Whether the string contains the character.
pub fn str_contains_char(s: &str, c: char) -> (r: bool)
    ensures
        r == s@.contains(c),
{
    let n = s.unicode_len();
    let mut i: usize = 0;
    while i < n
        invariant
            0 <= i <= n,
            n == s@.len(),
            forall|j: int| 0 <= j < i ==> s@[j] != c,
        decreases n - i,
    {
        if s.get_char(i) == c {
            return true;
        }
        i = i + 1;
    }
    false
}

} // verus!
