//! Decimal text: rendering an id into a URL and reading one back out.

use vstd::prelude::*;

verus! {

/// Whether `c` is a decimal digit.
pub open spec fn is_digit(c: char) -> bool {
    '0' <= c && c <= '9'
}

/// The numeric value of a decimal digit.
pub open spec fn digit_val(c: char) -> nat {
    (c as int - '0' as int) as nat
}

/// The decimal digit character for a value below ten.
pub open spec fn digit_char(d: nat) -> char
    recommends
        d < 10,
{
    if d == 0 {
        '0'
    } else if d == 1 {
        '1'
    } else if d == 2 {
        '2'
    } else if d == 3 {
        '3'
    } else if d == 4 {
        '4'
    } else if d == 5 {
        '5'
    } else if d == 6 {
        '6'
    } else if d == 7 {
        '7'
    } else if d == 8 {
        '8'
    } else {
        '9'
    }
}

/// The decimal rendering of `n`: most significant digit first, no sign, no
/// padding.
pub open spec fn spec_dec_digits(n: nat) -> Seq<char>
    decreases n,
{
    if n < 10 {
        seq![digit_char(n)]
    } else {
        spec_dec_digits(n / 10).push(digit_char(n % 10))
    }
}

/// Relies on `u32`'s `Display` through `ToString`: the decimal digits of
/// the number, most significant first, nothing else.
#[verifier::external_body]
pub fn u32_to_string(n: u32) -> (r: String)
    ensures
        r@ == spec_dec_digits(n as nat),
{
    n.to_string()
}

/// The value of a sequence of decimal digits, most significant first.
pub open spec fn digits_val(s: Seq<char>) -> nat
    decreases s.len(),
{
    if s.len() == 0 {
        0
    } else {
        digits_val(s.drop_last()) * 10 + digit_val(s.last())
    }
}

/// Where the maximal run of decimal digits at the end of `s` begins;
/// `s.len()` when the text does not end in a digit.
pub open spec fn suffix_start(s: Seq<char>) -> int
    decreases s.len(),
{
    if s.len() == 0 {
        0
    } else if is_digit(s.last()) {
        suffix_start(s.drop_last())
    } else {
        s.len() as int
    }
}

/// The number carried by the maximal digit run at the end of `s`, when
/// there is one and it fits a `u32`.
pub open spec fn spec_trailing_id(s: Seq<char>) -> Option<u32> {
    let st = suffix_start(s);
    if st < s.len() && digits_val(s.skip(st)) <= u32::MAX {
        Some(digits_val(s.skip(st)) as u32)
    } else {
        None
    }
}

/// Reads the decimal number that ends `s`: the longest run of digits at the
/// end, if there is one and its value fits a `u32`.
pub fn trailing_id(s: &str) -> (r: Option<u32>)
    ensures
        r == spec_trailing_id(s@),
{
    let len = s.unicode_len();
    let mut j: usize = len;
    assert(s@.take(len as int) =~= s@);
    loop
        invariant
            len == s@.len(),
            j <= len,
            suffix_start(s@) == suffix_start(s@.take(j as int)),
            forall|t: int| j <= t < len ==> is_digit(s@[t]),
        ensures
            j <= len,
            suffix_start(s@) == j as int,
            forall|t: int| j <= t < len ==> is_digit(s@[t]),
        decreases j,
    {
        if j == 0 {
            assert(suffix_start(s@.take(0)) == 0);
            break;
        }
        let c = s.get_char(j - 1);
        proof {
            assert(s@.take(j as int).last() == s@[j - 1]);
        }
        if c < '0' || c > '9' {
            assert(suffix_start(s@.take(j as int)) == j as int);
            break;
        }
        proof {
            assert(s@.take(j as int).drop_last() =~= s@.take(j - 1));
        }
        j = j - 1;
    }
    if j == len {
        return None;
    }
    let mut acc: u64 = 0;
    let mut k: usize = j;
    while k < len
        invariant
            len == s@.len(),
            j <= k <= len,
            suffix_start(s@) == j as int,
            forall|t: int| j <= t < len ==> is_digit(s@[t]),
            acc <= u32::MAX as u64,
            acc == digits_val(s@.subrange(j as int, k as int)),
        decreases len - k,
    {
        let c = s.get_char(k);
        assert(is_digit(s@[k as int]));
        let d: u64 = (c as u32 as u64) - ('0' as u32 as u64);
        assert(d == digit_val(s@[k as int]));
        proof {
            assert(s@.subrange(j as int, k + 1).drop_last() =~= s@.subrange(j as int, k as int));
            assert(s@.subrange(j as int, k + 1).last() == s@[k as int]);
        }
        if acc * 10 + d > u32::MAX as u64 {
            proof {
                assert(digits_val(s@.subrange(j as int, k + 1)) > u32::MAX);
                lemma_digits_val_subrange_le(s@, j as int, k + 1, len as int);
                assert(s@.skip(j as int) =~= s@.subrange(j as int, len as int));
            }
            return None;
        }
        acc = acc * 10 + d;
        k = k + 1;
    }
    assert(s@.skip(j as int) =~= s@.subrange(j as int, len as int));
    Some(acc as u32)
}

/// Where the text after the last `/` begins; zero when there is no slash.
pub open spec fn seg_start(s: Seq<char>) -> int
    decreases s.len(),
{
    if s.len() == 0 {
        0
    } else if s.last() == '/' {
        s.len() as int
    } else {
        seg_start(s.drop_last())
    }
}

/// The text after the last `/`: the whole text when there is no slash,
/// empty when the text ends in one.
pub open spec fn spec_last_segment(s: Seq<char>) -> Seq<char> {
    s.skip(seg_start(s))
}

/// Reads the text after the last `/` of `s`.
pub fn last_segment(s: &str) -> (r: String)
    ensures
        r@ == spec_last_segment(s@),
{
    let len = s.unicode_len();
    let mut j: usize = len;
    assert(s@.take(len as int) =~= s@);
    loop
        invariant
            len == s@.len(),
            j <= len,
            seg_start(s@) == seg_start(s@.take(j as int)),
        ensures
            j <= len,
            seg_start(s@) == j as int,
        decreases j,
    {
        if j == 0 {
            assert(seg_start(s@.take(0)) == 0);
            break;
        }
        let c = s.get_char(j - 1);
        proof {
            assert(s@.take(j as int).last() == s@[j - 1]);
        }
        if c == '/' {
            assert(seg_start(s@.take(j as int)) == j as int);
            break;
        }
        proof {
            assert(s@.take(j as int).drop_last() =~= s@.take(j - 1));
        }
        j = j - 1;
    }
    let tail = s.substring_char(j, len);
    assert(tail@ =~= s@.skip(j as int));
    String::from_str(tail)
}

/// A digit run's value only grows as the run extends to the right, stated
/// over subranges that share their start.
proof fn lemma_digits_val_subrange_le(s: Seq<char>, j: int, k: int, m: int)
    requires
        0 <= j <= k <= m <= s.len(),
    ensures
        digits_val(s.subrange(j, k)) <= digits_val(s.subrange(j, m)),
    decreases m - k,
{
    if k < m {
        lemma_digits_val_subrange_le(s, j, k, m - 1);
        assert(s.subrange(j, m).drop_last() =~= s.subrange(j, m - 1));
        assert(digits_val(s.subrange(j, m)) == digits_val(s.subrange(j, m - 1)) * 10 + digit_val(
            s.subrange(j, m).last(),
        ));
        assert(digits_val(s.subrange(j, m - 1)) <= digits_val(s.subrange(j, m - 1)) * 10);
    }
}

} // verus!
