//! Decimal integer literals, read the way the standard library's `FromStr`
//! for `i32` and `u16` reads them: an optional sign, then one or more ASCII
//! digits, and a value that fits the type.
use vstd::prelude::*;

verus! {

pub open spec fn is_digit(c: char) -> bool {
    '0' <= c && c <= '9'
}

pub open spec fn digit_val(c: char) -> int {
    c as int - '0' as int
}

pub open spec fn all_digits(s: Seq<char>) -> bool {
    forall|i: int| 0 <= i < s.len() ==> is_digit(#[trigger] s[i])
}

/// The number that the decimal digits `s` denote.
pub open spec fn digits_value(s: Seq<char>) -> int
    decreases s.len(),
{
    if s.len() == 0 {
        0
    } else {
        digits_value(s.drop_last()) * 10 + digit_val(s.last())
    }
}

/// The unsigned digits after an optional leading `+`.
pub open spec fn unsigned_body(s: Seq<char>) -> Seq<char> {
    if s.len() > 0 && s[0] == '+' {
        s.drop_first()
    } else {
        s
    }
}

/// The digits after an optional leading `+` or `-`.
pub open spec fn signed_body(s: Seq<char>) -> Seq<char> {
    if s.len() > 0 && (s[0] == '+' || s[0] == '-') {
        s.drop_first()
    } else {
        s
    }
}

pub open spec fn is_negative(s: Seq<char>) -> bool {
    s.len() > 0 && s[0] == '-'
}

/// What `str::parse::<i32>` gives for `s`.
pub open spec fn spec_parse_i32(s: Seq<char>) -> Option<i32> {
    let t = signed_body(s);
    if t.len() == 0 || !all_digits(t) {
        None
    } else {
        let v = if is_negative(s) {
            -digits_value(t)
        } else {
            digits_value(t)
        };
        if i32::MIN <= v <= i32::MAX {
            Some(v as i32)
        } else {
            None
        }
    }
}

/// What `str::parse::<u16>` gives for `s`.
pub open spec fn spec_parse_u16(s: Seq<char>) -> Option<u16> {
    let t = unsigned_body(s);
    if t.len() == 0 || !all_digits(t) || digits_value(t) > u16::MAX {
        None
    } else {
        Some(digits_value(t) as u16)
    }
}

pub proof fn lemma_digits_value_nonneg(s: Seq<char>)
    requires
        all_digits(s),
    ensures
        digits_value(s) >= 0,
    decreases s.len(),
{
    if s.len() > 0 {
        assert(all_digits(s.drop_last()));
        lemma_digits_value_nonneg(s.drop_last());
        assert(is_digit(s[s.len() - 1]));
    }
}

pub proof fn lemma_digits_value_prefix(s: Seq<char>, k: int)
    requires
        all_digits(s),
        0 <= k <= s.len(),
    ensures
        digits_value(s.take(k)) <= digits_value(s),
    decreases s.len(),
{
    if k < s.len() {
        let d = s.drop_last();
        assert(all_digits(d));
        lemma_digits_value_prefix(d, k);
        assert(d.take(k) =~= s.take(k));
        lemma_digits_value_nonneg(d);
        assert(is_digit(s[s.len() - 1]));
    } else {
        assert(s.take(k) =~= s);
    }
}

/// The value of the digits `v[from..]` when they are all digits, there is at
/// least one, and the value is at most `bound`.
fn parse_digits(v: &Vec<char>, from: usize, bound: u64) -> (r: Option<u64>)
    requires
        from <= v@.len(),
        bound <= u32::MAX,
    ensures
        ({
            let t = v@.subrange(from as int, v@.len() as int);
            match r {
                Some(x) => t.len() > 0 && all_digits(t) && x == digits_value(t) && x <= bound,
                None => t.len() == 0 || !all_digits(t) || digits_value(t) > bound,
            }
        }),
{
    let ghost t = v@.subrange(from as int, v@.len() as int);
    if from == v.len() {
        return None;
    }
    let mut acc: u64 = 0;
    let mut i = from;
    while i < v.len()
        invariant
            from <= i <= v@.len(),
            t == v@.subrange(from as int, v@.len() as int),
            all_digits(t.take(i - from)),
            acc == digits_value(t.take(i - from)),
            acc <= bound,
            bound <= u32::MAX,
        decreases v@.len() - i,
    {
        let c = v[i];
        let ghost k = (i - from) as int;
        assert(t.take(k + 1).drop_last() =~= t.take(k));
        assert(t.take(k + 1).last() == c);
        if !('0' <= c && c <= '9') {
            assert(!is_digit(t[k]));
            return None;
        }
        let d = (c as u32 - '0' as u32) as u64;
        let next = acc * 10 + d;
        assert(all_digits(t.take(k + 1)));
        assert(next == digits_value(t.take(k + 1)));
        if next > bound {
            proof {
                if all_digits(t) {
                    lemma_digits_value_prefix(t, k + 1);
                }
            }
            return None;
        }
        acc = next;
        i += 1;
    }
    assert(t.take((v@.len() - from) as int) =~= t);
    Some(acc)
}

/// Reads `v` as `str::parse::<i32>` does.
pub fn parse_i32(v: &Vec<char>) -> (r: Option<i32>)
    ensures
        r == spec_parse_i32(v@),
{
    let neg = v.len() > 0 && v[0] == '-';
    let signed = v.len() > 0 && (v[0] == '+' || v[0] == '-');
    let start: usize = if signed { 1 } else { 0 };
    let ghost t = signed_body(v@);
    assert(t =~= v@.subrange(start as int, v@.len() as int));
    if neg {
        match parse_digits(v, start, 2147483648) {
            Some(x) => {
                let r = (0 - (x as i64)) as i32;
                Some(r)
            },
            None => None,
        }
    } else {
        match parse_digits(v, start, 2147483647) {
            Some(x) => Some(x as i32),
            None => None,
        }
    }
}

/// Reads `v` as `str::parse::<u16>` does.
pub fn parse_u16(v: &Vec<char>) -> (r: Option<u16>)
    ensures
        r == spec_parse_u16(v@),
{
    let start: usize = if v.len() > 0 && v[0] == '+' { 1 } else { 0 };
    let ghost t = unsigned_body(v@);
    assert(t =~= v@.subrange(start as int, v@.len() as int));
    match parse_digits(v, start, 65535) {
        Some(x) => Some(x as u16),
        None => None,
    }
}

} // verus!
