//! Reading tokens from `Cookie` and `Authorization` headers, and writing
//! `Set-Cookie` values.
use vstd::prelude::*;

use crate::text::{
    chars_of, first_pos, has_prefix, is_first_pos, is_ws, lemma_first_pos_none,
    lemma_first_pos_unique, starts_with_chars, string_of_range, trim, trim_bounds, trim_end,
    trim_start,
};

verus! {

/// The value of the first cookie of a `Cookie` header `s` whose trimmed
/// `;`-separated part starts with `prefix` (a name followed by `=`), read
/// the way `split(';').map(trim).find(starts_with)` then `strip_prefix`
/// reads it.
pub open spec fn cookie_lookup(s: Seq<char>, prefix: Seq<char>) -> Option<Seq<char>>
    decreases s.len(),
{
    let i = first_pos(s, ';');
    let seg = if i < 0 {
        s
    } else {
        s.take(i)
    };
    let t = trim(seg);
    if has_prefix(t, prefix) {
        Some(t.skip(prefix.len() as int))
    } else if i < 0 || i >= s.len() {
        None
    } else {
        cookie_lookup(s.skip(i + 1), prefix)
    }
}

/// `name` followed by `=`.
pub open spec fn cookie_prefix(name: Seq<char>) -> Seq<char> {
    name + seq!['=']
}

/// Position of the first `c` in `v[from..]`.
fn find_char_from(v: &Vec<char>, c: char, from: usize) -> (r: Option<usize>)
    requires
        from <= v@.len(),
    ensures
        match r {
            Some(j) => from <= j < v@.len() && v@[j as int] == c && forall|k: int|
                from <= k < j ==> v@[k] != c,
            None => forall|k: int| from <= k < v@.len() ==> v@[k] != c,
        },
{
    let mut j = from;
    while j < v.len()
        invariant
            from <= j <= v@.len(),
            forall|k: int| from <= k < j ==> v@[k] != c,
        decreases v@.len() - j,
    {
        if v[j] == c {
            return Some(j);
        }
        j += 1;
    }
    None
}

/// Whether `v[from..to]` starts with `p`.
fn range_has_prefix(v: &Vec<char>, from: usize, to: usize, p: &Vec<char>) -> (r: bool)
    requires
        from <= to <= v@.len(),
    ensures
        r == has_prefix(v@.subrange(from as int, to as int), p@),
{
    let ghost seg = v@.subrange(from as int, to as int);
    if p.len() > to - from {
        return false;
    }
    let mut k: usize = 0;
    while k < p.len()
        invariant
            p@.len() <= to - from,
            from <= to <= v@.len(),
            seg == v@.subrange(from as int, to as int),
            k <= p@.len(),
            forall|m: int| 0 <= m < k ==> seg[m] == p@[m],
        decreases p@.len() - k,
    {
        if v[from + k] != p[k] {
            assert(seg.take(p@.len() as int)[k as int] != p@[k as int]);
            return false;
        }
        k += 1;
    }
    assert(seg.take(p@.len() as int) =~= p@);
    true
}

/// Looks up a cookie by the characters of `name=` in a `Cookie` header.
fn lookup(v: &Vec<char>, prefix: &Vec<char>) -> (r: Option<String>)
    ensures
        r matches Some(x) ==> cookie_lookup(v@, prefix@) == Some(x@),
        r is None ==> cookie_lookup(v@, prefix@) is None,
{
    let mut start: usize = 0;
    assert(v@.skip(0) =~= v@);
    loop
        invariant
            start <= v@.len(),
            cookie_lookup(v@, prefix@) == cookie_lookup(v@.skip(start as int), prefix@),
        decreases v@.len() - start,
    {
        let ghost rest = v@.skip(start as int);
        let next = find_char_from(v, ';', start);
        let end = match next {
            Some(j) => j,
            None => v.len(),
        };
        proof {
            match next {
                Some(j) => {
                    assert(is_first_pos(rest, ';', j - start));
                    lemma_first_pos_unique(rest, ';', j - start);
                    assert(rest.take(j - start) =~= v@.subrange(start as int, j as int));
                    assert(rest.skip(j - start + 1) =~= v@.skip(j + 1));
                },
                None => {
                    lemma_first_pos_none(rest, ';');
                    assert(rest =~= v@.subrange(start as int, v@.len() as int));
                },
            }
        }
        let (a, b) = trim_bounds(v, start, end);
        if range_has_prefix(v, a, b, prefix) {
            let value = string_of_range(v, a + prefix.len(), b);
            assert(v@.subrange(a as int, b as int).skip(prefix@.len() as int) =~= v@.subrange(
                a + prefix@.len(),
                b as int,
            ));
            return Some(value);
        }
        let found = match next {
            Some(_) => true,
            None => false,
        };
        if !found {
            return None;
        }
        assert(end < v.len());
        start = end + 1;
    }
}

/// Finds the value of cookie `name` in a `Cookie` header.
pub fn getcookie(cookies: &str, name: &str) -> (r: Option<String>)
    ensures
        r matches Some(x) ==> cookie_lookup(cookies@, cookie_prefix(name@)) == Some(x@),
        r is None ==> cookie_lookup(cookies@, cookie_prefix(name@)) is None,
{
    let v = chars_of(cookies);
    let mut p = chars_of(name);
    p.push('=');
    assert(p@ =~= cookie_prefix(name@));
    lookup(&v, &p)
}

/// Finds the value of cookie `name` in a `Cookie` header (the refresh
/// middleware's reading, the same as [`getcookie`]).
pub fn extractcookie(cookies: &str, name: &str) -> (r: Option<String>)
    ensures
        r matches Some(x) ==> cookie_lookup(cookies@, cookie_prefix(name@)) == Some(x@),
        r is None ==> cookie_lookup(cookies@, cookie_prefix(name@)) is None,
{
    getcookie(cookies, name)
}

/// Whether a `Cookie` header carries the named cookie.
pub fn has_cookie(cookies: &str, name: &str) -> (r: bool)
    ensures
        r == cookie_lookup(cookies@, cookie_prefix(name@)) is Some,
{
    getcookie(cookies, name).is_some()
}

/// The access token in a `Cookie` header (`ocas_access`).
pub fn tokenfromcookie(cookie_header: Option<&str>) -> (r: Option<String>)
    ensures
        (match cookie_header {
            None => r is None,
            Some(c) => (r matches Some(x) ==> cookie_lookup(c@, "ocas_access="@) == Some(x@)) && (
            r is None ==> cookie_lookup(c@, "ocas_access="@) is None),
        }),
{
    proof {
        reveal_strlit("ocas_access");
        reveal_strlit("ocas_access=");
    }
    match cookie_header {
        Some(c) => {
            assert(cookie_prefix("ocas_access"@) =~= "ocas_access="@);
            getcookie(c, "ocas_access")
        },
        None => None,
    }
}

/// The token of an `Authorization: Bearer ...` header: what follows the
/// exact prefix `Bearer `.
pub fn tokenfrombearerparts(auth_header: Option<&str>) -> (r: Option<String>)
    ensures
        (match auth_header {
            None => r is None,
            Some(h) => if has_prefix(h@, "Bearer "@) {
                r matches Some(x) && x@ == h@.skip(7)
            } else {
                r is None
            },
        }),
{
    proof {
        reveal_strlit("Bearer ");
    }
    let h = match auth_header {
        Some(h) => h,
        None => {
            return None;
        },
    };
    let v = chars_of(h);
    let p = chars_of("Bearer ");
    if starts_with_chars(&v, &p) {
        let t = string_of_range(&v, 7, v.len());
        assert(v@.subrange(7, v@.len() as int) =~= h@.skip(7));
        Some(t)
    } else {
        None
    }
}

/// The decimal digits of `n`.
pub open spec fn decimal(n: nat) -> Seq<char>
    decreases n,
{
    if n < 10 {
        seq![crate::codec::hex_digit(n as int)]
    } else {
        decimal(n / 10) + seq![crate::codec::hex_digit((n % 10) as int)]
    }
}

/// `n` in decimal, with a `-` when negative, as `i64`'s `Display` writes it.
pub open spec fn signed_decimal(n: int) -> Seq<char> {
    if n < 0 {
        seq!['-'] + decimal((-n) as nat)
    } else {
        decimal(n as nat)
    }
}

/// `n` written in decimal.
fn u64_decimal(n: u64) -> (r: String)
    ensures
        r@ == decimal(n as nat),
    decreases n,
{
    let d = (n % 10) as u32;
    let c = char_from_digit(d);
    if n < 10 {
        let mut s = String::new();
        crate::text::push_char(&mut s, c);
        assert(s@ =~= decimal(n as nat));
        s
    } else {
        let mut s = u64_decimal(n / 10);
        crate::text::push_char(&mut s, c);
        s
    }
}

/// The decimal digit character for `d` (0 to 9).
fn char_from_digit(d: u32) -> (c: char)
    requires
        d < 10,
    ensures
        c == crate::codec::hex_digit(d as int),
{
    if d == 0 {
        '0'
    } else if d == 1 {
        '1'
    } else if d == 2 {
        '2'
    } else if d == 3 {
        '3'
    } else if d == 4 {
        '4'
    } else if d == 5 {
        '5'
    } else if d == 6 {
        '6'
    } else if d == 7 {
        '7'
    } else if d == 8 {
        '8'
    } else {
        '9'
    }
}

/// `n` written in decimal.
pub fn i64_decimal(n: i64) -> (r: String)
    ensures
        r@ == signed_decimal(n as int),
{
    if n < 0 {
        let m: u64 = if n == i64::MIN {
            9_223_372_036_854_775_808
        } else {
            (-n) as u64
        };
        let mut s = String::new();
        crate::text::push_char(&mut s, '-');
        let d = u64_decimal(m);
        s.append(d.as_str());
        s
    } else {
        u64_decimal(n as u64)
    }
}

/// The attributes every cookie is set with.
pub const COOKIE_ATTRS: &'static str = "; HttpOnly; SameSite=Lax; Path=/; Max-Age=";

/// The `Set-Cookie` value setting `name` to `value` for `maxage` seconds.
pub open spec fn cookie_text(name: Seq<char>, value: Seq<char>, maxage: int) -> Seq<char> {
    name + seq!['='] + value + COOKIE_ATTRS@ + signed_decimal(maxage)
}

/// A `Set-Cookie` value: HTTP-only, same-site lax, for the whole site.
pub fn cookie(name: &str, value: &str, maxage: i64) -> (r: String)
    ensures
        r@ == cookie_text(name@, value@, maxage as int),
{
    let mut s = name.to_owned();
    crate::text::push_char(&mut s, '=');
    s.append(value);
    s.append(COOKIE_ATTRS);
    let m = i64_decimal(maxage);
    s.append(m.as_str());
    s
}

/// A `Set-Cookie` value that clears `name` (empty, expiring at once).
pub fn clearcookie(name: &str) -> (r: String)
    ensures
        r@ == cookie_text(name@, Seq::empty(), 0),
{
    let mut s = name.to_owned();
    crate::text::push_char(&mut s, '=');
    s.append(COOKIE_ATTRS);
    crate::text::push_char(&mut s, '0');
    assert(decimal(0) =~= seq!['0']);
    assert(s@ =~= cookie_text(name@, Seq::empty(), 0));
    s
}

/// The cookie text `name=value` as a browser sends it back.
pub open spec fn cookie_pair(name: Seq<char>, value: Seq<char>) -> Seq<char> {
    name + seq!['='] + value
}

/// Names and values as this client sets them: no `;`, and no whitespace
/// at the start of the name or the end of the value (the name may be
/// empty).
pub open spec fn plain_cookie(name: Seq<char>, value: Seq<char>) -> bool {
    &&& name.len() > 0 ==> !is_ws(name[0])
    &&& value.len() > 0 ==> !is_ws(value.last())
    &&& !name.contains(';')
    &&& !value.contains(';')
}

proof fn lemma_pair_lookup(name: Seq<char>, value: Seq<char>)
    requires
        plain_cookie(name, value),
    ensures
        cookie_lookup(cookie_pair(name, value), cookie_prefix(name)) == Some(value),
        trim(cookie_pair(name, value)) == cookie_pair(name, value),
        first_pos(cookie_pair(name, value), ';') == -1,
        has_prefix(cookie_pair(name, value), cookie_prefix(name)),
        cookie_pair(name, value).skip(cookie_prefix(name).len() as int) == value,
{
    let s = cookie_pair(name, value);
    assert forall|j: int| 0 <= j < s.len() implies s[j] != ';' by {
        if j < name.len() {
            assert(s[j] == name[j]);
        } else if j > name.len() {
            assert(s[j] == value[j - name.len() - 1]);
        }
    }
    lemma_first_pos_none(s, ';');
    if name.len() > 0 {
        assert(s[0] == name[0]);
    } else {
        assert(s[0] == '=');
    }
    assert(trim_start(s) == s);
    if value.len() > 0 {
        assert(s.last() == value.last());
    } else {
        assert(s.last() == '=');
    }
    assert(trim_end(s) == s);
    assert(s.take(cookie_prefix(name).len() as int) =~= cookie_prefix(name));
    assert(s.skip(cookie_prefix(name).len() as int) =~= value);
}

/// A cookie set as `name=value` is read back from a `Cookie` header that
/// holds only it, or that holds it after another cookie of another name
/// (`other; name=value`), and from the whole `Set-Cookie` text that
/// [`cookie`] writes for it, whatever its lifetime.
pub proof fn law_cookie_roundtrip(name: Seq<char>, value: Seq<char>, other: Seq<char>, maxage: int)
    requires
        plain_cookie(name, value),
        !other.contains(';'),
        !has_prefix(trim(other), cookie_prefix(name)),
    ensures
        cookie_lookup(cookie_pair(name, value), cookie_prefix(name)) == Some(value),
        cookie_lookup(other + "; "@ + cookie_pair(name, value), cookie_prefix(name)) == Some(value),
        cookie_lookup(cookie_text(name, value, maxage), cookie_prefix(name)) == Some(value),
{
    reveal_strlit("; ");
    reveal_strlit("; HttpOnly; SameSite=Lax; Path=/; Max-Age=");
    lemma_pair_lookup(name, value);
    let pair = cookie_pair(name, value);
    let full = cookie_text(name, value, maxage);
    assert(full =~= pair + (COOKIE_ATTRS@ + signed_decimal(maxage)));
    assert(full[pair.len() as int] == ';');
    assert forall|j: int| 0 <= j < pair.len() implies full[j] != ';' by {
        assert(full[j] == pair[j]);
    }
    assert(is_first_pos(full, ';', pair.len() as int));
    lemma_first_pos_unique(full, ';', pair.len() as int);
    assert(full.take(pair.len() as int) =~= pair);
    let pair = cookie_pair(name, value);
    let s = other + "; "@ + pair;
    assert(s[other.len() as int] == ';');
    assert forall|j: int| 0 <= j < other.len() implies s[j] != ';' by {
        assert(s[j] == other[j]);
    }
    assert(is_first_pos(s, ';', other.len() as int));
    lemma_first_pos_unique(s, ';', other.len() as int);
    assert(s.take(other.len() as int) =~= other);
    let rest = s.skip(other.len() as int + 1);
    assert(rest =~= seq![' '] + pair);
    assert(rest[0] == ' ');
    assert forall|j: int| 0 <= j < rest.len() implies rest[j] != ';' by {
        if j > 0 {
            assert(rest[j] == pair[j - 1]);
        }
    }
    lemma_first_pos_none(rest, ';');
    assert(rest.drop_first() =~= pair);
    assert(trim_start(rest) == trim_start(pair));
    assert(trim(rest) == trim(pair));
    assert(cookie_lookup(rest, cookie_prefix(name)) == Some(value));
    assert(cookie_lookup(s, cookie_prefix(name)) == cookie_lookup(rest, cookie_prefix(name)));
}

} // verus!
