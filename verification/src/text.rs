//! Text helpers: decimal rendering of identifiers, comma-joined identifier
//! lists, substring search for the catalog, and the escape decoding used
//! by the interactive client.

use vstd::prelude::*;
use vstd::string::StrSliceExecFns;

verus! {

/// The decimal digit character for `d`, for `d` between 0 and 9.
pub open spec fn dec_digit(d: int) -> char {
    if d == 0 {
        '0'
    } else if d == 1 {
        '1'
    } else if d == 2 {
        '2'
    } else if d == 3 {
        '3'
    } else if d == 4 {
        '4'
    } else if d == 5 {
        '5'
    } else if d == 6 {
        '6'
    } else if d == 7 {
        '7'
    } else if d == 8 {
        '8'
    } else {
        '9'
    }
}

/// The decimal representation of `n`, most significant digit first, with
/// no leading zeros (a single `'0'` for zero).
pub open spec fn dec_rep(n: int) -> Seq<char>
    decreases n,
{
    if n < 10 {
        seq![dec_digit(n)]
    } else {
        dec_rep(n / 10).push(dec_digit(n % 10))
    }
}

/// The decimal representations of `ids` joined with commas; empty for an
/// empty list.
pub open spec fn join_dec(ids: Seq<u64>) -> Seq<char>
    decreases ids.len(),
{
    if ids.len() == 0 {
        Seq::empty()
    } else if ids.len() == 1 {
        dec_rep(ids[0] as int)
    } else {
        join_dec(ids.drop_last()) + seq![','] + dec_rep(ids.last() as int)
    }
}

/// `pat` occurs contiguously somewhere in `hay`; an empty `pat` occurs in
/// everything.
pub open spec fn contains_seq(hay: Seq<char>, pat: Seq<char>) -> bool {
    exists|k: int|
        0 <= k <= hay.len() - pat.len() && #[trigger] hay.subrange(k, k + pat.len() as int) == pat
}

/// `s` with each non-overlapping occurrence of the two-character pattern
/// `ab`, scanned left to right, replaced by the single character `r`.
pub open spec fn replace_pair(s: Seq<char>, a: char, b: char, r: char) -> Seq<char>
    decreases s.len(),
{
    if s.len() >= 2 && s[0] == a && s[1] == b {
        seq![r] + replace_pair(s.skip(2), a, b, r)
    } else if s.len() >= 1 {
        seq![s[0]] + replace_pair(s.skip(1), a, b, r)
    } else {
        Seq::empty()
    }
}

/// A line of client input after decoding its escapes: `\n`, `\t` and `\r`
/// become the characters they name, then `\\` becomes a single backslash,
/// each pass scanning left to right.
pub open spec fn unescaped(s: Seq<char>) -> Seq<char> {
    replace_pair(
        replace_pair(replace_pair(replace_pair(s, '\\', 'n', '\n'), '\\', 't', '\t'), '\\', 'r', '\r'),
        '\\',
        '\\',
        '\\',
    )
}

/// Relies on `String::push`: appends the given character to the end of
/// the string.
#[verifier::external_body]
fn push_char(s: &mut String, c: char)
    ensures
        final(s)@ == old(s)@.push(c),
{
    s.push(c);
}

/// The digit character for `d`, which must be below ten.
fn digit_char(d: u64) -> (c: char)
    requires
        d <= 9,
    ensures
        c == dec_digit(d as int),
{
    if d == 0 {
        '0'
    } else if d == 1 {
        '1'
    } else if d == 2 {
        '2'
    } else if d == 3 {
        '3'
    } else if d == 4 {
        '4'
    } else if d == 5 {
        '5'
    } else if d == 6 {
        '6'
    } else if d == 7 {
        '7'
    } else if d == 8 {
        '8'
    } else {
        '9'
    }
}

/// Appends the decimal representation of `n` to `s`.
pub fn push_dec(s: &mut String, n: u64)
    ensures
        final(s)@ == old(s)@ + dec_rep(n as int),
    decreases n,
{
    if n >= 10 {
        push_dec(s, n / 10);
        push_char(s, digit_char(n % 10));
        proof {
            assert(s@ =~= old(s)@ + dec_rep(n as int));
        }
    } else {
        push_char(s, digit_char(n));
        proof {
            assert(s@ =~= old(s)@ + dec_rep(n as int));
        }
    }
}

/// The decimal representation of `n` as a string.
pub fn u64_to_dec(n: u64) -> (r: String)
    ensures
        r@ == dec_rep(n as int),
{
    let mut s = String::new();
    push_dec(&mut s, n);
    proof {
        assert(s@ =~= dec_rep(n as int));
    }
    s
}

/// The identifiers in `ids` rendered in decimal and joined with commas.
pub fn join_ids(ids: &Vec<u64>) -> (r: String)
    ensures
        r@ == join_dec(ids@),
{
    let mut out = String::new();
    let mut i: usize = 0;
    while i < ids.len()
        invariant
            i <= ids.len(),
            out@ == join_dec(ids@.take(i as int)),
        decreases ids.len() - i,
    {
        proof {
            assert(ids@.take(i as int + 1).drop_last() =~= ids@.take(i as int));
            assert(ids@.take(i as int + 1).last() == ids@[i as int]);
        }
        if i > 0 {
            push_char(&mut out, ',');
        }
        push_dec(&mut out, ids[i]);
        proof {
            assert(out@ =~= join_dec(ids@.take(i as int + 1)));
        }
        i += 1;
    }
    proof {
        assert(ids@.take(ids@.len() as int) =~= ids@);
    }
    out
}

/// Whether `hay` matches `pat` at offset `k`.
fn matches_at(hay: &str, pat: &str, k: usize, hlen: usize, plen: usize) -> (r: bool)
    requires
        hlen == hay@.len(),
        plen == pat@.len(),
        k + plen <= hlen,
    ensures
        r == (hay@.subrange(k as int, k as int + plen as int) == pat@),
{
    let mut j: usize = 0;
    while j < plen
        invariant
            j <= plen,
            k + plen <= hlen,
            hlen == hay@.len(),
            plen == pat@.len(),
            forall|t: int| 0 <= t < j ==> hay@[k + t] == pat@[t],
        decreases plen - j,
    {
        if hay.get_char(k + j) != pat.get_char(j) {
            assert(hay@.subrange(k as int, k as int + plen as int)[j as int] != pat@[j as int]);
            return false;
        }
        j += 1;
    }
    proof {
        assert(hay@.subrange(k as int, k as int + plen as int) =~= pat@);
    }
    true
}

/// True iff `pat` occurs contiguously in `hay`.
pub fn str_contains(hay: &str, pat: &str) -> (r: bool)
    ensures
        r == contains_seq(hay@, pat@),
{
    let hlen = hay.unicode_len();
    let plen = pat.unicode_len();
    if plen > hlen {
        return false;
    }
    if plen == 0 {
        proof {
            assert(hay@.subrange(0, 0 + pat@.len() as int) =~= pat@);
        }
        return true;
    }
    let mut k: usize = 0;
    while k <= hlen - plen
        invariant
            1 <= plen <= hlen,
            hlen == hay@.len(),
            plen == pat@.len(),
            k <= hlen - plen + 1,
            forall|t: int|
                0 <= t < k ==> #[trigger] hay@.subrange(t, t + pat@.len() as int) != pat@,
        decreases hlen - plen + 1 - k,
    {
        if matches_at(hay, pat, k, hlen, plen) {
            return true;
        }
        k += 1;
    }
    false
}

/// `s` with each left-to-right occurrence of `ab` replaced by `r`.
fn replace_pair_exec(s: &str, a: char, b: char, r: char) -> (out: String)
    ensures
        out@ == replace_pair(s@, a, b, r),
{
    let len = s.unicode_len();
    let mut out = String::new();
    let mut i: usize = 0;
    proof {
        assert(s@.skip(0) =~= s@);
        assert(out@ + replace_pair(s@, a, b, r) =~= replace_pair(s@, a, b, r));
    }
    while i < len
        invariant
            i <= len,
            len == s@.len(),
            out@ + replace_pair(s@.skip(i as int), a, b, r) == replace_pair(s@, a, b, r),
        decreases len - i,
    {
        let c = s.get_char(i);
        if c == a && i + 1 < len && s.get_char(i + 1) == b {
            proof {
                assert(s@.skip(i as int)[0] == s@[i as int]);
                assert(s@.skip(i as int)[1] == s@[i as int + 1]);
                assert(s@.skip(i as int).skip(2) =~= s@.skip(i as int + 2));
                assert(out@.push(r) + replace_pair(s@.skip(i as int + 2), a, b, r) =~= out@ + (seq![r]
                    + replace_pair(s@.skip(i as int + 2), a, b, r)));
            }
            push_char(&mut out, r);
            i += 2;
        } else {
            proof {
                assert(s@.skip(i as int)[0] == s@[i as int]);
                if s@.skip(i as int).len() >= 2 {
                    assert(s@.skip(i as int)[1] == s@[i as int + 1]);
                }
                assert(s@.skip(i as int).skip(1) =~= s@.skip(i as int + 1));
                assert(out@.push(c) + replace_pair(s@.skip(i as int + 1), a, b, r) =~= out@ + (seq![c]
                    + replace_pair(s@.skip(i as int + 1), a, b, r)));
            }
            push_char(&mut out, c);
            i += 1;
        }
    }
    proof {
        assert(s@.skip(len as int) =~= Seq::<char>::empty());
        assert(out@ + Seq::<char>::empty() =~= out@);
    }
    out
}

/// A line of client input with its `\n`, `\t`, `\r` and `\\` escapes
/// decoded.
pub fn read_string(line: &str) -> (r: String)
    ensures
        r@ == unescaped(line@),
{
    let pass1 = replace_pair_exec(line, '\\', 'n', '\n');
    let pass2 = replace_pair_exec(pass1.as_str(), '\\', 't', '\t');
    let pass3 = replace_pair_exec(pass2.as_str(), '\\', 'r', '\r');
    replace_pair_exec(pass3.as_str(), '\\', '\\', '\\')
}

} // verus!
