//! Validation rules: pure predicates on input strings.
//!
//! A username is legitimate when it has between 4 and 512 characters and
//! contains no whitespace (space, tab, newline, carriage return).  An email
//! is legitimate when it has the shape `local@label.tail`: a nonempty local
//! part of `[A-Za-z0-9_.+-]`, an `@`, a nonempty domain label of
//! `[A-Za-z0-9-]`, a literal dot, and a nonempty tail of `[A-Za-z0-9-.]`.

use vstd::prelude::*;
use vstd::string::StrSliceExecFns;

verus! {

/// The whitespace characters a username may not contain.
pub open spec fn is_space_char(c: char) -> bool {
    c == ' ' || c == '\t' || c == '\n' || c == '\r'
}

/// A username: 4 to 512 characters, none of them whitespace.
pub open spec fn username_ok(s: Seq<char>) -> bool {
    4 <= s.len() <= 512 && (forall|i: int| 0 <= i < s.len() ==> !is_space_char(s[i]))
}

pub open spec fn is_alnum_char(c: char) -> bool {
    ('a' <= c <= 'z') || ('A' <= c <= 'Z') || ('0' <= c <= '9')
}

/// Characters allowed in the local part of an email, before the `@`.
pub open spec fn is_local_char(c: char) -> bool {
    is_alnum_char(c) || c == '_' || c == '.' || c == '+' || c == '-'
}

/// Characters allowed in the first domain label, between `@` and the
/// first dot after it.
pub open spec fn is_label_char(c: char) -> bool {
    is_alnum_char(c) || c == '-'
}

/// Characters allowed in the domain tail, after the first dot.
pub open spec fn is_tail_char(c: char) -> bool {
    is_label_char(c) || c == '.'
}

/// The position of the first occurrence of `c` in `s` at or after `from`,
/// or -1 when there is none.
pub open spec fn find_char(s: Seq<char>, c: char, from: int) -> int
    decreases s.len() - from,
{
    if from < 0 || from >= s.len() {
        -1
    } else if s[from] == c {
        from
    } else {
        find_char(s, c, from + 1)
    }
}

/// An email: `local@label.tail`.  The local part cannot contain `@`, so it
/// ends at the first `@`; the label cannot contain a dot, so it ends at the
/// first dot after the `@`.
pub open spec fn email_ok(s: Seq<char>) -> bool {
    let at = find_char(s, '@', 0);
    let dot = find_char(s, '.', at + 1);
    &&& at >= 1
    &&& (forall|i: int| 0 <= i < at ==> is_local_char(#[trigger] s[i]))
    &&& dot >= at + 2
    &&& (forall|i: int| at + 1 <= i < dot ==> is_label_char(#[trigger] s[i]))
    &&& dot + 1 < s.len()
    &&& (forall|i: int| dot + 1 <= i < s.len() ==> is_tail_char(#[trigger] s[i]))
}

/// `find_char` returns the first occurrence: if nothing in `[from, upto)`
/// is `c` and `s[upto] == c`, the search from `from` lands on `upto`.
proof fn lemma_find_char_hit(s: Seq<char>, c: char, from: int, upto: int)
    requires
        0 <= from <= upto < s.len(),
        forall|j: int| from <= j < upto ==> s[j] != c,
        s[upto] == c,
    ensures
        find_char(s, c, from) == upto,
    decreases upto - from,
{
    if from < upto {
        lemma_find_char_hit(s, c, from + 1, upto);
    }
}

/// If no character of `s` at or after `from` is `c`, the search misses.
proof fn lemma_find_char_miss(s: Seq<char>, c: char, from: int)
    requires
        0 <= from,
        forall|j: int| from <= j < s.len() ==> s[j] != c,
    ensures
        find_char(s, c, from) == -1,
    decreases s.len() - from,
{
    if from < s.len() {
        lemma_find_char_miss(s, c, from + 1);
    }
}

/// True iff `username` has 4 to 512 characters, none of them whitespace.
pub fn is_username_legit(username: &str) -> (r: bool)
    ensures
        r == username_ok(username@),
{
    let len = username.unicode_len();
    if len < 4 || len > 512 {
        return false;
    }
    let mut i: usize = 0;
    while i < len
        invariant
            len == username@.len(),
            4 <= len <= 512,
            i <= len,
            forall|j: int| 0 <= j < i ==> !is_space_char(username@[j]),
        decreases len - i,
    {
        let c = username.get_char(i);
        if c == ' ' || c == '\t' || c == '\n' || c == '\r' {
            return false;
        }
        i += 1;
    }
    true
}

/// Scans `[from, len)` of `s` for the first occurrence of `c`.
fn find_char_exec(s: &str, c: char, from: usize, len: usize) -> (r: Option<usize>)
    requires
        from <= len,
        len == s@.len(),
    ensures
        match r {
            Some(i) => from <= i < len && find_char(s@, c, from as int) == i,
            None => find_char(s@, c, from as int) == -1,
        },
{
    let mut i: usize = from;
    while i < len
        invariant
            from <= i <= len,
            len == s@.len(),
            forall|j: int| from <= j < i ==> s@[j] != c,
        decreases len - i,
    {
        if s.get_char(i) == c {
            proof {
                lemma_find_char_hit(s@, c, from as int, i as int);
            }
            return Some(i);
        }
        i += 1;
    }
    proof {
        lemma_find_char_miss(s@, c, from as int);
    }
    None
}

fn is_local_char_exec(c: char) -> (r: bool)
    ensures
        r == is_local_char(c),
{
    ('a' <= c && c <= 'z') || ('A' <= c && c <= 'Z') || ('0' <= c && c <= '9') || c == '_' || c
        == '.' || c == '+' || c == '-'
}

fn is_label_char_exec(c: char) -> (r: bool)
    ensures
        r == is_label_char(c),
{
    ('a' <= c && c <= 'z') || ('A' <= c && c <= 'Z') || ('0' <= c && c <= '9') || c == '-'
}

fn is_tail_char_exec(c: char) -> (r: bool)
    ensures
        r == is_tail_char(c),
{
    is_label_char_exec(c) || c == '.'
}

/// True iff `email` matches `local@label.tail` as described above.
pub fn is_email_legit(email: &str) -> (r: bool)
    ensures
        r == email_ok(email@),
{
    let len = email.unicode_len();
    let at = match find_char_exec(email, '@', 0, len) {
        Some(at) => at,
        None => {
            return false;
        },
    };
    if at < 1 {
        return false;
    }
    let mut i: usize = 0;
    while i < at
        invariant
            i <= at,
            at < len,
            len == email@.len(),
            at == find_char(email@, '@', 0),
            forall|j: int| 0 <= j < i ==> is_local_char(email@[j]),
        decreases at - i,
    {
        if !is_local_char_exec(email.get_char(i)) {
            return false;
        }
        i += 1;
    }
    let dot = match find_char_exec(email, '.', at + 1, len) {
        Some(dot) => dot,
        None => {
            return false;
        },
    };
    if dot < at + 2 {
        return false;
    }
    let mut i: usize = at + 1;
    while i < dot
        invariant
            at + 1 <= i <= dot,
            dot < len,
            len == email@.len(),
            at == find_char(email@, '@', 0),
            dot == find_char(email@, '.', at + 1),
            forall|j: int| at + 1 <= j < i ==> is_label_char(email@[j]),
        decreases dot - i,
    {
        if !is_label_char_exec(email.get_char(i)) {
            return false;
        }
        i += 1;
    }
    if dot + 1 >= len {
        return false;
    }
    let mut i: usize = dot + 1;
    while i < len
        invariant
            dot + 1 <= i <= len,
            at + 1 < dot < len,
            len == email@.len(),
            at == find_char(email@, '@', 0),
            dot == find_char(email@, '.', at + 1),
            forall|j: int| dot + 1 <= j < i ==> is_tail_char(email@[j]),
        decreases len - i,
    {
        if !is_tail_char_exec(email.get_char(i)) {
            return false;
        }
        i += 1;
    }
    true
}

} // verus!
