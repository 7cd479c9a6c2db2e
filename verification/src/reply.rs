//! What the assistant's answer comes to: on success the text it printed,
//! trimmed; on failure the first line of what it complained, cut short.

use vstd::prelude::*;
use crate::text::{push_char, trim_end, white};

verus! {

/// The longest error message kept from the assistant, in characters.
pub const ERROR_CHARS: usize = 80;

/// `s` with its leading white space taken off.
pub open spec fn trim_start(s: Seq<char>) -> Seq<char>
    decreases s.len(),
{
    if s.len() > 0 && white(s[0]) {
        trim_start(s.drop_first())
    } else {
        s
    }
}

/// `s` with white space taken off both ends.
pub open spec fn trim(s: Seq<char>) -> Seq<char> {
    trim_start(trim_end(s))
}

/// The characters of `s` before its first newline (all of it if it has none).
pub open spec fn before_newline(s: Seq<char>) -> Seq<char>
    decreases s.len(),
{
    if s.len() == 0 || s[0] == '\n' {
        Seq::empty()
    } else {
        seq![s[0]] + before_newline(s.drop_first())
    }
}

/// The first line of `s`, as `str::lines` gives it: none for an empty text;
/// else what comes before the first newline, less a carriage return that
/// ends it when a newline does follow.
pub open spec fn first_line(s: Seq<char>) -> Option<Seq<char>> {
    if s.len() == 0 {
        None
    } else {
        let l = before_newline(s);
        if s.contains('\n') && l.len() > 0 && l.last() == '\r' {
            Some(l.drop_last())
        } else {
            Some(l)
        }
    }
}

/// At most the first `ERROR_CHARS` characters of `s`.
pub open spec fn cut(s: Seq<char>) -> Seq<char> {
    if s.len() <= ERROR_CHARS { s } else { s.take(ERROR_CHARS as int) }
}

/// What a finished run of the assistant comes to.
pub open spec fn answer_of(success: bool, out: Seq<char>, err: Seq<char>) -> Result<
    Seq<char>,
    Seq<char>,
> {
    if success {
        Ok(trim(out))
    } else {
        Err(
            cut(
                match first_line(err) {
                    Some(l) => l,
                    None => "(no message)"@,
                },
            ),
        )
    }
}

/// The characters of `s`, one by one.
fn chars_of(s: &str) -> (v: Vec<char>)
    ensures
        v@ == s@,
{
    let n = s.unicode_len();
    let mut v: Vec<char> = Vec::new();
    let mut i: usize = 0;
    while i < n
        invariant
            n == s@.len(),
            i <= n,
            v@ == s@.subrange(0, i as int),
        decreases n - i,
    {
        v.push(s.get_char(i));
        assert(s@.subrange(0, i + 1) =~= s@.subrange(0, i as int).push(s@[i as int]));
        i = i + 1;
    }
    assert(s@.subrange(0, n as int) =~= s@);
    v
}

/// The characters `v[from..to]` as a string.
fn string_of(v: &Vec<char>, from: usize, to: usize) -> (s: String)
    requires
        from <= to <= v@.len(),
    ensures
        s@ == v@.subrange(from as int, to as int),
{
    let mut s = String::new();
    let mut i: usize = from;
    while i < to
        invariant
            from <= i <= to <= v@.len(),
            s@ == v@.subrange(from as int, i as int),
        decreases to - i,
    {
        push_char(&mut s, v[i]);
        assert(v@.subrange(from as int, i + 1) =~= v@.subrange(from as int, i as int).push(
            v@[i as int],
        ));
        i = i + 1;
    }
    s
}

/// `s` with white space taken off both ends.
pub fn trimmed(s: &str) -> (r: String)
    ensures
        r@ == trim(s@),
{
    let v = chars_of(s);
    let mut n: usize = v.len();
    assert(v@.subrange(0, n as int) =~= v@);
    while n > 0 && crate::text::is_white(v[n - 1])
        invariant
            n <= v@.len(),
            trim_end(v@.subrange(0, n as int)) == trim_end(v@),
        decreases n,
    {
        assert(v@.subrange(0, n as int).drop_last() =~= v@.subrange(0, n - 1));
        n = n - 1;
    }
    assert(trim_end(v@.subrange(0, n as int)) == v@.subrange(0, n as int));
    let mut k: usize = 0;
    assert(v@.subrange(0, n as int).subrange(0, n as int) =~= v@.subrange(0, n as int));
    while k < n && crate::text::is_white(v[k])
        invariant
            k <= n <= v@.len(),
            trim_start(v@.subrange(k as int, n as int)) == trim(s@),
        decreases n - k,
    {
        assert(v@.subrange(k as int, n as int).drop_first() =~= v@.subrange(k + 1, n as int));
        k = k + 1;
    }
    string_of(&v, k, n)
}

/// The first line of `s`, as `str::lines().next()` gives it.
pub fn first_line_of(s: &str) -> (r: Option<String>)
    ensures
        match r {
            Some(l) => first_line(s@) == Some(l@),
            None => first_line(s@) is None,
        },
{
    let v = chars_of(s);
    if v.len() == 0 {
        return None;
    }
    let mut i: usize = 0;
    assert(v@.subrange(0, v@.len() as int) =~= v@);
    while i < v.len() && v[i] != '\n'
        invariant
            i <= v@.len(),
            before_newline(v@) == v@.subrange(0, i as int) + before_newline(
                v@.subrange(i as int, v@.len() as int),
            ),
            forall|j: int| 0 <= j < i ==> v@[j] != '\n',
        decreases v@.len() - i,
    {
        let ghost rest = v@.subrange(i as int, v@.len() as int);
        assert(rest.drop_first() =~= v@.subrange(i + 1, v@.len() as int));
        assert(v@.subrange(0, i + 1) =~= v@.subrange(0, i as int) + seq![v@[i as int]]);
        i = i + 1;
    }
    let ghost rest = v@.subrange(i as int, v@.len() as int);
    assert(before_newline(rest) =~= Seq::<char>::empty());
    assert(before_newline(v@) =~= v@.subrange(0, i as int));
    let newline = i < v.len();
    assert(newline == s@.contains('\n')) by {
        if newline {
            assert(v@[i as int] == '\n');
        }
    }
    if newline && i > 0 && v[i - 1] == '\r' {
        assert(v@.subrange(0, i as int).drop_last() =~= v@.subrange(0, i - 1));
        Some(string_of(&v, 0, i - 1))
    } else {
        Some(string_of(&v, 0, i))
    }
}

/// At most the first `ERROR_CHARS` characters of `s`.
fn cut_text(s: &str) -> (r: String)
    ensures
        r@ == cut(s@),
{
    let v = chars_of(s);
    let to = if v.len() <= ERROR_CHARS { v.len() } else { ERROR_CHARS };
    let r = string_of(&v, 0, to);
    assert(v@.subrange(0, v@.len() as int) =~= v@);
    r
}

/// What a finished run of the assistant comes to: what it printed,
/// trimmed, when it succeeded; else the first line of what it complained
/// (or "(no message)"), cut to `ERROR_CHARS` characters.
pub fn answer(success: bool, out: &str, err: &str) -> (r: Result<String, String>)
    ensures
        match r {
            Ok(a) => answer_of(success, out@, err@) == Ok::<Seq<char>, Seq<char>>(a@),
            Err(e) => answer_of(success, out@, err@) == Err::<Seq<char>, Seq<char>>(e@),
        },
{
    if success {
        Ok(trimmed(out))
    } else {
        match first_line_of(err) {
            Some(l) => Err(cut_text(l.as_str())),
            None => Err(cut_text("(no message)")),
        }
    }
}

} // verus!
