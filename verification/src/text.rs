//! Character and line utilities shared by the compose buffer and the pages:
//! which characters the compose buffer accepts, splitting fetched message
//! bodies into rows, and the join/trim functions behind reply submission.

use vstd::prelude::*;
use vstd::string::StrSliceExecFns;

verus! {

/// Relies on std's `String::push`: appends the given `char` to the end of
/// the string.  vstd gives `String::push` no specification of its own.
pub assume_specification[ String::push ](s: &mut String, c: char)
    ensures
        final(s)@ == old(s)@.push(c),
;

/// Characters the compose buffer accepts: ASCII alphanumerics, ASCII
/// punctuation, and the space — together exactly the printable ASCII range.
pub open spec fn insertable(c: char) -> bool {
    0x20 <= (c as int) <= 0x7e
}

/// Whitespace for the purposes of trimming a drafted reply: the characters
/// that can reach the buffer and that a reply should not start or end with.
pub open spec fn is_blank(c: char) -> bool {
    c == ' ' || c == '\n' || c == '\t' || c == '\r'
}

/// A string split at newlines, as an ordered list of rows: one more row than
/// there are `'\n'` characters, in order, each row free of `'\n'`.
pub open spec fn split_lines(s: Seq<char>) -> Seq<Seq<char>>
    decreases s.len(),
{
    if s.len() == 0 {
        seq![Seq::<char>::empty()]
    } else {
        let rest = split_lines(s.drop_last());
        if s.last() == '\n' {
            rest.push(Seq::<char>::empty())
        } else {
            rest.update(rest.len() - 1, rest.last().push(s.last()))
        }
    }
}

/// Rows joined back into one string, a `'\n'` appended after every row.
pub open spec fn joined_rows(rows: Seq<Seq<char>>) -> Seq<char>
    decreases rows.len(),
{
    if rows.len() == 0 {
        Seq::<char>::empty()
    } else {
        joined_rows(rows.drop_last()) + rows.last() + seq!['\n']
    }
}

/// A string with its leading blanks removed.
pub open spec fn trim_front(s: Seq<char>) -> Seq<char>
    decreases s.len(),
{
    if s.len() == 0 {
        s
    } else if is_blank(s.first()) {
        trim_front(s.drop_first())
    } else {
        s
    }
}

/// A string with its trailing blanks removed.
pub open spec fn trim_back(s: Seq<char>) -> Seq<char>
    decreases s.len(),
{
    if s.len() == 0 {
        s
    } else if is_blank(s.last()) {
        trim_back(s.drop_last())
    } else {
        s
    }
}

/// A string with leading and trailing blanks removed.
pub open spec fn trimmed(s: Seq<char>) -> Seq<char> {
    trim_back(trim_front(s))
}

/// If everything before position `k` is blank and `k` is not (or is the end),
/// trimming the front keeps exactly the suffix from `k` on.
pub proof fn lemma_trim_front_at(s: Seq<char>, k: int)
    requires
        0 <= k <= s.len(),
        forall|j: int| 0 <= j < k ==> is_blank(#[trigger] s[j]),
        k < s.len() ==> !is_blank(s[k]),
    ensures
        trim_front(s) =~= s.subrange(k, s.len() as int),
    decreases k,
{
    if k == 0 {
        if s.len() > 0 {
            assert(!is_blank(s.first()));
        }
        assert(trim_front(s) =~= s.subrange(0, s.len() as int));
    } else {
        assert(is_blank(s.first()));
        let rest = s.drop_first();
        assert(forall|j: int| 0 <= j < k - 1 ==> is_blank(#[trigger] rest[j]));
        lemma_trim_front_at(rest, k - 1);
        assert(rest.subrange(k - 1, rest.len() as int) =~= s.subrange(k, s.len() as int));
    }
}

/// If everything from position `k` on is blank and `k - 1` is not (or `k` is
/// zero), trimming the back keeps exactly the prefix up to `k`.
pub proof fn lemma_trim_back_at(s: Seq<char>, k: int)
    requires
        0 <= k <= s.len(),
        forall|j: int| k <= j < s.len() ==> is_blank(#[trigger] s[j]),
        k > 0 ==> !is_blank(s[k - 1]),
    ensures
        trim_back(s) =~= s.subrange(0, k),
    decreases s.len() - k,
{
    if k == s.len() {
        if k > 0 {
            assert(!is_blank(s.last()));
        }
        assert(trim_back(s) =~= s.subrange(0, k));
    } else {
        assert(is_blank(s.last()));
        let rest = s.drop_last();
        lemma_trim_back_at(rest, k);
        assert(rest.subrange(0, k) =~= s.subrange(0, k));
    }
}

/// Whether the compose buffer accepts a character.
pub fn insertable_char(c: char) -> (b: bool)
    ensures
        b == insertable(c),
{
    let u = c as u32;
    0x20 <= u && u <= 0x7e
}

/// Whether a character counts as blank when a drafted reply is trimmed.
pub fn blank_char(c: char) -> (b: bool)
    ensures
        b == is_blank(c),
{
    c == ' ' || c == '\n' || c == '\t' || c == '\r'
}

/// A string split at newlines into an ordered list of rows; a message body
/// fetched from the platform becomes the row list a messages widget shows.
pub fn split_line_vec(s: String) -> (v: Vec<String>)
    ensures
        v.deep_view() == split_lines(s@),
        v@.len() >= 1,
{
    let n = s.as_str().unicode_len();
    let mut v: Vec<String> = Vec::new();
    v.push(String::new());
    let mut i: usize = 0;
    while i < n
        invariant
            i <= n,
            n == s@.len(),
            v@.len() >= 1,
            v.deep_view() =~= split_lines(s@.take(i as int)),
        decreases n - i,
    {
        let c = s.as_str().get_char(i);
        proof {
            assert(s@.take(i + 1).drop_last() =~= s@.take(i as int));
            assert(s@.take(i + 1).last() == s@[i as int]);
        }
        if c == '\n' {
            v.push(String::new());
        } else {
            let last = v.len() - 1;
            v[last].push(c);
        }
        proof {
            assert(v.deep_view() =~= split_lines(s@.take(i + 1)));
        }
        i = i + 1;
    }
    proof {
        assert(s@.take(n as int) =~= s@);
    }
    v
}

/// A `String` holding exactly the given characters.
pub fn string_from_chars(v: &Vec<char>) -> (s: String)
    ensures
        s@ == v@,
{
    let mut s = String::new();
    let mut i: usize = 0;
    while i < v.len()
        invariant
            i <= v@.len(),
            s@ =~= v@.take(i as int),
        decreases v@.len() - i,
    {
        s.push(v[i]);
        proof {
            assert(v@.take(i + 1) =~= v@.take(i as int).push(v@[i as int]));
        }
        i = i + 1;
    }
    proof {
        assert(v@.take(v@.len() as int) =~= v@);
    }
    s
}

/// The characters of a string with leading and trailing blanks removed.
pub fn trim_chars(v: &Vec<char>) -> (r: Vec<char>)
    ensures
        r@ == trimmed(v@),
{
    let n = v.len();
    let mut lo: usize = 0;
    while lo < n && blank_char(v[lo])
        invariant
            lo <= n,
            n == v@.len(),
            forall|j: int| 0 <= j < lo ==> is_blank(#[trigger] v@[j]),
        decreases n - lo,
    {
        lo = lo + 1;
    }
    if lo == n {
        proof {
            lemma_trim_front_at(v@, n as int);
            lemma_trim_back_at(v@.subrange(n as int, n as int), 0);
        }
        return Vec::new();
    }
    proof {
        lemma_trim_front_at(v@, lo as int);
    }
    let mut hi: usize = n - 1;
    while hi > lo && blank_char(v[hi])
        invariant
            lo <= hi < n,
            n == v@.len(),
            !is_blank(v@[lo as int]),
            forall|j: int| hi < j < n ==> is_blank(#[trigger] v@[j]),
        decreases hi,
    {
        hi = hi - 1;
    }
    proof {
        let m = v@.subrange(lo as int, n as int);
        lemma_trim_back_at(m, hi + 1 - lo);
        assert(m.subrange(0, hi + 1 - lo) =~= v@.subrange(lo as int, hi + 1));
    }
    let mut r: Vec<char> = Vec::new();
    let mut i: usize = lo;
    while i < hi + 1
        invariant
            lo <= i <= hi + 1 <= n,
            n == v@.len(),
            r@ =~= v@.subrange(lo as int, i as int),
        decreases hi + 1 - i,
    {
        r.push(v[i]);
        proof {
            assert(v@.subrange(lo as int, i + 1) =~= v@.subrange(lo as int, i as int).push(
                v@[i as int],
            ));
        }
        i = i + 1;
    }
    r
}

} // verus!
