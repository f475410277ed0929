//! Path and text primitives: paths are plain text, and every operation here
//! is defined character by character over that text.

use vstd::prelude::*;

verus! {

/// Path-separator characters: both conventions appear in incoming paths.
pub open spec fn sep_char(c: char) -> bool {
    c == '/' || c == '\\'
}

/// Whitespace recognized when trimming parameter text.
pub open spec fn ws_char(c: char) -> bool {
    c == ' ' || c == '\t' || c == '\n' || c == '\r'
}

/// The text with every backslash replaced by a forward slash.
pub open spec fn normalized(s: Seq<char>) -> Seq<char>
    decreases s.len(),
{
    if s.len() == 0 {
        Seq::empty()
    } else {
        normalized(s.drop_last()).push(
            if s.last() == '\\' {
                '/'
            } else {
                s.last()
            },
        )
    }
}

/// Normalization keeps the length and maps each character in place.
pub proof fn lemma_normalized_chars(s: Seq<char>)
    ensures
        normalized(s).len() == s.len(),
        forall|i: int|
            0 <= i < s.len() ==> normalized(s)[i] == (if s[i] == '\\' {
                '/'
            } else {
                s[i]
            }),
    decreases s.len(),
{
    if s.len() > 0 {
        lemma_normalized_chars(s.drop_last());
        assert forall|i: int| 0 <= i < s.len() implies normalized(s)[i] == (if s[i] == '\\' {
            '/'
        } else {
            s[i]
        }) by {
            if i < s.len() - 1 {
                assert(normalized(s)[i] == normalized(s.drop_last())[i]);
                assert(s.drop_last()[i] == s[i]);
            }
        }
    }
}

/// Separator normalization leaves no backslash in its result.
pub proof fn lemma_normalized_no_backslash(s: Seq<char>)
    ensures
        forall|i: int| 0 <= i < normalized(s).len() ==> normalized(s)[i] != '\\',
{
    lemma_normalized_chars(s);
    assert forall|i: int| 0 <= i < normalized(s).len() implies normalized(s)[i] != '\\' by {
        assert(normalized(s)[i] == (if s[i] == '\\' {
            '/'
        } else {
            s[i]
        }));
    }
}

/// Replaces every backslash with a forward slash, so that a path can be
/// spliced into a script for an interpreter that expects forward slashes.
pub fn normalize_separators(s: &str) -> (r: String)
    ensures
        r@ == normalized(s@),
{
    let n: usize = s.unicode_len();
    let mut r = String::new();
    let mut i: usize = 0;
    while i < n
        invariant
            s@.len() == n as nat,
            0 <= i <= n,
            r@ == normalized(s@.take(i as int)),
        decreases n - i,
    {
        let c = s.get_char(i);
        if c == '\\' {
            r.append("/");
            proof {
                reveal_strlit("/");
                assert(s@.take(i + 1).drop_last() =~= s@.take(i as int));
                assert(r@ =~= normalized(s@.take(i + 1)));
            }
        } else {
            let piece = s.substring_char(i, i + 1);
            r.append(piece);
            proof {
                assert(s@.take(i + 1).drop_last() =~= s@.take(i as int));
                assert(piece@ =~= seq![s@[i as int]]);
                assert(r@ =~= normalized(s@.take(i + 1)));
            }
        }
        i = i + 1;
    }
    proof {
        assert(s@.take(n as int) =~= s@);
    }
    r
}

/// The two path pieces joined with a forward slash.
pub open spec fn joined(dir: Seq<char>, name: Seq<char>) -> Seq<char> {
    dir + seq!['/'] + name
}

/// Joins a directory and an entry name with a forward slash.
pub fn join_path(dir: &str, name: &str) -> (r: String)
    ensures
        r@ == joined(dir@, name@),
{
    let mut r = String::from_str(dir);
    r.append("/");
    r.append(name);
    proof {
        reveal_strlit("/");
        assert("/"@ =~= seq!['/']);
        assert(r@ =~= joined(dir@, name@));
    }
    r
}

/// The directory part of a path: the text before the last separator, or
/// nothing when the text holds no separator.
pub open spec fn parent_of(s: Seq<char>) -> Option<Seq<char>>
    decreases s.len(),
{
    if s.len() == 0 {
        None
    } else if sep_char(s.last()) {
        Some(s.drop_last())
    } else {
        parent_of(s.drop_last())
    }
}

/// Strips the last path component; `None` when the path has no separator,
/// so that no parent directory can be determined from its text.
pub fn parent_dir(s: &str) -> (r: Option<String>)
    ensures
        match r {
            Some(p) => parent_of(s@) == Some(p@),
            None => parent_of(s@) is None,
        },
{
    let n: usize = s.unicode_len();
    proof {
        assert(s@.take(n as int) =~= s@);
    }
    let mut i: usize = n;
    while i > 0
        invariant
            s@.len() == n as nat,
            0 <= i <= n,
            parent_of(s@) == parent_of(s@.take(i as int)),
        decreases i,
    {
        let c = s.get_char(i - 1);
        if c == '/' || c == '\\' {
            let p = s.substring_char(0, i - 1);
            proof {
                assert(s@.take(i as int).last() == s@[i - 1]);
                assert(s@.take(i as int).drop_last() =~= s@.take(i - 1));
            }
            return Some(String::from_str(p));
        }
        proof {
            assert(s@.take(i as int).drop_last() =~= s@.take(i - 1));
        }
        i = i - 1;
    }
    proof {
        assert(s@.take(0) =~= Seq::<char>::empty());
    }
    None
}

/// The text without its leading whitespace.
pub open spec fn trim_start_rec(s: Seq<char>) -> Seq<char>
    decreases s.len(),
{
    if s.len() > 0 && ws_char(s.first()) {
        trim_start_rec(s.drop_first())
    } else {
        s
    }
}

/// The text without its trailing whitespace.
pub open spec fn trim_end_rec(s: Seq<char>) -> Seq<char>
    decreases s.len(),
{
    if s.len() > 0 && ws_char(s.last()) {
        trim_end_rec(s.drop_last())
    } else {
        s
    }
}

/// The text with leading and trailing whitespace removed.
pub open spec fn trimmed(s: Seq<char>) -> Seq<char> {
    trim_end_rec(trim_start_rec(s))
}

proof fn lemma_trim_start_at(s: Seq<char>, a: int)
    requires
        0 <= a <= s.len(),
        forall|j: int| 0 <= j < a ==> ws_char(s[j]),
        a < s.len() ==> !ws_char(s[a]),
    ensures
        trim_start_rec(s) == s.subrange(a, s.len() as int),
    decreases a,
{
    if a == 0 {
        assert(s.subrange(0, s.len() as int) =~= s);
    } else {
        assert(ws_char(s[0]));
        lemma_trim_start_at(s.drop_first(), a - 1);
        assert(s.drop_first().subrange(a - 1, s.drop_first().len() as int) =~= s.subrange(
            a,
            s.len() as int,
        ));
    }
}

proof fn lemma_trim_end_at(s: Seq<char>, b: int)
    requires
        0 <= b <= s.len(),
        forall|j: int| b <= j < s.len() ==> ws_char(s[j]),
        b > 0 ==> !ws_char(s[b - 1]),
    ensures
        trim_end_rec(s) == s.subrange(0, b),
    decreases s.len() - b,
{
    if b == s.len() {
        assert(s.subrange(0, b) =~= s);
    } else {
        assert(ws_char(s.last()));
        lemma_trim_end_at(s.drop_last(), b);
        assert(s.drop_last().subrange(0, b) =~= s.subrange(0, b));
    }
}

fn is_ws(c: char) -> (r: bool)
    ensures
        r == ws_char(c),
{
    c == ' ' || c == '\t' || c == '\n' || c == '\r'
}

/// Removes leading and trailing spaces, tabs and line breaks.
pub fn trim_text(s: &str) -> (r: String)
    ensures
        r@ == trimmed(s@),
{
    let n: usize = s.unicode_len();
    let mut a: usize = 0;
    while a < n && is_ws(s.get_char(a))
        invariant
            s@.len() == n as nat,
            0 <= a <= n,
            forall|j: int| 0 <= j < a ==> ws_char(s@[j]),
        decreases n - a,
    {
        a = a + 1;
    }
    let mut b: usize = n;
    while b > a && is_ws(s.get_char(b - 1))
        invariant
            s@.len() == n as nat,
            0 <= a <= b <= n,
            forall|j: int| b <= j < n ==> ws_char(s@[j]),
        decreases b,
    {
        b = b - 1;
    }
    let r = String::from_str(s.substring_char(a, b));
    proof {
        lemma_trim_start_at(s@, a as int);
        let t = s@.subrange(a as int, n as int);
        lemma_trim_end_at(t, b - a);
        assert(t.subrange(0, b - a) =~= s@.subrange(a as int, b as int));
    }
    r
}

/// Whether the text is non-empty and its last character is `c`.
pub fn ends_in_char(s: &str, c: char) -> (r: bool)
    ensures
        r == (s@.len() > 0 && s@.last() == c),
{
    let n: usize = s.unicode_len();
    if n == 0 {
        false
    } else {
        s.get_char(n - 1) == c
    }
}

} // verus!
