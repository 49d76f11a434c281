//! String helpers the rest of the library builds on.

use vstd::prelude::*;
use vstd::string::StrSliceExecFns;
use vstd::string::StringExecFns;

verus! {

/// Relies on `str`'s `PartialEq`: two string slices compare equal exactly
/// when their character sequences are equal.
#[verifier::external_body]
pub fn str_eq(a: &str, b: &str) -> (r: bool)
    ensures
        r == (a@ == b@),
{
    a == b
}

/// A line divided at its first space: the part before it, and — when there
/// is a space at all — the part after it.
pub open spec fn spec_split_space(s: Seq<char>) -> (Seq<char>, Option<Seq<char>>)
    decreases s.len(),
{
    if s.len() == 0 {
        (Seq::empty(), None)
    } else if s[0] == ' ' {
        (Seq::empty(), Some(s.skip(1)))
    } else {
        let r = spec_split_space(s.skip(1));
        (seq![s[0]] + r.0, r.1)
    }
}

/// The split at the first space is the split at the first index holding a
/// space.
pub proof fn lemma_split_space_at(s: Seq<char>, i: int)
    requires
        0 <= i <= s.len(),
        forall|j: int| 0 <= j < i ==> s[j] != ' ',
        i < s.len() ==> s[i] == ' ',
    ensures
        i == s.len() ==> spec_split_space(s) == (s, Option::<Seq<char>>::None),
        i < s.len() ==> spec_split_space(s) == (s.subrange(0, i), Some(s.skip(i + 1))),
    decreases s.len(),
{
    if s.len() == 0 {
        assert(spec_split_space(s).0 =~= s);
    } else if s[0] == ' ' {
        assert(i == 0);
        assert(spec_split_space(s).0 =~= s.subrange(0, 0));
        assert(s.skip(1) =~= s.skip((0 + 1) as int));
    } else {
        assert(s[0] != ' ');
        assert(i >= 1);
        let tl = s.skip(1);
        assert(tl.len() == s.len() - 1);
        assert(forall|j: int| 0 <= j < i - 1 ==> #[trigger] tl[j] == s[j + 1]);
        assert(i - 1 < tl.len() ==> tl[i - 1] == s[i]);
        lemma_split_space_at(tl, i - 1);
        if i == s.len() {
            assert(seq![s[0]] + tl =~= s);
        } else {
            assert(seq![s[0]] + tl.subrange(0, i - 1) =~= s.subrange(0, i));
            assert(tl.skip(i) =~= s.skip(i + 1));
        }
    }
}

/// Putting a split line back together yields the line; and the part before
/// the first space never holds a space.
pub proof fn lemma_split_space_inverse(s: Seq<char>)
    ensures
        spec_split_space(s).1 is None ==> s == spec_split_space(s).0,
        spec_split_space(s).1 matches Some(t) ==> s == spec_split_space(s).0 + seq![' '] + t,
        !spec_split_space(s).0.contains(' '),
    decreases s.len(),
{
    if s.len() == 0 {
        assert(s =~= spec_split_space(s).0);
    } else if s[0] == ' ' {
        assert(s =~= Seq::<char>::empty() + seq![' '] + s.skip(1));
    } else {
        let tl = s.skip(1);
        lemma_split_space_inverse(tl);
        let h = spec_split_space(tl).0;
        match spec_split_space(tl).1 {
            Some(t) => {
                assert(s =~= seq![s[0]] + (h + seq![' '] + t));
                assert(seq![s[0]] + (h + seq![' '] + t) =~= (seq![s[0]] + h) + seq![' '] + t);
            },
            None => {
                assert(s =~= seq![s[0]] + h);
            },
        }
        if (seq![s[0]] + h).contains(' ') {
            let k = choose|k: int| 0 <= k < (seq![s[0]] + h).len() && (seq![s[0]] + h)[k] == ' ';
            if k == 0 {
                assert(false);
            } else {
                assert(h[k - 1] == ' ');
                assert(h.contains(' '));
                assert(false);
            }
        }
    }
}

/// Splitting a head, a space and a tail finds exactly that head and tail,
/// provided the head holds no space of its own.
pub proof fn lemma_split_space_concat(h: Seq<char>, t: Seq<char>)
    requires
        !h.contains(' '),
    ensures
        spec_split_space(h + seq![' '] + t) == (h, Some(t)),
    decreases h.len(),
{
    let s = h + seq![' '] + t;
    if h.len() == 0 {
        assert(s =~= seq![' '] + t);
        assert(s[0] == ' ');
        assert(s.skip(1) =~= t);
        assert(spec_split_space(s).0 =~= h);
    } else {
        if h[0] == ' ' {
            assert(h.contains(' '));
        }
        assert(s[0] == h[0]);
        assert(s[0] != ' ');
        let tl = s.skip(1);
        assert(tl =~= h.skip(1) + seq![' '] + t);
        if h.skip(1).contains(' ') {
            let k = choose|k: int| 0 <= k < h.skip(1).len() && h.skip(1)[k] == ' ';
            assert(h[k + 1] == ' ');
            assert(h.contains(' '));
        }
        lemma_split_space_concat(h.skip(1), t);
        assert(spec_split_space(s).0 =~= seq![s[0]] + h.skip(1));
        assert(seq![s[0]] + h.skip(1) =~= h);
    }
}

/// A line without any space splits into itself and nothing.
pub proof fn lemma_split_space_whole(h: Seq<char>)
    requires
        !h.contains(' '),
    ensures
        spec_split_space(h) == (h, Option::<Seq<char>>::None),
    decreases h.len(),
{
    if h.len() > 0 {
        if h[0] == ' ' {
            assert(h.contains(' '));
        }
        if h.skip(1).contains(' ') {
            let k = choose|k: int| 0 <= k < h.skip(1).len() && h.skip(1)[k] == ' ';
            assert(h[k + 1] == ' ');
            assert(h.contains(' '));
        }
        lemma_split_space_whole(h.skip(1));
        assert(seq![h[0]] + h.skip(1) =~= h);
    } else {
        assert(spec_split_space(h).0 =~= h);
    }
}

/// Divide a line at its first space.
pub fn split_space<'a>(s: &'a str) -> (r: (&'a str, Option<&'a str>))
    ensures
        r.0@ == spec_split_space(s@).0,
        r.1 matches Some(t) ==> spec_split_space(s@).1 == Some(t@),
        r.1 is None ==> spec_split_space(s@).1 is None,
{
    let n = s.unicode_len();
    let mut i: usize = 0;
    while i < n
        invariant
            n == s@.len(),
            i <= n,
            forall|j: int| 0 <= j < i ==> s@[j] != ' ',
        decreases n - i,
    {
        if s.get_char(i) == ' ' {
            let head = s.substring_char(0, i);
            let tail = s.substring_char(i + 1, n);
            proof {
                lemma_split_space_at(s@, i as int);
            }
            return (head, Some(tail));
        }
        i = i + 1;
    }
    proof {
        lemma_split_space_at(s@, n as int);
    }
    (s, None)
}

/// Does the line hold a space anywhere?
pub fn contains_space(s: &str) -> (b: bool)
    ensures
        b == s@.contains(' '),
{
    let n = s.unicode_len();
    let mut i: usize = 0;
    while i < n
        invariant
            n == s@.len(),
            i <= n,
            forall|j: int| 0 <= j < i ==> s@[j] != ' ',
        decreases n - i,
    {
        if s.get_char(i) == ' ' {
            assert(s@.contains(' '));
            return true;
        }
        i = i + 1;
    }
    false
}

/// A path interpreted against a working directory: absolute paths stand as
/// they are, anything else is the directory, a separator and the path.
pub open spec fn spec_absolute(cwd: Seq<char>, p: Seq<char>) -> Seq<char> {
    if p.len() > 0 && p[0] == '/' {
        p
    } else {
        cwd + "/"@ + p
    }
}

/// Resolve a possibly relative path against a working directory.
pub fn absolute(cwd: &str, p: &str) -> (r: String)
    ensures
        r@ == spec_absolute(cwd@, p@),
{
    if p.unicode_len() > 0 && p.get_char(0) == '/' {
        p.to_owned()
    } else {
        let mut s = cwd.to_owned();
        s.append("/");
        s.append(p);
        s
    }
}

} // verus!
