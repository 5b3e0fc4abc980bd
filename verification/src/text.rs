use vstd::prelude::*;

verus! {

/// A whitespace character as trimming understands it: the Unicode
/// white-space characters, the same set standard trimming removes.
pub open spec fn ws_char(c: char) -> bool {
    ||| c == ' '
    ||| c == '\t'
    ||| c == '\n'
    ||| c == '\u{0B}'
    ||| c == '\u{0C}'
    ||| c == '\r'
    ||| c == '\u{85}'
    ||| c == '\u{A0}'
    ||| c == '\u{1680}'
    ||| ('\u{2000}' <= c && c <= '\u{200A}')
    ||| c == '\u{2028}'
    ||| c == '\u{2029}'
    ||| c == '\u{202F}'
    ||| c == '\u{205F}'
    ||| c == '\u{3000}'
}

/// The text with its leading whitespace removed.
pub open spec fn trim_left(s: Seq<char>) -> Seq<char>
    decreases s.len(),
{
    if s.len() > 0 && ws_char(s[0]) {
        trim_left(s.drop_first())
    } else {
        s
    }
}

/// The text with its trailing whitespace removed.
pub open spec fn trim_right(s: Seq<char>) -> Seq<char>
    decreases s.len(),
{
    if s.len() > 0 && ws_char(s.last()) {
        trim_right(s.drop_last())
    } else {
        s
    }
}

/// The text with whitespace removed from both ends.
pub open spec fn trimmed(s: Seq<char>) -> Seq<char> {
    trim_right(trim_left(s))
}

proof fn lemma_trim_left_skip(s: Seq<char>, i: int)
    requires
        0 <= i <= s.len(),
        forall|k: int| 0 <= k < i ==> ws_char(s[k]),
    ensures
        trim_left(s) == trim_left(s.skip(i)),
    decreases i,
{
    if i > 0 {
        assert(ws_char(s[0]));
        assert(s.drop_first() =~= s.skip(1));
        lemma_trim_left_skip(s.skip(1), i - 1);
        assert(s.skip(1).skip(i - 1) =~= s.skip(i));
    } else {
        assert(s.skip(0) =~= s);
    }
}

proof fn lemma_trim_right_take(s: Seq<char>, j: int)
    requires
        0 <= j <= s.len(),
        forall|k: int| j <= k < s.len() ==> ws_char(s[k]),
    ensures
        trim_right(s) == trim_right(s.take(j)),
    decreases s.len() - j,
{
    if j < s.len() {
        assert(ws_char(s.last()));
        assert(s.drop_last() =~= s.take(s.len() - 1));
        lemma_trim_right_take(s.take(s.len() - 1), j);
        assert(s.take(s.len() - 1).take(j) =~= s.take(j));
    } else {
        assert(s.take(j) =~= s);
    }
}

/// Whether one character counts as whitespace.
pub fn is_ws(c: char) -> (r: bool)
    ensures
        r == ws_char(c),
{
    c == ' ' || c == '\t' || c == '\n' || c == '\u{0B}' || c == '\u{0C}' || c == '\r'
        || c == '\u{85}' || c == '\u{A0}' || c == '\u{1680}' || ('\u{2000}' <= c
        && c <= '\u{200A}') || c == '\u{2028}' || c == '\u{2029}' || c == '\u{202F}'
        || c == '\u{205F}' || c == '\u{3000}'
}

/// Removes whitespace from both ends of the text.
pub fn trim_ws(s: &str) -> (r: &str)
    ensures
        r@ == trimmed(s@),
{
    let n = s.unicode_len();
    let mut i: usize = 0;
    while i < n && is_ws(s.get_char(i))
        invariant
            n == s@.len(),
            i <= n,
            forall|k: int| 0 <= k < i ==> ws_char(s@[k]),
        decreases n - i,
    {
        i += 1;
    }
    let mut j: usize = n;
    while j > i && is_ws(s.get_char(j - 1))
        invariant
            n == s@.len(),
            i <= j <= n,
            forall|k: int| j <= k < n ==> ws_char(s@[k]),
        decreases j,
    {
        j -= 1;
    }
    let r = s.substring_char(i, j);
    proof {
        lemma_trim_left_skip(s@, i as int);
        let t = s@.skip(i as int);
        if i < n {
            assert(t[0] == s@[i as int]);
            assert(!ws_char(t[0]));
        }
        assert(trim_left(t) == t);
        lemma_trim_right_take(t, j - i);
        let u = t.take(j - i);
        if j > i {
            assert(u.last() == s@[j - 1]);
            assert(!ws_char(u.last()));
        }
        assert(trim_right(u) == u);
        assert(r@ =~= u);
    }
    r
}

/// Whether the text holds a statement terminator anywhere.
pub fn contains_semicolon(s: &str) -> (r: bool)
    ensures
        r == s@.contains(';'),
{
    let n = s.unicode_len();
    let mut i: usize = 0;
    while i < n
        invariant
            n == s@.len(),
            i <= n,
            forall|k: int| 0 <= k < i ==> s@[k] != ';',
        decreases n - i,
    {
        if s.get_char(i) == ';' {
            return true;
        }
        i += 1;
    }
    proof {
        if s@.contains(';') {
            let w = choose|w: int| 0 <= w < s@.len() && s@[w] == ';';
            assert(s@[w] != ';');
        }
    }
    false
}

/// One character matched against its lower- and upper-case forms.
pub open spec fn ci_eq(c: char, lo: char, up: char) -> bool {
    c == lo || c == up
}

/// Whether the text begins with the keyword SELECT, in any letter case.
pub open spec fn starts_select(s: Seq<char>) -> bool {
    s.len() >= 6 && ci_eq(s[0], 's', 'S') && ci_eq(s[1], 'e', 'E') && ci_eq(s[2], 'l', 'L')
        && ci_eq(s[3], 'e', 'E') && ci_eq(s[4], 'c', 'C') && ci_eq(s[5], 't', 'T')
}

/// Whether the text begins with the keyword WITH, in any letter case.
pub open spec fn starts_with_kw(s: Seq<char>) -> bool {
    s.len() >= 4 && ci_eq(s[0], 'w', 'W') && ci_eq(s[1], 'i', 'I') && ci_eq(s[2], 't', 'T')
        && ci_eq(s[3], 'h', 'H')
}

/// Whether the text begins with a read-only query keyword.
pub open spec fn read_prefix(s: Seq<char>) -> bool {
    starts_select(s) || starts_with_kw(s)
}

/// Checks the read-only query keyword prefix, in any letter case.
pub fn has_read_prefix(s: &str) -> (r: bool)
    ensures
        r == read_prefix(s@),
{
    let n = s.unicode_len();
    let select = n >= 6 && (s.get_char(0) == 's' || s.get_char(0) == 'S') && (s.get_char(1) == 'e'
        || s.get_char(1) == 'E') && (s.get_char(2) == 'l' || s.get_char(2) == 'L') && (s.get_char(3)
        == 'e' || s.get_char(3) == 'E') && (s.get_char(4) == 'c' || s.get_char(4) == 'C') && (
    s.get_char(5) == 't' || s.get_char(5) == 'T');
    if select {
        return true;
    }
    n >= 4 && (s.get_char(0) == 'w' || s.get_char(0) == 'W') && (s.get_char(1) == 'i'
        || s.get_char(1) == 'I') && (s.get_char(2) == 't' || s.get_char(2) == 'T') && (s.get_char(3)
        == 'h' || s.get_char(3) == 'H')
}

} // verus!
