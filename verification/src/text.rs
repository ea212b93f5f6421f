//! Text as the inference engine's C API can take it.

use crate::error::ConfigError;
use vstd::prelude::*;

verus! {

/// Whether `s` holds the character NUL, which ends a text in a C API.
pub open spec fn has_nul(s: Seq<char>) -> bool {
    exists|i: int| 0 <= i < s.len() && s[i] == '\0'
}

/// Tells whether `s` holds a NUL.
pub fn contains_nul(s: &str) -> (r: bool)
    ensures
        r == has_nul(s@),
{
    let mut found = false;
    for c in it: s.chars()
        invariant
            it.seq() == s@,
            found == (exists|i: int| 0 <= i < it.index() && s@[i] == '\0'),
    {
        if c == '\0' {
            found = true;
        }
    }
    found
}

/// Whether `c` is white space: a character with the Unicode property
/// `White_Space`.
pub open spec fn is_white_space(c: char) -> bool {
    let u = c as u32;
    ||| 0x09 <= u <= 0x0d
    ||| u == 0x20
    ||| u == 0x85
    ||| u == 0xa0
    ||| u == 0x1680
    ||| 0x2000 <= u <= 0x200a
    ||| u == 0x2028
    ||| u == 0x2029
    ||| u == 0x202f
    ||| u == 0x205f
    ||| u == 0x3000
}

/// Tells whether `c` is white space.
pub fn is_whitespace(c: char) -> (r: bool)
    ensures
        r == is_white_space(c),
{
    let u: u32 = c as u32;
    (0x09 <= u && u <= 0x0d) || u == 0x20 || u == 0x85 || u == 0xa0 || u == 0x1680 || (0x2000 <= u
        && u <= 0x200a) || u == 0x2028 || u == 0x2029 || u == 0x202f || u == 0x205f || u
        == 0x3000
}

/// `s` without the white space it begins with.
pub open spec fn trim_start(s: Seq<char>) -> Seq<char>
    decreases s.len(),
{
    if s.len() > 0 && is_white_space(s.first()) {
        trim_start(s.drop_first())
    } else {
        s
    }
}

/// `s` without the white space it ends with.
pub open spec fn trim_end(s: Seq<char>) -> Seq<char>
    decreases s.len(),
{
    if s.len() > 0 && is_white_space(s.last()) {
        trim_end(s.drop_last())
    } else {
        s
    }
}

/// `s` without the white space around it.
pub open spec fn trimmed(s: Seq<char>) -> Seq<char> {
    trim_end(trim_start(s))
}

/// Whether all of `s` from `from` up to `to` is white space.
pub open spec fn all_white(s: Seq<char>, from: int, to: int) -> bool {
    forall|i: int| from <= i < to ==> is_white_space(#[trigger] s[i])
}

/// Trimming at the start cuts at the first character that is no white space.
pub proof fn lemma_trim_start_cuts(s: Seq<char>, a: int)
    requires
        0 <= a <= s.len(),
        all_white(s, 0, a),
        a < s.len() ==> !is_white_space(s[a]),
    ensures
        trim_start(s) == s.subrange(a, s.len() as int),
    decreases a,
{
    if a == 0 {
        assert(s.subrange(0, s.len() as int) =~= s);
    } else {
        let t = s.drop_first();
        assert forall|i: int| 0 <= i < a - 1 implies is_white_space(#[trigger] t[i]) by {
            assert(t[i] == s[i + 1]);
        }
        lemma_trim_start_cuts(t, a - 1);
        assert(t.subrange(a - 1, t.len() as int) =~= s.subrange(a, s.len() as int));
    }
}

/// Trimming at the end cuts behind the last character that is no white space.
pub proof fn lemma_trim_end_cuts(s: Seq<char>, b: int)
    requires
        0 <= b <= s.len(),
        all_white(s, b, s.len() as int),
        b > 0 ==> !is_white_space(s[b - 1]),
    ensures
        trim_end(s) == s.subrange(0, b),
    decreases s.len() - b,
{
    if b == s.len() {
        assert(s.subrange(0, b) =~= s);
    } else {
        let t = s.drop_last();
        assert forall|i: int| b <= i < t.len() implies is_white_space(#[trigger] t[i]) by {
            assert(t[i] == s[i]);
        }
        lemma_trim_end_cuts(t, b);
        assert(t.subrange(0, b) =~= s.subrange(0, b));
    }
}

/// A trimmed text neither begins nor ends with white space, and trimming it
/// again changes nothing.
pub proof fn lemma_trimmed_is_tight(s: Seq<char>)
    ensures
        trimmed(s).len() > 0 ==> !is_white_space(trimmed(s).first()) && !is_white_space(
            trimmed(s).last(),
        ),
        trimmed(trimmed(s)) == trimmed(s),
{
    lemma_trim_start_tight(s);
    let m = trim_start(s);
    lemma_trim_end_keeps_start(m);
    lemma_trim_end_tight(m);
    let t = trim_end(m);
    if t.len() > 0 {
        lemma_trim_start_cuts(t, 0);
        assert(t.subrange(0, t.len() as int) =~= t);
        lemma_trim_end_cuts(t, t.len() as int);
    } else {
        assert(trim_start(t) == t);
        assert(trim_end(t) == t);
    }
}

proof fn lemma_trim_start_tight(s: Seq<char>)
    ensures
        trim_start(s).len() > 0 ==> !is_white_space(trim_start(s).first()),
    decreases s.len(),
{
    if s.len() > 0 && is_white_space(s.first()) {
        lemma_trim_start_tight(s.drop_first());
    }
}

proof fn lemma_trim_end_tight(s: Seq<char>)
    ensures
        trim_end(s).len() > 0 ==> !is_white_space(trim_end(s).last()),
    decreases s.len(),
{
    if s.len() > 0 && is_white_space(s.last()) {
        lemma_trim_end_tight(s.drop_last());
    }
}

proof fn lemma_trim_end_keeps_start(s: Seq<char>)
    ensures
        trim_end(s).len() <= s.len(),
        trim_end(s).len() > 0 ==> trim_end(s).first() == s.first(),
    decreases s.len(),
{
    if s.len() > 0 && is_white_space(s.last()) {
        lemma_trim_end_keeps_start(s.drop_last());
    }
}

/// `s` without the white space around it.
pub fn trim(s: &str) -> (r: String)
    ensures
        r@ == trimmed(s@),
{
    let mut start: usize = 0;
    let mut end: usize = 0;
    let mut seen: bool = false;
    let mut at: usize = 0;
    let len = s.unicode_len();
    for c in it: s.chars()
        invariant
            it.seq() == s@,
            len == s@.len(),
            at == it.index(),
            at <= len,
            !seen ==> all_white(s@, 0, at as int) && start == 0 && end == 0,
            seen ==> start < end <= at && all_white(s@, 0, start as int) && !is_white_space(
                s@[start as int],
            ) && !is_white_space(s@[end - 1]) && all_white(s@, end as int, at as int),
    {
        if !is_whitespace(c) {
            if !seen {
                seen = true;
                start = at;
            }
            end = at + 1;
        }
        at = at + 1;
    }
    proof {
        let a = if seen {
            start as int
        } else {
            len as int
        };
        lemma_trim_start_cuts(s@, a);
        let m = s@.subrange(a, len as int);
        let b = if seen {
            end - start
        } else {
            0
        };
        assert forall|i: int| b <= i < m.len() implies is_white_space(#[trigger] m[i]) by {
            assert(m[i] == s@[a + i]);
        }
        lemma_trim_end_cuts(m, b);
        assert(m.subrange(0, b) =~= s@.subrange(start as int, end as int));
    }
    s.substring_char(start, end).to_owned()
}

/// A text without NUL: what a path, a tag or a keyword list must be before
/// the engine can read it.
pub struct CText {
    text: String,
}

impl View for CText {
    type V = Seq<char>;

    closed spec fn view(&self) -> Seq<char> {
        self.text@
    }
}

impl CText {
    #[verifier::type_invariant]
    spec fn nul_free(&self) -> bool {
        !has_nul(self.text@)
    }

    /// Takes `s` as it stands, or refuses it for a NUL.
    pub fn new(s: &str) -> (r: Result<CText, ConfigError>)
        ensures
            has_nul(s@) <==> r is Err,
            r is Err ==> r->Err_0 == ConfigError::EmbeddedNul,
            r is Ok ==> r->Ok_0@ == s@,
    {
        if contains_nul(s) {
            Err(ConfigError::EmbeddedNul)
        } else {
            Ok(CText { text: s.to_owned() })
        }
    }

    /// The text, which holds no NUL.
    pub fn as_str(&self) -> (r: &str)
        ensures
            r@ == self@,
            !has_nul(r@),
    {
        proof {
            use_type_invariant(self);
        }
        self.text.as_str()
    }
}

} // verus!
