//! Identifier casing: turning the catalog's UPPER_SNAKE_CASE category names
//! into PascalCase type names.

use vstd::prelude::*;

verus! {

/// What the standard library's lowercasing returns for a string: a function
/// of its characters alone.
pub uninterp spec fn lower_of(s: Seq<char>) -> Seq<char>;

/// Relies on str::to_lowercase: the lowercase mapping of the characters,
/// which depends on the characters alone; an empty string stays empty.
#[verifier::external_body]
fn lowercased(s: &str) -> (r: String)
    ensures
        r@ == lower_of(s@),
        s@.len() == 0 ==> r@.len() == 0,
{
    s.to_lowercase()
}

/// Where the first word ends: the index of the first underscore, or the whole
/// length where there is none.
pub open spec fn first_sep(s: Seq<char>) -> nat
    decreases s.len(),
{
    if s.len() == 0 {
        0
    } else if s[0] == '_' {
        0
    } else {
        1 + first_sep(s.skip(1))
    }
}

/// A word turned into a PascalCase component: its first character kept, the
/// rest lowercased.
pub open spec fn cap_word(w: Seq<char>) -> Seq<char> {
    w.take(1) + lower_of(w.skip(1))
}

/// The PascalCase reading of an underscore-separated identifier: each word's
/// first character kept, the rest of the word lowercased, the separators
/// dropped.
pub open spec fn pascal_of(s: Seq<char>) -> Seq<char>
    decreases s.len(),
{
    let i = first_sep(s);
    if i >= s.len() {
        cap_word(s)
    } else {
        cap_word(s.take(i as int)) + pascal_of(s.skip(i as int + 1))
    }
}

/// An identifier whose every underscore-separated word is nonempty and starts
/// with an ASCII character.
pub open spec fn words_wf(s: Seq<char>) -> bool {
    &&& s.len() > 0
    &&& s[0] != '_'
    &&& s[s.len() - 1] != '_'
    &&& forall|i: int| 0 <= i < s.len() - 1 ==> !(#[trigger] s[i] == '_' && s[i + 1] == '_')
    &&& forall|i: int|
        0 <= i < s.len() ==> ((i == 0 || s[i - 1] == '_') ==> (#[trigger] s[i] as u32) < 128)
}

/// The first underscore of `s` stands at `i` exactly when nothing before `i`
/// is an underscore and `i` is one or the end.
proof fn lemma_first_sep_at(s: Seq<char>, i: int)
    requires
        0 <= i <= s.len(),
        forall|j: int| 0 <= j < i ==> s[j] != '_',
        i < s.len() ==> s[i] == '_',
    ensures
        first_sep(s) == i,
    decreases i,
{
    if i == 0 {
    } else {
        assert(s[0] != '_');
        lemma_first_sep_at(s.skip(1), i - 1);
    }
}

/// Splitting a well-formed identifier at its first underscore leaves a
/// well-formed identifier.
#[verifier::rlimit(50)]
proof fn lemma_words_wf_rest(s: Seq<char>, i: int)
    requires
        words_wf(s),
        0 <= i < s.len(),
        s[i] == '_',
    ensures
        i + 1 < s.len(),
        words_wf(s.skip(i + 1)),
{
    assert(s[s.len() - 1] != '_');
    let rest = s.skip(i + 1);
    assert(rest[0] == s[i + 1]);
    assert(!(s[i] == '_' && s[i + 1] == '_'));
    assert(rest[rest.len() - 1] == s[s.len() - 1]);
    assert forall|k: int| 0 <= k < rest.len() - 1 implies !(#[trigger] rest[k] == '_' && rest[k
        + 1] == '_') by {
        assert(rest[k] == s[i + 1 + k]);
        assert(rest[k + 1] == s[i + 1 + k + 1]);
    }
    assert forall|k: int|
        0 <= k < rest.len() && (k == 0 || rest[k - 1] == '_') implies (#[trigger] rest[k] as u32)
        < 128 by {
        assert(rest[k] == s[i + 1 + k]);
        if k == 0 {
            assert(s[i] == '_');
        } else {
            assert(rest[k - 1] == s[i + k]);
        }
    }
}

/// One word turned into its PascalCase component.
fn cap_word_exec(w: &str) -> (r: String)
    requires
        w@.len() > 0,
    ensures
        r@ == cap_word(w@),
{
    let n = w.unicode_len();
    let head = w.substring_char(0, 1);
    let tail = w.substring_char(1, n);
    let low = lowercased(tail);
    let mut r = head.to_owned();
    r.append(low.as_str());
    proof {
        assert(head@ =~= w@.take(1));
        assert(tail@ =~= w@.skip(1));
    }
    r
}

/// Turns an UPPER_SNAKE_CASE identifier into PascalCase: each word keeps its
/// first character and lowercases the rest, and the underscores are dropped.
#[verifier::rlimit(50)]
pub fn upper_snake_case_to_pascal_case(s: &str) -> (r: String)
    requires
        words_wf(s@),
    ensures
        r@ == pascal_of(s@),
    decreases s@.len(),
{
    let n = s.unicode_len();
    let mut i: usize = 0;
    while i < n && s.get_char(i) != '_'
        invariant
            0 <= i <= n,
            n == s@.len(),
            forall|j: int| 0 <= j < i ==> s@[j] != '_',
        decreases n - i,
    {
        i = i + 1;
    }
    proof {
        lemma_first_sep_at(s@, i as int);
    }
    if i == n {
        cap_word_exec(s)
    } else {
        proof {
            lemma_words_wf_rest(s@, i as int);
        }
        let word = s.substring_char(0, i);
        let rest = s.substring_char(i + 1, n);
        proof {
            assert(word@ =~= s@.take(i as int));
            assert(rest@ =~= s@.skip(i as int + 1));
        }
        let mut r = cap_word_exec(word);
        let tail = upper_snake_case_to_pascal_case(rest);
        r.append(tail.as_str());
        proof {
            assert(pascal_of(s@) == cap_word(s@.take(i as int)) + pascal_of(
                s@.skip(i as int + 1),
            ));
        }
        r
    }
}

} // verus!
