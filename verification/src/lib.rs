//! A validated, normalized name for a database object (a table, a column, a
//! constraint). Construction checks the naming rules and folds the text to a
//! canonical lower-case form, so that two names differing only in letter case
//! compare equal.

use vstd::prelude::*;

verus! {

/// The characters a name may contain: ASCII letters, ASCII digits,
/// underscore, and space.
pub open spec fn is_allowed_char(c: char) -> bool {
    ||| 'a' <= c && c <= 'z'
    ||| 'A' <= c && c <= 'Z'
    ||| '0' <= c && c <= '9'
    ||| c == '_'
    ||| c == ' '
}

/// The characters a name may start with: allowed characters other than
/// digits and the space.
pub open spec fn is_valid_first_char(c: char) -> bool {
    is_allowed_char(c) && !('0' <= c && c <= '9') && c != ' '
}

/// A raw name is valid when it is non-empty, starts with a letter or an
/// underscore, and contains only allowed characters.
pub open spec fn is_valid_name(s: Seq<char>) -> bool {
    &&& s.len() > 0
    &&& is_valid_first_char(s[0])
    &&& forall|i: int| 0 <= i < s.len() ==> is_allowed_char(#[trigger] s[i])
}

/// ASCII case folding of one character: an upper-case letter becomes the
/// corresponding lower-case letter; everything else is unchanged.
pub open spec fn fold_char(c: char) -> char {
    if 'A' <= c && c <= 'Z' {
        ((c as int) + 32) as char
    } else {
        c
    }
}

/// ASCII case folding of a whole text, character by character.
pub open spec fn fold_chars(s: Seq<char>) -> Seq<char> {
    s.map_values(|c: char| fold_char(c))
}

fn allowed_char(c: char) -> (r: bool)
    ensures
        r == is_allowed_char(c),
{
    ('a' <= c && c <= 'z') || ('A' <= c && c <= 'Z') || ('0' <= c && c <= '9') || c == '_' || c
        == ' '
}

fn lowercase_char(c: char) -> (r: char)
    ensures
        r == fold_char(c),
{
    if 'A' <= c && c <= 'Z' {
        let n: u32 = c as u32;
        let b: u8 = (n + 32) as u8;
        b as char
    } else {
        c
    }
}

fn is_valid(value: &str) -> (r: bool)
    ensures
        r == is_valid_name(value@),
{
    let n = value.unicode_len();
    if n == 0 {
        return false;
    }
    let first = value.get_char(0);
    if ('0' <= first && first <= '9') || first == ' ' {
        return false;
    }
    let mut i: usize = 0;
    while i < n
        invariant
            n == value@.len(),
            0 <= i <= n,
            forall|j: int| 0 <= j < i ==> is_allowed_char(#[trigger] value@[j]),
        decreases n - i,
    {
        if !allowed_char(value.get_char(i)) {
            return false;
        }
        i = i + 1;
    }
    true
}

/// Relies on String::push: it appends the given character at the end of the
/// string, and does nothing else.
#[verifier::external_body]
fn push_char(s: &mut String, c: char)
    ensures
        final(s)@ == old(s)@.push(c),
{
    s.push(c);
}

/// Checks a raw name against the naming rules and, when they hold, folds it
/// to its canonical lower-case form.
pub fn normalize(value: &str) -> (r: Option<String>)
    ensures
        r is Some <==> is_valid_name(value@),
        (r matches Some(s) ==> s@ == fold_chars(value@)),
{
    if !is_valid(value) {
        return None;
    }
    let n = value.unicode_len();
    let mut out = String::new();
    let mut i: usize = 0;
    while i < n
        invariant
            n == value@.len(),
            0 <= i <= n,
            out@ =~= fold_chars(value@).take(i as int),
        decreases n - i,
    {
        let c = value.get_char(i);
        push_char(&mut out, lowercase_char(c));
        i = i + 1;
    }
    assert(out@ =~= fold_chars(value@));
    Some(out)
}

/// The name of a database object: table names, column names, constraint
/// names are identifiers.
///
/// An identifier always holds the canonical form of a valid raw name:
/// non-empty, starting with a letter or an underscore, made only of ASCII
/// lower-case letters, digits, underscores and spaces. Two identifiers are
/// equal exactly when their canonical texts are equal, so raw names that
/// differ only in letter case yield equal identifiers.
#[derive(Debug)]
pub struct Identifier {
    value: String,
}

impl View for Identifier {
    type V = Seq<char>;

    closed spec fn view(&self) -> Seq<char> {
        self.value@
    }
}

impl Identifier {
    /// The canonical text is a valid name that case folding leaves unchanged.
    pub open spec fn wf(&self) -> bool {
        &&& is_valid_name(self@)
        &&& fold_chars(self@) == self@
    }

    /// Validates a raw name and wraps its canonical lower-case form.
    pub fn new(value: &str) -> (r: Option<Identifier>)
        ensures
            r is Some <==> is_valid_name(value@),
            (r matches Some(id) ==> id@ == fold_chars(value@) && id.wf()),
    {
        match normalize(value) {
            Some(s) => {
                let id = Identifier { value: s };
                proof {
                    lemma_fold_chars_of_valid(value@);
                }
                Some(id)
            },
            None => None,
        }
    }

    /// Read-only view of the canonical text.
    pub fn as_str(&self) -> (r: &str)
        ensures
            r@ == self@,
    {
        self.value.as_str()
    }

    /// The canonical text as an owned string.
    pub fn to_text(&self) -> (r: String)
        ensures
            r@ == self@,
    {
        self.value.clone()
    }
}

impl Clone for Identifier {
    fn clone(&self) -> (r: Self)
        ensures
            r@ == self@,
    {
        Identifier { value: self.value.clone() }
    }
}

impl PartialEq for Identifier {
    fn eq(&self, other: &Identifier) -> (r: bool) {
        self.value == other.value
    }
}

impl Eq for Identifier {

}

impl vstd::std_specs::cmp::PartialEqSpecImpl for Identifier {
    open spec fn obeys_eq_spec() -> bool {
        true
    }

    open spec fn eq_spec(&self, other: &Identifier) -> bool {
        self@ == other@
    }
}

/// Folding a valid name yields a valid name that further folding leaves
/// unchanged: the canonical form is a fixed point of normalization.
pub proof fn lemma_fold_chars_of_valid(s: Seq<char>)
    requires
        is_valid_name(s),
    ensures
        is_valid_name(fold_chars(s)),
        fold_chars(fold_chars(s)) == fold_chars(s),
{
    assert forall|i: int| 0 <= i < fold_chars(s).len() implies is_allowed_char(
        #[trigger] fold_chars(s)[i],
    ) by {
        assert(is_allowed_char(s[i]));
    }
    assert(is_valid_first_char(fold_chars(s)[0]));
    assert(fold_chars(fold_chars(s)) =~= fold_chars(s));
}

/// An ASCII upper-case letter.
pub open spec fn is_ascii_uppercase(c: char) -> bool {
    'A' <= c && c <= 'Z'
}

/// Two characters are the same up to letter case when folding makes them
/// equal: either they are equal, or they are the upper- and lower-case forms
/// of one ASCII letter.
pub open spec fn same_ignoring_case(a: char, b: char) -> bool {
    fold_char(a) == fold_char(b)
}

/// A re-casing of a text changes nothing but the case of its letters.
pub open spec fn is_recasing_of(t: Seq<char>, s: Seq<char>) -> bool {
    &&& t.len() == s.len()
    &&& forall|i: int| 0 <= i < s.len() ==> same_ignoring_case(#[trigger] t[i], #[trigger] s[i])
}

/// Construction is case-insensitive: a re-casing of a valid name is itself
/// valid and has the same canonical form, so the two identifiers are equal.
pub proof fn lemma_case_insensitive(s: Seq<char>, t: Seq<char>)
    requires
        is_valid_name(s),
        is_recasing_of(t, s),
    ensures
        is_valid_name(t),
        fold_chars(t) == fold_chars(s),
{
    assert forall|i: int| 0 <= i < t.len() implies is_allowed_char(#[trigger] t[i]) by {
        assert(is_allowed_char(s[i]));
        assert(same_ignoring_case(t[i], s[i]));
    }
    assert(same_ignoring_case(t[0], s[0]));
    assert(is_valid_first_char(t[0]));
    assert(fold_chars(t) =~= fold_chars(s));
}

/// The canonical form is all lower case: folding leaves no upper-case letter.
pub proof fn lemma_fold_chars_lowercase(s: Seq<char>)
    ensures
        forall|i: int| 0 <= i < s.len() ==> !is_ascii_uppercase(#[trigger] fold_chars(s)[i]),
{
}

} // verus!
