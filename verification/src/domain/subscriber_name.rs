//! A subscriber's display name.

use crate::domain::validation::Defect;
use crate::domain::validation::ValidationError;
use unicode_segmentation::UnicodeSegmentation;
use vstd::prelude::*;

verus! {

/// The most user-perceived characters a name may have.
pub const MAX_NAME_GRAPHEMES: usize = 256;

/// The number of extended grapheme clusters of `text`, as the Unicode text
/// segmentation rules count them.
pub uninterp spec fn grapheme_count(text: Seq<char>) -> nat;

/// Whether `c` has the Unicode property `White_Space`.
pub open spec fn is_white_space(c: char) -> bool {
    ||| '\u{9}' <= c <= '\u{d}'
    ||| c == ' '
    ||| c == '\u{85}'
    ||| c == '\u{a0}'
    ||| c == '\u{1680}'
    ||| '\u{2000}' <= c <= '\u{200a}'
    ||| c == '\u{2028}'
    ||| c == '\u{2029}'
    ||| c == '\u{202f}'
    ||| c == '\u{205f}'
    ||| c == '\u{3000}'
}

/// Whether `text` is empty or holds nothing but white space.
pub open spec fn is_blank(text: Seq<char>) -> bool {
    forall|i: int| 0 <= i < text.len() ==> is_white_space(#[trigger] text[i])
}

/// Whether `c` is one of the characters that no name may hold.
pub open spec fn is_forbidden(c: char) -> bool {
    ||| c == '/'
    ||| c == '('
    ||| c == ')'
    ||| c == '"'
    ||| c == '<'
    ||| c == '>'
    ||| c == '\\'
    ||| c == '{'
    ||| c == '}'
}

/// Whether `text` holds a forbidden character.
pub open spec fn has_forbidden(text: Seq<char>) -> bool {
    exists|i: int| 0 <= i < text.len() && is_forbidden(#[trigger] text[i])
}

/// What is wrong with `text` as a name, given the number of its grapheme
/// clusters: the first of blank, too long, forbidden character; `None` if
/// nothing is.
pub open spec fn name_defect(text: Seq<char>, graphemes: nat) -> Option<Defect> {
    if is_blank(text) {
        Some(Defect::BlankName)
    } else if graphemes > MAX_NAME_GRAPHEMES {
        Some(Defect::NameTooLong)
    } else if has_forbidden(text) {
        Some(Defect::ForbiddenCharacter)
    } else {
        None
    }
}

/// Whether `text` may be a subscriber's name.
pub open spec fn valid_name(text: Seq<char>) -> bool {
    name_defect(text, grapheme_count(text)) is None
}

/// Whether `c` has the Unicode property `White_Space`.
pub fn is_white_space_char(c: char) -> (b: bool)
    ensures
        b == is_white_space(c),
{
    ('\u{9}' <= c && c <= '\u{d}') || c == ' ' || c == '\u{85}' || c == '\u{a0}' || c
        == '\u{1680}' || ('\u{2000}' <= c && c <= '\u{200a}') || c == '\u{2028}' || c
        == '\u{2029}' || c == '\u{202f}' || c == '\u{205f}' || c == '\u{3000}'
}

/// Whether `c` is one of the characters that no name may hold.
pub fn is_forbidden_char(c: char) -> (b: bool)
    ensures
        b == is_forbidden(c),
{
    c == '/' || c == '(' || c == ')' || c == '"' || c == '<' || c == '>' || c == '\\' || c == '{'
        || c == '}'
}

/// Whether `text` is empty or holds nothing but white space.
pub fn is_blank_text(text: &str) -> (b: bool)
    ensures
        b == is_blank(text@),
{
    broadcast use vstd::string::axiom_spec_iter;

    let mut blank = true;
    for c in it: text.chars()
        invariant
            it.seq() == text@,
            blank == is_blank(text@.take(it.index())),
    {
        proof {
            let before = text@.take(it.index());
            let after = text@.take(it.index() + 1);
            assert(before =~= after.take(it.index()));
            assert(after[it.index()] == c);
            if is_blank(after) {
                assert forall|i: int| 0 <= i < before.len() implies is_white_space(
                    #[trigger] before[i],
                ) by {
                    assert(before[i] == after[i]);
                }
            }
            if is_blank(before) && is_white_space(c) {
                assert forall|i: int| 0 <= i < after.len() implies is_white_space(
                    #[trigger] after[i],
                ) by {
                    if i < it.index() {
                        assert(after[i] == before[i]);
                    }
                }
            }
        }
        if !is_white_space_char(c) {
            blank = false;
        }
    }
    assert(text@.take(text@.len() as int) =~= text@);
    blank
}

/// Whether `text` holds a forbidden character.
pub fn contains_forbidden(text: &str) -> (b: bool)
    ensures
        b == has_forbidden(text@),
{
    broadcast use vstd::string::axiom_spec_iter;

    let mut found = false;
    for c in it: text.chars()
        invariant
            it.seq() == text@,
            found == has_forbidden(text@.take(it.index())),
    {
        proof {
            let before = text@.take(it.index());
            let after = text@.take(it.index() + 1);
            assert(after[it.index()] == c);
            if has_forbidden(before) {
                let i = choose|i: int| 0 <= i < before.len() && is_forbidden(#[trigger] before[i]);
                assert(after[i] == before[i]);
            }
            if has_forbidden(after) {
                let i = choose|i: int| 0 <= i < after.len() && is_forbidden(#[trigger] after[i]);
                if i < it.index() {
                    assert(before[i] == after[i]);
                }
            }
        }
        if is_forbidden_char(c) {
            found = true;
        }
    }
    assert(text@.take(text@.len() as int) =~= text@);
    found
}

/// Trusted: `UnicodeSegmentation::graphemes(text, true).count()` walks the
/// extended grapheme clusters of `text` and counts them. The count depends on
/// the text alone, and since every cluster holds at least one character it
/// never exceeds the number of characters.
#[verifier::external_body]
fn count_graphemes(text: &str) -> (count: usize)
    ensures
        count == grapheme_count(text@),
        count <= text@.len(),
{
    text.graphemes(true).count()
}

/// What is wrong with `name`, whose grapheme clusters number `graphemes`.
pub fn check_name(name: &str, graphemes: usize) -> (defect: Option<Defect>)
    ensures
        defect == name_defect(name@, graphemes as nat),
{
    if is_blank_text(name) {
        Some(Defect::BlankName)
    } else if graphemes > MAX_NAME_GRAPHEMES {
        Some(Defect::NameTooLong)
    } else if contains_forbidden(name) {
        Some(Defect::ForbiddenCharacter)
    } else {
        None
    }
}

/// What is wrong with `name` as a subscriber's name; `None` if nothing is.
/// A name of no more characters than the limit is never too long, however
/// its characters group into clusters.
pub fn find_name_defect(name: &str) -> (defect: Option<Defect>)
    ensures
        defect == name_defect(name@, grapheme_count(name@)),
        name@.len() <= MAX_NAME_GRAPHEMES ==> defect != Some(Defect::NameTooLong),
{
    check_name(name, count_graphemes(name))
}

/// Whether `name` may be a subscriber's name.
pub fn is_valid_name(name: &str) -> (b: bool)
    ensures
        b == valid_name(name@),
        !is_blank(name@) && name@.len() <= MAX_NAME_GRAPHEMES && !has_forbidden(name@) ==> b,
{
    find_name_defect(name).is_none()
}

/// A name that has passed validation. It can only be made by
/// [`SubscriberName::parse`] and is never changed afterwards.
pub struct SubscriberName(String);

impl View for SubscriberName {
    type V = Seq<char>;

    closed spec fn view(&self) -> Seq<char> {
        self.0@
    }
}

impl SubscriberName {
    #[verifier::type_invariant]
    spec fn well_formed(self) -> bool {
        valid_name(self.0@)
    }

    /// Validates `name`. A valid name is kept as it came, untrimmed; an
    /// invalid one comes back inside the error, with the first defect found.
    ///
    /// So an empty name, a name of white space only, a name with a
    /// forbidden character and a name of more clusters than the limit are all
    /// refused; every other name is accepted and reads as it was given. A
    /// name that is not blank, has no forbidden character and no more
    /// characters than the limit is accepted whatever its clusters are.
    pub fn parse(name: String) -> (result: Result<SubscriberName, ValidationError>)
        ensures
            match result {
                Ok(parsed) => valid_name(name@) && parsed@ == name@,
                Err(error) => error.input@ == name@ && name_defect(name@, grapheme_count(name@))
                    == Some(error.defect),
            },
            is_blank(name@) ==> result is Err,
            has_forbidden(name@) ==> result is Err,
            grapheme_count(name@) > MAX_NAME_GRAPHEMES ==> result is Err,
            !is_blank(name@) && grapheme_count(name@) <= MAX_NAME_GRAPHEMES && !has_forbidden(
                name@,
            ) ==> (result matches Ok(parsed) && parsed@ == name@),
            !is_blank(name@) && name@.len() <= MAX_NAME_GRAPHEMES && !has_forbidden(name@) ==> (
            result matches Ok(parsed) && parsed@ == name@),
    {
        match find_name_defect(name.as_str()) {
            Some(defect) => Err(ValidationError { input: name, defect }),
            None => Ok(SubscriberName(name)),
        }
    }

    /// The name, as it was given to [`SubscriberName::parse`].
    pub fn as_ref(&self) -> (text: &str)
        ensures
            text@ == self@,
            valid_name(self@),
    {
        proof {
            use_type_invariant(self);
        }
        self.0.as_str()
    }
}

impl AsRef<str> for SubscriberName {
    fn as_ref(&self) -> (text: &str)
        ensures
            text@ == self@,
    {
        self.0.as_str()
    }
}

} // verus!
