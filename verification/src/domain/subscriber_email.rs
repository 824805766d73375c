//! A subscriber's e-mail address.
//!
//! An address is a local part, one `@`, and a domain. The local part is one
//! or more letters, digits, dots and the printable signs that mail systems
//! accept unquoted. The domain is two or more labels joined by dots; a label
//! is made of letters, digits and hyphens and neither starts nor ends with a
//! hyphen.

use crate::domain::validation::Defect;
use crate::domain::validation::ValidationError;
use crate::text::chars_of;
use vstd::prelude::*;

verus! {

/// Whether `c` is an ASCII letter or digit.
pub open spec fn is_letter_or_digit(c: char) -> bool {
    ||| 'a' <= c <= 'z'
    ||| 'A' <= c <= 'Z'
    ||| '0' <= c <= '9'
}

/// Whether `c` may stand in the local part of an address.
pub open spec fn is_local_char(c: char) -> bool {
    ||| is_letter_or_digit(c)
    ||| c == '.'
    ||| c == '!'
    ||| c == '#'
    ||| c == '$'
    ||| c == '%'
    ||| c == '&'
    ||| c == '\''
    ||| c == '*'
    ||| c == '+'
    ||| c == '/'
    ||| c == '='
    ||| c == '?'
    ||| c == '^'
    ||| c == '_'
    ||| c == '`'
    ||| c == '{'
    ||| c == '|'
    ||| c == '}'
    ||| c == '~'
    ||| c == '-'
}

/// Whether `part` may stand before the `@`.
pub open spec fn valid_local_part(part: Seq<char>) -> bool {
    &&& part.len() > 0
    &&& forall|i: int| 0 <= i < part.len() ==> is_local_char(#[trigger] part[i])
}

/// Whether the character at `i` may stand at that place of `domain`: a letter
/// or a digit anywhere, a hyphen anywhere, a dot only between two characters
/// that are letters or digits.
pub open spec fn domain_char_fits(domain: Seq<char>, i: int) -> bool {
    ||| is_letter_or_digit(domain[i])
    ||| domain[i] == '-'
    ||| {
        &&& domain[i] == '.'
        &&& 0 < i < domain.len() - 1
        &&& is_letter_or_digit(domain[i - 1])
        &&& is_letter_or_digit(domain[i + 1])
    }
}

/// Whether `domain` has a dot at `i`.
pub open spec fn dot_at(domain: Seq<char>, i: int) -> bool {
    0 <= i < domain.len() && domain[i] == '.'
}

/// Whether `domain` may stand after the `@`: it starts and ends with a letter
/// or digit, has at least one dot, and every character fits its place. So it
/// has at least two labels, none of them empty, none with a hyphen at an end.
pub open spec fn valid_domain(domain: Seq<char>) -> bool {
    &&& domain.len() > 0
    &&& is_letter_or_digit(domain[0])
    &&& is_letter_or_digit(domain[domain.len() - 1])
    &&& exists|i: int| dot_at(domain, i)
    &&& forall|i: int| 0 <= i < domain.len() ==> #[trigger] domain_char_fits(domain, i)
}

/// Whether `text` is an address whose `@` stands at `at`.
pub open spec fn splits_at(text: Seq<char>, at: int) -> bool {
    &&& 0 <= at < text.len()
    &&& text[at] == '@'
    &&& valid_local_part(text.subrange(0, at))
    &&& valid_domain(text.subrange(at + 1, text.len() as int))
}

/// Whether `text` is an e-mail address.
pub open spec fn valid_email(text: Seq<char>) -> bool {
    exists|at: int| splits_at(text, at)
}

/// Whether `c` is an ASCII letter or digit.
pub fn is_letter_or_digit_char(c: char) -> (b: bool)
    ensures
        b == is_letter_or_digit(c),
{
    ('a' <= c && c <= 'z') || ('A' <= c && c <= 'Z') || ('0' <= c && c <= '9')
}

/// Whether `c` may stand in the local part of an address.
pub fn is_local_part_char(c: char) -> (b: bool)
    ensures
        b == is_local_char(c),
{
    is_letter_or_digit_char(c) || c == '.' || c == '!' || c == '#' || c == '$' || c == '%' || c
        == '&' || c == '\'' || c == '*' || c == '+' || c == '/' || c == '=' || c == '?' || c == '^'
        || c == '_' || c == '`' || c == '{' || c == '|' || c == '}' || c == '~' || c == '-'
}

/// Whether the first `end` characters may stand before the `@`.
fn check_local_part(chars: &Vec<char>, end: usize) -> (b: bool)
    requires
        end <= chars.len(),
    ensures
        b == valid_local_part(chars@.subrange(0, end as int)),
{
    let ghost part = chars@.subrange(0, end as int);
    if end == 0 {
        return false;
    }
    let mut i: usize = 0;
    while i < end
        invariant
            i <= end <= chars.len(),
            part == chars@.subrange(0, end as int),
            forall|j: int| 0 <= j < i ==> is_local_char(#[trigger] part[j]),
        decreases end - i,
    {
        if !is_local_part_char(chars[i]) {
            assert(!is_local_char(part[i as int]));
            return false;
        }
        i += 1;
    }
    true
}

/// Whether the characters from `start` on may stand after the `@`.
fn check_domain(chars: &Vec<char>, start: usize) -> (b: bool)
    requires
        start <= chars.len(),
    ensures
        b == valid_domain(chars@.subrange(start as int, chars.len() as int)),
{
    let ghost domain = chars@.subrange(start as int, chars.len() as int);
    let len = chars.len();
    if start == len {
        return false;
    }
    if !is_letter_or_digit_char(chars[start]) || !is_letter_or_digit_char(chars[len - 1]) {
        assert(domain[0] == chars[start as int]);
        assert(domain[domain.len() - 1] == chars[len - 1]);
        return false;
    }
    assert(domain[0] == chars[start as int]);
    assert(domain[domain.len() - 1] == chars[len - 1]);
    let mut dotted = false;
    let mut i: usize = start;
    while i < len
        invariant
            start <= i <= len,
            len == chars.len(),
            domain == chars@.subrange(start as int, len as int),
            forall|j: int| 0 <= j < i - start ==> #[trigger] domain_char_fits(domain, j),
            dotted == exists|j: int| 0 <= j < i - start && dot_at(domain, j),
        decreases len - i,
    {
        let c = chars[i];
        let ghost k = i - start;
        assert(domain[k] == c);
        if c == '.' {
            if i == start || i + 1 == len {
                assert(!domain_char_fits(domain, k));
                return false;
            }
            assert(domain[k - 1] == chars[i - 1]);
            assert(domain[k + 1] == chars[i + 1]);
            if !is_letter_or_digit_char(chars[i - 1]) || !is_letter_or_digit_char(chars[i + 1]) {
                assert(!domain_char_fits(domain, k));
                return false;
            }
            assert(dot_at(domain, k));
            dotted = true;
        } else if !(is_letter_or_digit_char(c) || c == '-') {
            assert(!domain_char_fits(domain, k));
            return false;
        } else {
            assert(!dot_at(domain, k));
        }
        assert(domain_char_fits(domain, k));
        i += 1;
    }
    dotted
}

/// Whether `text` is an e-mail address.
pub fn is_valid_email(text: &str) -> (b: bool)
    ensures
        b == valid_email(text@),
{
    let chars = chars_of(text);
    let len = chars.len();
    let mut at: usize = 0;
    while at < len && chars[at] != '@'
        invariant
            at <= len,
            len == chars.len(),
            forall|j: int| 0 <= j < at ==> chars[j] != '@',
        decreases len - at,
    {
        at += 1;
    }
    proof {
        // Only the first `@` can split an address: a later one would leave
        // an `@` in the local part.
        assert forall|other: int| splits_at(chars@, other) implies other == at by {
            if other > at {
                let part = chars@.subrange(0, other);
                assert(part[at as int] == '@');
                assert(!is_local_char(part[at as int]));
            }
        }
    }
    if at == len {
        return false;
    }
    let fits = check_local_part(&chars, at) && check_domain(&chars, at + 1);
    proof {
        if fits {
            assert(splits_at(chars@, at as int));
        }
    }
    fits
}

/// An address that has passed validation. It can only be made by
/// [`SubscriberEmail::parse`] and is never changed afterwards.
pub struct SubscriberEmail(String);

impl View for SubscriberEmail {
    type V = Seq<char>;

    closed spec fn view(&self) -> Seq<char> {
        self.0@
    }
}

impl SubscriberEmail {
    #[verifier::type_invariant]
    spec fn well_formed(self) -> bool {
        valid_email(self.0@)
    }

    /// Validates `raw`. A valid address is kept as it came; an invalid one
    /// comes back inside the error.
    pub fn parse(raw: String) -> (result: Result<SubscriberEmail, ValidationError>)
        ensures
            match result {
                Ok(parsed) => valid_email(raw@) && parsed@ == raw@,
                Err(error) => !valid_email(raw@) && error.input@ == raw@ && error.defect
                    == Defect::MalformedEmail,
            },
    {
        if is_valid_email(raw.as_str()) {
            Ok(SubscriberEmail(raw))
        } else {
            Err(ValidationError { input: raw, defect: Defect::MalformedEmail })
        }
    }

    /// The address, as it was given to [`SubscriberEmail::parse`].
    pub fn as_ref(&self) -> (text: &str)
        ensures
            text@ == self@,
            valid_email(self@),
    {
        proof {
            use_type_invariant(self);
        }
        self.0.as_str()
    }
}

impl AsRef<str> for SubscriberEmail {
    fn as_ref(&self) -> (text: &str)
        ensures
            text@ == self@,
    {
        self.0.as_str()
    }
}

} // verus!
