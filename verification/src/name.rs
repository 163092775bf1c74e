use regex::Regex;
use vstd::prelude::*;

verus! {

/// The regular expression that an enum name and each variant name must
/// match: a first character that is neither a lowercase ASCII letter nor an
/// ASCII digit, and after it word characters only.
pub const NAME_PATTERN: &'static str = "^[^a-z0-9][\\w]*$";

/// Whether the regex crate's class `\w` holds `c`, for a character beyond
/// ASCII. The class is the crate's table of the characters with one of the
/// Unicode properties Alphabetic, Mark, Decimal_Number,
/// Connector_Punctuation and Join_Control; it depends on the character
/// alone.
pub uninterp spec fn unicode_word_char(c: char) -> bool;

/// Whether `c` is a lowercase ASCII letter or an ASCII digit.
pub open spec fn is_lower_or_digit(c: char) -> bool {
    ('a' <= c && c <= 'z') || ('0' <= c && c <= '9')
}

/// Whether `c` is an ASCII letter, an ASCII digit or the underscore.
pub open spec fn is_ascii_word_char(c: char) -> bool {
    ('a' <= c && c <= 'z') || ('A' <= c && c <= 'Z') || ('0' <= c && c <= '9') || c == '_'
}

/// Whether `c` is a word character: among ASCII characters the letters,
/// the digits and the underscore.
pub open spec fn is_word_char(c: char) -> bool {
    if c <= '\x7f' {
        is_ascii_word_char(c)
    } else {
        unicode_word_char(c)
    }
}

/// The shape that names must have: not empty, a first character that is
/// not a lowercase ASCII letter or digit, then word characters only.
pub open spec fn valid_name(s: Seq<char>) -> bool {
    &&& s.len() > 0
    &&& !is_lower_or_digit(s[0])
    &&& forall|i: int| 1 <= i < s.len() ==> is_word_char(#[trigger] s[i])
}

/// `Regex::new(pattern)` and `Regex::is_match(text)` of the regex crate, for
/// the name pattern alone: whether `text` matches it.
///
/// Not proved but taken from the crate's documentation of its syntax: `^`
/// and `$` stand for the two ends of the text; the negated class takes any
/// one character that is not in `a-z` or `0-9`, a line break too; `[\w]*`
/// takes word characters up to the end, which among ASCII characters are
/// the letters, the digits and the underscore; beyond ASCII the crate's
/// Unicode table decides, named here by [`unicode_word_char`]. The pattern
/// is well formed, so compiling it does not fail.
#[verifier::external_body]
fn matches_pattern(pattern: &str, text: &str) -> (found: bool)
    requires
        pattern@ == NAME_PATTERN@,
    ensures
        found == (text@.len() > 0 && !is_lower_or_digit(text@[0]) && forall|i: int|
            1 <= i < text@.len() ==> if #[trigger] text@[i] <= '\x7f' {
                is_ascii_word_char(text@[i])
            } else {
                unicode_word_char(text@[i])
            }),
{
    Regex::new(pattern).unwrap().is_match(text)
}

/// Whether `s` has the shape of a name. Despite what it is called, this is
/// a loose style check: it refuses a first character that is a lowercase
/// ASCII letter or a digit, and anything but word characters after it.
pub fn is_camel_case(s: &str) -> (ok: bool)
    ensures
        ok == valid_name(s@),
{
    matches_pattern(NAME_PATTERN, s)
}

/// A name that starts with a lowercase ASCII letter or an ASCII digit is
/// refused, and so is the empty name.
pub proof fn lemma_lowercase_or_digit_start_refused(s: Seq<char>)
    requires
        s.len() == 0 || is_lower_or_digit(s[0]),
    ensures
        !valid_name(s),
{
}

/// A name made of an uppercase ASCII letter or an underscore, followed by
/// ASCII letters, digits and underscores only, is accepted.
pub proof fn lemma_upper_or_underscore_start_accepted(s: Seq<char>)
    requires
        s.len() > 0,
        ('A' <= s[0] && s[0] <= 'Z') || s[0] == '_',
        forall|i: int|
            1 <= i < s.len() ==> is_ascii_word_char(#[trigger] s[i]),
    ensures
        valid_name(s),
{
}

} // verus!
