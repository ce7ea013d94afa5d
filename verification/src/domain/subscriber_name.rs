//! Subscriber names: not blank, at most `MAX_NAME_LENGTH` grapheme clusters,
//! and free of characters that could smuggle markup or paths.

use unicode_segmentation::UnicodeSegmentation;
use vstd::prelude::*;

use crate::text::{decimal, decimal_string};

verus! {

/// The most grapheme clusters a subscriber name may have.
pub const MAX_NAME_LENGTH: usize = 256;

/// The characters with the Unicode White_Space property, which `str::trim`
/// strips and `char::is_whitespace` reports.
pub open spec fn is_white_space(c: char) -> bool {
    let u = c as u32;
    ||| 0x9 <= u <= 0xD
    ||| u == 0x20
    ||| u == 0x85
    ||| u == 0xA0
    ||| u == 0x1680
    ||| 0x2000 <= u <= 0x200A
    ||| u == 0x2028
    ||| u == 0x2029
    ||| u == 0x202F
    ||| u == 0x205F
    ||| u == 0x3000
}

/// A name made of whitespace alone (the empty name among them).
pub open spec fn is_blank(s: Seq<char>) -> bool {
    forall|i: int| 0 <= i < s.len() ==> is_white_space(#[trigger] s[i])
}

/// `r` is `s` without its leading and trailing whitespace: a slice of `s`
/// with only whitespace before and after it, neither starting nor ending
/// in whitespace.
pub open spec fn is_trim_of(s: Seq<char>, r: Seq<char>) -> bool {
    exists|a: int, b: int|
        #![trigger s.subrange(a, b)]
        {
            &&& 0 <= a <= b <= s.len()
            &&& r == s.subrange(a, b)
            &&& forall|i: int| 0 <= i < a ==> is_white_space(#[trigger] s[i])
            &&& forall|i: int| b <= i < s.len() ==> is_white_space(#[trigger] s[i])
            &&& a < b ==> !is_white_space(s[a]) && !is_white_space(s[b - 1])
        }
}

/// Trimming leaves nothing exactly of a blank string.
proof fn trim_is_empty_iff_blank(s: Seq<char>, r: Seq<char>)
    requires
        is_trim_of(s, r),
    ensures
        r.len() == 0 <==> is_blank(s),
{
    let (a, b) = choose|a: int, b: int|
        #![trigger s.subrange(a, b)]
        {
            &&& 0 <= a <= b <= s.len()
            &&& r == s.subrange(a, b)
            &&& forall|i: int| 0 <= i < a ==> is_white_space(#[trigger] s[i])
            &&& forall|i: int| b <= i < s.len() ==> is_white_space(#[trigger] s[i])
            &&& a < b ==> !is_white_space(s[a]) && !is_white_space(s[b - 1])
        };
    if r.len() == 0 {
        assert forall|i: int| 0 <= i < s.len() implies is_white_space(#[trigger] s[i]) by {
            if i >= a {
                assert(b <= i);
            }
        }
    }
}

/// How many extended grapheme clusters `unicode_segmentation` finds in a string.
pub uninterp spec fn grapheme_count(s: Seq<char>) -> nat;

/// `str::trim` from the standard library, which removes leading and
/// trailing characters with the Unicode White_Space property. Claimed: the
/// result is the argument so trimmed (`is_trim_of`).
#[verifier::external_body]
fn trim_str(s: &str) -> (r: &str)
    ensures
        is_trim_of(s@, r@),
{
    s.trim()
}

/// `UnicodeSegmentation::graphemes(s, true).count()` from `unicode_segmentation`.
/// Claimed: the count is `grapheme_count` of the argument. Nothing is said of
/// how the clusters are found.
#[verifier::external_body]
fn count_graphemes(s: &str) -> (n: usize)
    ensures
        n == grapheme_count(s@),
{
    s.graphemes(true).count()
}

/// The characters no subscriber name may contain.
pub open spec fn is_forbidden_char(c: char) -> bool {
    c == '/' || c == '\\' || c == '(' || c == ')' || c == '"' || c == '<' || c == '>' || c == '{'
        || c == '}'
}

/// The forbidden characters are exactly these nine.
pub proof fn forbidden_characters_are_the_nine(c: char)
    ensures
        is_forbidden_char(c) <==> (c == '/' || c == '\\' || c == '(' || c == ')' || c == '"'
            || c == '<' || c == '>' || c == '{' || c == '}'),
{
}

/// The whitespace characters are exactly the 25 with the Unicode
/// White_Space property.
pub proof fn white_space_is_the_unicode_property(c: char)
    ensures
        is_white_space(c) <==> {
            ||| c == '\t' || c == '\n' || c == '\u{b}' || c == '\u{c}' || c == '\r'
            ||| c == ' ' || c == '\u{85}' || c == '\u{a0}' || c == '\u{1680}'
            ||| c == '\u{2000}' || c == '\u{2001}' || c == '\u{2002}' || c == '\u{2003}'
            ||| c == '\u{2004}' || c == '\u{2005}' || c == '\u{2006}' || c == '\u{2007}'
            ||| c == '\u{2008}' || c == '\u{2009}' || c == '\u{200a}'
            ||| c == '\u{2028}' || c == '\u{2029}' || c == '\u{202f}' || c == '\u{205f}'
            ||| c == '\u{3000}'
        },
{
}

pub open spec fn has_forbidden_char(s: Seq<char>) -> bool {
    exists|i: int| 0 <= i < s.len() && is_forbidden_char(#[trigger] s[i])
}

/// The error for a blank name.
pub open spec fn blank_message() -> Seq<char> {
    "empty name field"@
}

/// The error for a name with too many grapheme clusters.
pub open spec fn too_long_message(name: Seq<char>) -> Seq<char> {
    "name "@ + name + " greater than character limit "@ + decimal(MAX_NAME_LENGTH as nat)
}

/// The error for a name holding a forbidden character.
pub open spec fn invalid_characters_message(name: Seq<char>) -> Seq<char> {
    "name "@ + name + " contains invalid characters"@
}

/// The limit in the too-long message reads `256`.
proof fn limit_message_spells_256()
    ensures
        forall|name: Seq<char>|
            #[trigger] too_long_message(name) == "name "@ + name
                + " greater than character limit 256"@,
{
    reveal_strlit(" greater than character limit ");
    reveal_strlit(" greater than character limit 256");
    assert(decimal(2) == seq!['2']);
    assert(decimal(25) =~= seq!['2', '5']);
    assert(decimal(256) =~= seq!['2', '5', '6']);
    assert forall|name: Seq<char>|
        #[trigger] too_long_message(name) == "name "@ + name + " greater than character limit 256"@ by {
        assert(" greater than character limit "@ + decimal(256) =~= " greater than character limit 256"@);
        assert(too_long_message(name) =~= "name "@ + name + (" greater than character limit "@ + decimal(256)));
        assert("name "@ + name + " greater than character limit 256"@ =~= "name "@ + name + (" greater than character limit "@ + decimal(256)));
    }
}

/// The checks that follow the blank check, given the name's grapheme count:
/// `None` where the name passes them, else the error.
pub open spec fn rejection_for(name: Seq<char>, graphemes: nat) -> Option<Seq<char>> {
    if graphemes > MAX_NAME_LENGTH {
        Some(too_long_message(name))
    } else if has_forbidden_char(name) {
        Some(invalid_characters_message(name))
    } else {
        None
    }
}

/// What parsing `name` gives: the name itself, or the error of the first
/// check it fails (blank, then too long, then forbidden characters).
pub open spec fn parse_outcome(name: Seq<char>) -> Result<Seq<char>, Seq<char>> {
    if is_blank(name) {
        Err(blank_message())
    } else {
        match rejection_for(name, grapheme_count(name)) {
            Some(e) => Err(e),
            None => Ok(name),
        }
    }
}

/// A name that parsing accepts.
pub open spec fn is_valid_name(name: Seq<char>) -> bool {
    parse_outcome(name) == Ok::<Seq<char>, Seq<char>>(name)
}

/// Parsing refuses every blank name, every name of more than
/// `MAX_NAME_LENGTH` grapheme clusters and every name holding a forbidden
/// character, and accepts every other name unchanged.
pub proof fn parse_accepts_exactly_valid_names(name: Seq<char>)
    ensures
        is_blank(name) ==> parse_outcome(name) == Err::<Seq<char>, Seq<char>>(
            blank_message(),
        ),
        grapheme_count(name) > MAX_NAME_LENGTH ==> parse_outcome(name) is Err,
        has_forbidden_char(name) ==> parse_outcome(name) is Err,
        parse_outcome(name) is Ok <==> {
            &&& !is_blank(name)
            &&& grapheme_count(name) <= MAX_NAME_LENGTH
            &&& !has_forbidden_char(name)
        },
        parse_outcome(name) is Ok ==> is_valid_name(name),
{
}

/// A subscriber's name, as accepted by `SubscriberName::parse`.
#[derive(Debug)]
pub struct SubscriberName(String);

impl View for SubscriberName {
    type V = Seq<char>;

    closed spec fn view(&self) -> Seq<char> {
        self.0@
    }
}

impl SubscriberName {
    #[verifier::type_invariant]
    closed spec fn holds_valid_name(self) -> bool {
        is_valid_name(self.0@)
    }

    /// Accepts `input` as a name unless it is blank (empty once trimmed), has more
    /// than `MAX_NAME_LENGTH` grapheme clusters, or holds a forbidden
    /// character; each refusal has its own message.
    pub fn parse(input: String) -> (r: Result<Self, String>)
        ensures
            match r {
                Ok(name) => parse_outcome(input@) == Ok::<Seq<char>, Seq<char>>(name@),
                Err(e) => parse_outcome(input@) == Err::<Seq<char>, Seq<char>>(e@),
            },
            (forall|i: int| 0 <= i < input@.len() ==> is_white_space(#[trigger] input@[i]))
                ==> (r matches Err(e) && e@ == "empty name field"@),
            !(forall|i: int| 0 <= i < input@.len() ==> is_white_space(#[trigger] input@[i]))
                && grapheme_count(input@) > 256 ==> (r matches Err(e) && e@ == "name "@ + input@
                + " greater than character limit 256"@),
            !(forall|i: int| 0 <= i < input@.len() ==> is_white_space(#[trigger] input@[i]))
                && grapheme_count(input@) <= 256 && (exists|i: int|
                0 <= i < input@.len() && is_forbidden_char(#[trigger] input@[i])) ==> (r matches Err(
                e,
            ) && e@ == "name "@ + input@ + " contains invalid characters"@),
            !(forall|i: int| 0 <= i < input@.len() ==> is_white_space(#[trigger] input@[i]))
                && grapheme_count(input@) <= 256 && !(exists|i: int|
                0 <= i < input@.len() && is_forbidden_char(#[trigger] input@[i])) ==> (r matches Ok(
                name,
            ) && name@ == input@),
    {
        proof {
            limit_message_spells_256();
        }
        let trimmed = trim_str(input.as_str());
        proof {
            trim_is_empty_iff_blank(input@, trimmed@);
        }
        if trimmed.is_empty() {
            return Err(String::from_str("empty name field"));
        }
        let graphemes = count_graphemes(input.as_str());
        match Self::rejection(input.as_str(), graphemes) {
            Some(e) => Err(e),
            None => Ok(SubscriberName(input)),
        }
    }

    /// The checks of `parse` after the blank check, for a name with
    /// `graphemes` grapheme clusters: `None` where the name passes them,
    /// else the error message.
    pub fn rejection(name: &str, graphemes: usize) -> (r: Option<String>)
        ensures
            match r {
                Some(e) => rejection_for(name@, graphemes as nat) == Some(e@),
                None => rejection_for(name@, graphemes as nat) is None,
            },
            graphemes > 256 ==> (r matches Some(e) && e@ == "name "@ + name@
                + " greater than character limit 256"@),
            graphemes <= 256 && (exists|i: int|
                0 <= i < name@.len() && is_forbidden_char(#[trigger] name@[i])) ==> (r matches Some(
                e,
            ) && e@ == "name "@ + name@ + " contains invalid characters"@),
            graphemes <= 256 && !(exists|i: int|
                0 <= i < name@.len() && is_forbidden_char(#[trigger] name@[i])) ==> r is None,
    {
        proof {
            limit_message_spells_256();
        }
        if graphemes > MAX_NAME_LENGTH {
            let mut e = String::from_str("name ");
            e.append(name);
            e.append(" greater than character limit ");
            let limit = decimal_string(MAX_NAME_LENGTH as u128);
            e.append(limit.as_str());
            return Some(e);
        }
        if contains_forbidden_char(name) {
            let mut e = String::from_str("name ");
            e.append(name);
            e.append(" contains invalid characters");
            return Some(e);
        }
        None
    }

    /// The name as a string slice; it is the string that `parse` accepted.
    pub fn as_ref(&self) -> (s: &str)
        ensures
            s@ == self@,
            is_valid_name(s@),
    {
        proof {
            use_type_invariant(self);
        }
        self.0.as_str()
    }
}

fn is_forbidden(c: char) -> (b: bool)
    ensures
        b == is_forbidden_char(c),
{
    c == '/' || c == '\\' || c == '(' || c == ')' || c == '"' || c == '<' || c == '>' || c == '{'
        || c == '}'
}

fn contains_forbidden_char(s: &str) -> (b: bool)
    ensures
        b == has_forbidden_char(s@),
{
    broadcast use vstd::string::group_string_axioms;

    for c in it: s.chars()
        invariant
            it.seq() == s@,
            forall|j: int| 0 <= j < it.index() ==> !is_forbidden_char(#[trigger] s@[j]),
    {
        if is_forbidden(c) {
            return true;
        }
    }
    false
}

} // verus!
