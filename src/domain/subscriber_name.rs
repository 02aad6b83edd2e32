use unicode_segmentation::UnicodeSegmentation;
use vstd::prelude::*;
use vstd::string::*;

use crate::domain::text::{is_blank, str_is_blank};

verus! {

/// The largest number of grapheme clusters a subscriber name may hold.
pub const MAX_NAME_GRAPHEMES: usize = 256;

/// The number of extended grapheme clusters in `s`.
pub uninterp spec fn grapheme_count(s: Seq<char>) -> nat;

/// Relies on unicode_segmentation's `str::graphemes(true)`: the iterator over
/// the extended grapheme clusters of `s`, counted.
#[verifier::external_body]
fn count_graphemes(s: &str) -> (r: usize)
    ensures
        r as nat == grapheme_count(s@),
{
    s.graphemes(true).count()
}

/// Characters a subscriber name may not contain.
pub open spec fn is_forbidden(c: char) -> bool {
    c == '/' || c == '(' || c == ')' || c == '"' || c == '<' || c == '>' || c == '\\' || c == '{'
        || c == '}'
}

pub open spec fn has_forbidden(s: Seq<char>) -> bool {
    exists|i: int| 0 <= i < s.len() && is_forbidden(#[trigger] s[i])
}

/// A name is valid when it is not blank, has at most `MAX_NAME_GRAPHEMES`
/// grapheme clusters (`graphemes` of them) and holds no forbidden character.
pub open spec fn name_is_valid(s: Seq<char>, graphemes: nat) -> bool {
    !is_blank(s) && graphemes <= MAX_NAME_GRAPHEMES && !has_forbidden(s)
}

/// The message a rejected name is reported with.
pub open spec fn name_rejection(s: Seq<char>, graphemes: nat) -> Seq<char> {
    if is_blank(s) {
        "Name is empty."@
    } else if graphemes > MAX_NAME_GRAPHEMES {
        "Name is too long"@
    } else {
        "Name has forbidden character."@
    }
}

/// A display name that passed validation. The text is private: `parse` is the
/// only way to obtain one.
#[derive(Debug)]
pub struct SubscriberName(String);

impl View for SubscriberName {
    type V = Seq<char>;

    closed spec fn view(&self) -> Seq<char> {
        self.0@
    }
}

impl SubscriberName {
    #[verifier::type_invariant]
    closed spec fn well_formed(&self) -> bool {
        name_is_valid(self.0@, grapheme_count(self.0@))
    }

    /// Checks the rules on `s`, given the number of its grapheme clusters.
    pub fn check(s: &str, graphemes: usize) -> (r: Result<(), String>)
        ensures
            r is Ok <==> name_is_valid(s@, graphemes as nat),
            r matches Err(e) ==> e@ == name_rejection(s@, graphemes as nat),
    {
        proof {
            reveal_strlit("Name is empty.");
            reveal_strlit("Name is too long");
            reveal_strlit("Name has forbidden character.");
        }
        if str_is_blank(s) {
            return Err(String::from_str("Name is empty."));
        }
        if graphemes > MAX_NAME_GRAPHEMES {
            return Err(String::from_str("Name is too long"));
        }
        let n = s.unicode_len();
        let mut i: usize = 0;
        while i < n
            invariant
                n == s@.len(),
                i <= n,
                !is_blank(s@),
                graphemes <= MAX_NAME_GRAPHEMES,
                forall|k: int| 0 <= k < i ==> !is_forbidden(#[trigger] s@[k]),
            decreases n - i,
        {
            let c = s.get_char(i);
            if c == '/' || c == '(' || c == ')' || c == '"' || c == '<' || c == '>' || c == '\\'
                || c == '{' || c == '}' {
                return Err(String::from_str("Name has forbidden character."));
            }
            i += 1;
        }
        Ok(())
    }

    /// Validates a raw display name.
    pub fn parse(s: String) -> (r: Result<SubscriberName, String>)
        ensures
            r is Ok <==> name_is_valid(s@, grapheme_count(s@)),
            r matches Ok(n) ==> n@ == s@,
            r matches Err(e) ==> e@ == name_rejection(s@, grapheme_count(s@)),
    {
        let g = count_graphemes(s.as_str());
        match Self::check(s.as_str(), g) {
            Ok(()) => Ok(SubscriberName(s)),
            Err(e) => Err(e),
        }
    }

    /// The validated text.
    pub fn as_ref(&self) -> (r: &str)
        ensures
            r@ == self@,
    {
        self.0.as_str()
    }
}

/// A blank name (empty or white space only) is rejected, whatever its length.
pub proof fn lemma_blank_name_rejected(s: Seq<char>, graphemes: nat)
    requires
        is_blank(s),
    ensures
        !name_is_valid(s, graphemes),
{
}

/// For a name that is not blank and has no forbidden character, the length
/// alone decides: up to `MAX_NAME_GRAPHEMES` grapheme clusters pass, one
/// more fails.
pub proof fn lemma_length_limit(s: Seq<char>, graphemes: nat)
    requires
        !is_blank(s),
        !has_forbidden(s),
    ensures
        name_is_valid(s, graphemes) <==> graphemes <= MAX_NAME_GRAPHEMES,
        graphemes == MAX_NAME_GRAPHEMES ==> name_is_valid(s, graphemes),
        graphemes == MAX_NAME_GRAPHEMES + 1 ==> !name_is_valid(s, graphemes),
{
}

/// A name that holds a forbidden character is rejected.
pub proof fn lemma_forbidden_character_rejected(s: Seq<char>, graphemes: nat)
    requires
        has_forbidden(s),
    ensures
        !name_is_valid(s, graphemes),
{
}

} // verus!
