use vstd::prelude::*;
use vstd::string::*;

use crate::domain::text::{is_white_space, is_white_space_char};

verus! {

/// No `@` and no white space.
pub open spec fn is_plain(s: Seq<char>) -> bool {
    forall|k: int| 0 <= k < s.len() ==> #[trigger] s[k] != '@' && !is_white_space(s[k])
}

pub open spec fn local_part_ok(l: Seq<char>) -> bool {
    l.len() > 0 && is_plain(l)
}

/// Dot-separated labels, at least two of them, none empty.
pub open spec fn domain_ok(d: Seq<char>) -> bool {
    &&& d.len() > 0
    &&& is_plain(d)
    &&& d[0] != '.'
    &&& d[d.len() - 1] != '.'
    &&& exists|k: int| 0 <= k < d.len() && #[trigger] d[k] == '.'
    &&& forall|k: int| 0 <= k < d.len() - 1 ==> !(#[trigger] d[k] == '.' && d[k + 1] == '.')
}

/// `local@domain`, with a non-empty local part and a dotted domain, and no
/// white space anywhere.
pub open spec fn email_is_valid(s: Seq<char>) -> bool {
    exists|i: int|
        0 <= i < s.len() && #[trigger] s[i] == '@' && local_part_ok(s.subrange(0, i)) && domain_ok(
            s.subrange(i + 1, s.len() as int),
        )
}

pub open spec fn email_rejection(s: Seq<char>) -> Seq<char> {
    s + " is not a valid subscriber email."@
}

/// The position of the first `c` in `s`, or its length.
fn find_char(s: &str, c: char) -> (r: usize)
    ensures
        r <= s@.len(),
        forall|k: int| 0 <= k < r ==> s@[k] != c,
        r < s@.len() ==> s@[r as int] == c,
{
    let n = s.unicode_len();
    let mut i: usize = 0;
    while i < n
        invariant
            n == s@.len(),
            i <= n,
            forall|k: int| 0 <= k < i ==> s@[k] != c,
        decreases n - i,
    {
        if s.get_char(i) == c {
            return i;
        }
        i += 1;
    }
    n
}

/// In a valid address the `@` that splits it is the first one.
proof fn lemma_split_at_first(s: Seq<char>, at: int)
    requires
        email_is_valid(s),
        0 <= at < s.len(),
        s[at] == '@',
        forall|k: int| 0 <= k < at ==> s[k] != '@',
    ensures
        local_part_ok(s.subrange(0, at)),
        domain_ok(s.subrange(at + 1, s.len() as int)),
{
    let i = choose|i: int|
        0 <= i < s.len() && #[trigger] s[i] == '@' && local_part_ok(s.subrange(0, i)) && domain_ok(
            s.subrange(i + 1, s.len() as int),
        );
    if i > at {
        assert(s.subrange(0, i)[at] == '@');
    }
}

/// Whether `s` is a valid address.
pub fn email_check(s: &str) -> (r: bool)
    ensures
        r == email_is_valid(s@),
{
    let n = s.unicode_len();
    let at = find_char(s, '@');
    if at == n {
        proof {
            if email_is_valid(s@) {
                let i = choose|i: int|
                    0 <= i < s@.len() && #[trigger] s@[i] == '@' && local_part_ok(
                        s@.subrange(0, i),
                    ) && domain_ok(s@.subrange(i + 1, s@.len() as int));
                assert(s@[i] == '@');
            }
        }
        return false;
    }
    if at == 0 || at + 1 == n {
        proof {
            if email_is_valid(s@) {
                lemma_split_at_first(s@, at as int);
            }
        }
        return false;
    }
    let mut k: usize = 0;
    while k < n
        invariant
            n == s@.len(),
            0 < at,
            at + 1 < n,
            s@[at as int] == '@',
            forall|j: int| 0 <= j < at ==> s@[j] != '@',
            k <= n,
            forall|j: int|
                0 <= j < k && j != at ==> #[trigger] s@[j] != '@' && !is_white_space(s@[j]),
        decreases n - k,
    {
        let c = s.get_char(k);
        if k != at && (c == '@' || is_white_space_char(c)) {
            proof {
                if email_is_valid(s@) {
                    lemma_split_at_first(s@, at as int);
                    if k < at {
                        assert(s@.subrange(0, at as int)[k as int] == c);
                    } else {
                        assert(s@.subrange(at + 1, n as int)[k - at - 1] == c);
                    }
                }
            }
            return false;
        }
        k += 1;
    }
    let ghost d = s@.subrange(at + 1, n as int);
    if s.get_char(at + 1) == '.' || s.get_char(n - 1) == '.' {
        proof {
            if email_is_valid(s@) {
                lemma_split_at_first(s@, at as int);
                assert(d[0] == s@[at + 1]);
                assert(d[d.len() - 1] == s@[n - 1]);
            }
        }
        return false;
    }
    let mut has_dot = false;
    let mut j: usize = at + 1;
    while j + 1 < n
        invariant
            n == s@.len(),
            at + 1 <= j < n,
            s@[at as int] == '@',
            forall|m: int| 0 <= m < at ==> s@[m] != '@',
            d == s@.subrange(at + 1, n as int),
            has_dot <==> exists|m: int| at + 1 <= m < j && #[trigger] s@[m] == '.',
            forall|m: int| at + 1 <= m < j ==> !(#[trigger] s@[m] == '.' && s@[m + 1] == '.'),
        decreases n - j,
    {
        let c = s.get_char(j);
        if c == '.' && s.get_char(j + 1) == '.' {
            proof {
                if email_is_valid(s@) {
                    lemma_split_at_first(s@, at as int);
                    assert(d[j - at - 1] == '.' && d[j - at] == '.');
                }
            }
            return false;
        }
        if c == '.' {
            has_dot = true;
        }
        j += 1;
    }
    proof {
        assert(local_part_ok(s@.subrange(0, at as int))) by {
            assert forall|m: int| 0 <= m < at implies #[trigger] s@.subrange(0, at as int)[m] != '@'
                && !is_white_space(s@.subrange(0, at as int)[m]) by {
                assert(s@.subrange(0, at as int)[m] == s@[m]);
            }
        }
        assert(is_plain(d)) by {
            assert forall|m: int| 0 <= m < d.len() implies #[trigger] d[m] != '@' && !is_white_space(
                d[m],
            ) by {
                assert(d[m] == s@[at + 1 + m]);
            }
        }
        assert forall|m: int| 0 <= m < d.len() - 1 implies !(#[trigger] d[m] == '.' && d[m + 1]
            == '.') by {
            assert(d[m] == s@[at + 1 + m]);
            assert(d[m + 1] == s@[at + 1 + m + 1]);
        }
        if has_dot {
            let m = choose|m: int| at + 1 <= m < j && #[trigger] s@[m] == '.';
            assert(d[m - at - 1] == '.');
            assert(domain_ok(d));
            assert(email_is_valid(s@));
        } else if email_is_valid(s@) {
            lemma_split_at_first(s@, at as int);
            let m = choose|m: int| 0 <= m < d.len() && #[trigger] d[m] == '.';
            assert(s@[at + 1 + m] == '.');
            assert(false);
        }
    }
    has_dot
}

/// An email address that passed validation. The text is private: `parse` is
/// the only way to obtain one.
#[derive(Debug)]
pub struct SubscriberEmail(String);

impl View for SubscriberEmail {
    type V = Seq<char>;

    closed spec fn view(&self) -> Seq<char> {
        self.0@
    }
}

impl SubscriberEmail {
    #[verifier::type_invariant]
    closed spec fn well_formed(&self) -> bool {
        email_is_valid(self.0@)
    }

    /// Validates a raw email address.
    pub fn parse(s: String) -> (r: Result<SubscriberEmail, String>)
        ensures
            r is Ok <==> email_is_valid(s@),
            r matches Ok(e) ==> e@ == s@,
            r matches Err(m) ==> m@ == email_rejection(s@),
    {
        if email_check(s.as_str()) {
            Ok(SubscriberEmail(s))
        } else {
            proof {
                reveal_strlit(" is not a valid subscriber email.");
            }
            Err(s.concat(" is not a valid subscriber email."))
        }
    }

    /// The validated text.
    pub fn as_ref(&self) -> (r: &str)
        ensures
            r@ == self@,
    {
        self.0.as_str()
    }

    /// A second handle on the same address.
    pub fn duplicate(&self) -> (r: SubscriberEmail)
        ensures
            r@ == self@,
    {
        proof {
            use_type_invariant(self);
        }
        SubscriberEmail(self.0.clone())
    }
}

/// An address without `@` is rejected.
pub proof fn lemma_address_without_at_rejected(s: Seq<char>)
    requires
        forall|k: int| 0 <= k < s.len() ==> s[k] != '@',
    ensures
        !email_is_valid(s),
{
    if email_is_valid(s) {
        let i = choose|i: int|
            0 <= i < s.len() && #[trigger] s[i] == '@' && local_part_ok(s.subrange(0, i))
                && domain_ok(s.subrange(i + 1, s.len() as int));
        assert(s[i] == '@');
    }
}

/// An address with no dot after its `@` is rejected.
pub proof fn lemma_domain_without_dot_rejected(s: Seq<char>)
    requires
        forall|i: int, m: int| 0 <= i < m < s.len() && s[i] == '@' ==> s[m] != '.',
    ensures
        !email_is_valid(s),
{
    if email_is_valid(s) {
        let i = choose|i: int|
            0 <= i < s.len() && #[trigger] s[i] == '@' && local_part_ok(s.subrange(0, i))
                && domain_ok(s.subrange(i + 1, s.len() as int));
        let d = s.subrange(i + 1, s.len() as int);
        let k = choose|k: int| 0 <= k < d.len() && #[trigger] d[k] == '.';
        assert(s[i + 1 + k] == '.');
    }
}

} // verus!
