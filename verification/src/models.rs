//! The enriched user record and the two normalisations applied while
//! building it: stripping `@` from company names and joining organization
//! names with `", "`.

use vstd::prelude::*;
use crate::text::{push_char, seq_join};

verus! {

broadcast use vstd::string::group_string_axioms;

/// An enriched GitHub user profile, one CSV row apart from the interaction
/// column.
#[derive(Debug, Clone)]
pub struct User {
    /// GitHub login handle.
    pub username: String,
    /// Company affiliation with every `@` removed.
    pub company: String,
    /// Organization logins joined with `", "`.
    pub organizations: String,
    /// Public email, empty when not public.
    pub email: String,
    /// Listed location, empty when not set.
    pub location: String,
    /// Follower count.
    pub followers: u64,
    /// Public repository count.
    pub repos: u64,
}

/// Whether a character is kept by the company normalisation.
pub open spec fn is_not_at(c: char) -> bool {
    c != '@'
}

/// `s` with every `@` removed, the other characters kept in order.
pub open spec fn strip_at(s: Seq<char>) -> Seq<char> {
    s.filter(|c: char| is_not_at(c))
}

/// What `normalize_company` returns: the company with `@` stripped, or the
/// empty text when there is none.
pub open spec fn normalized_company(company: Option<Seq<char>>) -> Seq<char> {
    match company {
        Some(c) => strip_at(c),
        None => Seq::empty(),
    }
}

/// The organization logins separated by `", "`.
pub open spec fn joined_organizations(orgs: Seq<Seq<char>>) -> Seq<char> {
    seq_join(orgs, ", "@)
}

/// `None` read as the empty text.
pub open spec fn text_or_empty(s: Option<String>) -> Seq<char> {
    match s {
        Some(t) => t@,
        None => Seq::empty(),
    }
}

/// The user record `User::new` builds from the raw profile fields.
pub open spec fn user_from_profile(
    email: Option<String>,
    location: Option<String>,
    username: Seq<char>,
    company: Option<String>,
    orgs: Seq<Seq<char>>,
) -> (Seq<char>, Seq<char>, Seq<char>, Seq<char>, Seq<char>) {
    (
        username,
        normalized_company(
            match company {
                Some(c) => Some(c@),
                None => None,
            },
        ),
        joined_organizations(orgs),
        text_or_empty(email),
        text_or_empty(location),
    )
}

impl User {
    /// The text fields of the record, in CSV column order: username,
    /// company, organizations, email, location.
    pub open spec fn text_fields(self) -> (Seq<char>, Seq<char>, Seq<char>, Seq<char>, Seq<char>) {
        (self.username@, self.company@, self.organizations@, self.email@, self.location@)
    }

    /// Builds a user record: a missing email or location becomes empty, the
    /// company loses every `@`, and the organizations are joined with `", "`.
    pub fn new(
        email: Option<String>,
        location: Option<String>,
        username: String,
        company: Option<String>,
        followers: u64,
        repos: u64,
        organizations: Vec<String>,
    ) -> (user: Self)
        ensures
            user.text_fields() == user_from_profile(
                email,
                location,
                username@,
                company,
                organizations.deep_view(),
            ),
            user.followers == followers,
            user.repos == repos,
            user.username@ == username@,
            user.email@ == (match email {
                Some(e) => e@,
                None => Seq::<char>::empty(),
            }),
            user.location@ == (match location {
                Some(l) => l@,
                None => Seq::<char>::empty(),
            }),
    {
        let normalized = match &company {
            Some(c) => normalize_company(Some(c.as_str())),
            None => normalize_company(None),
        };
        let joined = join_organizations(organizations.as_slice());
        let email_text = match email {
            Some(e) => e,
            None => String::new(),
        };
        let location_text = match location {
            Some(l) => l,
            None => String::new(),
        };
        User {
            username,
            company: normalized,
            organizations: joined,
            email: email_text,
            location: location_text,
            followers,
            repos,
        }
    }
}

/// Removes every `@` from a company name; `None` gives the empty string.
pub fn normalize_company(company: Option<&str>) -> (res: String)
    ensures
        res@ == normalized_company(
            match company {
                Some(c) => Some(c@),
                None => None,
            },
        ),
{
    match company {
        None => String::new(),
        Some(c) => {
            let mut res = String::new();
            for ch in it: c.chars()
                invariant
                    it.seq() == c@,
                    res@ == strip_at(c@.take(it.index() as int)),
            {
                let ghost i = it.index() as int;
                proof {
                    reveal(Seq::filter);
                    assert(c@.take(i + 1).drop_last() =~= c@.take(i));
                }
                if ch != '@' {
                    push_char(&mut res, ch);
                }
            }
            assert(c@.take(c@.len() as int) =~= c@);
            res
        },
    }
}

/// Joins organization names with `", "`; no names give the empty string.
pub fn join_organizations(orgs: &[String]) -> (res: String)
    ensures
        res@ == joined_organizations(orgs.deep_view()),
{
    let mut res = String::new();
    let ghost parts = orgs.deep_view();
    let n = orgs.len();
    let mut i: usize = 0;
    while i < n
        invariant
            n == orgs.len(),
            parts == orgs.deep_view(),
            parts.len() == n,
            i <= n,
            res@ == joined_organizations(parts.take(i as int)),
        decreases n - i,
    {
        proof {
            assert(parts.take(i + 1).drop_last() =~= parts.take(i as int));
            assert(parts[i as int] == orgs[i as int]@);
        }
        if i > 0 {
            res.append(", ");
        }
        res.append(orgs[i].as_str());
        i = i + 1;
    }
    assert(parts.take(n as int) =~= parts);
    res
}

/// Each column of a profile's record comes from its own field: the user
/// name as given, the email and the location as given or empty when
/// absent (neither depends on the other fields), the company with `@`
/// stripped (empty when absent) and the organizations joined.
pub proof fn lemma_profile_fields_independent(
    email: Option<String>,
    location: Option<String>,
    username: Seq<char>,
    company: Option<String>,
    orgs: Seq<Seq<char>>,
)
    ensures
        ({
            let r = user_from_profile(email, location, username, company, orgs);
            &&& r.0 == username
            &&& r.1 == (match company {
                Some(c) => strip_at(c@),
                None => Seq::<char>::empty(),
            })
            &&& r.2 == joined_organizations(orgs)
            &&& r.3 == (match email {
                Some(e) => e@,
                None => Seq::<char>::empty(),
            })
            &&& r.4 == (match location {
                Some(l) => l@,
                None => Seq::<char>::empty(),
            })
        }),
{
}

/// Normalising a single character removes it if it is `@` and keeps it
/// otherwise.
pub proof fn lemma_strip_at_single(x: char)
    ensures
        strip_at(seq![x]) == (if x == '@' {
            Seq::<char>::empty()
        } else {
            seq![x]
        }),
{
    reveal_with_fuel(Seq::filter, 2);
    assert(seq![x].drop_last() =~= Seq::<char>::empty());
    assert(Seq::<char>::empty().push(x) =~= seq![x]);
}

/// Normalisation works character by character: the normalised
/// concatenation is the concatenation of the normalised parts. With
/// `lemma_strip_at_single` this fixes the result on every text: each `@`
/// is dropped and every other character is kept, in order.
pub proof fn lemma_strip_at_concat(a: Seq<char>, b: Seq<char>)
    ensures
        strip_at(a + b) == strip_at(a) + strip_at(b),
{
    Seq::filter_distributes_over_add(a, b, |c: char| is_not_at(c));
}

/// The normalised text is exactly as long as the input less its `@`s.
pub proof fn lemma_strip_at_len(c: Seq<char>)
    ensures
        strip_at(c).len() + c.filter(|ch: char| ch == '@').len() == c.len(),
    decreases c.len(),
{
    reveal(Seq::filter);
    if c.len() > 0 {
        lemma_strip_at_len(c.drop_last());
    }
}

/// No `@` survives the company normalisation.
pub proof fn lemma_strip_at_removes_every_at(c: Seq<char>)
    ensures
        !strip_at(c).contains('@'),
{
    broadcast use vstd::seq_lib::group_filter_ensures;

    if strip_at(c).contains('@') {
        let k = choose|k: int| 0 <= k < strip_at(c).len() && strip_at(c)[k] == '@';
        assert(is_not_at(strip_at(c)[k]));
    }
}

/// A company name without `@` is left unchanged by the normalisation.
pub proof fn lemma_strip_at_keeps_names_without_at(c: Seq<char>)
    requires
        !c.contains('@'),
    ensures
        strip_at(c) == c,
    decreases c.len(),
{
    reveal(Seq::filter);
    if c.len() > 0 {
        assert(!c.drop_last().contains('@')) by {
            if c.drop_last().contains('@') {
                let k = choose|k: int| 0 <= k < c.drop_last().len() && c.drop_last()[k] == '@';
                assert(c[k] == '@');
            }
        }
        lemma_strip_at_keeps_names_without_at(c.drop_last());
        assert(c.last() != '@') by {
            assert(c[c.len() - 1] == c.last());
        }
        assert(c.drop_last().push(c.last()) =~= c);
    }
}

/// Normalising a company name twice gives the same as normalising it once.
pub proof fn lemma_normalize_company_idempotent(c: Seq<char>)
    ensures
        strip_at(strip_at(c)) == strip_at(c),
{
    lemma_strip_at_removes_every_at(c);
    lemma_strip_at_keeps_names_without_at(strip_at(c));
}

/// No organizations join to the empty text.
pub proof fn lemma_join_no_organizations()
    ensures
        joined_organizations(Seq::empty()) == Seq::<char>::empty(),
{
}

/// A single organization joins to its own name.
pub proof fn lemma_join_one_organization(name: Seq<char>)
    ensures
        joined_organizations(seq![name]) == name,
{
}

/// Adding an organization to a non-empty list appends `", "` and its name
/// to the joined text.
pub proof fn lemma_join_appends_with_separator(orgs: Seq<Seq<char>>, name: Seq<char>)
    requires
        orgs.len() > 0,
    ensures
        joined_organizations(orgs.push(name)) == joined_organizations(orgs) + ", "@ + name,
{
    assert(orgs.push(name).drop_last() =~= orgs);
}

} // verus!
