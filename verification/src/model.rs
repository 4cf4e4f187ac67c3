//! Read-side data model: request-scoped identities, user records and the
//! access-control error types.

use core::cmp::Ordering;
use std::collections::HashSet;
use vstd::prelude::*;

verus! {

/// The authenticated admin user making the request. A capability marker
/// carrying no data; obtainable only through a successful permission
/// evaluation.
#[derive(Debug, Copy, Clone)]
pub struct AdminUser;

/// The authenticated user making the request. The identifier is the
/// token's stable user id, held as its 128-bit value.
#[derive(Debug, Clone)]
pub struct AuthorizedUser {
    pub id: u128,
}

/// Raised when the caller lacks the permission an action demands.
#[derive(Debug, Clone, Eq, PartialEq, Structural)]
pub struct Forbidden;

/// Raised when a user record cannot be found.
#[derive(Debug, Clone, Eq, PartialEq, Structural)]
pub struct UserDoesNotExist;

/// The ways granting access to a user can fail.
#[derive(Debug, Clone, Eq, PartialEq, Structural)]
pub enum GrantAccessError {
    Forbidden,
}

impl Forbidden {
    /// The generic text shown for a permission failure; deliberately
    /// carries no detail about the permissions actually held.
    pub fn message(&self) -> (r: &'static str)
        ensures
            r@ == "You do not have sufficient permissions to perform this action"@,
    {
        "You do not have sufficient permissions to perform this action"
    }
}

impl UserDoesNotExist {
    /// The text shown when a user record is missing.
    pub fn message(&self) -> (r: &'static str)
        ensures
            r@ == "User not found"@,
    {
        "User not found"
    }
}

impl GrantAccessError {
    /// The generic text shown for a grant failure.
    pub fn message(&self) -> (r: &'static str)
        ensures
            r@ == "You do not have sufficient permissions to perform this action"@,
    {
        match self {
            GrantAccessError::Forbidden => {
                "You do not have sufficient permissions to perform this action"
            },
        }
    }
}

impl From<Forbidden> for GrantAccessError {
    fn from(t: Forbidden) -> (r: Self) {
        GrantAccessError::Forbidden
    }
}

impl vstd::std_specs::convert::FromSpecImpl<Forbidden> for GrantAccessError {
    open spec fn obeys_from_spec() -> bool {
        true
    }

    open spec fn from_spec(t: Forbidden) -> Self {
        GrantAccessError::Forbidden
    }
}

impl AuthorizedUser {
    /// Derives the request identity from a verified token's user id.
    /// The token's claims are trusted as the source of identity: no
    /// backing user store is consulted.
    pub fn create(id: u128) -> (r: Result<Self, GrantAccessError>)
        ensures
            r matches Ok(u) && u.id == id,
    {
        Ok(AuthorizedUser { id })
    }
}

/// A deployment environment a user may belong to.
#[derive(Debug, Copy, Clone, PartialEq, Eq, Hash, Structural)]
pub enum Environment {
    Prod,
    Test,
}

/// A full platform user record.
#[derive(Debug)]
pub struct User {
    pub id: u128,
    pub email: String,
    pub given_name: String,
    pub family_name: String,
    pub environments: HashSet<Environment>,
}

/// Contact details of a user, ordered by family name, then given name,
/// then email address.
#[derive(Debug, Clone)]
pub struct UserInfo {
    pub email: String,
    pub given_name: String,
    pub family_name: String,
}

/// Lexicographic order on byte sequences.
pub open spec fn lex_cmp_bytes(a: Seq<u8>, b: Seq<u8>) -> Ordering
    decreases a.len(),
{
    if a.len() == 0 && b.len() == 0 {
        Ordering::Equal
    } else if a.len() == 0 {
        Ordering::Less
    } else if b.len() == 0 {
        Ordering::Greater
    } else if a[0] < b[0] {
        Ordering::Less
    } else if a[0] > b[0] {
        Ordering::Greater
    } else {
        lex_cmp_bytes(a.drop_first(), b.drop_first())
    }
}

/// Lexicographic order on strings, over their UTF-8 encodings, as std
/// orders `str`.
pub open spec fn lex_cmp_str(a: Seq<char>, b: Seq<char>) -> Ordering {
    lex_cmp_bytes(vstd::utf8::encode_utf8(a), vstd::utf8::encode_utf8(b))
}

proof fn lemma_lex_cmp_step(a: Seq<u8>, b: Seq<u8>, i: int)
    requires
        0 <= i < a.len(),
        0 <= i < b.len(),
        a.skip(i)[0] == b.skip(i)[0],
    ensures
        lex_cmp_bytes(a.skip(i), b.skip(i)) == lex_cmp_bytes(a.skip(i + 1), b.skip(i + 1)),
{
    assert(a.skip(i).drop_first() =~= a.skip(i + 1));
    assert(b.skip(i).drop_first() =~= b.skip(i + 1));
}

/// Compares two byte slices lexicographically.
fn cmp_bytes(a: &[u8], b: &[u8]) -> (r: Ordering)
    ensures
        r == lex_cmp_bytes(a@, b@),
{
    let mut i: usize = 0;
    proof {
        assert(a@.skip(0) =~= a@);
        assert(b@.skip(0) =~= b@);
    }
    loop
        invariant
            i <= a@.len(),
            i <= b@.len(),
            lex_cmp_bytes(a@, b@) == lex_cmp_bytes(a@.skip(i as int), b@.skip(i as int)),
        decreases a@.len() - i,
    {
        if i == a.len() && i == b.len() {
            return Ordering::Equal;
        } else if i == a.len() {
            return Ordering::Less;
        } else if i == b.len() {
            return Ordering::Greater;
        }
        let x = a[i];
        let y = b[i];
        if x < y {
            return Ordering::Less;
        } else if x > y {
            return Ordering::Greater;
        }
        proof {
            lemma_lex_cmp_step(a@, b@, i as int);
        }
        i += 1;
    }
}

/// Compares two strings in std's `str` order.
fn cmp_str(a: &str, b: &str) -> (r: Ordering)
    ensures
        r == lex_cmp_str(a@, b@),
{
    cmp_bytes(a.as_bytes(), b.as_bytes())
}

impl UserInfo {
    /// The order this type sorts by: family name first, then given
    /// name, then email address.
    pub open spec fn spec_cmp(self, other: Self) -> Ordering {
        if lex_cmp_str(self.family_name@, other.family_name@) != Ordering::Equal {
            lex_cmp_str(self.family_name@, other.family_name@)
        } else if lex_cmp_str(self.given_name@, other.given_name@) != Ordering::Equal {
            lex_cmp_str(self.given_name@, other.given_name@)
        } else {
            lex_cmp_str(self.email@, other.email@)
        }
    }

    /// Total order on contact details.
    pub fn cmp(&self, other: &Self) -> (r: Ordering)
        ensures
            r == self.spec_cmp(*other),
    {
        let f = cmp_str(self.family_name.as_str(), other.family_name.as_str());
        match f {
            Ordering::Equal => {
                let g = cmp_str(self.given_name.as_str(), other.given_name.as_str());
                match g {
                    Ordering::Equal => cmp_str(self.email.as_str(), other.email.as_str()),
                    _ => g,
                }
            },
            _ => f,
        }
    }

    /// The partial order induced by `cmp`; always defined.
    pub fn partial_cmp(&self, other: &Self) -> (r: Option<Ordering>)
        ensures
            r == Some(self.spec_cmp(*other)),
    {
        Some(self.cmp(other))
    }
}

impl PartialEq for UserInfo {
    fn eq(&self, other: &Self) -> (r: bool) {
        self.email == other.email && self.given_name == other.given_name && self.family_name
            == other.family_name
    }
}

impl vstd::std_specs::cmp::PartialEqSpecImpl for UserInfo {
    open spec fn obeys_eq_spec() -> bool {
        true
    }

    open spec fn eq_spec(&self, other: &Self) -> bool {
        self.email@ == other.email@ && self.given_name@ == other.given_name@
            && self.family_name@ == other.family_name@
    }
}

} // verus!
