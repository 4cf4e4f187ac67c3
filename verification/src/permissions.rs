//! The closed set of grantable capabilities and the diagnostic text that
//! accompanies a denial.

use crate::model::AdminUser;
use crate::token::AccessToken;
use vstd::prelude::*;
use vstd::string::StringExecFns;

verus! {

/// A capability a token may grant. Unknown or absent values in a token
/// are never an error: they are simply not granted.
#[derive(Debug, Copy, Clone, PartialEq, Eq, Structural)]
pub enum Permission {
    Admin,
}

/// Denial raised when a token does not hold a required permission.
/// Carries a diagnostic message listing the permissions actually held;
/// the message is for internal logs and must not be echoed to callers.
#[derive(Debug, PartialEq, Eq)]
pub struct InsufficientScope(pub String);

/// The label under which a permission appears in diagnostic messages.
pub open spec fn permission_label(p: Permission) -> Seq<char> {
    match p {
        Permission::Admin => "Admin"@,
    }
}

/// The labels of a permission list, joined with `", "`.
pub open spec fn labels_join(ps: Seq<Permission>) -> Seq<char>
    decreases ps.len(),
{
    if ps.len() == 0 {
        Seq::empty()
    } else if ps.len() == 1 {
        permission_label(ps[0])
    } else {
        labels_join(ps.drop_last()) + ", "@ + permission_label(ps.last())
    }
}

/// The diagnostic message of a denial: the permissions actually held,
/// bracketed after a fixed prefix.
pub open spec fn scope_message(ps: Seq<Permission>) -> Seq<char> {
    "user has only: ["@ + labels_join(ps) + "]"@
}

fn permission_name(p: Permission) -> (r: &'static str)
    ensures
        r@ == permission_label(p),
{
    match p {
        Permission::Admin => "Admin",
    }
}

/// Renders the held permissions for a denial message.
pub fn scope_message_text(ps: &Vec<Permission>) -> (r: String)
    ensures
        r@ == scope_message(ps@),
{
    let mut acc: String = "user has only: [".to_owned();
    proof {
        assert(acc@ + labels_join(ps@.take(0)) =~= acc@);
    }
    let mut i: usize = 0;
    while i < ps.len()
        invariant
            i <= ps.len(),
            acc@ == "user has only: ["@ + labels_join(ps@.take(i as int)),
        decreases ps.len() - i,
    {
        if i > 0 {
            acc.append(", ");
        }
        acc.append(permission_name(ps[i]));
        proof {
            assert(ps@.take(i + 1).drop_last() =~= ps@.take(i as int));
            assert(ps@.take(i + 1).last() == ps@[i as int]);
            assert(acc@ =~= "user has only: ["@ + labels_join(ps@.take(i + 1)));
        }
        i += 1;
    }
    proof {
        assert(ps@.take(ps@.len() as int) =~= ps@);
    }
    let r = acc.concat("]");
    proof {
        assert(r@ =~= scope_message(ps@));
    }
    r
}

/// A denial issued to a claim set holding no permissions at all spells
/// that out: its message is exactly the fixed text with an empty list.
pub proof fn lemma_empty_scope_message()
    ensures
        scope_message(Seq::<Permission>::empty()) == "user has only: []"@,
{
    reveal_strlit("user has only: [");
    reveal_strlit("]");
    reveal_strlit("user has only: []");
    assert(scope_message(Seq::<Permission>::empty()) =~= "user has only: []"@);
}

impl AccessToken {
    /// Succeeds exactly when this claim set holds the wanted
    /// permission; membership is what matters, not position. A denial
    /// carries the full set of permissions actually held, for internal
    /// logs only.
    pub fn require_permission(&self, expected_scope: Permission) -> (r: Result<
        &Self,
        InsufficientScope,
    >)
        ensures
            r is Ok <==> self.permissions@.contains(expected_scope),
            r matches Ok(t) ==> t == self,
            r matches Err(e) ==> e.0@ == scope_message(self.permissions@),
    {
        let mut i: usize = 0;
        while i < self.permissions.len()
            invariant
                i <= self.permissions@.len(),
                forall|j: int| 0 <= j < i ==> self.permissions@[j] != expected_scope,
            decreases self.permissions@.len() - i,
        {
            if self.permissions[i] == expected_scope {
                proof {
                    assert(self.permissions@[i as int] == expected_scope);
                }
                return Ok(self);
            }
            i += 1;
        }
        Err(InsufficientScope(scope_message_text(&self.permissions)))
    }

    /// The admin capability check: exactly `require_permission(Admin)`,
    /// mapped to the `AdminUser` marker on success.
    pub fn to_admin(&self) -> (r: Result<AdminUser, InsufficientScope>)
        ensures
            r is Ok <==> self.permissions@.contains(Permission::Admin),
            r matches Err(e) ==> e.0@ == scope_message(self.permissions@),
    {
        match self.require_permission(Permission::Admin) {
            Ok(_) => Ok(AdminUser),
            Err(e) => Err(e),
        }
    }
}

} // verus!
