//! Per-request authorization resolution: from the raw `authorization`
//! header to one of three outcomes — rejected, authenticated user, or
//! admin user. Each request is resolved independently against the
//! frozen key material; nothing is cached across requests.

use crate::keys::KeyMaterial;
use crate::model::AdminUser;
use crate::model::AuthorizedUser;
use crate::permissions::Permission;
use crate::token::AccessToken;
use crate::token::spec_decoded_claims;
use vstd::prelude::*;
use vstd::string::StringSliceAdditionalSpecFns;

verus! {

/// How a request is refused before reaching handler logic. Only this
/// coarse outcome is observable externally; decode and permission
/// detail never crosses the trust boundary.
#[derive(Debug, Copy, Clone, PartialEq, Eq, Structural)]
pub enum GuardError {
    /// No bearer token was presented, or the token failed decoding.
    Unauthorized,
    /// The token is valid but lacks the required permission.
    Forbidden,
}

/// The UTF-8 bytes of the `"Bearer "` prefix.
pub open spec fn bearer_prefix_bytes() -> Seq<u8> {
    seq![66u8, 101u8, 97u8, 114u8, 101u8, 114u8, 32u8]
}

/// Whether a header value starts with `"Bearer "` followed by a
/// well-formed remainder.
pub open spec fn spec_has_bearer_prefix(header: &str) -> bool {
    &&& header.spec_bytes().len() >= 7
    &&& header.spec_bytes().subrange(0, 7) == bearer_prefix_bytes()
    &&& vstd::utf8::is_char_boundary(header.spec_bytes(), 7)
}

/// Extracts the token: the substring after the `"Bearer "` prefix.
/// A header shaped any other way carries no token.
pub fn bearer_token(header: &str) -> (r: Option<&str>)
    ensures
        r is Some <==> spec_has_bearer_prefix(header),
        r matches Some(t) ==> t.spec_bytes() == header.spec_bytes().skip(7),
{
    let bytes = header.as_bytes();
    if bytes.len() < 7 {
        return None;
    }
    if !(bytes[0] == 66 && bytes[1] == 101 && bytes[2] == 97 && bytes[3] == 114 && bytes[4] == 101
        && bytes[5] == 114 && bytes[6] == 32) {
        proof {
            assert(header.spec_bytes().subrange(0, 7) != bearer_prefix_bytes()) by {
                if header.spec_bytes().subrange(0, 7) == bearer_prefix_bytes() {
                    assert(header.spec_bytes()[0] == 66u8);
                    assert(header.spec_bytes()[1] == 101u8);
                    assert(header.spec_bytes()[2] == 97u8);
                    assert(header.spec_bytes()[3] == 114u8);
                    assert(header.spec_bytes()[4] == 101u8);
                    assert(header.spec_bytes()[5] == 114u8);
                    assert(header.spec_bytes()[6] == 32u8);
                }
            }
        }
        return None;
    }
    if !header.is_char_boundary(7) {
        return None;
    }
    let (_, rest) = header.split_at(7);
    proof {
        assert(header.spec_bytes().subrange(0, 7) =~= bearer_prefix_bytes());
        assert(rest.spec_bytes() =~= header.spec_bytes().skip(7));
    }
    Some(rest)
}

/// The relation a guard success establishes between the presented
/// header and a claim set: the text after the `"Bearer "` prefix is a
/// token whose successful decode yields exactly these claims.
pub open spec fn spec_header_claims(header: &str, c: AccessToken) -> bool {
    exists|t: Seq<char>|
        vstd::utf8::encode_utf8(t) == header.spec_bytes().skip(7) && #[trigger] spec_decoded_claims(
            t,
            c,
        )
}

/// Resolves the access-token tier: a bearer token must be present and
/// must decode under the key material. Every failure — absent header,
/// missing prefix, or any decode error — is the same unauthorized
/// outcome.
pub fn access_token_from_header(material: &KeyMaterial, authorization: Option<&str>) -> (r: Result<
    AccessToken,
    GuardError,
>)
    ensures
        r matches Err(e) ==> e == GuardError::Unauthorized,
        authorization is None ==> r is Err,
        authorization matches Some(h) ==> (!spec_has_bearer_prefix(h) ==> r is Err),
        r matches Ok(c) ==> (authorization matches Some(h) && spec_has_bearer_prefix(h)
            && spec_header_claims(h, c)),
{
    let header = match authorization {
        Some(h) => h,
        None => {
            return Err(GuardError::Unauthorized);
        },
    };
    let token = match bearer_token(header) {
        Some(t) => t,
        None => {
            return Err(GuardError::Unauthorized);
        },
    };
    match material.decode(token) {
        Ok(claims) => {
            proof {
                assert(vstd::utf8::encode_utf8(token@) == header.spec_bytes().skip(7)
                    && spec_decoded_claims(token@, claims));
            }
            Ok(claims)
        },
        Err(_) => Err(GuardError::Unauthorized),
    }
}

/// Resolves the authenticated-user tier: any valid token authenticates
/// its subject. Identity is taken from the token's claims alone; no
/// user store is consulted.
pub fn authorized_user_from_header(
    material: &KeyMaterial,
    authorization: Option<&str>,
) -> (r: Result<AuthorizedUser, GuardError>)
    ensures
        r matches Err(e) ==> e == GuardError::Unauthorized,
        authorization is None ==> r is Err,
        authorization matches Some(h) ==> (!spec_has_bearer_prefix(h) ==> r is Err),
        r matches Ok(u) ==> (authorization matches Some(h) && exists|c: AccessToken|
            #[trigger] spec_header_claims(h, c) && c.user_id == u.id),
{
    let token = match access_token_from_header(material, authorization) {
        Ok(t) => t,
        Err(e) => {
            return Err(e);
        },
    };
    match AuthorizedUser::create(token.user_id) {
        Ok(user) => Ok(user),
        Err(_) => Err(GuardError::Unauthorized),
    }
}

/// Resolves the admin tier: a valid token that holds the admin
/// permission. A missing or invalid token is unauthorized; a valid
/// token without the permission is forbidden.
pub fn admin_user_from_header(material: &KeyMaterial, authorization: Option<&str>) -> (r: Result<
    AdminUser,
    GuardError,
>)
    ensures
        authorization is None ==> r == Err::<AdminUser, GuardError>(GuardError::Unauthorized),
        authorization matches Some(h) ==> (!spec_has_bearer_prefix(h) ==> r == Err::<
            AdminUser,
            GuardError,
        >(GuardError::Unauthorized)),
        r is Ok ==> (authorization matches Some(h) && exists|c: AccessToken|
            #[trigger] spec_header_claims(h, c) && c.permissions@.contains(Permission::Admin)),
        r == Err::<AdminUser, GuardError>(GuardError::Forbidden) ==> (authorization matches Some(h)
            && exists|c: AccessToken|
            #[trigger] spec_header_claims(h, c) && !c.permissions@.contains(Permission::Admin)),
{
    let token = match access_token_from_header(material, authorization) {
        Ok(t) => t,
        Err(e) => {
            return Err(e);
        },
    };
    match token.to_admin() {
        Ok(user) => Ok(user),
        Err(_) => Err(GuardError::Forbidden),
    }
}

/// The "who am I" response body: the caller's stable identifier.
#[derive(Debug)]
pub struct MeUser {
    pub id: u128,
}

impl From<AuthorizedUser> for MeUser {
    fn from(value: AuthorizedUser) -> (r: Self) {
        MeUser { id: value.id }
    }
}

impl vstd::std_specs::convert::FromSpecImpl<AuthorizedUser> for MeUser {
    open spec fn obeys_from_spec() -> bool {
        true
    }

    open spec fn from_spec(t: AuthorizedUser) -> Self {
        MeUser { id: t.id }
    }
}

/// The "who am I" read: echoes the authenticated caller's identifier.
pub fn get_me(req_user: AuthorizedUser) -> (r: MeUser)
    ensures
        r.id == req_user.id,
{
    MeUser::from(req_user)
}

} // verus!
