//! Token decoding: key selection by the token's declared key
//! identifier, cryptographic verification, and extraction of the typed
//! claim set from the verified payload.

use crate::keys::Decoder;
use crate::keys::KeyMaterial;
use crate::permissions::Permission;
use vstd::prelude::*;

verus! {

#[verifier::external_type_specification]
#[verifier::external_body]
pub struct ExValue(serde_json::Value);

/// The key identifier declared by a token's unverified header: `None`
/// when the header cannot be parsed at all, otherwise the optional
/// identifier it carries.
pub uninterp spec fn spec_token_kid(token: Seq<char>) -> Option<Option<Seq<char>>>;

/// What parsing a textual user identifier yields: the UUID's 128-bit
/// value, or nothing when the text is not a UUID.
pub uninterp spec fn spec_parse_uuid(s: Seq<char>) -> Option<u128>;

/// The string content of a payload member: `Some` exactly when the
/// member exists and is a JSON string.
pub uninterp spec fn json_string_of(v: serde_json::Value, field: Seq<char>) -> Option<Seq<char>>;

/// The elements of an array-valued payload member: `Some` exactly when
/// the member exists and is a JSON array; each element is its string
/// content, or `None` for an element that is not a JSON string.
pub uninterp spec fn json_string_items_of(v: serde_json::Value, field: Seq<char>) -> Option<
    Seq<Option<Seq<char>>>,
>;

/// The view of an optional string.
pub open spec fn opt_str_view(s: Option<String>) -> Option<Seq<char>> {
    match s {
        Some(x) => Some(x@),
        None => None,
    }
}

/// Relies on jsonwebtoken::decode_header: reads the token's declared
/// key identifier without verifying anything; the header is a function
/// of the token text alone. `None` means the token does not even parse.
#[verifier::external_body]
fn token_kid(token: &str) -> (r: Option<Option<String>>)
    ensures
        r is Some <==> spec_token_kid(token@) is Some,
        r matches Some(kid) ==> spec_token_kid(token@) == Some(opt_str_view(kid)),
{
    match jsonwebtoken::decode_header(token) {
        Ok(header) => Some(header.kid),
        Err(_) => None,
    }
}

/// The claims value a token's payload segment deserializes to, when it
/// does: a function of the token text alone, whatever key it is
/// verified under.
pub uninterp spec fn spec_payload_of(token: Seq<char>) -> Option<serde_json::Value>;

/// Relies on jsonwebtoken::decode: verifies the token's signature and
/// algorithm against one key and applies the rules' claim checks,
/// handing back the payload claims on success. Whether it succeeds
/// depends on the opaque key and rules; the value it hands back on
/// success is deserialized from the token's payload segment alone.
#[verifier::external_body]
fn verify_token(token: &str, decoder: &Decoder) -> (r: Option<serde_json::Value>)
    ensures
        r matches Some(payload) ==> spec_payload_of(token@) == Some(payload),
{
    jsonwebtoken::decode::<serde_json::Value>(token, &decoder.key, &decoder.validation).ok().map(
        |data| data.claims,
    )
}

/// Relies on uuid::Uuid::parse_str: accepts the textual UUID forms that
/// crate documents, as the UUID's 128 bits; the parse is a function of
/// the text alone.
#[verifier::external_body]
fn parse_user_id(s: &str) -> (r: Option<u128>)
    ensures
        r == spec_parse_uuid(s@),
{
    uuid::Uuid::parse_str(s).ok().map(|u| u.as_u128())
}

/// Relies on serde_json::Value::get: hands out a member's string
/// content when the member exists and is a JSON string.
#[verifier::external_body]
fn json_string_member(v: &serde_json::Value, field: &str) -> (r: Option<String>)
    ensures
        opt_str_view(r) == json_string_of(*v, field@),
{
    match v.get(field) {
        Some(serde_json::Value::String(s)) => Some(s.clone()),
        _ => None,
    }
}

/// Relies on serde_json::Value::get: the length of a member that exists
/// and is a JSON array.
#[verifier::external_body]
fn json_array_member_len(v: &serde_json::Value, field: &str) -> (r: Option<usize>)
    ensures
        r is Some <==> json_string_items_of(*v, field@) is Some,
        r matches Some(n) ==> (json_string_items_of(*v, field@) matches Some(items) && items.len()
            == n),
{
    match v.get(field) {
        Some(serde_json::Value::Array(items)) => Some(items.len()),
        _ => None,
    }
}

/// Relies on serde_json::Value::get and std's slice lookup: the string
/// content of one element of an array-valued member, `None` when that
/// element is not a JSON string.
#[verifier::external_body]
fn json_array_member_at(v: &serde_json::Value, field: &str, i: usize) -> (r: Option<String>)
    ensures
        json_string_items_of(*v, field@) matches Some(items) ==> (i < items.len()
            ==> opt_str_view(r) == items[i as int]),
{
    match v.get(field) {
        Some(serde_json::Value::Array(items)) => match items.get(i) {
            Some(serde_json::Value::String(s)) => Some(s.clone()),
            _ => None,
        },
        _ => None,
    }
}

/// Whether the payload has a member under this name, of any type.
pub uninterp spec fn json_has_member(v: serde_json::Value, field: Seq<char>) -> bool;

/// Relies on serde_json::Value::get: whether a member exists at all.
#[verifier::external_body]
fn json_member_present(v: &serde_json::Value, field: &str) -> (r: bool)
    ensures
        r == json_has_member(*v, field@),
{
    v.get(field).is_some()
}

/// Why a token was rejected. Callers are told no more than this; in
/// particular every variant maps to the same unauthorized response
/// externally.
#[derive(Debug, Copy, Clone, PartialEq, Eq, Structural)]
pub enum DecodeError {
    /// The token's header does not parse.
    Malformed,
    /// Under `Multiple` key material, the token declares no key
    /// identifier or one that matches no key. Fails closed: no other
    /// key is tried.
    UnknownKey,
    /// Signature, algorithm, audience or required-claims verification
    /// failed, the verified payload lacks a claim this deployment
    /// requires, or it carries no usable user id.
    InvalidSignatureOrClaims,
}

/// The decoded, verified payload of a token: the claim set. Only the
/// decoder constructs one, and only from a payload that passed full
/// verification.
#[derive(Debug)]
pub struct AccessToken {
    pub email: Option<String>,
    pub user_id: u128,
    pub permissions: Vec<Permission>,
}

/// The payload's optional email claim.
pub open spec fn spec_email_of(v: serde_json::Value) -> Option<Seq<char>> {
    json_string_of(v, "email"@)
}

/// The payload's user id claim: its `user_id` member read as a UUID.
pub open spec fn spec_user_id_of(v: serde_json::Value) -> Option<u128> {
    match json_string_of(v, "user_id"@) {
        Some(s) => spec_parse_uuid(s),
        None => None,
    }
}

/// The permissions granted by a list of permission names: one `Admin`
/// per element spelling `"admin"`, in order. Unknown names, and
/// elements that are not strings, grant nothing.
pub open spec fn spec_admin_perms(items: Seq<Option<Seq<char>>>) -> Seq<Permission>
    decreases items.len(),
{
    if items.len() == 0 {
        Seq::empty()
    } else {
        spec_admin_perms(items.drop_last()) + (if items.last() == Some("admin"@) {
            seq![Permission::Admin]
        } else {
            Seq::<Permission>::empty()
        })
    }
}

/// The payload's granted permissions. A missing or non-array
/// `permissions` member grants nothing and is never an error.
pub open spec fn spec_permissions_of(v: serde_json::Value) -> Seq<Permission> {
    match json_string_items_of(v, "permissions"@) {
        Some(items) => spec_admin_perms(items),
        None => Seq::empty(),
    }
}

/// The claim set a verified payload yields.
pub open spec fn spec_claims_ok(v: serde_json::Value, c: AccessToken) -> bool {
    &&& spec_user_id_of(v) == Some(c.user_id)
    &&& opt_str_view(c.email) == spec_email_of(v)
    &&& c.permissions@ == spec_permissions_of(v)
}

/// Whether the payload's known optional members, where present, have
/// the type the claim schema gives them: `email` a string,
/// `permissions` an array.
pub open spec fn spec_payload_well_typed(v: serde_json::Value) -> bool {
    &&& json_has_member(v, "email"@) ==> json_string_of(v, "email"@) is Some
    &&& json_has_member(v, "permissions"@) ==> json_string_items_of(v, "permissions"@) is Some
}

/// The relation a successful decode establishes between the presented
/// token and the returned claim set: the token's own payload carries
/// the deployment's required claim, types its known members as the
/// claim schema demands, and yields exactly these claims.
pub open spec fn spec_decoded_claims(token: Seq<char>, c: AccessToken) -> bool {
    &&& spec_payload_of(token) matches Some(p)
    &&& json_has_member(p, "tax_platform_apps"@)
    &&& spec_payload_well_typed(p)
    &&& spec_claims_ok(p, c)
}

/// A payload with no array-valued permissions member grants no
/// permissions at all; its absence is not an error, as the claim set
/// still decodes whenever a usable user id is present.
pub proof fn lemma_missing_permissions_default(v: serde_json::Value)
    requires
        json_string_items_of(v, "permissions"@) is None,
    ensures
        spec_permissions_of(v) == Seq::<Permission>::empty(),
{
}

/// Decoding hides no state: the claim set read from a payload is a
/// function of the payload alone, so any two claim sets read from the
/// same payload agree in every field.
pub proof fn lemma_claims_deterministic(v: serde_json::Value, c1: AccessToken, c2: AccessToken)
    requires
        spec_claims_ok(v, c1),
        spec_claims_ok(v, c2),
    ensures
        c1.user_id == c2.user_id,
        opt_str_view(c1.email) == opt_str_view(c2.email),
        c1.permissions@ == c2.permissions@,
{
}

/// Decoding one token twice yields identical claims: any two claim
/// sets a successful decode relates to the same token text agree in
/// every field, since the token's payload pins them.
pub proof fn lemma_decode_deterministic(token: Seq<char>, c1: AccessToken, c2: AccessToken)
    requires
        spec_decoded_claims(token, c1),
        spec_decoded_claims(token, c2),
    ensures
        c1.user_id == c2.user_id,
        opt_str_view(c1.email) == opt_str_view(c2.email),
        c1.permissions@ == c2.permissions@,
{
    let p = spec_payload_of(token)->0;
    lemma_claims_deterministic(p, c1, c2);
}

/// Reads the granted permissions out of a verified payload.
fn payload_permissions(v: &serde_json::Value) -> (r: Vec<Permission>)
    ensures
        r@ == spec_permissions_of(*v),
{
    let mut perms: Vec<Permission> = Vec::new();
    match json_array_member_len(v, "permissions") {
        None => {},
        Some(n) => {
            let admin: String = "admin".to_owned();
            let mut i: usize = 0;
            proof {
                let items = json_string_items_of(*v, "permissions"@)->0;
                assert(perms@ =~= spec_admin_perms(items.take(0)));
            }
            while i < n
                invariant
                    json_string_items_of(*v, "permissions"@) matches Some(items) && items.len()
                        == n && i <= n && perms@ == spec_admin_perms(items.take(i as int)),
                    admin@ == "admin"@,
                decreases n - i,
            {
                let ghost items = json_string_items_of(*v, "permissions"@)->0;
                proof {
                    assert(items.take(i + 1).drop_last() =~= items.take(i as int));
                    assert(items.take(i + 1).last() == items[i as int]);
                }
                match json_array_member_at(v, "permissions", i) {
                    Some(s) => {
                        if s == admin {
                            perms.push(Permission::Admin);
                        }
                    },
                    None => {},
                }
                proof {
                    assert(perms@ =~= spec_admin_perms(items.take(i + 1)));
                }
                i += 1;
            }
            proof {
                let items = json_string_items_of(*v, "permissions"@)->0;
                assert(items.take(items.len() as int) =~= items);
            }
        },
    }
    perms
}

/// Deserializes a verified payload into the claim set. Unknown extra
/// members are ignored; a missing permissions member defaults to no
/// permissions. Rejected: a payload without a usable user id, and one
/// whose `email` or `permissions` member is present with the wrong
/// type.
pub fn claims_from_payload(v: &serde_json::Value) -> (r: Result<AccessToken, DecodeError>)
    ensures
        r is Ok <==> spec_user_id_of(*v) is Some && spec_payload_well_typed(*v),
        r matches Ok(c) ==> spec_claims_ok(*v, c),
        r matches Err(e) ==> e == DecodeError::InvalidSignatureOrClaims,
{
    let email = json_string_member(v, "email");
    if email.is_none() && json_member_present(v, "email") {
        return Err(DecodeError::InvalidSignatureOrClaims);
    }
    if json_array_member_len(v, "permissions").is_none() && json_member_present(v, "permissions") {
        return Err(DecodeError::InvalidSignatureOrClaims);
    }
    let user_id = match json_string_member(v, "user_id") {
        Some(s) => {
            match parse_user_id(s.as_str()) {
                Some(id) => id,
                None => {
                    return Err(DecodeError::InvalidSignatureOrClaims);
                },
            }
        },
        None => {
            return Err(DecodeError::InvalidSignatureOrClaims);
        },
    };
    let permissions = payload_permissions(v);
    Ok(AccessToken { email, user_id, permissions })
}

/// Looks a key identifier up among the entries of `Multiple` key
/// material. Exact match only: an unknown identifier selects nothing,
/// it never falls back to another key. Of entries sharing an
/// identifier the last one wins, as in a mapping filled in entry
/// order.
fn find_decoder<'a>(entries: &'a Vec<(String, Decoder)>, kid: &String) -> (r: Option<&'a Decoder>)
    ensures
        r is Some <==> exists|j: int| 0 <= j < entries@.len() && entries@[j].0@ == kid@,
        r matches Some(d) ==> exists|j: int|
            {
                &&& 0 <= j < entries@.len()
                &&& entries@[j].0@ == kid@
                &&& *d == entries@[j].1
                &&& forall|j2: int| j < j2 < entries@.len() ==> entries@[j2].0@ != kid@
            },
{
    let mut i: usize = entries.len();
    while i > 0
        invariant
            i <= entries@.len(),
            forall|j: int| i <= j < entries@.len() ==> entries@[j].0@ != kid@,
        decreases i,
    {
        i = i - 1;
        let entry = &entries[i];
        if entry.0 == *kid {
            return Some(&entry.1);
        }
    }
    None
}

impl KeyMaterial {
    /// Decodes and verifies a token against this key material.
    ///
    /// An unparseable header is `Malformed`. Under `Multiple`, the
    /// header must declare a key identifier matching an entry, else
    /// `UnknownKey`, whatever the signature; under `Single` the one key
    /// is used unconditionally and any declared identifier is ignored.
    /// Failed signature, algorithm, audience or claims verification,
    /// and a payload missing the deployment's required claim, are all
    /// `InvalidSignatureOrClaims`, never distinguished further.
    pub fn decode(&self, token: &str) -> (r: Result<AccessToken, DecodeError>)
        ensures
            r == Err::<AccessToken, DecodeError>(DecodeError::Malformed) <==> spec_token_kid(
                token@,
            ) is None,
            r == Err::<AccessToken, DecodeError>(DecodeError::UnknownKey) ==> ({
                &&& self is Multiple
                &&& spec_token_kid(token@) matches Some(kid)
                &&& kid matches Some(k) ==> !self.spec_has_kid(k)
            }),
            self is Multiple ==> (spec_token_kid(token@) matches Some(kid) ==> (kid is None ==> r
                == Err::<AccessToken, DecodeError>(DecodeError::UnknownKey))),
            self is Multiple ==> (spec_token_kid(token@) matches Some(kid) ==> (kid matches Some(k)
                ==> (!self.spec_has_kid(k) ==> r == Err::<AccessToken, DecodeError>(
                DecodeError::UnknownKey,
            )))),
            self is Single ==> r != Err::<AccessToken, DecodeError>(DecodeError::UnknownKey),
            (self is Multiple && r is Ok) ==> ({
                &&& spec_token_kid(token@) matches Some(kid)
                &&& kid matches Some(k)
                &&& self.spec_has_kid(k)
            }),
            r matches Ok(c) ==> spec_decoded_claims(token@, c),
    {
        let kid = match token_kid(token) {
            Some(kid) => kid,
            None => {
                return Err(DecodeError::Malformed);
            },
        };
        let decoder: &Decoder = match self {
            KeyMaterial::Single(decoder) => decoder,
            KeyMaterial::Multiple(entries) => {
                match kid {
                    Some(k) => {
                        match find_decoder(entries, &k) {
                            Some(decoder) => decoder,
                            None => {
                                return Err(DecodeError::UnknownKey);
                            },
                        }
                    },
                    None => {
                        return Err(DecodeError::UnknownKey);
                    },
                }
            },
        };
        match verify_token(token, decoder) {
            Some(payload) => {
                if !json_member_present(&payload, "tax_platform_apps") {
                    return Err(DecodeError::InvalidSignatureOrClaims);
                }
                claims_from_payload(&payload)
            },
            None => Err(DecodeError::InvalidSignatureOrClaims),
        }
    }
}

} // verus!
