//! Key material: how verification keys and their validation rules are
//! obtained at startup and frozen for the process lifetime.
//!
//! Two incompatible key-distribution models are supported behind one
//! type: a remote rotating key set keyed by key identifier, and a single
//! static shared secret. Resolution prefers the remote set and falls
//! back to the secret; with neither, startup fails.

use vstd::prelude::*;

verus! {

#[verifier::external_type_specification]
#[verifier::external_body]
pub struct ExDecodingKey(jsonwebtoken::DecodingKey);

#[verifier::external_type_specification]
#[verifier::external_body]
pub struct ExValidation(jsonwebtoken::Validation);

#[verifier::external_type_specification]
#[verifier::external_body]
pub struct ExJwk(jsonwebtoken::jwk::Jwk);

/// The verification key built from a shared secret's bytes.
pub uninterp spec fn spec_secret_key_of(secret: Seq<u8>) -> jsonwebtoken::DecodingKey;

/// The key identifier a remote key-set entry carries, if any.
pub uninterp spec fn spec_jwk_kid(jwk: jsonwebtoken::jwk::Jwk) -> Option<Seq<char>>;

/// The usable verification key a remote key-set entry yields, if any.
pub uninterp spec fn spec_jwk_key(jwk: jsonwebtoken::jwk::Jwk) -> Option<
    jsonwebtoken::DecodingKey,
>;

/// The audience values a validation-rules value accepts, when an
/// audience has been configured.
pub uninterp spec fn spec_validation_audience(v: jsonwebtoken::Validation) -> Option<
    Set<Seq<char>>,
>;

/// The claim names a validation-rules value requires to be present.
pub uninterp spec fn spec_validation_required_claims(v: jsonwebtoken::Validation) -> Set<
    Seq<char>,
>;

/// The names of the algorithms a validation-rules value accepts, in
/// order; a token declaring any other algorithm is rejected.
pub uninterp spec fn spec_validation_algorithms(v: jsonwebtoken::Validation) -> Seq<Seq<char>>;

/// Relies on jsonwebtoken::DecodingKey::from_secret: builds a symmetric
/// verification key, a function of the secret's bytes alone.
#[verifier::external_body]
fn key_from_secret(secret: &[u8]) -> (r: jsonwebtoken::DecodingKey)
    ensures
        r == spec_secret_key_of(secret@),
{
    jsonwebtoken::DecodingKey::from_secret(secret)
}

/// Relies on jsonwebtoken::DecodingKey::from_jwk: builds an asymmetric
/// verification key from one key-set entry, a function of the entry
/// alone; entries it cannot use are reported as `None`.
#[verifier::external_body]
fn key_from_jwk(jwk: &jsonwebtoken::jwk::Jwk) -> (r: Option<jsonwebtoken::DecodingKey>)
    ensures
        r == spec_jwk_key(*jwk),
{
    jsonwebtoken::DecodingKey::from_jwk(jwk).ok()
}

/// Relies on the jsonwebtoken::jwk::Jwk layout: hands out the entry's
/// key identifier, when it carries one.
#[verifier::external_body]
fn jwk_key_id(jwk: &jsonwebtoken::jwk::Jwk) -> (r: Option<String>)
    ensures
        crate::token::opt_str_view(r) == spec_jwk_kid(*jwk),
{
    jwk.common.key_id.clone()
}

/// Relies on jsonwebtoken::Validation::new with the HS256 algorithm:
/// the fresh rules accept exactly the symmetric HS256 algorithm,
/// require exactly the expiry claim, and accept no configured audience
/// yet.
#[verifier::external_body]
fn validation_new_hs256() -> (r: jsonwebtoken::Validation)
    ensures
        spec_validation_algorithms(r) == seq!["HS256"@],
        spec_validation_required_claims(r) == set!["exp"@],
        spec_validation_audience(r) is None,
{
    jsonwebtoken::Validation::new(jsonwebtoken::Algorithm::HS256)
}

/// Relies on jsonwebtoken::Validation::new with the RS256 algorithm:
/// the fresh rules accept exactly the asymmetric RS256 algorithm,
/// require exactly the expiry claim, and accept no configured audience
/// yet.
#[verifier::external_body]
fn validation_new_rs256() -> (r: jsonwebtoken::Validation)
    ensures
        spec_validation_algorithms(r) == seq!["RS256"@],
        spec_validation_required_claims(r) == set!["exp"@],
        spec_validation_audience(r) is None,
{
    jsonwebtoken::Validation::new(jsonwebtoken::Algorithm::RS256)
}

/// Relies on jsonwebtoken::Validation::set_audience: decoding then
/// demands that a present audience claim match one of these values (the
/// claim's own presence is enforced through the required-claims set);
/// the accepted algorithms and required claims are untouched.
#[verifier::external_body]
fn validation_set_audience(validation: &mut jsonwebtoken::Validation, audience: &str)
    ensures
        spec_validation_audience(*final(validation)) == Some(set![audience@]),
        spec_validation_required_claims(*final(validation)) == spec_validation_required_claims(
            *old(validation),
        ),
        spec_validation_algorithms(*final(validation)) == spec_validation_algorithms(
            *old(validation),
        ),
{
    validation.set_audience(&[audience]);
}

/// Relies on std's HashSet::insert on jsonwebtoken::Validation's
/// `required_spec_claims` field: adds a claim name to the required set
/// and touches nothing else.
#[verifier::external_body]
fn validation_require_claim(validation: &mut jsonwebtoken::Validation, claim: &str)
    ensures
        spec_validation_required_claims(*final(validation)) == spec_validation_required_claims(
            *old(validation),
        ).insert(claim@),
        spec_validation_audience(*final(validation)) == spec_validation_audience(*old(validation)),
        spec_validation_algorithms(*final(validation)) == spec_validation_algorithms(
            *old(validation),
        ),
{
    validation.required_spec_claims.insert(claim.to_string());
}

/// Converts fetched remote key-set entries into the plain form the
/// resolver consumes: each entry's optional key identifier and optional
/// usable key. Nothing is dropped here; the resolver decides what to
/// keep.
pub fn jwk_entries(jwks: Vec<jsonwebtoken::jwk::Jwk>) -> (r: Vec<
    (Option<String>, Option<jsonwebtoken::DecodingKey>),
>)
    ensures
        r@.len() == jwks@.len(),
        forall|j: int|
            0 <= j < jwks@.len() ==> crate::token::opt_str_view(#[trigger] r@[j].0)
                == spec_jwk_kid(jwks@[j]) && r@[j].1 == spec_jwk_key(jwks@[j]),
{
    let mut out: Vec<(Option<String>, Option<jsonwebtoken::DecodingKey>)> = Vec::new();
    let mut i: usize = 0;
    while i < jwks.len()
        invariant
            i <= jwks@.len(),
            out@.len() == i,
            forall|j: int|
                0 <= j < i ==> crate::token::opt_str_view(#[trigger] out@[j].0) == spec_jwk_kid(
                    jwks@[j],
                ) && out@[j].1 == spec_jwk_key(jwks@[j]),
        decreases jwks@.len() - i,
    {
        let jwk = &jwks[i];
        out.push((jwk_key_id(jwk), key_from_jwk(jwk)));
        i += 1;
    }
    out
}

/// One verification key together with the validation rules applied to
/// tokens verified under it.
pub struct Decoder {
    pub key: jsonwebtoken::DecodingKey,
    pub validation: jsonwebtoken::Validation,
}

/// No usable key source was found at startup. Fatal: the process must
/// not start without key material.
#[derive(Debug, Copy, Clone, PartialEq, Eq, Structural)]
pub struct ConfigurationError;

/// The audience value demanded of tokens when configuration supplies
/// none.
pub fn default_audience() -> (r: &'static str)
    ensures
        r@ == "outerspace.silenlocatelli.com"@,
{
    "outerspace.silenlocatelli.com"
}

/// The audience decoding demands: the configured override when present,
/// else the fixed default.
pub fn effective_audience(configured: Option<String>) -> (r: String)
    ensures
        r@ == match configured {
            Some(a) => a@,
            None => "outerspace.silenlocatelli.com"@,
        },
{
    match configured {
        Some(a) => a,
        None => default_audience().to_owned(),
    }
}

/// The claim names this deployment requires of every token, beyond the
/// expiry claim that fresh rules already demand.
pub open spec fn spec_deployment_required_claims(base: Set<Seq<char>>) -> Set<Seq<char>> {
    base.insert("tax_platform_apps"@).insert("aud"@)
}

impl Decoder {
    /// Validation rules shared by every key: the expected audience, and
    /// the claim names this deployment requires — the deployment's own
    /// claim and the audience claim itself, so that a token omitting
    /// either is rejected rather than silently passed.
    fn finish_validation(validation: &mut jsonwebtoken::Validation, audience: &str)
        ensures
            spec_validation_audience(*final(validation)) == Some(set![audience@]),
            spec_validation_required_claims(*final(validation))
                == spec_deployment_required_claims(
                spec_validation_required_claims(*old(validation)),
            ),
            spec_validation_algorithms(*final(validation)) == spec_validation_algorithms(
                *old(validation),
            ),
    {
        validation_set_audience(validation, audience);
        validation_require_claim(validation, "tax_platform_apps");
        validation_require_claim(validation, "aud");
    }

    /// A decoder for the single static shared secret (symmetric HS256).
    pub fn hs256(secret: &[u8], audience: &str) -> (r: Decoder)
        ensures
            r.key == spec_secret_key_of(secret@),
            spec_validation_algorithms(r.validation) == seq!["HS256"@],
            spec_validation_audience(r.validation) == Some(set![audience@]),
            spec_validation_required_claims(r.validation) == spec_deployment_required_claims(
                set!["exp"@],
            ),
    {
        let key = key_from_secret(secret);
        let mut validation = validation_new_hs256();
        Self::finish_validation(&mut validation, audience);
        Decoder { key, validation }
    }

    /// A decoder for one remote key-set entry (asymmetric RS256).
    pub fn rs256(key: jsonwebtoken::DecodingKey, audience: &str) -> (r: Decoder)
        ensures
            r.key == key,
            spec_validation_algorithms(r.validation) == seq!["RS256"@],
            spec_validation_audience(r.validation) == Some(set![audience@]),
            spec_validation_required_claims(r.validation) == spec_deployment_required_claims(
                set!["exp"@],
            ),
    {
        let mut validation = validation_new_rs256();
        Self::finish_validation(&mut validation, audience);
        Decoder { key, validation }
    }
}

/// The process's frozen verification key material: either one static
/// shared secret, or a set of remote keys looked up by key identifier.
pub enum KeyMaterial {
    Single(Decoder),
    Multiple(Vec<(String, Decoder)>),
}

/// The key identifiers kept from a list of remote key-set entries: one
/// per entry that carries both a usable key and an identifier, in order.
pub open spec fn spec_kept_kids(
    entries: Seq<(Option<String>, Option<jsonwebtoken::DecodingKey>)>,
) -> Seq<Seq<char>>
    decreases entries.len(),
{
    if entries.len() == 0 {
        Seq::empty()
    } else {
        spec_kept_kids(entries.drop_last()) + (if entries.last().0 is Some && entries.last().1
            is Some {
            seq![entries.last().0->0@]
        } else {
            Seq::<Seq<char>>::empty()
        })
    }
}

/// The key identifier and key of each complete remote key-set entry
/// (one carrying both), in order.
pub open spec fn spec_kept_entries(
    entries: Seq<(Option<String>, Option<jsonwebtoken::DecodingKey>)>,
) -> Seq<(Seq<char>, jsonwebtoken::DecodingKey)>
    decreases entries.len(),
{
    if entries.len() == 0 {
        Seq::empty()
    } else {
        spec_kept_entries(entries.drop_last()) + (if entries.last().0 is Some && entries.last().1
            is Some {
            seq![(entries.last().0->0@, entries.last().1->0)]
        } else {
            Seq::<(Seq<char>, jsonwebtoken::DecodingKey)>::empty()
        })
    }
}

impl KeyMaterial {
    /// The key identifiers a `Multiple` value can serve, in entry order.
    pub open spec fn spec_kids(&self) -> Seq<Seq<char>>
        recommends
            self is Multiple,
    {
        self->Multiple_0@.map_values(|e: (String, Decoder)| e.0@)
    }

    /// Whether a `Multiple` value holds a key under this identifier.
    pub open spec fn spec_has_kid(&self, kid: Seq<char>) -> bool {
        self is Multiple && exists|j: int|
            0 <= j < self->Multiple_0@.len() && self->Multiple_0@[j].0@ == kid
    }

    /// What building `Multiple` key material from remote entries
    /// establishes: the kept entries are exactly the complete input
    /// entries, in order — the same key identifier and the same key at
    /// each position — each under this audience's asymmetric RS256
    /// validation rules.
    pub open spec fn spec_built_from(
        &self,
        entries: Seq<(Option<String>, Option<jsonwebtoken::DecodingKey>)>,
        audience: Seq<char>,
    ) -> bool {
        &&& self is Multiple
        &&& self.spec_kids() == spec_kept_kids(entries)
        &&& self->Multiple_0@.len() == spec_kept_entries(entries).len()
        &&& forall|j: int|
            0 <= j < self->Multiple_0@.len() ==> {
                let e = #[trigger] self->Multiple_0@[j];
                &&& e.0@ == spec_kept_entries(entries)[j].0
                &&& e.1.key == spec_kept_entries(entries)[j].1
                &&& spec_validation_algorithms(e.1.validation) == seq!["RS256"@]
                &&& spec_validation_audience(e.1.validation) == Some(set![audience])
                &&& spec_validation_required_claims(e.1.validation)
                    == spec_deployment_required_claims(set!["exp"@])
            }
    }

    /// Builds `Multiple` key material from remote key-set entries, given
    /// as each entry's optional key identifier and optional usable key.
    /// Entries missing either are silently dropped, never fatal.
    pub fn from_jwk_entries(
        entries: Vec<(Option<String>, Option<jsonwebtoken::DecodingKey>)>,
        audience: &str,
    ) -> (r: KeyMaterial)
        ensures
            r.spec_built_from(entries@, audience@),
    {
        let ghost orig = entries@;
        let mut rest = entries;
        let mut kept: Vec<(String, Decoder)> = Vec::new();
        proof {
            assert(rest@ == orig.skip(0)) by {
                assert(orig.skip(0) =~= orig);
            }
            assert(kept@.map_values(|e: (String, Decoder)| e.0@) =~= spec_kept_kids(
                orig.take(0),
            ));
        }
        while rest.len() > 0
            invariant
                rest@.len() <= orig.len(),
                rest@ == orig.skip(orig.len() - rest@.len()),
                kept@.map_values(|e: (String, Decoder)| e.0@) == spec_kept_kids(
                    orig.take(orig.len() - rest@.len()),
                ),
                kept@.len() == spec_kept_entries(orig.take(orig.len() - rest@.len())).len(),
                forall|j2: int|
                    0 <= j2 < kept@.len() ==> {
                        let e = #[trigger] kept@[j2];
                        let k = spec_kept_entries(orig.take(orig.len() - rest@.len()))[j2];
                        &&& e.0@ == k.0
                        &&& e.1.key == k.1
                        &&& spec_validation_algorithms(e.1.validation) == seq!["RS256"@]
                        &&& spec_validation_audience(e.1.validation) == Some(set![audience@])
                        &&& spec_validation_required_claims(e.1.validation)
                            == spec_deployment_required_claims(set!["exp"@])
                    },
            decreases rest@.len(),
        {
            let ghost j = orig.len() - rest@.len();
            let ghost rest_before = rest@;
            let entry = rest.remove(0);
            proof {
                assert(rest_before[0] == orig.skip(j)[0]);
                assert(orig.skip(j)[0] == orig[j]);
                assert(entry == orig[j]);
                assert(rest@ =~= orig.skip(j + 1));
                assert(orig.take(j + 1).drop_last() =~= orig.take(j));
                assert(orig.take(j + 1).last() == orig[j]);
            }
            let ghost kept_before = kept@;
            match entry {
                (Some(kid), Some(key)) => {
                    let decoder = Decoder::rs256(key, audience);
                    kept.push((kid, decoder));
                    proof {
                        let e = kept@.last();
                        assert(orig[j].0 matches Some(kid0) && kid0@ == e.0@ && orig[j].1 == Some(
                            e.1.key,
                        ));
                        assert(spec_kept_entries(orig.take(j + 1)) =~= spec_kept_entries(
                            orig.take(j),
                        ) + seq![(orig[j].0->0@, orig[j].1->0)]);
                    }
                },
                _ => {
                    proof {
                        assert(spec_kept_entries(orig.take(j + 1)) =~= spec_kept_entries(
                            orig.take(j),
                        ));
                    }
                },
            }
            proof {
                assert(kept@.map_values(|e: (String, Decoder)| e.0@) =~= spec_kept_kids(
                    orig.take(j + 1),
                ));
            }
        }
        proof {
            assert(orig.take(orig.len() as int) =~= orig);
        }
        KeyMaterial::Multiple(kept)
    }

    /// Resolves the process's key material from what startup could
    /// obtain: the remote key-set entries when the fetch succeeded, else
    /// the static shared secret when configured, else a fatal error.
    /// The order is fixed: the remote set is never passed over for the
    /// weaker single-secret mode when it is available.
    pub fn resolve(
        remote: Option<Vec<(Option<String>, Option<jsonwebtoken::DecodingKey>)>>,
        secret: Option<Vec<u8>>,
        audience: &str,
    ) -> (r: Result<KeyMaterial, ConfigurationError>)
        ensures
            r is Err <==> remote is None && secret is None,
            remote matches Some(entries) ==> (r matches Ok(m) && m.spec_built_from(
                entries@,
                audience@,
            )),
            remote is None ==> (secret matches Some(s) ==> (r matches Ok(m)
                && m matches KeyMaterial::Single(d) && d.key == spec_secret_key_of(s@)
                && spec_validation_algorithms(d.validation) == seq!["HS256"@]
                && spec_validation_audience(d.validation) == Some(set![audience@])
                && spec_validation_required_claims(d.validation) == spec_deployment_required_claims(
                set!["exp"@],
            ))),
    {
        match (remote, secret) {
            (Some(entries), _) => Ok(Self::from_jwk_entries(entries, audience)),
            (None, Some(secret)) => Ok(KeyMaterial::Single(
                Decoder::hs256(secret.as_slice(), audience),
            )),
            (None, None) => Err(ConfigurationError),
        }
    }
}

} // verus!
