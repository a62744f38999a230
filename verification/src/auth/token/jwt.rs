//! Signing and checking of JSON Web Tokens.
//!
//! A token's payload is modelled as a list of named claims whose values are
//! text or integers. The encoding and the keyed hash are `jsonwebtoken`'s;
//! this module names their results and states what ties them together.
use crate::auth::token::constants::SigningAlgorithm;
use vstd::prelude::*;

verus! {

/// The value of one claim.
#[derive(Debug)]
pub enum ClaimValue {
    /// A JSON string.
    Text(String),
    /// A JSON number that is an integer of 64 bits.
    Integer(i64),
    /// Any other JSON value.
    Other,
}

/// One named claim of a payload.
#[derive(Debug)]
pub struct Claim {
    pub name: String,
    pub value: ClaimValue,
}

/// Mathematical value of a [`ClaimValue`].
pub enum ClaimValueView {
    Text(Seq<char>),
    Integer(i64),
    Other,
}

/// Mathematical value of a [`Claim`].
pub struct ClaimView {
    pub name: Seq<char>,
    pub value: ClaimValueView,
}

impl View for ClaimValue {
    type V = ClaimValueView;

    open spec fn view(&self) -> ClaimValueView {
        match self {
            ClaimValue::Text(text) => ClaimValueView::Text(text@),
            ClaimValue::Integer(number) => ClaimValueView::Integer(*number),
            ClaimValue::Other => ClaimValueView::Other,
        }
    }
}

impl View for Claim {
    type V = ClaimView;

    open spec fn view(&self) -> ClaimView {
        ClaimView { name: self.name@, value: self.value@ }
    }
}

/// The payload that a list of claims stands for.
pub open spec fn claims_of(payload: Seq<Claim>) -> Seq<ClaimView> {
    payload.map_values(|claim: Claim| claim@)
}

/// The payload that a decoding result stands for.
pub open spec fn decoded_claims(decoded: Option<Vec<Claim>>) -> Option<Seq<ClaimView>> {
    match decoded {
        Some(payload) => Some(claims_of(payload@)),
        None => None,
    }
}

/// A payload that survives encoding and decoding unchanged: no name occurs
/// twice, and every value is text or an integer.
pub open spec fn signable(payload: Seq<ClaimView>) -> bool {
    &&& forall|i: int, j: int|
        0 <= i < j < payload.len() ==> (#[trigger] payload[i]).name != (#[trigger] payload[j]).name
    &&& forall|i: int| 0 <= i < payload.len() ==> !((#[trigger] payload[i]).value is Other)
}

/// What a signature covers: a signing input, a dot, and the signature.
pub open spec fn joined(signing_input: Seq<char>, signature: Seq<char>) -> Seq<char> {
    signing_input + seq!['.'] + signature
}

/// The text that `jsonwebtoken::encode` signs for a header of the given
/// algorithm and a payload: both as JSON in base64, with a dot between.
pub uninterp spec fn jwt_signing_input(alg: SigningAlgorithm, payload: Seq<ClaimView>) -> Seq<char>;

/// The base64 text of the keyed hash that `jsonwebtoken` computes over a
/// signing input under a secret.
pub uninterp spec fn jwt_signature(
    alg: SigningAlgorithm,
    signing_input: Seq<char>,
    secret: Seq<char>,
) -> Seq<char>;

/// The payload that `jsonwebtoken::decode` reads from a token under a
/// secret, with expiry and audience checks switched off and no claim
/// required; `None` where it reports an error.
pub uninterp spec fn jwt_decoding(
    alg: SigningAlgorithm,
    token: Seq<char>,
    secret: Seq<char>,
) -> Option<Seq<ClaimView>>;

/// The signature of a payload under a secret.
pub open spec fn payload_signature(
    alg: SigningAlgorithm,
    payload: Seq<ClaimView>,
    secret: Seq<char>,
) -> Seq<char> {
    jwt_signature(alg, jwt_signing_input(alg, payload), secret)
}

/// The token for a payload under a secret.
pub open spec fn jwt_token(alg: SigningAlgorithm, payload: Seq<ClaimView>, secret: Seq<char>) -> Seq<
    char,
> {
    joined(jwt_signing_input(alg, payload), payload_signature(alg, payload, secret))
}

#[verifier::external_type_specification]
#[verifier::external_body]
pub struct ExJwtError(jsonwebtoken::errors::Error);

/// Calls `jsonwebtoken::encode` with a header of the given algorithm, the
/// claims as a JSON object in the order given, and the secret's bytes as
/// the key. The object is a `serde_json::Map`, which keeps the order of
/// insertion because `serde_json` is built with `preserve_order`.
///
/// Claimed of it: with a key made from a secret and an HMAC algorithm the
/// call does not fail, and the token is the signing input, a dot, and the
/// signature. For a payload that is [`signable`], `jsonwebtoken::decode` of
/// this signing input joined to any text in place of the signature, under
/// any secret, gives back the payload where that text is the signature
/// which the secret computes over the signing input, and fails otherwise.
/// It splits the token at its last dot, recomputes the signature over what
/// stands before and compares; the signature is base64 and holds no dot,
/// and a text with a dot in it moves the split, so that the header is no
/// base64 any more and is refused. Under another algorithm than the one of
/// the header, decoding fails whatever the signature and the secret: the
/// header's algorithm must be the one that is asked for.
#[verifier::external_body]
pub(crate) fn jwt_encode(alg: SigningAlgorithm, payload: &Vec<Claim>, secret: &str) -> (r: Result<
    String,
    jsonwebtoken::errors::Error,
>)
    ensures
        r is Ok,
        r matches Ok(token) ==> token@ == joined(
            jwt_signing_input(alg, claims_of(payload@)),
            jwt_signature(alg, jwt_signing_input(alg, claims_of(payload@)), secret@),
        ),
        r is Ok && signable(claims_of(payload@)) ==> forall|signature: Seq<char>, key: Seq<char>| #[trigger]
            jwt_decoding(alg, joined(jwt_signing_input(alg, claims_of(payload@)), signature), key)
                == (if signature == jwt_signature(
                alg,
                jwt_signing_input(alg, claims_of(payload@)),
                key,
            ) {
                Some(claims_of(payload@))
            } else {
                None
            }),
        r is Ok ==> forall|other: SigningAlgorithm, signature: Seq<char>, key: Seq<char>|
            other != alg ==> (#[trigger] jwt_decoding(
                other,
                joined(jwt_signing_input(alg, claims_of(payload@)), signature),
                key,
            )) is None,
{
    let algorithm = match alg {
        SigningAlgorithm::HS256 => jsonwebtoken::Algorithm::HS256,
        SigningAlgorithm::HS512 => jsonwebtoken::Algorithm::HS512,
    };
    let mut claims = serde_json::Map::new();
    for claim in payload.iter() {
        claims.insert(claim.name.clone(), match &claim.value {
            ClaimValue::Text(text) => serde_json::Value::from(text.clone()),
            ClaimValue::Integer(number) => serde_json::Value::from(*number),
            ClaimValue::Other => serde_json::Value::Null,
        });
    }
    let key = jsonwebtoken::EncodingKey::from_secret(secret.as_bytes());
    jsonwebtoken::encode(&jsonwebtoken::Header::new(algorithm), &claims, &key)
}

/// Calls `jsonwebtoken::decode` for a JSON object, accepting the given
/// algorithm only, with the secret's bytes as the key, the expiry and
/// audience checks switched off and no claim required. Each member of the
/// object becomes a claim, in the order of the object.
///
/// Claimed of it: the result depends on algorithm, token and secret alone.
#[verifier::external_body]
pub(crate) fn jwt_decode(alg: SigningAlgorithm, token: &str, secret: &str) -> (r: Option<Vec<Claim>>)
    ensures
        decoded_claims(r) == jwt_decoding(alg, token@, secret@),
{
    let algorithm = match alg {
        SigningAlgorithm::HS256 => jsonwebtoken::Algorithm::HS256,
        SigningAlgorithm::HS512 => jsonwebtoken::Algorithm::HS512,
    };
    let mut validation = jsonwebtoken::Validation::new(algorithm);
    validation.validate_exp = false;
    validation.validate_aud = false;
    validation.required_spec_claims.clear();
    let key = jsonwebtoken::DecodingKey::from_secret(secret.as_bytes());
    let data = jsonwebtoken::decode::<serde_json::Map<String, serde_json::Value>>(token, &key, &validation).ok()?;
    Some(data.claims.into_iter().map(|(name, value)| Claim { name, value: match value {
        serde_json::Value::String(text) => ClaimValue::Text(text),
        serde_json::Value::Number(number) => number.as_i64().map_or(ClaimValue::Other, ClaimValue::Integer),
        _ => ClaimValue::Other,
    } }).collect())
}

/// The value of the first claim called `name`, if there is one.
pub open spec fn claim_named(payload: Seq<ClaimView>, name: Seq<char>) -> Option<ClaimValueView>
    decreases payload.len(),
{
    if payload.len() == 0 {
        None
    } else if payload[0].name == name {
        Some(payload[0].value)
    } else {
        claim_named(payload.drop_first(), name)
    }
}

/// The text of the first claim called `name`, if that claim is text.
pub open spec fn text_claim(payload: Seq<ClaimView>, name: Seq<char>) -> Option<Seq<char>> {
    match claim_named(payload, name) {
        Some(ClaimValueView::Text(text)) => Some(text),
        _ => None,
    }
}

/// The number of the first claim called `name`, if that claim is an
/// integer.
pub open spec fn integer_claim(payload: Seq<ClaimView>, name: Seq<char>) -> Option<i64> {
    match claim_named(payload, name) {
        Some(ClaimValueView::Integer(number)) => Some(number),
        _ => None,
    }
}

/// Looks up the first claim called `name`.
pub fn find_claim<'a>(payload: &'a Vec<Claim>, name: &String) -> (r: Option<&'a ClaimValue>)
    ensures
        match r {
            Some(value) => claim_named(claims_of(payload@), name@) == Some(value@),
            None => claim_named(claims_of(payload@), name@) is None,
        },
{
    let ghost all = claims_of(payload@);
    let mut i: usize = 0;
    assert(all.subrange(0, all.len() as int) =~= all);
    while i < payload.len()
        invariant
            i <= payload.len(),
            all == claims_of(payload@),
            claim_named(all, name@) == claim_named(all.subrange(i as int, all.len() as int), name@),
        decreases payload.len() - i,
    {
        let ghost rest = all.subrange(i as int, all.len() as int);
        assert(rest[0] == payload@[i as int]@);
        assert(rest.drop_first() =~= all.subrange(i as int + 1, all.len() as int));
        if payload[i].name == *name {
            return Some(&payload[i].value);
        }
        i += 1;
    }
    assert(all.subrange(i as int, all.len() as int).len() == 0);
    None
}

/// Reads the text of the claim called `name`.
pub fn find_text(payload: &Vec<Claim>, name: &String) -> (r: Option<String>)
    ensures
        match r {
            Some(text) => text_claim(claims_of(payload@), name@) == Some(text@),
            None => text_claim(claims_of(payload@), name@) is None,
        },
{
    match find_claim(payload, name) {
        Some(ClaimValue::Text(text)) => Some(text.clone()),
        _ => None,
    }
}

/// Reads the number of the claim called `name`.
pub fn find_integer(payload: &Vec<Claim>, name: &String) -> (r: Option<i64>)
    ensures
        r == integer_claim(claims_of(payload@), name@),
{
    match find_claim(payload, name) {
        Some(ClaimValue::Integer(number)) => Some(*number),
        _ => None,
    }
}

} // verus!
