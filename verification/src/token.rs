use vstd::prelude::*;

use crate::b64::{b64_of, base64url, lemma_b64_ascii, lemma_b64_no_dot};
use crate::errors::{Error, ErrorKind};
use crate::text::{
    append_ascii, append_bytes, append_str, ascii_bytes, ascii_chars, chars_to_bytes,
    chars_to_string, check_claim_str, dec_of, digit_char, lemma_dec_ascii, push_dec,
    valid_claim_str,
};

verus! {

/// How long an issued credential stays valid, in seconds: a fixed policy.
pub const TOKEN_DURATION_IN_SECS: u64 = 3600;

/// The JSON header of a credential: it declares the ES256 algorithm and the
/// signing key's id.
pub open spec fn header_json(kid: Seq<char>) -> Seq<char> {
    "{\"alg\":\"ES256\",\"kid\":\""@ + kid + "\"}"@
}

/// The JSON claims of a credential: issuer, issued-at and expiry, and nothing
/// else.
pub open spec fn claims_json(iss: Seq<char>, iat: int, exp: int) -> Seq<char> {
    "{\"iss\":\""@ + iss + "\",\"iat\":"@ + dec_of(iat) + ",\"exp\":"@ + dec_of(exp) + "}"@
}

/// The compact three-part credential text: base64url of the header, the
/// claims and the signature, joined with dots.
pub open spec fn token_view(hdr: Seq<char>, clm: Seq<char>, sig: Seq<u8>) -> Seq<char> {
    ascii_chars(b64_of(ascii_bytes(hdr))) + seq!['.'] + ascii_chars(b64_of(ascii_bytes(clm)))
        + seq!['.'] + ascii_chars(b64_of(sig))
}

/// What pem decoding yields on a given text: the contents of the first PEM
/// block, or nothing when the text is not well-formed PEM.
pub uninterp spec fn pem_decoded(s: Seq<char>) -> Option<Seq<u8>>;

/// Relies on pem::parse: it decodes one PEM block from the text, a result
/// that depends on the text alone, and fails exactly on malformed input.
#[verifier::external_body]
fn pem_parse(s: &str) -> (r: Option<Vec<u8>>)
    ensures
        r is Some <==> pem_decoded(s@) is Some,
        r is Some ==> r->0@ == pem_decoded(s@)->0,
{
    match pem::parse(s) {
        Ok(p) => Some(p.into_contents()),
        Err(_) => None,
    }
}

#[verifier::external_type_specification]
#[verifier::external_body]
pub struct ExEcdsaKeyPair(ring::signature::EcdsaKeyPair);

#[verifier::external_type_specification]
#[verifier::external_body]
pub struct ExSystemRandom(ring::rand::SystemRandom);

/// Relies on ring::rand::SystemRandom::new: it only wraps the system's
/// random source; nothing is promised of it.
#[verifier::external_body]
fn new_system_random() -> ring::rand::SystemRandom {
    ring::rand::SystemRandom::new()
}

/// Relies on ring::signature::EcdsaKeyPair::from_pkcs8 with the P-256
/// SHA-256 fixed-signing algorithm: it rejects key material that is not a
/// valid PKCS8 P-256 private key, and nothing is promised of when it
/// succeeds.
#[verifier::external_body]
fn keypair_from_pkcs8(der: &[u8], rng: &ring::rand::SystemRandom) -> (r: Result<
    ring::signature::EcdsaKeyPair,
    Error,
>)
    ensures
        r is Err ==> r->Err_0 == (Error { kind: ErrorKind::Signing }),
{
    match ring::signature::EcdsaKeyPair::from_pkcs8(
        &ring::signature::ECDSA_P256_SHA256_FIXED_SIGNING,
        der,
        rng,
    ) {
        Ok(kp) => Ok(kp),
        Err(_) => Err(Error { kind: ErrorKind::Signing }),
    }
}

/// Relies on ring::signature::EcdsaKeyPair::sign: a fixed-format P-256
/// signature is 64 bytes of the pair (r, s); the signature is randomized, so
/// nothing more is promised of its bytes.
#[verifier::external_body]
fn ecdsa_sign(
    kp: &ring::signature::EcdsaKeyPair,
    rng: &ring::rand::SystemRandom,
    msg: &[u8],
) -> (r: Result<Vec<u8>, Error>)
    ensures
        r is Ok ==> r->Ok_0@.len() == 64,
        r is Err ==> r->Err_0 == (Error { kind: ErrorKind::Signing }),
{
    match kp.sign(rng, msg) {
        Ok(sig) => Ok(sig.as_ref().to_vec()),
        Err(_) => Err(Error { kind: ErrorKind::Signing }),
    }
}

/// Builds the header JSON text.
fn build_header(kid: &str) -> (r: Vec<char>)
    ensures
        r@ == header_json(kid@),
{
    let mut v: Vec<char> = Vec::new();
    append_str(&mut v, "{\"alg\":\"ES256\",\"kid\":\"");
    append_str(&mut v, kid);
    append_str(&mut v, "\"}");
    proof {
        assert(v@ =~= header_json(kid@));
    }
    v
}

/// Builds the claims JSON text.
fn build_claims(iss: &str, iat: u64, exp: u64) -> (r: Vec<char>)
    ensures
        r@ == claims_json(iss@, iat as int, exp as int),
{
    let mut v: Vec<char> = Vec::new();
    append_str(&mut v, "{\"iss\":\"");
    append_str(&mut v, iss);
    append_str(&mut v, "\",\"iat\":");
    push_dec(&mut v, iat);
    append_str(&mut v, ",\"exp\":");
    push_dec(&mut v, exp);
    append_str(&mut v, "}");
    proof {
        assert(v@ =~= claims_json(iss@, iat as int, exp as int));
    }
    v
}

/// The pieces of header text that are not the key id are ASCII.
proof fn lemma_header_ascii(kid: Seq<char>)
    requires
        valid_claim_str(kid),
    ensures
        forall|i: int|
            0 <= i < header_json(kid).len() ==> ((#[trigger] header_json(kid)[i]) as int) < 128,
{
    reveal_strlit("{\"alg\":\"ES256\",\"kid\":\"");
    reveal_strlit("\"}");
    let p = "{\"alg\":\"ES256\",\"kid\":\""@;
    let q = "\"}"@;
    assert forall|i: int| 0 <= i < header_json(kid).len() implies ((#[trigger] header_json(
        kid,
    )[i]) as int) < 128 by {
        if i < p.len() {
            assert(header_json(kid)[i] == p[i]);
        } else if i < p.len() + kid.len() {
            assert(header_json(kid)[i] == kid[i - p.len()]);
        } else {
            assert(header_json(kid)[i] == q[i - p.len() - kid.len()]);
        }
    }
}

/// The pieces of claims text that are not the issuer are ASCII.
proof fn lemma_claims_ascii(iss: Seq<char>, iat: int, exp: int)
    requires
        valid_claim_str(iss),
    ensures
        forall|i: int|
            0 <= i < claims_json(iss, iat, exp).len() ==> ((#[trigger] claims_json(
                iss,
                iat,
                exp,
            )[i]) as int) < 128,
{
    reveal_strlit("{\"iss\":\"");
    reveal_strlit("\",\"iat\":");
    reveal_strlit(",\"exp\":");
    reveal_strlit("}");
    lemma_dec_ascii(iat);
    lemma_dec_ascii(exp);
    let p0 = "{\"iss\":\""@;
    let p1 = "\",\"iat\":"@;
    let p2 = ",\"exp\":"@;
    let p3 = "}"@;
    let c = claims_json(iss, iat, exp);
    assert forall|i: int| 0 <= i < c.len() implies ((#[trigger] c[i]) as int) < 128 by {
        let n0 = p0.len() as int;
        let n1 = n0 + iss.len();
        let n2 = n1 + p1.len();
        let n3 = n2 + dec_of(iat).len();
        let n4 = n3 + p2.len();
        let n5 = n4 + dec_of(exp).len();
        if i < n0 {
            assert(c[i] == p0[i]);
        } else if i < n1 {
            assert(c[i] == iss[i - n0]);
        } else if i < n2 {
            assert(c[i] == p1[i - n1]);
        } else if i < n3 {
            assert(c[i] == dec_of(iat)[i - n2]);
        } else if i < n4 {
            assert(c[i] == p2[i - n3]);
        } else if i < n5 {
            assert(c[i] == dec_of(exp)[i - n4]);
        } else {
            assert(c[i] == p3[i - n5]);
        }
    }
}

/// Issues the signed credential for an issuer, a key and a time: validates
/// the claim strings, builds the header and claims, decodes the key from PEM
/// and signs with ECDSA P-256.
pub fn issue_token(team_id: &str, key_id: &str, key_secret_pem: &str, now: u64) -> (r: Result<
    String,
    Error,
>)
    requires
        now + TOKEN_DURATION_IN_SECS <= u64::MAX,
    ensures
        (valid_claim_str(team_id@) && valid_claim_str(key_id@)) <==> !(r == Err::<String, Error>(Error { kind: ErrorKind::Claim })),
        valid_claim_str(team_id@) && valid_claim_str(key_id@) ==> (pem_decoded(key_secret_pem@)
            is None <==> r == Err::<String, Error>(Error { kind: ErrorKind::Key })),
        r is Err ==> (r->Err_0.kind == ErrorKind::Claim || r->Err_0.kind == ErrorKind::Key
            || r->Err_0.kind == ErrorKind::Signing),
        pem_decoded(key_secret_pem@) is None ==> r is Err && r->Err_0.kind != ErrorKind::Signing,
        r matches Ok(t) ==> exists|sig: Seq<u8>|
            sig.len() == 64 && t@ == token_view(
                header_json(key_id@),
                claims_json(team_id@, now as int, now as int + TOKEN_DURATION_IN_SECS as int),
                sig,
            ),
{
    if !check_claim_str(team_id) || !check_claim_str(key_id) {
        return Err(Error::new(ErrorKind::Claim));
    }
    let exp = now + TOKEN_DURATION_IN_SECS;
    let hv = build_header(key_id);
    let cv = build_claims(team_id, now, exp);
    proof {
        lemma_header_ascii(key_id@);
        lemma_claims_ascii(team_id@, now as int, exp as int);
    }
    let hb = chars_to_bytes(&hv);
    let cb = chars_to_bytes(&cv);
    let h64 = base64url(hb.as_slice());
    let c64 = base64url(cb.as_slice());
    let mut msg: Vec<u8> = Vec::new();
    append_bytes(&mut msg, h64.as_slice());
    msg.push(46);
    append_bytes(&mut msg, c64.as_slice());
    let der = match pem_parse(key_secret_pem) {
        Some(d) => d,
        None => {
            return Err(Error::new(ErrorKind::Key));
        },
    };
    let rng = new_system_random();
    let kp = match keypair_from_pkcs8(der.as_slice(), &rng) {
        Ok(k) => k,
        Err(e) => {
            return Err(e);
        },
    };
    let sig = match ecdsa_sign(&kp, &rng, msg.as_slice()) {
        Ok(s) => s,
        Err(e) => {
            return Err(e);
        },
    };
    let s64 = base64url(sig.as_slice());
    let mut tok: Vec<char> = Vec::new();
    proof {
        lemma_b64_ascii(ascii_bytes(hv@));
        lemma_b64_ascii(ascii_bytes(cv@));
        lemma_b64_ascii(sig@);
    }
    append_ascii(&mut tok, msg.as_slice());
    tok.push('.');
    append_ascii(&mut tok, s64.as_slice());
    proof {
        assert(ascii_chars(msg@) =~= ascii_chars(h64@) + seq!['.'] + ascii_chars(c64@));
        assert(tok@ =~= token_view(header_json(key_id@), claims_json(team_id@, now as int, exp as int), sig@));
    }
    Ok(chars_to_string(tok))
}


/// A decimal rendering is never empty.
proof fn lemma_dec_len(n: int)
    ensures
        dec_of(n).len() >= 1,
{
}

/// Decimal renderings name their value: equal renderings, equal values.
proof fn lemma_dec_injective(a: int, b: int)
    requires
        a >= 0,
        b >= 0,
        dec_of(a) == dec_of(b),
    ensures
        a == b,
    decreases a,
{
    if a < 10 && b < 10 {
        assert(dec_of(a)[0] == digit_char(a));
        assert(dec_of(b)[0] == digit_char(b));
    } else if a < 10 {
        lemma_dec_len(b / 10);
        assert(dec_of(b).len() >= 2);
    } else if b < 10 {
        lemma_dec_len(a / 10);
        assert(dec_of(a).len() >= 2);
    } else {
        let la = dec_of(a / 10).len() as int;
        assert(dec_of(a) == dec_of(a / 10) + seq![digit_char(a % 10)]);
        assert(dec_of(b) == dec_of(b / 10) + seq![digit_char(b % 10)]);
        assert(dec_of(a / 10).len() == dec_of(b / 10).len());
        assert(dec_of(a / 10) =~= dec_of(b / 10)) by {
            assert forall|i: int| 0 <= i < la implies #[trigger] dec_of(a / 10)[i] == dec_of(b / 10)[i] by {
                assert(dec_of(a)[i] == dec_of(a / 10)[i]);
                assert(dec_of(b)[i] == dec_of(b / 10)[i]);
            }
        };
        lemma_dec_injective(a / 10, b / 10);
        assert(dec_of(a)[la] == digit_char(a % 10));
        assert(dec_of(b)[la] == digit_char(b % 10));
    }
}

/// Law: within one issuer, the claims text determines the issue time. Two
/// issuances carry the same claims text only when they were issued at the
/// same second; each text carries that second as issued-at and fixes expiry
/// exactly one hour after it.
pub proof fn lemma_claims_determine_time(iss: Seq<char>, t: u64, u: u64)
    requires
        t + TOKEN_DURATION_IN_SECS <= u64::MAX,
        u + TOKEN_DURATION_IN_SECS <= u64::MAX,
        claims_json(iss, t as int, t as int + TOKEN_DURATION_IN_SECS as int) == claims_json(
            iss,
            u as int,
            u as int + TOKEN_DURATION_IN_SECS as int,
        ),
    ensures
        t == u,
        (t as int + TOKEN_DURATION_IN_SECS as int) - t as int == 3600,
{
    let p0 = "{\"iss\":\""@;
    let p1 = "\",\"iat\":"@;
    let p2 = ",\"exp\":"@;
    let dt = dec_of(t as int);
    let du = dec_of(u as int);
    let ct = claims_json(iss, t as int, t as int + TOKEN_DURATION_IN_SECS as int);
    let cu = claims_json(iss, u as int, u as int + TOKEN_DURATION_IN_SECS as int);
    let n2 = p0.len() as int + iss.len() + p1.len();
    lemma_dec_len(t as int);
    lemma_dec_len(u as int);
    reveal_strlit(",\"exp\":");
    if dt.len() < du.len() {
        let i = n2 + dt.len();
        assert(ct[i] == p2[0]);
        assert(cu[i] == du[dt.len() as int]);
        lemma_dec_ascii(u as int);
        assert(48 <= (du[dt.len() as int] as int) <= 57);
        assert((p2[0] as int) == 44);
        assert(false);
    } else if du.len() < dt.len() {
        let i = n2 + du.len();
        assert(cu[i] == p2[0]);
        assert(ct[i] == dt[du.len() as int]);
        lemma_dec_ascii(t as int);
        assert(48 <= (dt[du.len() as int] as int) <= 57);
        assert((p2[0] as int) == 44);
        assert(false);
    } else {
        assert(dt =~= du) by {
            assert forall|i: int| 0 <= i < dt.len() implies #[trigger] dt[i] == du[i] by {
                assert(ct[n2 + i] == dt[i]);
                assert(cu[n2 + i] == du[i]);
            }
        };
        lemma_dec_injective(t as int, u as int);
    }
}


/// Law: a credential text carries exactly two dots, one right after the
/// encoded header and one right after the encoded claims, so the three parts
/// can be recovered from the text alone.
pub proof fn lemma_token_splits(hdr: Seq<char>, clm: Seq<char>, sig: Seq<u8>)
    ensures
        ({
            let tv = token_view(hdr, clm, sig);
            let n1 = b64_of(ascii_bytes(hdr)).len() as int;
            let n2 = n1 + 1 + b64_of(ascii_bytes(clm)).len();
            forall|i: int|
                0 <= i < tv.len() ==> ((#[trigger] tv[i]) == '.' <==> (i == n1 || i == n2))
        }),
{
    lemma_b64_no_dot(ascii_bytes(hdr));
    lemma_b64_no_dot(ascii_bytes(clm));
    lemma_b64_no_dot(sig);
    let ha = b64_of(ascii_bytes(hdr));
    let ca = b64_of(ascii_bytes(clm));
    let sa = b64_of(sig);
    let tv = token_view(hdr, clm, sig);
    let n1 = ha.len() as int;
    let n2 = n1 + 1 + ca.len();
    assert forall|i: int| 0 <= i < tv.len() implies ((#[trigger] tv[i]) == '.' <==> (i == n1 || i
        == n2)) by {
        if i < n1 {
            assert(tv[i] == ascii_chars(ha)[i]);
            assert(tv[i] == (ha[i] as char));
            assert((ha[i] as char) as u8 == ha[i]);
        } else if i == n1 {
            assert(tv[i] == '.');
        } else if i < n2 {
            assert(tv[i] == ascii_chars(ca)[i - n1 - 1]);
            assert(tv[i] == (ca[i - n1 - 1] as char));
            assert((ca[i - n1 - 1] as char) as u8 == ca[i - n1 - 1]);
        } else if i == n2 {
            assert(tv[i] == '.');
        } else {
            assert(tv[i] == ascii_chars(sa)[i - n2 - 1]);
            assert(tv[i] == (sa[i - n2 - 1] as char));
            assert((sa[i - n2 - 1] as char) as u8 == sa[i - n2 - 1]);
        }
    }
}

} // verus!
