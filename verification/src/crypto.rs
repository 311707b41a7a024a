//! Primitives cryptographiques des crates externes : SHA-256 (`sha2`),
//! MD5 (`md5`), bcrypt (`bcrypt`), aléa du système (`getrandom`), base64
//! (`base64`), signatures Ed25519 (`ed25519-dalek`).

use vstd::prelude::*;

verus! {

/// Condensat SHA-256 des octets (valeur nommée de l'algorithme).
pub uninterp spec fn sha256_spec(donnees: Seq<u8>) -> Seq<u8>;

/// `sha2::Sha256` : condensat SHA-256 de `donnees`. Contrat : le résultat est
/// la valeur nommée `sha256_spec` des octets, longue de 32 octets.
#[verifier::external_body]
pub(crate) fn condensat_sha256(donnees: &[u8]) -> (r: Vec<u8>)
    ensures
        r@ == sha256_spec(donnees@),
        r@.len() == 32,
{
    <sha2::Sha256 as sha2::Digest>::digest(donnees).to_vec()
}

/// Condensat MD5 des octets (valeur nommée de l'algorithme).
pub uninterp spec fn md5_spec(donnees: Seq<u8>) -> Seq<u8>;

/// `md5::compute` : condensat MD5 de `donnees` (16 octets). Contrat : le
/// résultat est la valeur nommée `md5_spec` des octets, long de 16 octets.
#[verifier::external_body]
pub(crate) fn condensat_md5(donnees: &[u8]) -> (r: Vec<u8>)
    ensures
        r@ == md5_spec(donnees@),
        r@.len() == 16,
{
    md5::compute(donnees).0.to_vec()
}

/// Le mot de passe correspond au hachage bcrypt (`bcrypt::verify`, une
/// erreur de format comptant comme un refus).
pub uninterp spec fn bcrypt_correspond(mot_de_passe: Seq<u8>, hachage: Seq<char>) -> bool;

/// `bcrypt::verify(mot_de_passe, hachage).unwrap_or(false)`. Contrat : le
/// résultat est la valeur nommée `bcrypt_correspond` des arguments.
#[verifier::external_body]
pub(crate) fn verifier_bcrypt(mot_de_passe: &[u8], hachage: &str) -> (r: bool)
    ensures
        r == bcrypt_correspond(mot_de_passe@, hachage@),
{
    bcrypt::verify(mot_de_passe, hachage).unwrap_or(false)
}

/// `getrandom::getrandom` : `longueur` octets tirés du générateur
/// cryptographique du système, ou `None` s'il est indisponible. Contrat :
/// la longueur est promise (les octets sont aléatoires), et une demande de
/// zéro octet réussit toujours (`getrandom` rend alors `Ok` sans appeler le
/// système).
#[verifier::external_body]
pub(crate) fn octets_aleatoires(longueur: usize) -> (r: Option<Vec<u8>>)
    ensures
        r matches Some(v) ==> v@.len() == longueur,
        longueur == 0 ==> r is Some,
{
    let mut buf = vec![0u8; longueur];
    match getrandom::getrandom(&mut buf) {
        Ok(()) => Some(buf),
        Err(_) => None,
    }
}

/// Octets décodés d'un texte en base64 standard (alphabet `+/`, avec
/// remplissage), `None` si le texte n'en est pas (valeur nommée du décodeur).
pub uninterp spec fn base64_standard(s: Seq<char>) -> Option<Seq<u8>>;

/// `base64::engine::general_purpose::STANDARD.decode`. Contrat : le résultat
/// est la valeur nommée `base64_standard` du texte, une erreur de décodage
/// donnant `None`.
#[verifier::external_body]
pub(crate) fn decoder_base64_standard(s: &str) -> (r: Option<Vec<u8>>)
    ensures
        match r {
            Some(v) => base64_standard(s@) == Some(v@),
            None => base64_standard(s@) is None,
        },
{
    base64::Engine::decode(&base64::engine::general_purpose::STANDARD, s).ok()
}

/// Texte base64 « URL » sans remplissage (alphabet `-_`) des octets (valeur
/// nommée de l'encodeur).
pub uninterp spec fn base64_url(b: Seq<u8>) -> Seq<char>;

/// `base64::engine::general_purpose::URL_SAFE_NO_PAD.encode`. Contrat : le
/// résultat est la valeur nommée `base64_url` des octets.
#[verifier::external_body]
pub(crate) fn encoder_base64_url(b: &[u8]) -> (r: String)
    ensures
        r@ == base64_url(b@),
{
    base64::Engine::encode(&base64::engine::general_purpose::URL_SAFE_NO_PAD, b)
}

/// Octets décodés d'un texte base64 « URL » sans remplissage, `None` si le
/// texte n'en est pas (valeur nommée du décodeur).
pub uninterp spec fn base64_url_decode(s: Seq<char>) -> Option<Seq<u8>>;

/// `base64::engine::general_purpose::URL_SAFE_NO_PAD.decode`. Contrat : le
/// résultat est la valeur nommée `base64_url_decode` du texte, une erreur
/// donnant `None`.
#[verifier::external_body]
pub(crate) fn decoder_base64_url(s: &str) -> (r: Option<Vec<u8>>)
    ensures
        match r {
            Some(v) => base64_url_decode(s@) == Some(v@),
            None => base64_url_decode(s@) is None,
        },
{
    base64::Engine::decode(&base64::engine::general_purpose::URL_SAFE_NO_PAD, s).ok()
}

/// Signature Ed25519 (64 octets) du message par la clé secrète (valeur
/// nommée ; Ed25519 est déterministe).
pub uninterp spec fn signature_ed25519(cle_secrete: Seq<u8>, message: Seq<u8>) -> Seq<u8>;

/// `ed25519_dalek::SigningKey::from_bytes(..).sign(message).to_bytes()`.
/// Contrat : le résultat est la valeur nommée `signature_ed25519`, longue de
/// 64 octets, et il est accepté par la vérification avec la clé publique de
/// la même clé secrète (correction de la signature Ed25519).
#[verifier::external_body]
pub(crate) fn signer_ed25519(cle_secrete: &[u8; 32], message: &[u8]) -> (r: Vec<u8>)
    ensures
        r@ == signature_ed25519(cle_secrete@, message@),
        r@.len() == 64,
        ed25519_valide(cle_publique_ed25519(cle_secrete@), message@, r@),
{
    ed25519_dalek::Signer::sign(&ed25519_dalek::SigningKey::from_bytes(cle_secrete), message).to_bytes().to_vec()
}

/// Clé publique Ed25519 (32 octets) de la clé secrète (valeur nommée).
pub uninterp spec fn cle_publique_ed25519(cle_secrete: Seq<u8>) -> Seq<u8>;

/// `ed25519_dalek::SigningKey::from_bytes(..).verifying_key().to_bytes()`.
/// Contrat : le résultat est la valeur nommée `cle_publique_ed25519`.
#[verifier::external_body]
pub(crate) fn deriver_cle_publique(cle_secrete: &[u8; 32]) -> (r: [u8; 32])
    ensures
        r@ == cle_publique_ed25519(cle_secrete@),
{
    ed25519_dalek::SigningKey::from_bytes(cle_secrete).verifying_key().to_bytes()
}


/// La signature est une signature Ed25519 valide du message pour la clé
/// publique (valeur nommée).
pub uninterp spec fn ed25519_valide(cle_publique: Seq<u8>, message: Seq<u8>, signature: Seq<u8>) -> bool;

/// `ed25519_dalek::VerifyingKey::verify` : `false` si la signature n'a pas
/// 64 octets, si la clé publique est invalide ou si la vérification échoue.
/// Contrat : le résultat est la valeur nommée `ed25519_valide`.
#[verifier::external_body]
pub(crate) fn verifier_ed25519(cle_publique: &[u8; 32], message: &[u8], signature: &[u8]) -> (r: bool)
    ensures
        r == ed25519_valide(cle_publique@, message@, signature@),
{
    let sig = match ed25519_dalek::Signature::from_slice(signature) {
        Ok(s) => s,
        Err(_) => return false,
    };
    match ed25519_dalek::VerifyingKey::from_bytes(cle_publique) {
        Ok(k) => ed25519_dalek::Verifier::verify(&k, message, &sig).is_ok(),
        Err(_) => false,
    }
}

/// Texte base64 standard (alphabet `+/`, avec remplissage) des octets
/// (valeur nommée de l'encodeur).
pub uninterp spec fn base64_standard_enc(b: Seq<u8>) -> Seq<char>;

/// `base64::engine::general_purpose::STANDARD.encode`. Contrat : le
/// résultat est la valeur nommée `base64_standard_enc` des octets, et le
/// décodage du même moteur le ramène à ces octets.
#[verifier::external_body]
pub(crate) fn encoder_base64_standard(b: &[u8]) -> (r: String)
    ensures
        r@ == base64_standard_enc(b@),
        base64_standard(r@) == Some(b@),
{
    base64::Engine::encode(&base64::engine::general_purpose::STANDARD, b)
}


/// Clé HMAC sur un bloc SHA-256 (64 octets) : la clé, ou son SHA-256 si
/// elle est plus longue qu'un bloc, complétée de zéros.
pub open spec fn bloc_cle_hmac(cle: Seq<u8>) -> Seq<u8> {
    let k = if cle.len() > 64 { sha256_spec(cle) } else { cle };
    k + Seq::new((64 - k.len()) as nat, |i: int| 0u8)
}

/// Code HMAC-SHA256 du message sous la clé (RFC 2104) :
/// `H((K ⊕ opad) ‖ H((K ⊕ ipad) ‖ m))`.
pub open spec fn hmac_sha256(cle: Seq<u8>, message: Seq<u8>) -> Seq<u8> {
    let k = bloc_cle_hmac(cle);
    let ipad = Seq::new(64, |i: int| k[i] ^ 0x36u8);
    let opad = Seq::new(64, |i: int| k[i] ^ 0x5cu8);
    sha256_spec(opad + sha256_spec(ipad + message))
}

/// `Hmac::<Sha256>::new_from_slice`, `update`, `finalize` (hmac). Contrat :
/// la clé est acceptée quelle que soit sa longueur (le `new_from_slice` de
/// HMAC de ce crate ne renvoie jamais d'erreur) et le code est celui de la
/// construction HMAC (`hmac_sha256`) sur le SHA-256 de `sha256_spec`.
#[verifier::external_body]
pub(crate) fn code_hmac_sha256(cle: &[u8], message: &[u8]) -> (r: Option<Vec<u8>>)
    ensures
        r is Some,
        r.unwrap()@ == hmac_sha256(cle@, message@),
{
    match <hmac::Hmac<sha2::Sha256> as hmac::Mac>::new_from_slice(cle) {
        Ok(mut m) => {
            hmac::Mac::update(&mut m, message);
            Some(hmac::Mac::finalize(m).into_bytes().to_vec())
        },
        Err(_) => None,
    }
}

} // verus!
