//! SRP-6a (RFC 5054, groupe 2048 bits, g = 2), adapté à SHA-256.
//!
//! Le serveur ne garde qu'un sel et un vérificateur `v = g^x mod N` ; la
//! preuve d'un client (M1) n'est acceptée que s'il connaît le mot de passe
//! dont `x` dérive, sans que celui-ci ne soit jamais transmis.

use vstd::prelude::*;
use vstd::arithmetic::power::pow;
use crate::crypto::{condensat_sha256, octets_aleatoires, sha256_spec};
use crate::grand::{
    Grand, lemme_octets_be, lemme_p256, lemme_valeur_borne, lemme_valeur_concat,
    lemme_valeur_premier_non_nul, lemme_valeur_suffixe, lemme_valeur_zeros, octets_be, p256,
    valeur_be,
};

verus! {

broadcast use vstd::string::group_string_axioms;

/// Longueur de N en octets (2048 bits / 8), utilisée pour tout le padding.
pub const N_LEN_BYTES: usize = 256;

/// N (RFC 5054, groupe 2048 bits), en octets big-endian.
pub open spec fn n_srp() -> Seq<u8> {
    seq![
        0xAC, 0x6B, 0xDB, 0x41, 0x32, 0x4A, 0x9A, 0x9B, 0xF1, 0x66, 0xDE, 0x5E, 0x13, 0x89, 0x58, 0x2F,
        0xAF, 0x72, 0xB6, 0x65, 0x19, 0x87, 0xEE, 0x07, 0xFC, 0x31, 0x92, 0x94, 0x3D, 0xB5, 0x60, 0x50,
        0xA3, 0x73, 0x29, 0xCB, 0xB4, 0xA0, 0x99, 0xED, 0x81, 0x93, 0xE0, 0x75, 0x77, 0x67, 0xA1, 0x3D,
        0xD5, 0x23, 0x12, 0xAB, 0x4B, 0x03, 0x31, 0x0D, 0xCD, 0x7F, 0x48, 0xA9, 0xDA, 0x04, 0xFD, 0x50,
        0xE8, 0x08, 0x39, 0x69, 0xED, 0xB7, 0x67, 0xB0, 0xCF, 0x60, 0x95, 0x17, 0x9A, 0x16, 0x3A, 0xB3,
        0x66, 0x1A, 0x05, 0xFB, 0xD5, 0xFA, 0xAA, 0xE8, 0x29, 0x18, 0xA9, 0x96, 0x2F, 0x0B, 0x93, 0xB8,
        0x55, 0xF9, 0x79, 0x93, 0xEC, 0x97, 0x5E, 0xEA, 0xA8, 0x0D, 0x74, 0x0A, 0xDB, 0xF4, 0xFF, 0x74,
        0x73, 0x59, 0xD0, 0x41, 0xD5, 0xC3, 0x3E, 0xA7, 0x1D, 0x28, 0x1E, 0x44, 0x6B, 0x14, 0x77, 0x3B,
        0xCA, 0x97, 0xB4, 0x3A, 0x23, 0xFB, 0x80, 0x16, 0x76, 0xBD, 0x20, 0x7A, 0x43, 0x6C, 0x64, 0x81,
        0xF1, 0xD2, 0xB9, 0x07, 0x87, 0x17, 0x46, 0x1A, 0x5B, 0x9D, 0x32, 0xE6, 0x88, 0xF8, 0x77, 0x48,
        0x54, 0x45, 0x23, 0xB5, 0x24, 0xB0, 0xD5, 0x7D, 0x5E, 0xA7, 0x7A, 0x27, 0x75, 0xD2, 0xEC, 0xFA,
        0x03, 0x2C, 0xFB, 0xDB, 0xF5, 0x2F, 0xB3, 0x78, 0x61, 0x60, 0x27, 0x90, 0x04, 0xE5, 0x7A, 0xE6,
        0xAF, 0x87, 0x4E, 0x73, 0x03, 0xCE, 0x53, 0x29, 0x9C, 0xCC, 0x04, 0x1C, 0x7B, 0xC3, 0x08, 0xD8,
        0x2A, 0x56, 0x98, 0xF3, 0xA8, 0xD0, 0xC3, 0x82, 0x71, 0xAE, 0x35, 0xF8, 0xE9, 0xDB, 0xFB, 0xB6,
        0x94, 0xB5, 0xC8, 0x03, 0xD8, 0x9F, 0x7A, 0xE4, 0x35, 0xDE, 0x23, 0x6D, 0x52, 0x5F, 0x54, 0x75,
        0x9B, 0x65, 0xE3, 0x72, 0xFC, 0xD6, 0x8E, 0xF2, 0x0F, 0xA7, 0x11, 0x1F, 0x9E, 0x4A, 0xFF, 0x73,
    ]
}

fn octets_n() -> (v: Vec<u8>)
    ensures
        v@ == n_srp(),
{
    let v: Vec<u8> = vec![
            0xAC, 0x6B, 0xDB, 0x41, 0x32, 0x4A, 0x9A, 0x9B, 0xF1, 0x66, 0xDE, 0x5E, 0x13, 0x89, 0x58, 0x2F,
            0xAF, 0x72, 0xB6, 0x65, 0x19, 0x87, 0xEE, 0x07, 0xFC, 0x31, 0x92, 0x94, 0x3D, 0xB5, 0x60, 0x50,
            0xA3, 0x73, 0x29, 0xCB, 0xB4, 0xA0, 0x99, 0xED, 0x81, 0x93, 0xE0, 0x75, 0x77, 0x67, 0xA1, 0x3D,
            0xD5, 0x23, 0x12, 0xAB, 0x4B, 0x03, 0x31, 0x0D, 0xCD, 0x7F, 0x48, 0xA9, 0xDA, 0x04, 0xFD, 0x50,
            0xE8, 0x08, 0x39, 0x69, 0xED, 0xB7, 0x67, 0xB0, 0xCF, 0x60, 0x95, 0x17, 0x9A, 0x16, 0x3A, 0xB3,
            0x66, 0x1A, 0x05, 0xFB, 0xD5, 0xFA, 0xAA, 0xE8, 0x29, 0x18, 0xA9, 0x96, 0x2F, 0x0B, 0x93, 0xB8,
            0x55, 0xF9, 0x79, 0x93, 0xEC, 0x97, 0x5E, 0xEA, 0xA8, 0x0D, 0x74, 0x0A, 0xDB, 0xF4, 0xFF, 0x74,
            0x73, 0x59, 0xD0, 0x41, 0xD5, 0xC3, 0x3E, 0xA7, 0x1D, 0x28, 0x1E, 0x44, 0x6B, 0x14, 0x77, 0x3B,
            0xCA, 0x97, 0xB4, 0x3A, 0x23, 0xFB, 0x80, 0x16, 0x76, 0xBD, 0x20, 0x7A, 0x43, 0x6C, 0x64, 0x81,
            0xF1, 0xD2, 0xB9, 0x07, 0x87, 0x17, 0x46, 0x1A, 0x5B, 0x9D, 0x32, 0xE6, 0x88, 0xF8, 0x77, 0x48,
            0x54, 0x45, 0x23, 0xB5, 0x24, 0xB0, 0xD5, 0x7D, 0x5E, 0xA7, 0x7A, 0x27, 0x75, 0xD2, 0xEC, 0xFA,
            0x03, 0x2C, 0xFB, 0xDB, 0xF5, 0x2F, 0xB3, 0x78, 0x61, 0x60, 0x27, 0x90, 0x04, 0xE5, 0x7A, 0xE6,
            0xAF, 0x87, 0x4E, 0x73, 0x03, 0xCE, 0x53, 0x29, 0x9C, 0xCC, 0x04, 0x1C, 0x7B, 0xC3, 0x08, 0xD8,
            0x2A, 0x56, 0x98, 0xF3, 0xA8, 0xD0, 0xC3, 0x82, 0x71, 0xAE, 0x35, 0xF8, 0xE9, 0xDB, 0xFB, 0xB6,
            0x94, 0xB5, 0xC8, 0x03, 0xD8, 0x9F, 0x7A, 0xE4, 0x35, 0xDE, 0x23, 0x6D, 0x52, 0x5F, 0x54, 0x75,
            0x9B, 0x65, 0xE3, 0x72, 0xFC, 0xD6, 0x8E, 0xF2, 0x0F, 0xA7, 0x11, 0x1F, 0x9E, 0x4A, 0xFF, 0x73,
    ];
    assert(v@ =~= n_srp());
    v
}

// ══════════════════════════════════════════════════════════════════
// Le groupe
// ══════════════════════════════════════════════════════════════════

/// Le groupe SRP : N, g et k = H(PAD(N) || PAD(g)).
pub struct SrpGroup {
    pub n: Grand,
    pub g: Grand,
    /// k = H(PAD(N) || PAD(g)), multiplicateur de RFC 5054.
    pub k: Grand,
}

/// Les zéros de remplissage.
pub open spec fn zeros(k: nat) -> Seq<u8> {
    Seq::new(k, |i: int| 0u8)
}

/// PAD(x) : écriture big-endian de `x` sur exactement `len` octets (zéros à
/// gauche, octets de poids fort retirés si elle est plus longue).
pub open spec fn pad_spec(x: nat, len: nat) -> Seq<u8> {
    let b = octets_be(x);
    if b.len() >= len {
        b.subrange(b.len() - len, b.len() as int)
    } else {
        zeros((len - b.len()) as nat) + b
    }
}

pub proof fn lemme_pad(x: nat, len: nat)
    ensures
        pad_spec(x, len).len() == len,
        valeur_be(pad_spec(x, len)) == x % p256(len),
{
    let b = octets_be(x);
    lemme_octets_be(x);
    lemme_p256(len);
    if b.len() >= len {
        lemme_valeur_suffixe(b, len);
    } else {
        lemme_valeur_zeros((len - b.len()) as nat);
        assert(zeros((len - b.len()) as nat) =~= Seq::new((len - b.len()) as nat, |i: int| 0u8));
        lemme_valeur_concat(zeros((len - b.len()) as nat), b);
        lemme_valeur_borne(b);
        vstd::arithmetic::power::lemma_pow_increases(256, b.len(), len);
        assert(valeur_be(b) == x);
        assert(valeur_be(b) < p256(b.len()));
        assert(pow(256, b.len()) <= pow(256, len));
        lemme_p256(b.len() as nat);
        assert(p256(b.len()) <= p256(len));
        assert(x < p256(len));
        vstd::arithmetic::div_mod::lemma_small_mod(x, p256(len));
    }
}

/// Le texte big-endian de N.
pub open spec fn n_valeur() -> nat {
    valeur_be(n_srp())
}

/// k = H(PAD(N) || PAD(2)).
pub open spec fn k_valeur() -> nat {
    valeur_be(sha256_spec(pad_spec(n_valeur(), 256) + pad_spec(2, 256)))
}

/// Le groupe RFC 5054 2048 bits, g = 2, et k = H(PAD(N) || PAD(g)).
pub fn group() -> (grp: SrpGroup)
    ensures
        grp.n@ == n_valeur(),
        grp.n@ > 1,
        grp.g@ == 2,
        grp.k@ == k_valeur(),
{
    let o = octets_n();
    let n = Grand::depuis_octets(&o);
    let g = Grand::depuis_u64(2);
    proof {
        lemme_valeur_premier_non_nul(n_srp());
        lemme_p256(255);
        vstd::arithmetic::power::lemma_pow_increases(256, 1, 255);
        vstd::arithmetic::power::lemma_pow1(256);
    }
    let pn = pad(&n, N_LEN_BYTES);
    let pg = pad(&g, N_LEN_BYTES);
    let mut tout = pn;
    let mut pg2 = pg;
    tout.append(&mut pg2);
    let kb = sha256(&tout);
    let k = Grand::depuis_octets(&kb);
    SrpGroup { n, g, k }
}

// ══════════════════════════════════════════════════════════════════
// Utilitaires bas niveau
// ══════════════════════════════════════════════════════════════════

/// PAD(n) sur exactement `len` octets (zéros à gauche) ; doit donner
/// exactement le PAD() du client, sans quoi u, M1 et M2 ne coïncident pas.
pub fn pad(n: &Grand, len: usize) -> (r: Vec<u8>)
    ensures
        r@ == pad_spec(n@, len as nat),
        r@.len() == len,
        valeur_be(r@) == n@ % p256(len as nat),
{
    proof { lemme_pad(n@, len as nat); }
    let bytes = n.to_bytes_be();
    if bytes.len() >= len {
        let mut out: Vec<u8> = Vec::new();
        let mut i = bytes.len() - len;
        while i < bytes.len()
            invariant
                bytes.len() >= len,
                bytes.len() - len <= i <= bytes.len(),
                out@ == bytes@.subrange(bytes.len() - len, i as int),
            decreases bytes.len() - i,
        {
            out.push(bytes[i]);
            assert(bytes@.subrange(bytes.len() - len, i + 1) == bytes@.subrange(bytes.len() - len, i as int).push(bytes@[i as int]));
            i += 1;
        }
        return out;
    }
    let mut out: Vec<u8> = Vec::new();
    let z = len - bytes.len();
    while out.len() < z
        invariant
            out.len() <= z,
            out@ == zeros(out.len() as nat),
        decreases z - out.len(),
    {
        out.push(0u8);
        assert(out@ =~= zeros(out.len() as nat));
    }
    let mut b = bytes;
    out.append(&mut b);
    out
}

/// Condensat SHA-256.
pub fn sha256(data: &[u8]) -> (r: Vec<u8>)
    ensures
        r@ == sha256_spec(data@),
        r@.len() == 32,
{
    condensat_sha256(data)
}

/// Concaténation des morceaux.
pub open spec fn aplatir(p: Seq<Seq<u8>>) -> Seq<u8>
    decreases p.len(),
{
    if p.len() == 0 { Seq::empty() } else { aplatir(p.drop_last()) + p.last() }
}

/// Vues des tranches.
pub open spec fn vues_tranches(p: Seq<&[u8]>) -> Seq<Seq<u8>> {
    p.map_values(|x: &[u8]| x@)
}

/// Condensat SHA-256 de la concaténation des morceaux.
pub fn sha256_concat(parts: &[&[u8]]) -> (r: Vec<u8>)
    ensures
        r@ == sha256_spec(aplatir(vues_tranches(parts@))),
        r@.len() == 32,
{
    let mut tout: Vec<u8> = Vec::new();
    let mut i: usize = 0;
    while i < parts.len()
        invariant
            i <= parts.len(),
            tout@ == aplatir(vues_tranches(parts@).subrange(0, i as int)),
        decreases parts.len() - i,
    {
        tout.extend_from_slice(parts[i]);
        assert(vues_tranches(parts@).subrange(0, i + 1).drop_last() =~= vues_tranches(parts@).subrange(0, i as int));
        i += 1;
    }
    assert(vues_tranches(parts@).subrange(0, parts.len() as int) =~= vues_tranches(parts@));
    sha256(&tout)
}

/// Écriture hexadécimale minuscule d'un octet.
pub open spec fn hex_octet(b: u8) -> Seq<char> {
    seq![crate::texte::hex_min((b / 16) as int), crate::texte::hex_min((b % 16) as int)]
}

/// Écriture hexadécimale minuscule des octets, deux chiffres par octet.
pub open spec fn hex_octets(b: Seq<u8>) -> Seq<char>
    decreases b.len(),
{
    if b.len() == 0 { Seq::empty() } else { hex_octets(b.drop_last()) + hex_octet(b.last()) }
}

/// Ajoute l'écriture hexadécimale minuscule des octets.
pub fn ajouter_hex(out: &mut Vec<char>, bytes: &[u8])
    ensures
        final(out)@ == old(out)@ + hex_octets(bytes@),
{
    let ghost debut = out@;
    let mut i: usize = 0;
    while i < bytes.len()
        invariant
            i <= bytes.len(),
            out@ == debut + hex_octets(bytes@.subrange(0, i as int)),
        decreases bytes.len() - i,
    {
        let b = bytes[i];
        out.push(crate::texte::chiffre_hex_min(b / 16));
        out.push(crate::texte::chiffre_hex_min(b % 16));
        assert(bytes@.subrange(0, i + 1).drop_last() =~= bytes@.subrange(0, i as int));
        assert(out@ =~= debut + hex_octets(bytes@.subrange(0, i + 1)));
        i += 1;
    }
    assert(bytes@.subrange(0, bytes.len() as int) =~= bytes@);
}

pub proof fn lemme_hex_longueur(b: Seq<u8>)
    ensures
        hex_octets(b).len() == 2 * b.len(),
    decreases b.len(),
{
    if b.len() > 0 {
        lemme_hex_longueur(b.drop_last());
    }
}

/// L'écriture hexadécimale n'a que des chiffres hexadécimaux.
pub proof fn lemme_hex_chiffres(b: Seq<u8>)
    ensures
        forall|i: int| 0 <= i < hex_octets(b).len() ==> est_chiffre_hex(#[trigger] hex_octets(b)[i]),
    decreases b.len(),
{
    if b.len() > 0 {
        lemme_hex_chiffres(b.drop_last());
        let a = hex_octets(b.drop_last());
        let o = hex_octet(b.last());
        let h = (b.last() / 16) as int;
        let l = (b.last() % 16) as int;
        assert(est_chiffre_hex(crate::texte::hex_min(h)));
        assert(est_chiffre_hex(crate::texte::hex_min(l)));
        assert forall|i: int| 0 <= i < hex_octets(b).len() implies est_chiffre_hex(#[trigger] hex_octets(b)[i]) by {
            if i < a.len() {
                assert(hex_octets(b)[i] == a[i]);
            } else {
                assert(hex_octets(b)[i] == o[i - a.len()]);
            }
        }
    }
}

/// Les deux chiffres de l'octet `i` sont aux places `2i` et `2i + 1`.
proof fn lemme_hex_places(b: Seq<u8>)
    ensures
        hex_octets(b).len() == 2 * b.len(),
        forall|i: int|
            0 <= i < b.len() ==> #[trigger] hex_octets(b)[2 * i] == crate::texte::hex_min((b[i] / 16) as int)
                && hex_octets(b)[2 * i + 1] == crate::texte::hex_min((b[i] % 16) as int),
    decreases b.len(),
{
    lemme_hex_longueur(b);
    if b.len() > 0 {
        lemme_hex_places(b.drop_last());
        let a = hex_octets(b.drop_last());
        assert forall|i: int| 0 <= i < b.len() implies #[trigger] hex_octets(b)[2 * i] == crate::texte::hex_min(
            (b[i] / 16) as int,
        ) && hex_octets(b)[2 * i + 1] == crate::texte::hex_min((b[i] % 16) as int) by {
            if i < b.len() - 1 {
                assert(b.drop_last()[i] == b[i]);
                assert(hex_octets(b)[2 * i] == a[2 * i]);
                assert(hex_octets(b)[2 * i + 1] == a[2 * i + 1]);
            }
        }
    }
}

/// Relire l'écriture hexadécimale d'octets rend ces octets : le texte est
/// décodable, fait deux chiffres par octet, et se décode en les mêmes
/// octets.
pub proof fn loi_hex_aller_retour(b: Seq<u8>)
    ensures
        hex_octets(b).len() == 2 * b.len(),
        hex_decodable(hex_octets(b)),
        hex_decode_spec(hex_octets(b)) == b,
{
    lemme_hex_places(b);
    lemme_hex_chiffres(b);
    let h = hex_octets(b);
    assert forall|i: int| 0 <= i < b.len() implies #[trigger] hex_decode_spec(h)[i] == b[i] by {
        let x = b[i];
        assert(h[2 * i] == crate::texte::hex_min((x / 16) as int));
        assert(h[2 * i + 1] == crate::texte::hex_min((x % 16) as int));
        assert(val_hex(crate::texte::hex_min((x / 16) as int)) == x / 16);
        assert(val_hex(crate::texte::hex_min((x % 16) as int)) == x % 16);
        assert(16 * (x / 16) + x % 16 == x);
    }
    assert(hex_decode_spec(h) =~= b);
}

/// Écriture hexadécimale minuscule, deux chiffres par octet.
pub fn hex_encode(bytes: &[u8]) -> (r: String)
    ensures
        r@ == hex_octets(bytes@),
{
    let mut out: Vec<char> = Vec::new();
    ajouter_hex(&mut out, bytes);
    assert(out@ =~= hex_octets(bytes@));
    crate::texte::chaine_de(&out)
}

/// Chiffre hexadécimal ASCII (`is_ascii_hexdigit`).
pub open spec fn est_chiffre_hex(c: char) -> bool {
    ('0' <= c <= '9') || ('a' <= c <= 'f') || ('A' <= c <= 'F')
}

/// Valeur d'un chiffre hexadécimal.
pub open spec fn val_hex(c: char) -> nat {
    if '0' <= c <= '9' {
        (c as nat - '0' as nat) as nat
    } else if 'a' <= c <= 'f' {
        (c as nat - 'a' as nat + 10) as nat
    } else {
        (c as nat - 'A' as nat + 10) as nat
    }
}

fn val_hex_exec(c: char) -> (r: u8)
    requires
        est_chiffre_hex(c),
    ensures
        r as nat == val_hex(c),
{
    let u = c as u32;
    if 48 <= u && u <= 57 {
        (u - 48) as u8
    } else if 97 <= u && u <= 102 {
        (u - 87) as u8
    } else {
        (u - 55) as u8
    }
}

/// Texte hexadécimal décodable : chiffres hexadécimaux seulement, en
/// nombre pair.
pub open spec fn hex_decodable(s: Seq<char>) -> bool {
    s.len() % 2 == 0 && forall|i: int| 0 <= i < s.len() ==> est_chiffre_hex(#[trigger] s[i])
}

/// Octets décodés d'un texte hexadécimal : l'octet `i` vient des chiffres
/// `2i` et `2i + 1`.
pub open spec fn hex_decode_spec(s: Seq<char>) -> Seq<u8> {
    Seq::new(s.len() / 2, |i: int| (16 * val_hex(s[2 * i]) + val_hex(s[2 * i + 1])) as u8)
}

/// Décode un texte hexadécimal ; `None` s'il a une longueur impaire ou un
/// caractère qui n'est pas un chiffre hexadécimal.
pub fn hex_decode(hex: &str) -> (r: Option<Vec<u8>>)
    ensures
        match r {
            Some(v) => hex_decodable(hex@) && v@ == hex_decode_spec(hex@),
            None => !hex_decodable(hex@),
        },
{
    let c = crate::texte::caracteres(hex);
    let mut i: usize = 0;
    while i < c.len()
        invariant
            i <= c.len(),
            c@ == hex@,
            forall|j: int| 0 <= j < i ==> est_chiffre_hex(#[trigger] c@[j]),
        decreases c.len() - i,
    {
        let x = c[i];
        if !(('0' <= x && x <= '9') || ('a' <= x && x <= 'f') || ('A' <= x && x <= 'F')) {
            assert(!est_chiffre_hex(hex@[i as int]));
            return None;
        }
        i += 1;
    }
    if c.len() % 2 != 0 {
        return None;
    }
    let mut v: Vec<u8> = Vec::new();
    let mut j: usize = 0;
    while j < c.len() / 2
        invariant
            c@ == hex@,
            c.len() % 2 == 0,
            j <= c.len() / 2,
            forall|k: int| 0 <= k < c.len() ==> est_chiffre_hex(#[trigger] c@[k]),
            v@ == hex_decode_spec(hex@).subrange(0, j as int),
        decreases c.len() / 2 - j,
    {
        let h = val_hex_exec(c[2 * j]);
        let l = val_hex_exec(c[2 * j + 1]);
        v.push(16 * h + l);
        assert(v@ =~= hex_decode_spec(hex@).subrange(0, j + 1));
        j += 1;
    }
    assert(v@ =~= hex_decode_spec(hex@));
    Some(v)
}

/// Le texte sans son `+` de tête (un seul, pas suivi d'un autre `+`).
pub open spec fn sans_plus(s: Seq<char>) -> Seq<char> {
    if s.len() > 0 && s[0] == '+' && !(s.len() > 1 && s[1] == '+') { s.drop_first() } else { s }
}

/// Texte accepté par `BigUint::from_str_radix(_, 16)` : après un `+`
/// facultatif, au moins un caractère, pas de `_` en tête, seulement des
/// chiffres hexadécimaux et des `_`.
pub open spec fn texte_hex_valide(s: Seq<char>) -> bool {
    let t = sans_plus(s);
    t.len() > 0 && t[0] != '_' && forall|i: int| 0 <= i < t.len() ==> (est_chiffre_hex(#[trigger] t[i]) || t[i] == '_')
}

/// Valeur d'un texte hexadécimal, les `_` étant ignorés.
pub open spec fn valeur_texte_hex(t: Seq<char>) -> nat
    decreases t.len(),
{
    if t.len() == 0 {
        0
    } else if t.last() == '_' {
        valeur_texte_hex(t.drop_last())
    } else {
        valeur_texte_hex(t.drop_last()) * 16 + val_hex(t.last())
    }
}

/// `BigUint::from_str_radix(hex, 16).ok()`, en octets big-endian minimaux.
/// Contrat, lu dans la source de num-bigint : accepté si et seulement si
/// `texte_hex_valide`, et la valeur est celle des chiffres (les `_` sont
/// ignorés).
#[verifier::external_body]
fn big_depuis_hex(hex: &str) -> (r: Option<Vec<u8>>)
    ensures
        match r {
            Some(v) => texte_hex_valide(hex@) && v@ == octets_be(valeur_texte_hex(sans_plus(hex@))),
            None => !texte_hex_valide(hex@),
        },
{
    <num_bigint::BigUint as num_traits::Num>::from_str_radix(hex, 16).ok().map(|b| b.to_bytes_be())
}

/// Le grand entier écrit en hexadécimal dans `hex`.
pub fn bigint_from_hex(hex: &str) -> (r: Option<Grand>)
    ensures
        match r {
            Some(g) => texte_hex_valide(hex@) && g@ == valeur_texte_hex(sans_plus(hex@)),
            None => !texte_hex_valide(hex@),
        },
{
    match big_depuis_hex(hex) {
        Some(v) => {
            proof { lemme_octets_be(valeur_texte_hex(sans_plus(hex@))); }
            Some(Grand::depuis_octets(&v))
        },
        None => None,
    }
}

/// `len` octets tirés du générateur cryptographique du système.
pub fn random_bytes(len: usize) -> (r: Option<Vec<u8>>)
    ensures
        r matches Some(v) ==> v@.len() == len,
        len == 0 ==> r is Some,
{
    octets_aleatoires(len)
}

/// Nombre de tirages de `b` avant d'abandonner (32 octets nuls à chaque
/// tirage n'arrive pas en pratique ; une boucle sans borne n'est pas
/// acceptée ici).
pub const TIRAGES_B: usize = 8;

/// Exposant privé tiré des octets : leur valeur en gros-boutiste, refusée
/// (`None`) si elle est nulle.
pub fn b_depuis_octets(octets: &[u8]) -> (r: Option<Grand>)
    ensures
        match r {
            Some(b) => b@ == valeur_be(octets@) && b@ > 0,
            None => valeur_be(octets@) == 0,
        },
{
    let b = Grand::depuis_octets(octets);
    if b.is_zero() { None } else { Some(b) }
}

/// Exposant privé serveur `b` : 32 octets du générateur du système lus en
/// gros-boutiste (voir `b_depuis_octets`), tirés de nouveau s'ils valent
/// zéro ; `None` si le générateur échoue ou après `TIRAGES_B` tirages nuls.
pub fn generate_b() -> (r: Option<Grand>)
    ensures
        r matches Some(b) ==> 0 < b@ < p256(32) && exists|o: Seq<u8>| o.len() == 32 && b@ == valeur_be(o),
{
    let mut essai: usize = 0;
    while essai < TIRAGES_B
        invariant
            essai <= TIRAGES_B,
        decreases TIRAGES_B - essai,
    {
        match random_bytes(32) {
            Some(octets) => {
                proof { lemme_valeur_borne(octets@); }
                match b_depuis_octets(&octets) {
                    Some(b) => {
                        assert(octets@.len() == 32 && b@ == valeur_be(octets@));
                        return Some(b);
                    },
                    None => {},
                }
            },
            None => return None,
        }
        essai += 1;
    }
    None
}

// ══════════════════════════════════════════════════════════════════
// Étapes du protocole
// ══════════════════════════════════════════════════════════════════

/// B = (k·v + g^b) mod N.
pub fn compute_b_public(grp: &SrpGroup, v: &Grand, b: &Grand) -> (r: Grand)
    requires
        grp.n@ > 1,
    ensures
        r@ == (grp.k@ * v@ + pow(grp.g@ as int, b@)) % (grp.n@ as int),
{
    let g_pow_b = grp.g.modpow(b, &grp.n);
    let term = grp.k.mul(v).rem(&grp.n);
    let r = term.add(&g_pow_b).rem(&grp.n);
    proof {
        let n = grp.n@ as int;
        vstd::arithmetic::div_mod::lemma_add_mod_noop((grp.k@ * v@) as int, pow(grp.g@ as int, b@), n);
    }
    r
}

/// u = H(PAD(A) || PAD(B)).
pub open spec fn u_spec(a: nat, b: nat) -> nat {
    valeur_be(sha256_spec(pad_spec(a, 256) + pad_spec(b, 256)))
}

/// u = H(PAD(A) || PAD(B)).
pub fn compute_u(a_pub: &Grand, b_pub: &Grand) -> (r: Grand)
    ensures
        r@ == u_spec(a_pub@, b_pub@),
{
    let mut pa = pad(a_pub, N_LEN_BYTES);
    let mut pb = pad(b_pub, N_LEN_BYTES);
    pa.append(&mut pb);
    let h = sha256(&pa);
    Grand::depuis_octets(&h)
}

/// S côté serveur = (A · v^u)^b mod N.
pub fn compute_s_server(grp: &SrpGroup, a_pub: &Grand, v: &Grand, u: &Grand, b: &Grand) -> (r: Grand)
    requires
        grp.n@ > 1,
    ensures
        r@ == pow(a_pub@ * pow(v@ as int, u@), b@) % (grp.n@ as int),
{
    let v_pow_u = v.modpow(u, &grp.n);
    let base = a_pub.mul(&v_pow_u).rem(&grp.n);
    let r = base.modpow(b, &grp.n);
    proof {
        let n = grp.n@ as int;
        let x = a_pub@ * pow(v@ as int, u@);
        vstd::arithmetic::div_mod::lemma_mul_mod_noop_right(a_pub@ as int, pow(v@ as int, u@), n);
        vstd::arithmetic::power::lemma_pow_mod_noop(x, b@, n);
    }
    r
}

/// K = H(PAD(S)).
pub fn compute_k(s: &Grand) -> (r: Vec<u8>)
    ensures
        r@ == sha256_spec(pad_spec(s@, 256)),
{
    let p = pad(s, N_LEN_BYTES);
    sha256(&p)
}

/// Ou exclusif octet à octet, sur la plus courte des deux longueurs.
pub open spec fn xor_octets(a: Seq<u8>, b: Seq<u8>) -> Seq<u8> {
    Seq::new(if a.len() <= b.len() { a.len() } else { b.len() }, |i: int| a[i] ^ b[i])
}

/// M1 = H( H(N) xor H(g), H(I), s, PAD(A), PAD(B), K ).
pub open spec fn m1_spec(n: nat, g: nat, identite: Seq<u8>, sel: Seq<u8>, a: nat, b: nat, k: Seq<u8>) -> Seq<u8> {
    sha256_spec(
        xor_octets(sha256_spec(pad_spec(n, 256)), sha256_spec(pad_spec(g, 256))) + sha256_spec(identite)
            + sel + pad_spec(a, 256) + pad_spec(b, 256) + k,
    )
}

/// M1 attendu = H( H(N) xor H(g), H(I), s, PAD(A), PAD(B), K ), identique au
/// calcul du client quand il connaît le mot de passe.
pub fn compute_m1(grp: &SrpGroup, identity: &str, salt_bytes: &[u8], a_pub: &Grand, b_pub: &Grand, k_bytes: &[u8]) -> (r: Vec<u8>)
    ensures
        r@ == m1_spec(grp.n@, grp.g@, vstd::utf8::encode_utf8(identity@), salt_bytes@, a_pub@, b_pub@, k_bytes@),
{
    let h_n = sha256(&pad(&grp.n, N_LEN_BYTES));
    let h_g = sha256(&pad(&grp.g, N_LEN_BYTES));
    let mut tout: Vec<u8> = Vec::new();
    let mut i: usize = 0;
    while i < 32
        invariant
            h_n@.len() == 32,
            h_g@.len() == 32,
            i <= 32,
            tout@ == xor_octets(h_n@, h_g@).subrange(0, i as int),
        decreases 32 - i,
    {
        tout.push(h_n[i] ^ h_g[i]);
        assert(tout@ =~= xor_octets(h_n@, h_g@).subrange(0, i + 1));
        i += 1;
    }
    assert(tout@ =~= xor_octets(h_n@, h_g@));
    let h_i = sha256(identity.as_bytes());
    tout.extend_from_slice(&h_i);
    tout.extend_from_slice(salt_bytes);
    let pa = pad(a_pub, N_LEN_BYTES);
    let pb = pad(b_pub, N_LEN_BYTES);
    tout.extend_from_slice(&pa);
    tout.extend_from_slice(&pb);
    tout.extend_from_slice(k_bytes);
    assert(tout@ =~= xor_octets(sha256_spec(pad_spec(grp.n@, 256)), sha256_spec(pad_spec(grp.g@, 256))) + sha256_spec(vstd::utf8::encode_utf8(identity@))
            + salt_bytes@ + pad_spec(a_pub@, 256) + pad_spec(b_pub@, 256) + k_bytes@);
    sha256(&tout)
}

/// M2 = H(PAD(A), M1, K), preuve rendue par le serveur au client.
pub fn compute_m2(a_pub: &Grand, m1: &[u8], k_bytes: &[u8]) -> (r: Vec<u8>)
    ensures
        r@ == sha256_spec(pad_spec(a_pub@, 256) + m1@ + k_bytes@),
{
    let mut tout = pad(a_pub, N_LEN_BYTES);
    tout.extend_from_slice(m1);
    tout.extend_from_slice(k_bytes);
    assert(tout@ =~= pad_spec(a_pub@, 256) + m1@ + k_bytes@);
    sha256(&tout)
}

/// Comparaison en temps constant (pas de sortie anticipée sur le contenu).
pub fn constant_time_eq(a: &[u8], b: &[u8]) -> (r: bool)
    ensures
        r == (a@ == b@),
{
    if a.len() != b.len() {
        return false;
    }
    let mut acc: u8 = 0;
    let mut i: usize = 0;
    while i < a.len()
        invariant
            i <= a.len(),
            a.len() == b.len(),
            (acc == 0) == (forall|j: int| 0 <= j < i ==> a@[j] == b@[j]),
        decreases a.len() - i,
    {
        let x = a[i];
        let y = b[i];
        let nouveau = acc | (x ^ y);
        assert((nouveau == 0) == (acc == 0 && x == y)) by (bit_vector)
            requires nouveau == acc | (x ^ y);
        acc = nouveau;
        i += 1;
    }
    assert(a@ =~= b@ <==> (forall|j: int| 0 <= j < a.len() ==> a@[j] == b@[j]));
    acc == 0
}

/// Une valeur publique reçue n'est ni nulle ni multiple de N (sinon S, K,
/// M1 et M2 deviendraient prévisibles).
pub fn is_safe_public_value(v: &Grand, n: &Grand) -> (r: bool)
    requires
        n@ > 0,
    ensures
        r == (v@ != 0 && v@ % n@ != 0),
{
    !v.is_zero() && !v.rem(n).is_zero()
}

// ══════════════════════════════════════════════════════════════════
// Accord des clés
// ══════════════════════════════════════════════════════════════════

/// S calculé par le client qui connaît `x` (dérivé du mot de passe) et son
/// exposant `a` : (B − k·g^x)^(a + u·x) mod N.
pub open spec fn s_client(n: nat, g: nat, k: nat, b_pub: nat, a: nat, x: nat, u: nat) -> int {
    pow((b_pub - k * pow(g as int, x)) % (n as int), a + u * x) % (n as int)
}

/// S calculé par le serveur, celui de `compute_s_server` : (A·v^u)^b mod N.
pub open spec fn s_serveur(n: nat, a_pub: nat, v: nat, u: nat, b: nat) -> int {
    pow(a_pub * pow(v as int, u), b) % (n as int)
}

proof fn lemme_congru_pow(x: int, y: int, e: nat, n: int)
    requires
        n > 0,
        x % n == y % n,
    ensures
        pow(x, e) % n == pow(y, e) % n,
{
    vstd::arithmetic::power::lemma_pow_mod_noop(x, e, n);
    vstd::arithmetic::power::lemma_pow_mod_noop(y, e, n);
}

/// Accord des clés SRP : pour un vérificateur v = g^x mod N, une valeur
/// publique client A = g^a mod N et la valeur publique serveur
/// B = (k·v + g^b) mod N (celle de `compute_b_public`), le S du serveur
/// (celui de `compute_s_server`) et celui du client qui connaît `x` sont
/// tous deux g^(b·(a + u·x)) mod N : les deux côtés obtiennent la même clé.
pub proof fn loi_accord_srp(n: nat, g: nat, k: nat, a: nat, b: nat, x: nat, u: nat)
    requires
        n > 1,
    ensures
        ({
            let v = (pow(g as int, x) % (n as int)) as nat;
            let a_pub = (pow(g as int, a) % (n as int)) as nat;
            let b_pub = ((k * v + pow(g as int, b)) % (n as int)) as nat;
            &&& s_serveur(n, a_pub, v, u, b) == pow(g as int, b * (a + u * x)) % (n as int)
            &&& s_client(n, g, k, b_pub, a, x, u) == pow(g as int, b * (a + u * x)) % (n as int)
        }),
{
    let ni = n as int;
    let gi = g as int;
    let gx = pow(gi, x);
    let ga = pow(gi, a);
    let gb = pow(gi, b);
    let v = gx % ni;
    let a_pub = ga % ni;
    let e = a + u * x;
    vstd::arithmetic::div_mod::lemma_mod_bound(gx, ni);
    vstd::arithmetic::div_mod::lemma_mod_bound(ga, ni);

    // Côté serveur : A·v^u ≡ g^a·g^(x·u) = g^(a + x·u) (mod N).
    vstd::arithmetic::div_mod::lemma_mod_twice(gx, ni);
    lemme_congru_pow(v, gx, u, ni);
    vstd::arithmetic::power::lemma_pow_multiplies(gi, x, u);
    let vu = pow(v, u);
    assert(vu % ni == pow(gi, x * u) % ni);
    vstd::arithmetic::div_mod::lemma_mul_mod_noop(a_pub, vu, ni);
    vstd::arithmetic::div_mod::lemma_mul_mod_noop(ga, pow(gi, x * u), ni);
    vstd::arithmetic::div_mod::lemma_mod_twice(ga, ni);
    assert((a_pub * vu) % ni == (ga * pow(gi, x * u)) % ni);
    vstd::arithmetic::power::lemma_pow_adds(gi, a, x * u);
    assert(x * u == u * x) by (nonlinear_arith);
    assert((a_pub * vu) % ni == pow(gi, e) % ni);
    lemme_congru_pow(a_pub * vu, pow(gi, e), b, ni);
    vstd::arithmetic::power::lemma_pow_multiplies(gi, e, b);
    assert(e * b == b * e) by (nonlinear_arith);

    // Côté client : B − k·g^x ≡ g^b (mod N).
    let t = k * v + gb;
    let bp = t % ni;
    vstd::arithmetic::div_mod::lemma_fundamental_div_mod(t, ni);
    vstd::arithmetic::div_mod::lemma_fundamental_div_mod(gx, ni);
    assert(bp - k * gx == ni * (-(k * (gx / ni)) - t / ni) + gb) by (nonlinear_arith)
        requires
            t == ni * (t / ni) + bp,
            gx == ni * (gx / ni) + v,
            t == k * v + gb;
    vstd::arithmetic::div_mod::lemma_mod_multiples_vanish(-(k * (gx / ni)) - t / ni, gb, ni);
    assert((bp - k * gx) % ni == gb % ni);
    vstd::arithmetic::div_mod::lemma_mod_twice(bp - k * gx, ni);
    lemme_congru_pow((bp - k * gx) % ni, gb, e, ni);
    vstd::arithmetic::power::lemma_pow_multiplies(gi, b, e);
    vstd::arithmetic::div_mod::lemma_mod_bound(t, ni);
}

} // verus!
