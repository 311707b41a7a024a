//! Connexion et inscription par SRP-6a : les décisions et les calculs des
//! deux étapes, hors accès à la base et hors envoi de la réponse.

use vstd::prelude::*;
use vstd::arithmetic::power::pow;
use crate::crypto::sha256_spec;
use crate::grand::{Grand, octets_be};
use crate::srp::{
    SrpGroup, bigint_from_hex, compute_b_public, compute_k, compute_m1, compute_m2,
    compute_s_server, compute_u, constant_time_eq, est_chiffre_hex, generate_b, group, hex_decodable,
    hex_decode, hex_decode_spec, hex_encode, hex_octets, k_valeur, m1_spec, n_valeur, pad_spec,
    random_bytes, sans_plus, sha256, texte_hex_valide, u_spec, valeur_texte_hex,
};
use crate::grand::valeur_be;
use crate::texte::{Echappement, ajouter, caracteres, chaine_de, echappe, echapper_html_apos};
use crate::json::{chaine_json, json_chaine};
use crate::sso::json_booleen;
use crate::temps::{instant_de, lire_date_heure};

verus! {

broadcast use vstd::string::group_string_axioms;

/// Durée de vie maximale d'une session SRP éphémère (étape 1 → étape 2).
pub const SRP_SESSION_MAX_AGE_SECONDS: i64 = 300;

/// Texte en minuscules Unicode (valeur nommée de `str::to_lowercase`).
pub uninterp spec fn minuscules_unicode(s: Seq<char>) -> Seq<char>;

/// `str::to_lowercase` (std) : minuscules Unicode. Contrat : le résultat est
/// la valeur nommée `minuscules_unicode` du texte.
#[verifier::external_body]
pub(crate) fn en_minuscules_unicode(s: &str) -> (r: String)
    ensures
        r@ == minuscules_unicode(s@),
{
    s.to_lowercase()
}

/// Tous les caractères sont des chiffres hexadécimaux.
pub open spec fn tout_hex(s: Seq<char>) -> bool {
    forall|i: int| 0 <= i < s.len() ==> est_chiffre_hex(#[trigger] s[i])
}

/// Tous les caractères de `s` sont des chiffres hexadécimaux.
pub fn que_des_chiffres_hex(s: &str) -> (r: bool)
    ensures
        r == tout_hex(s@),
{
    let c = caracteres(s);
    let mut i: usize = 0;
    while i < c.len()
        invariant
            i <= c.len(),
            c@ == s@,
            forall|j: int| 0 <= j < i ==> est_chiffre_hex(#[trigger] c@[j]),
        decreases c.len() - i,
    {
        let x = c[i];
        if !(('0' <= x && x <= '9') || ('a' <= x && x <= 'f') || ('A' <= x && x <= 'F')) {
            assert(!est_chiffre_hex(s@[i as int]));
            return false;
        }
        i += 1;
    }
    true
}

/// Nombre de caractères d'un texte.
fn longueur(s: &str) -> (n: usize)
    ensures
        n == s@.len(),
{
    caracteres(s).len()
}

// ══════════════════════════════════════════════════════════════════
// Étape 1
// ══════════════════════════════════════════════════════════════════

/// Sel factice d'un compte inexistant : 16 premiers octets de
/// H(minuscules(email)), en hexadécimal.
pub open spec fn faux_sel(email: Seq<char>) -> Seq<char> {
    hex_octets(sha256_spec(vstd::utf8::encode_utf8(minuscules_unicode(email))).subrange(0, 16))
}

/// Vérificateur factice d'un compte inexistant : h ‖ H(h) ‖ H(h) avec
/// h = H(minuscules(email)), en hexadécimal.
pub open spec fn faux_verificateur(email: Seq<char>) -> Seq<char> {
    let h = sha256_spec(vstd::utf8::encode_utf8(minuscules_unicode(email)));
    hex_octets(h + sha256_spec(h) + sha256_spec(h))
}

/// Sel et vérificateur factices mais stables pour un email donné : l'étape 1
/// sur un compte inexistant ressemble à celle d'un vrai compte.
pub fn fake_salt_and_verifier(email: &str) -> (r: (String, String))
    ensures
        r.0@ == faux_sel(email@),
        r.1@ == faux_verificateur(email@),
        r.0@.len() == 32 && tout_hex(r.0@),
        r.1@.len() == 192 && tout_hex(r.1@),
{
    let l = en_minuscules_unicode(email);
    let h = sha256(l.as_str().as_bytes());
    let mut debut: Vec<u8> = Vec::new();
    let mut i: usize = 0;
    while i < 16
        invariant
            h@.len() == 32,
            i <= 16,
            debut@ == h@.subrange(0, i as int),
        decreases 16 - i,
    {
        debut.push(h[i]);
        assert(debut@ =~= h@.subrange(0, i + 1));
        i += 1;
    }
    let sel = hex_encode(&debut);
    let hh = sha256(&h);
    let mut etendu = h.clone();
    etendu.extend_from_slice(&hh);
    let mut premiers: Vec<u8> = Vec::new();
    let mut j: usize = 0;
    while j < 32
        invariant
            h@.len() == 32,
            etendu@ == h@ + sha256_spec(h@),
            j <= 32,
            premiers@ == etendu@.subrange(0, j as int),
        decreases 32 - j,
    {
        premiers.push(etendu[j]);
        assert(premiers@ =~= etendu@.subrange(0, j + 1));
        j += 1;
    }
    assert(premiers@ =~= h@);
    let h3 = sha256(&premiers);
    etendu.extend_from_slice(&h3);
    assert(etendu@ =~= h@ + sha256_spec(h@) + sha256_spec(h@));
    // Longueur 96 : la troncature à N_LEN_BYTES (256) ne retire rien.
    let verif = hex_encode(&etendu);
    proof {
        crate::srp::lemme_hex_longueur(debut@);
        crate::srp::lemme_hex_chiffres(debut@);
        crate::srp::lemme_hex_longueur(etendu@);
        crate::srp::lemme_hex_chiffres(etendu@);
    }
    (sel, verif)
}

/// Erreurs de l'étape 1.
pub enum ErreurEtape1 {
    /// Identifiant vide ou de plus de 255 octets.
    IdentifiantInvalide,
    /// Le vérificateur stocké n'est pas un texte hexadécimal.
    VerificateurInvalide,
    /// Le générateur aléatoire du système est indisponible.
    AleaIndisponible,
}

/// Identifiant acceptable à l'étape 1 : non vide, 255 octets au plus.
pub open spec fn identifiant_valide(id: Seq<char>) -> bool {
    id.len() > 0 && vstd::utf8::encode_utf8(id).len() <= 255
}

/// Borne la taille de l'identifiant avant tout hachage ou recherche.
pub fn valider_identifiant(identifiant: &str) -> (r: bool)
    ensures
        r == identifiant_valide(identifiant@),
{
    !identifiant.is_empty() && identifiant.as_bytes().len() <= 255
}

/// Ce que l'étape 1 envoie et retient.
pub struct Etape1 {
    /// Exposant privé serveur `b` (hexadécimal), gardé en session.
    pub b_hex: String,
    /// Valeur publique B (hexadécimal), envoyée au client.
    pub b_pub_hex: String,
    /// Jeton qui relie l'étape 1 à l'étape 2 (24 octets, hexadécimal).
    pub token: String,
}

/// Étape 1 pour un compte de vérificateur `verifier_hex` : tire `b`, calcule
/// B = (k·v + g^b) mod N et un jeton de session de 24 octets aléatoires.
pub fn srp_etape1(verifier_hex: &str) -> (r: Result<Etape1, ErreurEtape1>)
    ensures
        !texte_hex_valide(verifier_hex@) ==> r matches Err(ErreurEtape1::VerificateurInvalide),
        texte_hex_valide(verifier_hex@) ==> !(r matches Err(ErreurEtape1::VerificateurInvalide)),
        r matches Err(e) ==> !(e matches ErreurEtape1::IdentifiantInvalide),
        r matches Ok(e) ==> exists|b: nat| {
            &&& 0 < b
            &&& e.b_hex@ == hex_octets(octets_be(b))
            &&& e.b_pub_hex@ == hex_octets(octets_be(
                ((k_valeur() * valeur_texte_hex(sans_plus(verifier_hex@)) + pow(2, b)) % (n_valeur() as int)) as nat,
            ))
        },
        r matches Ok(e) ==> e.token@.len() == 48,
{
    let grp = group();
    let v = match bigint_from_hex(verifier_hex) {
        Some(v) => v,
        None => return Err(ErreurEtape1::VerificateurInvalide),
    };
    let b = match generate_b() {
        Some(b) => b,
        None => return Err(ErreurEtape1::AleaIndisponible),
    };
    let b_pub = compute_b_public(&grp, &v, &b);
    let alea = match random_bytes(24) {
        Some(a) => a,
        None => return Err(ErreurEtape1::AleaIndisponible),
    };
    let token = hex_encode(&alea);
    proof { crate::srp::lemme_hex_longueur(alea@); }
    let b_hex = hex_encode(&b.to_bytes_be());
    let b_pub_hex = hex_encode(&b_pub.to_bytes_be());
    let r = Etape1 { b_hex, b_pub_hex, token };
    assert(r.b_pub_hex@ == hex_octets(octets_be(
        ((k_valeur() * valeur_texte_hex(sans_plus(verifier_hex@)) + pow(2, b@)) % (n_valeur() as int)) as nat,
    )));
    Ok(r)
}

// ══════════════════════════════════════════════════════════════════
// Étape 2
// ══════════════════════════════════════════════════════════════════

/// Refus de forme à l'étape 2, avant tout calcul.
pub enum ErreurForme {
    /// A vide, de plus de 512 caractères ou non hexadécimal.
    ValeurA,
    /// M1 qui n'est pas exactement 64 chiffres hexadécimaux.
    PreuveM1,
    /// Jeton qui n'est pas exactement 48 chiffres hexadécimaux.
    Jeton,
}

/// Bornes de forme de l'étape 2 (A ≤ 512 chiffres, M1 = 64, jeton = 48) :
/// elles évitent qu'un A géant rende le calcul arbitrairement coûteux.
pub open spec fn forme_etape2(a: Seq<char>, m1: Seq<char>, token: Seq<char>) -> Result<(), ErreurForme> {
    if a.len() == 0 || a.len() > 512 || !tout_hex(a) {
        Err(ErreurForme::ValeurA)
    } else if m1.len() != 64 || !tout_hex(m1) {
        Err(ErreurForme::PreuveM1)
    } else if token.len() != 48 || !tout_hex(token) {
        Err(ErreurForme::Jeton)
    } else {
        Ok(())
    }
}

/// Contrôle de forme des champs de l'étape 2.
pub fn valider_etape2(a_hex: &str, m1_hex: &str, token: &str) -> (r: Result<(), ErreurForme>)
    ensures
        r == forme_etape2(a_hex@, m1_hex@, token@),
{
    let la = longueur(a_hex);
    if la == 0 || la > 512 || !que_des_chiffres_hex(a_hex) {
        return Err(ErreurForme::ValeurA);
    }
    if longueur(m1_hex) != 64 || !que_des_chiffres_hex(m1_hex) {
        return Err(ErreurForme::PreuveM1);
    }
    if longueur(token) != 48 || !que_des_chiffres_hex(token) {
        return Err(ErreurForme::Jeton);
    }
    Ok(())
}

/// Échec de la vérification de la preuve du client.
pub enum ErreurPreuve {
    /// Un des textes hexadécimaux (vérificateur, b, A, M1) est illisible.
    Format,
    /// A est nul ou multiple de N.
    ValeurA,
    /// Le sel stocké n'est pas un texte hexadécimal.
    Sel,
    /// M1 ne correspond pas : mauvais mot de passe.
    Identifiants,
}

/// S du serveur pour A, v, b (u = H(PAD(A) ‖ PAD(B))).
pub open spec fn s_etape2(a: nat, v: nat, b: nat) -> nat {
    let n = n_valeur() as int;
    let b_pub = ((k_valeur() * v + pow(2, b)) % n) as nat;
    (pow(a * pow(v as int, u_spec(a, b_pub)), b) % n) as nat
}

/// M1 attendu à l'étape 2.
pub open spec fn m1_attendu(email: Seq<char>, sel: Seq<u8>, a: nat, v: nat, b: nat) -> Seq<u8> {
    let n = n_valeur() as int;
    let b_pub = ((k_valeur() * v + pow(2, b)) % n) as nat;
    m1_spec(n_valeur(), 2, vstd::utf8::encode_utf8(email), sel, a, b_pub, sha256_spec(pad_spec(s_etape2(a, v, b), 256)))
}

/// Résultat de l'étape 2 : M2 si la preuve M1 du client est la bonne.
pub open spec fn preuve_srp(email: Seq<char>, verifier: Seq<char>, b_hex: Seq<char>, a_hex: Seq<char>, m1_hex: Seq<char>, salt_hex: Seq<char>) -> Result<Seq<u8>, ErreurPreuve> {
    if !texte_hex_valide(verifier) || !hex_decodable(b_hex) || !hex_decodable(a_hex) || !hex_decodable(m1_hex) {
        Err(ErreurPreuve::Format)
    } else {
        let v = valeur_texte_hex(sans_plus(verifier));
        let b = valeur_be(hex_decode_spec(b_hex));
        let a = valeur_be(hex_decode_spec(a_hex));
        if a == 0 || a % n_valeur() == 0 {
            Err(ErreurPreuve::ValeurA)
        } else if !hex_decodable(salt_hex) {
            Err(ErreurPreuve::Sel)
        } else {
            let m1 = m1_attendu(email, hex_decode_spec(salt_hex), a, v, b);
            if hex_decode_spec(m1_hex) != m1 {
                Err(ErreurPreuve::Identifiants)
            } else {
                Ok(sha256_spec(pad_spec(a, 256) + m1 + sha256_spec(pad_spec(s_etape2(a, v, b), 256))))
            }
        }
    }
}

/// Vérifie la preuve M1 du client et calcule la preuve serveur M2 ; le
/// mot de passe n'intervient jamais, seul le vérificateur stocké.
pub fn verifier_preuve_srp(email: &str, verifier_hex: &str, b_hex: &str, a_hex: &str, m1_hex: &str, salt_hex: &str) -> (r: Result<Vec<u8>, ErreurPreuve>)
    ensures
        match (r, preuve_srp(email@, verifier_hex@, b_hex@, a_hex@, m1_hex@, salt_hex@)) {
            (Ok(m2), Ok(attendu)) => m2@ == attendu,
            (Err(e), Err(f)) => e == f,
            _ => false,
        },
{
    let v = bigint_from_hex(verifier_hex);
    let bo = hex_decode(b_hex);
    let ao = hex_decode(a_hex);
    let m1o = hex_decode(m1_hex);
    let (v, b_bytes, a_bytes, m1_client) = match (v, bo, ao, m1o) {
        (Some(v), Some(b), Some(a), Some(m)) => (v, b, a, m),
        _ => return Err(ErreurPreuve::Format),
    };
    let grp = group();
    let b = Grand::depuis_octets(&b_bytes);
    let a_pub = Grand::depuis_octets(&a_bytes);
    if !crate::srp::is_safe_public_value(&a_pub, &grp.n) {
        return Err(ErreurPreuve::ValeurA);
    }
    let b_pub = compute_b_public(&grp, &v, &b);
    let u = compute_u(&a_pub, &b_pub);
    let s_server = compute_s_server(&grp, &a_pub, &v, &u, &b);
    let k_bytes = compute_k(&s_server);
    let salt_bytes = match hex_decode(salt_hex) {
        Some(s) => s,
        None => return Err(ErreurPreuve::Sel),
    };
    let m1_expected = compute_m1(&grp, email, &salt_bytes, &a_pub, &b_pub, &k_bytes);
    if !constant_time_eq(&m1_client, &m1_expected) {
        return Err(ErreurPreuve::Identifiants);
    }
    let m2 = compute_m2(&a_pub, &m1_expected, &k_bytes);
    Ok(m2)
}

/// Refus de l'étape 2, avec le statut HTTP et le message de la réponse.
pub enum RefusEtape2 {
    /// A vide, trop long, non hexadécimal, nul ou multiple de N (400).
    ValeurA,
    /// M1 mal formé (400).
    PreuveM1,
    /// Jeton de session mal formé (400).
    Jeton,
    /// Session éphémère absente ou trop ancienne (200, message traduit).
    SessionExpiree,
    /// Compte inconnu ou mauvaise preuve : même réponse dans les deux cas
    /// (200, message traduit).
    Identifiants,
    /// Vérificateur, b, A ou M1 illisible (400).
    Format,
    /// Sel stocké illisible (500).
    Sel,
}

/// Statut HTTP d'un refus de l'étape 2.
pub open spec fn statut_refus(e: RefusEtape2) -> u16 {
    match e {
        RefusEtape2::SessionExpiree | RefusEtape2::Identifiants => 200,
        RefusEtape2::Sel => 500,
        _ => 400,
    }
}

/// Message d'un refus ; les deux messages traduits sont fournis par
/// l'appelant (langue de la requête).
pub open spec fn message_refus(e: RefusEtape2, expiree: Seq<char>, identifiants: Seq<char>) -> Seq<char> {
    match e {
        RefusEtape2::ValeurA => "Valeur d'authentification invalide."@,
        RefusEtape2::PreuveM1 => "Preuve d'authentification invalide."@,
        RefusEtape2::Jeton => "Session d'authentification invalide."@,
        RefusEtape2::SessionExpiree => expiree,
        RefusEtape2::Identifiants => identifiants,
        RefusEtape2::Format => "Format d'authentification invalide."@,
        RefusEtape2::Sel => "Erreur interne (salt)."@,
    }
}

/// Corps JSON d'un refus : `{"error": message, "success": false}`, clés
/// dans l'ordre alphabétique comme les écrit `serde_json`.
pub open spec fn corps_refus(e: RefusEtape2, expiree: Seq<char>, identifiants: Seq<char>) -> Seq<char> {
    "{\"error\":"@ + json_chaine(message_refus(e, expiree, identifiants)) + ",\"success\":false}"@
}

impl RefusEtape2 {
    /// Statut HTTP de la réponse.
    pub fn statut(&self) -> (r: u16)
        ensures
            r == statut_refus(*self),
    {
        match self {
            RefusEtape2::SessionExpiree | RefusEtape2::Identifiants => 200,
            RefusEtape2::Sel => 500,
            _ => 400,
        }
    }

    /// Message de la réponse.
    pub fn message(&self, expiree: &str, identifiants: &str) -> (r: String)
        ensures
            r@ == message_refus(*self, expiree@, identifiants@),
    {
        let m: &str = match self {
            RefusEtape2::ValeurA => "Valeur d'authentification invalide.",
            RefusEtape2::PreuveM1 => "Preuve d'authentification invalide.",
            RefusEtape2::Jeton => "Session d'authentification invalide.",
            RefusEtape2::SessionExpiree => expiree,
            RefusEtape2::Identifiants => identifiants,
            RefusEtape2::Format => "Format d'authentification invalide.",
            RefusEtape2::Sel => "Erreur interne (salt).",
        };
        m.to_string()
    }

    /// Corps JSON de la réponse.
    pub fn corps(&self, expiree: &str, identifiants: &str) -> (r: String)
        ensures
            r@ == corps_refus(*self, expiree@, identifiants@),
    {
        let m = self.message(expiree, identifiants);
        let mut o: Vec<char> = Vec::new();
        ajouter(&mut o, "{\"error\":");
        ajouter(&mut o, chaine_json(m.as_str()).as_str());
        ajouter(&mut o, ",\"success\":false}");
        chaine_de(&o)
    }
}

/// Session éphémère de l'étape 1 lue en base (ligne de `srp_sessions`).
pub struct SessionSrp {
    pub b_hex: String,
    pub created_at: String,
}

/// Compte lu en base (ligne de `login`) ; `salt` est vide si la colonne
/// l'est.
pub struct CompteSrp {
    pub email: String,
    pub verifier: String,
    pub salt: String,
    pub file_key_wrapped_pwd: Option<String>,
}

/// Une session est récente si sa date de création se lit et n'a pas plus
/// de `SRP_SESSION_MAX_AGE_SECONDS` secondes à l'instant `maintenant`.
pub open spec fn session_recente(created_at: Seq<char>, maintenant: i64) -> bool {
    match instant_de(created_at) {
        Some(t) => maintenant - t <= SRP_SESSION_MAX_AGE_SECONDS,
        None => false,
    }
}

/// Refus de l'étape 2 qui correspond à un refus de forme.
pub open spec fn refus_de_forme(e: ErreurForme) -> RefusEtape2 {
    match e {
        ErreurForme::ValeurA => RefusEtape2::ValeurA,
        ErreurForme::PreuveM1 => RefusEtape2::PreuveM1,
        ErreurForme::Jeton => RefusEtape2::Jeton,
    }
}

/// Refus de l'étape 2 qui correspond à un échec de la preuve.
pub open spec fn refus_de_preuve(e: ErreurPreuve) -> RefusEtape2 {
    match e {
        ErreurPreuve::Format => RefusEtape2::Format,
        ErreurPreuve::ValeurA => RefusEtape2::ValeurA,
        ErreurPreuve::Sel => RefusEtape2::Sel,
        ErreurPreuve::Identifiants => RefusEtape2::Identifiants,
    }
}

/// Issue de l'étape 2 : faut-il supprimer la session éphémère (usage
/// unique, qu'elle réussisse ou échoue, dès qu'elle a été trouvée), et M2
/// ou le refus. La forme est contrôlée avant toute lecture, et tout ce qui
/// ne dépend que de la requête et de la session (A, b, M1 lisibles, A non
/// multiple de N) avant le compte : un compte inconnu reçoit la même
/// réponse qu'un mauvais mot de passe (voir `loi_compte_invisible`).
pub open spec fn issue_etape2(
    a: Seq<char>,
    m1: Seq<char>,
    token: Seq<char>,
    email: Seq<char>,
    session: Option<SessionSrp>,
    compte: Option<CompteSrp>,
    maintenant: i64,
) -> (bool, Result<Seq<u8>, RefusEtape2>) {
    match forme_etape2(a, m1, token) {
        Err(e) => (false, Err(refus_de_forme(e))),
        Ok(_) => match session {
            None => (false, Err(RefusEtape2::SessionExpiree)),
            Some(s) => if !session_recente(s.created_at@, maintenant) {
                (true, Err(RefusEtape2::SessionExpiree))
            } else if !hex_decodable(s.b_hex@) || !hex_decodable(a) || !hex_decodable(m1) {
                (true, Err(RefusEtape2::Format))
            } else if valeur_be(hex_decode_spec(a)) == 0 || valeur_be(hex_decode_spec(a)) % n_valeur() == 0 {
                (true, Err(RefusEtape2::ValeurA))
            } else {
                match compte {
                    None => (true, Err(RefusEtape2::Identifiants)),
                    Some(c) => (true, match preuve_srp(email, c.verifier@, s.b_hex@, a, m1, c.salt@) {
                        Ok(m2) => Ok(m2),
                        Err(e) => Err(refus_de_preuve(e)),
                    }),
                }
            },
        },
    }
}

/// La réponse de l'étape 2 ne dit pas si le compte existe : pour un compte
/// dont le vérificateur et le sel stockés sont lisibles, tout refus est
/// exactement celui qu'aurait reçu un compte inconnu.
pub proof fn loi_compte_invisible(
    a: Seq<char>,
    m1: Seq<char>,
    token: Seq<char>,
    email: Seq<char>,
    session: Option<SessionSrp>,
    c: CompteSrp,
    maintenant: i64,
)
    requires
        texte_hex_valide(c.verifier@),
        hex_decodable(c.salt@),
        issue_etape2(a, m1, token, email, session, Some(c), maintenant).1 is Err,
    ensures
        issue_etape2(a, m1, token, email, session, Some(c), maintenant) == issue_etape2(
            a,
            m1,
            token,
            email,
            session,
            None,
            maintenant,
        ),
{
}

/// Étape 2 de la connexion SRP : décision sur les champs de la requête,
/// la session éphémère trouvée pour (token, email) et le compte de
/// l'email. `maintenant` est l'heure locale courante comptée comme les
/// dates des tables (voir `instant_de`). Rend s'il faut supprimer la
/// session, puis M2 ou le refus.
pub fn handle_srp_step2(
    a_hex: &str,
    m1_hex: &str,
    token: &str,
    email: &str,
    session: &Option<SessionSrp>,
    compte: &Option<CompteSrp>,
    maintenant: i64,
) -> (r: (bool, Result<Vec<u8>, RefusEtape2>))
    ensures
        r.0 == issue_etape2(a_hex@, m1_hex@, token@, email@, *session, *compte, maintenant).0,
        match (r.1, issue_etape2(a_hex@, m1_hex@, token@, email@, *session, *compte, maintenant).1) {
            (Ok(m2), Ok(attendu)) => m2@ == attendu,
            (Err(e), Err(f)) => e == f,
            _ => false,
        },
{
    match valider_etape2(a_hex, m1_hex, token) {
        Err(ErreurForme::ValeurA) => return (false, Err(RefusEtape2::ValeurA)),
        Err(ErreurForme::PreuveM1) => return (false, Err(RefusEtape2::PreuveM1)),
        Err(ErreurForme::Jeton) => return (false, Err(RefusEtape2::Jeton)),
        Ok(()) => {},
    }
    let s = match session {
        None => return (false, Err(RefusEtape2::SessionExpiree)),
        Some(s) => s,
    };
    let recente = match lire_date_heure(s.created_at.as_str()) {
        Some(t) => (maintenant as i128) - (t as i128) <= SRP_SESSION_MAX_AGE_SECONDS as i128,
        None => false,
    };
    if !recente {
        return (true, Err(RefusEtape2::SessionExpiree));
    }
    let (ao, bo, mo) = (hex_decode(a_hex), hex_decode(s.b_hex.as_str()), hex_decode(m1_hex));
    let a_octets = match (ao, bo, mo) {
        (Some(a), Some(_), Some(_)) => a,
        _ => return (true, Err(RefusEtape2::Format)),
    };
    let grp = group();
    if !crate::srp::is_safe_public_value(&Grand::depuis_octets(&a_octets), &grp.n) {
        return (true, Err(RefusEtape2::ValeurA));
    }
    let c = match compte {
        None => return (true, Err(RefusEtape2::Identifiants)),
        Some(c) => c,
    };
    let issue = match verifier_preuve_srp(email, c.verifier.as_str(), s.b_hex.as_str(), a_hex, m1_hex, c.salt.as_str()) {
        Ok(m2) => Ok(m2),
        Err(ErreurPreuve::Format) => Err(RefusEtape2::Format),
        Err(ErreurPreuve::ValeurA) => Err(RefusEtape2::ValeurA),
        Err(ErreurPreuve::Sel) => Err(RefusEtape2::Sel),
        Err(ErreurPreuve::Identifiants) => Err(RefusEtape2::Identifiants),
    };
    (true, issue)
}

/// Corps JSON de la réponse d'une étape 2 réussie, clés dans l'ordre
/// alphabétique : M2 en hexadécimal, email du compte, masterKey enveloppée
/// (ou `null`), besoin de configurer la récupération (absence de
/// masterKey), redirection vers le tableau de bord, succès.
pub open spec fn json_succes_etape2(m2: Seq<u8>, email: Seq<char>, cle: Option<Seq<char>>) -> Seq<char> {
    "{\"M2\":\""@ + hex_octets(m2) + "\",\"email\":"@ + json_chaine(email) + ",\"file_key_wrapped_pwd\":"@
        + match cle {
        Some(k) => json_chaine(k),
        None => "null"@,
    } + ",\"needs_recovery_setup\":"@ + json_booleen(cle is None)
        + ",\"redirect\":\"/login/dashboard\",\"success\":true}"@
}

/// En-tête `Set-Cookie` de la session ouverte (valable 30 jours ; la date
/// d'expiration est écrite par l'appelant).
pub open spec fn cookie_connexion(jeton: Seq<char>, expire: Seq<char>) -> Seq<char> {
    "connexion_cookie="@ + jeton + "; Path=/; HttpOnly; SameSite=Strict; Expires="@ + expire
}

/// Réponse d'une étape 2 réussie : corps JSON et cookie de session.
pub fn reponse_etape2(m2: &[u8], compte: &CompteSrp, jeton: &str, expire: &str) -> (r: (String, String))
    ensures
        r.0@ == json_succes_etape2(m2@, compte.email@, match compte.file_key_wrapped_pwd {
            Some(k) => Some(k@),
            None => None,
        }),
        r.1@ == cookie_connexion(jeton@, expire@),
{
    let mut o: Vec<char> = Vec::new();
    ajouter(&mut o, "{\"M2\":\"");
    ajouter(&mut o, hex_encode(m2).as_str());
    ajouter(&mut o, "\",\"email\":");
    ajouter(&mut o, chaine_json(compte.email.as_str()).as_str());
    ajouter(&mut o, ",\"file_key_wrapped_pwd\":");
    match &compte.file_key_wrapped_pwd {
        Some(k) => ajouter(&mut o, chaine_json(k.as_str()).as_str()),
        None => ajouter(&mut o, "null"),
    }
    ajouter(&mut o, ",\"needs_recovery_setup\":");
    ajouter(&mut o, if compte.file_key_wrapped_pwd.is_none() { "true" } else { "false" });
    ajouter(&mut o, ",\"redirect\":\"/login/dashboard\",\"success\":true}");
    let mut c: Vec<char> = Vec::new();
    ajouter(&mut c, "connexion_cookie=");
    ajouter(&mut c, jeton);
    ajouter(&mut c, "; Path=/; HttpOnly; SameSite=Strict; Expires=");
    ajouter(&mut c, expire);
    (chaine_de(&o), chaine_de(&c))
}

/// Jeton de session (cookie) : 32 octets du générateur cryptographique, en
/// hexadécimal (64 caractères).
pub fn generate_session_token(len_bytes: usize) -> (r: Option<String>)
    ensures
        r matches Some(t) ==> t@.len() == 2 * len_bytes && tout_hex(t@),
        len_bytes == 0 ==> (r matches Some(t) && t@.len() == 0),
{
    match random_bytes(len_bytes) {
        Some(o) => {
            proof {
                crate::srp::lemme_hex_longueur(o@);
                crate::srp::lemme_hex_chiffres(o@);
            }
            Some(hex_encode(&o))
        },
        None => None,
    }
}

/// Échappement HTML de `& < > " '`.
pub fn html_escape(s: &str) -> (r: String)
    ensures
        r@ == echappe(Echappement::HtmlApos, s@),
{
    echapper_html_apos(s)
}

} // verus!
