//! Visioconférence : actions reçues, paramètres des salles, contrôles
//! d'accès et de signalisation, codes de salle, page.

use vstd::prelude::*;
use crate::compte::{octets, remplacer_premier};
use crate::crypto::{base64_standard_enc, encoder_base64_standard, sha256_spec};
use crate::sitec::etat_apres;
use crate::texte::{
    ajouter, caracteres, chaine_de, commence_par, decouper, egale_lit, i64_ecrit, analyser_i64, octets_depassent,
    remplace, remplacer, rogne, rogner, tranche,
};
use crate::utils::prendre;

verus! {

broadcast use vstd::string::group_string_axioms;

/// Les types de message de signalisation acceptés.
pub open spec fn type_signal_accepte(t: Seq<char>) -> bool {
    t == "offer"@ || t == "answer"@ || t == "ice"@ || t == "bye"@ || t == "renegotiate"@
}

/// Taille maximale d'un message chiffré, en octets.
pub const MAX_CIPHERTEXT_LEN: usize = 20000;

// ══════════════════════════════════════════════════════════════════
// Aiguillage
// ══════════════════════════════════════════════════════════════════

/// Actions de l'API de visioconférence.
#[derive(PartialEq, Eq, Structural, Clone, Copy, Debug)]
pub enum ActionVisio {
    CreerSalle,
    RejoindreSalle,
    PosterSignal,
    RecupererSignaux,
    Heartbeat,
    QuitterSalle,
    FermerSalle,
    ListerParticipants,
    Inconnue,
}

/// Action désignée par le champ `action`.
pub open spec fn action_visio(a: Seq<char>) -> ActionVisio {
    if a == "creer_salle"@ {
        ActionVisio::CreerSalle
    } else if a == "rejoindre_salle"@ {
        ActionVisio::RejoindreSalle
    } else if a == "poster_signal"@ {
        ActionVisio::PosterSignal
    } else if a == "recuperer_signaux"@ {
        ActionVisio::RecupererSignaux
    } else if a == "heartbeat"@ {
        ActionVisio::Heartbeat
    } else if a == "quitter_salle"@ {
        ActionVisio::QuitterSalle
    } else if a == "fermer_salle"@ {
        ActionVisio::FermerSalle
    } else if a == "lister_participants"@ {
        ActionVisio::ListerParticipants
    } else {
        ActionVisio::Inconnue
    }
}

/// Lit l'action demandée (voir `action_visio`).
pub fn lire_action_visio(a: &str) -> (r: ActionVisio)
    ensures
        r == action_visio(a@),
{
    let c = caracteres(a);
    if egale_lit(&c, "creer_salle") {
        ActionVisio::CreerSalle
    } else if egale_lit(&c, "rejoindre_salle") {
        ActionVisio::RejoindreSalle
    } else if egale_lit(&c, "poster_signal") {
        ActionVisio::PosterSignal
    } else if egale_lit(&c, "recuperer_signaux") {
        ActionVisio::RecupererSignaux
    } else if egale_lit(&c, "heartbeat") {
        ActionVisio::Heartbeat
    } else if egale_lit(&c, "quitter_salle") {
        ActionVisio::QuitterSalle
    } else if egale_lit(&c, "fermer_salle") {
        ActionVisio::FermerSalle
    } else if egale_lit(&c, "lister_participants") {
        ActionVisio::ListerParticipants
    } else {
        ActionVisio::Inconnue
    }
}

/// Aiguillage d'une requête : l'API (chemin commençant par `/api/viso`,
/// `POST` seulement, 405 sinon) ou la page.
#[derive(PartialEq, Eq, Structural, Clone, Copy, Debug)]
pub enum RouteVisio {
    Api,
    MethodeRefusee,
    Page,
}

/// Aiguillage d'après le chemin (avant le premier `?`) et la méthode.
pub open spec fn route_visio(url: Seq<char>, post: bool) -> RouteVisio {
    if commence_par(decouper(url, '?')[0], "/api/viso"@) {
        if post {
            RouteVisio::Api
        } else {
            RouteVisio::MethodeRefusee
        }
    } else {
        RouteVisio::Page
    }
}

/// Aiguillage d'une requête (voir `route_visio`).
pub fn router_visio(url: &str, post: bool) -> (r: RouteVisio)
    ensures
        r == route_visio(url@, post),
{
    let u = caracteres(url);
    let morceaux = crate::texte::decoupe(&u, '?');
    proof {
        crate::texte::lemme_decouper_non_vide(u@, '?');
        assert(crate::texte::vues(morceaux@).len() == morceaux@.len());
        assert(crate::texte::vues(morceaux@)[0] == morceaux@[0]@);
    }
    if crate::texte::commence_lit(&morceaux[0], "/api/viso") {
        if post {
            RouteVisio::Api
        } else {
            RouteVisio::MethodeRefusee
        }
    } else {
        RouteVisio::Page
    }
}

// ══════════════════════════════════════════════════════════════════
// Création d'une salle
// ══════════════════════════════════════════════════════════════════

/// Titre d'une salle : « Appel VEX » s'il n'y a que des espaces, sinon ses
/// 255 premiers caractères.
pub open spec fn titre_salle(t: Seq<char>) -> Seq<char> {
    if rogner(t).len() == 0 {
        "Appel VEX"@
    } else {
        prendre(t, 255)
    }
}

/// Titre d'une salle (voir `titre_salle`).
pub fn titre_de_salle(t: &str) -> (r: String)
    ensures
        r@ == titre_salle(t@),
{
    let c = caracteres(t);
    if rogne(&c).len() == 0 {
        chaine_de(&caracteres("Appel VEX"))
    } else {
        chaine_de(&crate::utils::tronquer(&c, 255))
    }
}

/// Nombre maximal de participants demandé : l'entier écrit (8 s'il manque
/// ou n'en est pas un), ramené entre 2 et 32.
pub open spec fn max_participants(v: Option<Seq<char>>) -> i64 {
    let n: i64 = match v {
        Some(s) => match i64_ecrit(s) {
            Some(n) => n,
            None => 8,
        },
        None => 8,
    };
    if n < 2 {
        2
    } else if n > 32 {
        32
    } else {
        n
    }
}

/// Nombre maximal de participants (voir `max_participants`).
pub fn lire_max_participants(v: Option<&str>) -> (r: i64)
    ensures
        r == max_participants(
            match v {
                Some(s) => Some(s@),
                None => None,
            },
        ),
{
    let n: i64 = match v {
        Some(s) => match analyser_i64(&caracteres(s)) {
            Some(n) => n,
            None => 8,
        },
        None => 8,
    };
    if n < 2 {
        2
    } else if n > 32 {
        32
    } else {
        n
    }
}

/// Empreinte d'un mot de passe de salle : SHA-256 de son UTF-8, en base64
/// standard.
pub open spec fn empreinte(p: Seq<char>) -> Seq<char> {
    base64_standard_enc(sha256_spec(vstd::utf8::encode_utf8(p)))
}

/// Empreinte d'un mot de passe de salle (voir `empreinte`).
pub fn hash_simple(p: &str) -> (r: String)
    ensures
        r@ == empreinte(p@),
{
    encoder_base64_standard(&crate::srp::sha256(p.as_bytes()))
}

/// Alphabet des codes de salle (sans lettres ni chiffres ambigus).
pub open spec fn alphabet_salle() -> Seq<char> {
    "abcdefghjkmnpqrstuvwxyz23456789"@
}

/// Code de salle tiré de la graine : dix caractères, un tiret avant le
/// quatrième ; chaque caractère d'indice `état mod 31` après un pas de
/// xorshift.
pub open spec fn code_de_graine(graine: u64, n: nat) -> Seq<char>
    decreases n,
{
    if n == 0 {
        Seq::empty()
    } else {
        let avant = code_de_graine(graine, (n - 1) as nat);
        let c = alphabet_salle()[(etat_apres(graine, n) % 31) as int];
        if n == 4 {
            avant.push('-').push(c)
        } else {
            avant.push(c)
        }
    }
}

/// Code de salle tiré de l'horloge (nanosecondes) et du numéro de
/// processus, non cryptographique : l'unicité est vérifiée en base.
pub fn generer_code_salle(nanos: u32, pid: u32) -> (r: String)
    ensures
        r@ == code_de_graine((nanos as u64) ^ 0x9e3779b97f4a7c15u64 ^ (pid as u64), 10),
{
    let alphabet = caracteres("abcdefghjkmnpqrstuvwxyz23456789");
    proof {
        reveal_strlit("abcdefghjkmnpqrstuvwxyz23456789");
    }
    let graine: u64 = (nanos as u64) ^ 0x9e3779b97f4a7c15u64 ^ (pid as u64);
    let mut etat = graine;
    let mut out: Vec<char> = Vec::new();
    let mut i: usize = 0;
    while i < 10
        invariant
            i <= 10,
            alphabet@ == alphabet_salle(),
            alphabet@.len() == 31,
            etat == etat_apres(graine, i as nat),
            out@ == code_de_graine(graine, i as nat),
        decreases 10 - i,
    {
        etat ^= etat << 13u64;
        etat ^= etat >> 7u64;
        etat ^= etat << 17u64;
        assert(etat == etat_apres(graine, (i + 1) as nat));
        if i == 3 {
            out.push('-');
        }
        out.push(alphabet[(etat % 31) as usize]);
        i += 1;
    }
    chaine_de(&out)
}

// ══════════════════════════════════════════════════════════════════
// Rejoindre une salle
// ══════════════════════════════════════════════════════════════════

/// Refus d'entrée dans une salle.
#[derive(PartialEq, Eq, Structural, Clone, Copy, Debug)]
pub enum RefusEntree {
    SessionIdInvalide,
    CleInvalide,
    MotDePasseIncorrect,
    SallePleine,
}

/// Ce que l'entrée dans une salle lit de la salle trouvée.
pub struct SalleLue {
    pub require_password: Option<i64>,
    pub password_hash: Option<String>,
    pub max_participants: Option<i64>,
}

/// Décision sur l'entrée dans une salle active trouvée : identifiant de
/// session de 16 à 64 octets, clé publique de 1 à 128 octets, mot de passe
/// dont l'empreinte est celle de la salle quand elle en exige un, place
/// libre (8 places si la salle ne le dit pas).
pub open spec fn entree(
    session_id: Seq<char>,
    cle: Seq<char>,
    mot_de_passe: Option<Seq<char>>,
    salle: SalleLue,
    actifs: i64,
) -> Result<(), RefusEntree> {
    let max = match salle.max_participants {
        Some(m) => m,
        None => 8,
    };
    if octets(session_id) < 16 || octets(session_id) > 64 {
        Err(RefusEntree::SessionIdInvalide)
    } else if cle.len() == 0 || octets(cle) > 128 {
        Err(RefusEntree::CleInvalide)
    } else if salle.require_password == Some(1i64) && (salle.password_hash is None || match mot_de_passe {
        Some(p) => empreinte(p) != salle.password_hash.unwrap()@,
        None => true,
    }) {
        Err(RefusEntree::MotDePasseIncorrect)
    } else if actifs >= max {
        Err(RefusEntree::SallePleine)
    } else {
        Ok(())
    }
}

/// Contrôles de l'entrée dans une salle (voir `entree`) ; `actifs` est le
/// nombre de participants connectés.
pub fn controler_entree(
    session_id: &str,
    cle: &str,
    mot_de_passe: Option<&str>,
    salle: &SalleLue,
    actifs: i64,
) -> (r: Result<(), RefusEntree>)
    ensures
        r == entree(
            session_id@,
            cle@,
            match mot_de_passe {
                Some(p) => Some(p@),
                None => None,
            },
            *salle,
            actifs,
        ),
{
    let s = caracteres(session_id);
    if !octets_depassent(&s, 15) || octets_depassent(&s, 64) {
        return Err(RefusEntree::SessionIdInvalide);
    }
    if cle.is_empty() || octets_depassent(&caracteres(cle), 128) {
        return Err(RefusEntree::CleInvalide);
    }
    if salle.require_password == Some(1i64) {
        let ok = match (&salle.password_hash, mot_de_passe) {
            (Some(h), Some(p)) => egale_lit(&caracteres(hash_simple(p).as_str()), h.as_str()),
            _ => false,
        };
        if !ok {
            return Err(RefusEntree::MotDePasseIncorrect);
        }
    }
    let max = match salle.max_participants {
        Some(m) => m,
        None => 8,
    };
    if actifs >= max {
        return Err(RefusEntree::SallePleine);
    }
    Ok(())
}

// ══════════════════════════════════════════════════════════════════
// Signalisation
// ══════════════════════════════════════════════════════════════════

/// Refus d'un message de signalisation.
#[derive(PartialEq, Eq, Structural, Clone, Copy, Debug)]
pub enum RefusSignal {
    TypeNonAutorise,
    ChiffreInvalide,
    NonceInvalide,
}

/// Forme d'un message : type accepté, message chiffré de 1 à 20 000 octets,
/// nonce de 1 à 32 octets.
pub open spec fn forme_signal(t: Seq<char>, chiffre: Seq<char>, nonce: Seq<char>) -> Result<(), RefusSignal> {
    if !type_signal_accepte(t) {
        Err(RefusSignal::TypeNonAutorise)
    } else if chiffre.len() == 0 || octets(chiffre) > MAX_CIPHERTEXT_LEN {
        Err(RefusSignal::ChiffreInvalide)
    } else if nonce.len() == 0 || octets(nonce) > 32 {
        Err(RefusSignal::NonceInvalide)
    } else {
        Ok(())
    }
}

/// Contrôle de la forme d'un message (voir `forme_signal`).
pub fn controler_signal(t: &str, chiffre: &str, nonce: &str) -> (r: Result<(), RefusSignal>)
    ensures
        r == forme_signal(t@, chiffre@, nonce@),
{
    let c = caracteres(t);
    if !(egale_lit(&c, "offer") || egale_lit(&c, "answer") || egale_lit(&c, "ice") || egale_lit(&c, "bye")
        || egale_lit(&c, "renegotiate")) {
        return Err(RefusSignal::TypeNonAutorise);
    }
    if chiffre.is_empty() || octets_depassent(&caracteres(chiffre), MAX_CIPHERTEXT_LEN) {
        return Err(RefusSignal::ChiffreInvalide);
    }
    if nonce.is_empty() || octets_depassent(&caracteres(nonce), 32) {
        return Err(RefusSignal::NonceInvalide);
    }
    Ok(())
}

// ══════════════════════════════════════════════════════════════════
// Page
// ══════════════════════════════════════════════════════════════════

/// Page de visioconférence : la barre de navigation à la place de la
/// première marque `{{NAV_HTML}}` seulement, puis le thème partout.
pub open spec fn page_visio(html: Seq<char>, nav: Seq<char>, theme: Seq<char>) -> Seq<char> {
    remplacer(remplacer_premier(html, "{{NAV_HTML}}"@, nav), "{{THEME}}"@, theme)
}

/// Remplit la page de visioconférence (voir `page_visio`).
pub fn render_page(html: &str, nav: &str, theme: &str) -> (r: String)
    ensures
        r@ == page_visio(html@, nav@, theme@),
{
    proof {
        reveal_strlit("{{THEME}}");
    }
    let p = crate::compte::remplacer_une_fois(html, "{{NAV_HTML}}", nav);
    remplace(p.as_str(), "{{THEME}}", theme)
}

// ══════════════════════════════════════════════════════════════════
// Salle demandée
// ══════════════════════════════════════════════════════════════════

/// Salle à créer, lue des paramètres de la demande.
pub struct SalleACreer {
    pub titre: String,
    pub is_public: bool,
    /// Empreinte du mot de passe s'il y en a un (non vide).
    pub password_hash: Option<String>,
    pub max_participants: i64,
}

/// Valeur du paramètre `k`, s'il est présent.
pub open spec fn param(p: Map<Seq<char>, Seq<char>>, k: Seq<char>) -> Option<Seq<char>> {
    if p.contains_key(k) { Some(p[k]) } else { None }
}

/// Salle demandée : titre (voir `titre_salle`, vide s'il manque), publique
/// si `is_public` vaut `1`, mot de passe s'il est donné et non vide (gardé
/// par son empreinte), nombre de participants (voir `max_participants`).
/// Le code de la salle, unique, est tiré par l'appelant.
pub fn creer_salle(params: &crate::utils::Parametres) -> (r: SalleACreer)
    ensures
        r.titre@ == titre_salle(
            match param(params@, "title"@) {
                Some(t) => t,
                None => Seq::empty(),
            },
        ),
        r.is_public == (param(params@, "is_public"@) == Some("1"@)),
        match param(params@, "password"@) {
            Some(m) => if m.len() > 0 {
                r.password_hash is Some && r.password_hash->0@ == empreinte(m)
            } else {
                r.password_hash is None
            },
            None => r.password_hash is None,
        },
        r.max_participants == max_participants(param(params@, "max_participants"@)),
{
    proof {
        reveal_strlit("");
    }
    let titre = match params.get("title") {
        Some(t) => titre_de_salle(t.as_str()),
        None => titre_de_salle(""),
    };
    let is_public = match params.get("is_public") {
        Some(v) => egale_lit(&caracteres(v.as_str()), "1"),
        None => false,
    };
    let password_hash = match params.get("password") {
        Some(m) => if caracteres(m.as_str()).len() > 0 {
            Some(hash_simple(m.as_str()))
        } else {
            None
        },
        None => None,
    };
    let max = match params.get("max_participants") {
        Some(v) => lire_max_participants(Some(v.as_str())),
        None => lire_max_participants(None),
    };
    SalleACreer { titre, is_public, password_hash, max_participants: max }
}

} // verus!
