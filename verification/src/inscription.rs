//! Page de connexion : actions reçues, configuration publique, filtres
//! d'adresse, inscription, récupération de compte, gabarit traduit.

use vstd::prelude::*;
use crate::compte::{octets, remplacer_premier, traduire};
use crate::connexion::{en_minuscules_unicode, minuscules_unicode, que_des_chiffres_hex, tout_hex};
use crate::crypto::{base64_standard_enc, encoder_base64_standard, sha256_spec};
use crate::srp::{constant_time_eq, hex_encode, hex_octets, sha256};
use crate::texte::{
    ajouter, caracteres, chaine_de, contient_motif, contient_texte, echappe, echapper_html_apos, egale_lit,
    octets_depassent, octets_egaux, remplace, remplacer, rogne, rogner, Echappement,
};

verus! {

broadcast use vstd::string::group_string_axioms;

// ══════════════════════════════════════════════════════════════════
// Actions
// ══════════════════════════════════════════════════════════════════

/// Action d'un formulaire envoyé à la page de connexion.
#[derive(PartialEq, Eq, Structural, Clone, Copy, Debug)]
pub enum ActionConnexion {
    SrpEtape1,
    SrpEtape2,
    Inscription,
    EnregistrerRecuperation,
    RecuperationInfo,
    RecuperationConfirmer,
    EnvoyerCodeRecuperation,
    /// Action absente ou inconnue (réponse 400).
    Inconnue,
}

/// Action désignée par le champ `action`.
pub open spec fn action_de(a: Seq<char>) -> ActionConnexion {
    if a == "srp_step1"@ {
        ActionConnexion::SrpEtape1
    } else if a == "srp_step2"@ {
        ActionConnexion::SrpEtape2
    } else if a == "signup"@ {
        ActionConnexion::Inscription
    } else if a == "enregistrer_recuperation"@ {
        ActionConnexion::EnregistrerRecuperation
    } else if a == "recuperation_info"@ {
        ActionConnexion::RecuperationInfo
    } else if a == "recuperation_confirmer"@ {
        ActionConnexion::RecuperationConfirmer
    } else if a == "envoyer_code_recuperation"@ {
        ActionConnexion::EnvoyerCodeRecuperation
    } else {
        ActionConnexion::Inconnue
    }
}

/// Lit l'action d'un formulaire (voir `action_de`).
pub fn lire_action(a: &str) -> (r: ActionConnexion)
    ensures
        r == action_de(a@),
{
    let c = caracteres(a);
    if egale_lit(&c, "srp_step1") {
        ActionConnexion::SrpEtape1
    } else if egale_lit(&c, "srp_step2") {
        ActionConnexion::SrpEtape2
    } else if egale_lit(&c, "signup") {
        ActionConnexion::Inscription
    } else if egale_lit(&c, "enregistrer_recuperation") {
        ActionConnexion::EnregistrerRecuperation
    } else if egale_lit(&c, "recuperation_info") {
        ActionConnexion::RecuperationInfo
    } else if egale_lit(&c, "recuperation_confirmer") {
        ActionConnexion::RecuperationConfirmer
    } else if egale_lit(&c, "envoyer_code_recuperation") {
        ActionConnexion::EnvoyerCodeRecuperation
    } else {
        ActionConnexion::Inconnue
    }
}

/// La configuration publique se donne sans `Referer`, ou quand celui-ci
/// contient l'hôte demandé.
pub fn referer_accepte(referer: &str, hote: &str) -> (r: bool)
    ensures
        r == (referer@.len() == 0 || contient_motif(referer@, hote@)),
{
    referer.is_empty() || contient_texte(&caracteres(referer), hote)
}

// ══════════════════════════════════════════════════════════════════
// Filtres d'adresse
// ══════════════════════════════════════════════════════════════════

/// Refus d'une adresse.
#[derive(PartialEq, Eq, Structural, Clone, Copy, Debug)]
pub enum RefusIp {
    /// L'adresse est sur la liste noire.
    Bloquee,
    /// Une liste blanche est active et l'adresse n'y est pas.
    NonAutorisee,
}

/// Décision des listes noire et blanche sur l'adresse `ip`.
pub open spec fn filtre_ip(
    noire_active: bool,
    noire: Seq<Seq<char>>,
    blanche_active: bool,
    blanche: Seq<Seq<char>>,
    ip: Seq<char>,
) -> Result<(), RefusIp> {
    if noire_active && noire.contains(ip) {
        Err(RefusIp::Bloquee)
    } else if blanche_active && blanche.len() > 0 && !blanche.contains(ip) {
        Err(RefusIp::NonAutorisee)
    } else {
        Ok(())
    }
}

/// Contrôle d'une adresse par les listes (voir `filtre_ip`).
pub fn filtrer_ip(
    noire_active: bool,
    noire: &Vec<String>,
    blanche_active: bool,
    blanche: &Vec<String>,
    ip: &str,
) -> (r: Result<(), RefusIp>)
    ensures
        r == filtre_ip(
            noire_active,
            crate::autologin::vues_chaines(noire@),
            blanche_active,
            crate::autologin::vues_chaines(blanche@),
            ip@,
        ),
{
    if noire_active && crate::autologin::contient_plan(noire, ip) {
        return Err(RefusIp::Bloquee);
    }
    if blanche_active && blanche.len() > 0 && !crate::autologin::contient_plan(blanche, ip) {
        return Err(RefusIp::NonAutorisee);
    }
    Ok(())
}

// ══════════════════════════════════════════════════════════════════
// Inscription
// ══════════════════════════════════════════════════════════════════

/// Refus d'une inscription.
#[derive(PartialEq, Eq, Structural, Clone, Copy, Debug)]
pub enum RefusInscription {
    Fermees,
    CleActivationInvalide,
    PolitiqueNonAcceptee,
    /// Le nombre maximal de comptes est atteint.
    MaxUtilisateurs,
    /// Sel autre que 32 chiffres hexadécimaux (réponse 400).
    SelInvalide,
    /// Vérificateur vide, trop long ou non hexadécimal (réponse 400).
    VerificateurInvalide,
}

/// Décision sur une inscription, avant la recherche de doublons.
pub open spec fn inscription(
    mode: Seq<char>,
    cle_requise: bool,
    cle_config: Seq<char>,
    cle_recue: Seq<char>,
    politique_acceptee: bool,
    nb_comptes: u64,
    max_comptes: u64,
    sel: Seq<char>,
    verificateur: Seq<char>,
) -> Result<(), RefusInscription> {
    if mode == "closed"@ {
        Err(RefusInscription::Fermees)
    } else if mode == "invitation"@ && cle_requise && cle_recue != cle_config {
        Err(RefusInscription::CleActivationInvalide)
    } else if !politique_acceptee {
        Err(RefusInscription::PolitiqueNonAcceptee)
    } else if nb_comptes >= max_comptes {
        Err(RefusInscription::MaxUtilisateurs)
    } else if octets(sel) != 32 || !tout_hex(sel) {
        Err(RefusInscription::SelInvalide)
    } else if octets(verificateur) > 512 || verificateur.len() == 0 || !tout_hex(verificateur) {
        Err(RefusInscription::VerificateurInvalide)
    } else {
        Ok(())
    }
}

/// Contrôles d'une inscription (voir `inscription`) ; la clé reçue absente
/// compte pour vide.
pub fn controler_inscription(
    mode: &str,
    cle_requise: bool,
    cle_config: &str,
    cle_recue: &str,
    politique_acceptee: bool,
    nb_comptes: u64,
    max_comptes: u64,
    sel: &str,
    verificateur: &str,
) -> (r: Result<(), RefusInscription>)
    ensures
        r == inscription(
            mode@,
            cle_requise,
            cle_config@,
            cle_recue@,
            politique_acceptee,
            nb_comptes,
            max_comptes,
            sel@,
            verificateur@,
        ),
{
    let m = caracteres(mode);
    if egale_lit(&m, "closed") {
        return Err(RefusInscription::Fermees);
    }
    if egale_lit(&m, "invitation") && cle_requise && !egale_lit(&caracteres(cle_recue), cle_config) {
        return Err(RefusInscription::CleActivationInvalide);
    }
    if !politique_acceptee {
        return Err(RefusInscription::PolitiqueNonAcceptee);
    }
    if nb_comptes >= max_comptes {
        return Err(RefusInscription::MaxUtilisateurs);
    }
    if !octets_egaux(&caracteres(sel), 32) || !que_des_chiffres_hex(sel) {
        return Err(RefusInscription::SelInvalide);
    }
    if octets_depassent(&caracteres(verificateur), 512) || verificateur.is_empty() || !que_des_chiffres_hex(
        verificateur,
    ) {
        return Err(RefusInscription::VerificateurInvalide);
    }
    Ok(())
}

/// Nom ou email reçu à l'inscription : rogné puis échappé (`& < > " '`).
pub open spec fn identite_nettoyee(s: Seq<char>) -> Seq<char> {
    echappe(Echappement::HtmlApos, rogner(s))
}

/// Nom ou email reçu, nettoyé (voir `identite_nettoyee`).
pub fn nettoyer_identite(s: &str) -> (r: String)
    ensures
        r@ == identite_nettoyee(s@),
{
    let t = chaine_de(&rogne(&caracteres(s)));
    echapper_html_apos(t.as_str())
}

// ══════════════════════════════════════════════════════════════════
// Récupération de compte
// ══════════════════════════════════════════════════════════════════

/// Exactement `n` chiffres hexadécimaux (en octets UTF-8 comme en
/// caractères).
pub open spec fn hex_de_longueur(s: Seq<char>, n: nat) -> bool {
    octets(s) == n && tout_hex(s)
}

fn hex_longueur(s: &str, n: usize) -> (r: bool)
    requires
        n <= 512,
    ensures
        r == hex_de_longueur(s@, n as nat),
{
    octets_egaux(&caracteres(s), n) && que_des_chiffres_hex(s)
}

/// Matériel de récupération enregistré par un compte connecté : enveloppes
/// non vides, sel et condensat de preuve de 64 chiffres hexadécimaux.
pub open spec fn materiel_recuperation_valide(
    enveloppe_mdp: Seq<char>,
    enveloppe_code: Seq<char>,
    sel: Seq<char>,
    preuve: Seq<char>,
) -> bool {
    enveloppe_mdp.len() > 0 && enveloppe_code.len() > 0 && hex_de_longueur(sel, 64) && hex_de_longueur(preuve, 64)
}

/// Contrôle du matériel de récupération (voir `materiel_recuperation_valide`).
pub fn controler_materiel_recuperation(enveloppe_mdp: &str, enveloppe_code: &str, sel: &str, preuve: &str) -> (r:
    bool)
    ensures
        r == materiel_recuperation_valide(enveloppe_mdp@, enveloppe_code@, sel@, preuve@),
{
    !enveloppe_mdp.is_empty() && !enveloppe_code.is_empty() && hex_longueur(sel, 64) && hex_longueur(preuve, 64)
}

/// Caractère alphanumérique ASCII.
pub open spec fn alnum_ascii(c: char) -> bool {
    ('0' <= c <= '9') || ('a' <= c <= 'z') || ('A' <= c <= 'Z')
}

/// Code de récupération bien formé : cinq groupes de quatre alphanumériques
/// ASCII séparés par des tirets (`XXXX-XXXX-XXXX-XXXX-XXXX`, 24 octets).
pub open spec fn code_recuperation_valide(code: Seq<char>) -> bool {
    code.len() == 24 && forall|i: int|
        0 <= i < 24 ==> if i % 5 == 4 {
            #[trigger] code[i] == '-'
        } else {
            alnum_ascii(code[i])
        }
}

/// Contrôle d'un code de récupération (voir `code_recuperation_valide`).
pub fn code_valide(code: &str) -> (r: bool)
    ensures
        r == code_recuperation_valide(code@),
{
    let c = caracteres(code);
    if c.len() != 24 {
        return false;
    }
    let mut i: usize = 0;
    while i < 24
        invariant
            c@ == code@,
            c@.len() == 24,
            i <= 24,
            forall|j: int|
                0 <= j < i ==> if j % 5 == 4 {
                    #[trigger] c@[j] == '-'
                } else {
                    alnum_ascii(c@[j])
                },
        decreases 24 - i,
    {
        let x = c[i];
        let ok = if i % 5 == 4 {
            x == '-'
        } else {
            ('0' <= x && x <= '9') || ('a' <= x && x <= 'z') || ('A' <= x && x <= 'Z')
        };
        if !ok {
            return false;
        }
        i += 1;
    }
    true
}

/// Demande d'envoi du code de récupération acceptée : email de 1 à 255
/// octets, code bien formé, preuve de 64 chiffres hexadécimaux.
pub open spec fn envoi_code_valide(email: Seq<char>, code: Seq<char>, preuve: Seq<char>) -> bool {
    email.len() > 0 && octets(email) <= 255 && code_recuperation_valide(code) && hex_de_longueur(preuve, 64)
}

/// Contrôle d'une demande d'envoi du code (voir `envoi_code_valide`).
pub fn controler_envoi_code(email: &str, code: &str, preuve: &str) -> (r: bool)
    ensures
        r == envoi_code_valide(email@, code@, preuve@),
{
    !email.is_empty() && !octets_depassent(&caracteres(email), 255) && code_valide(code) && hex_longueur(preuve, 64)
}

/// Email de 1 à 255 octets.
pub fn email_recuperation_valide(email: &str) -> (r: bool)
    ensures
        r == (email@.len() > 0 && octets(email@) <= 255),
{
    !email.is_empty() && !octets_depassent(&caracteres(email), 255)
}

/// Champs de la confirmation de récupération acceptés.
pub open spec fn confirmation_valide(
    email: Seq<char>,
    preuve: Seq<char>,
    sel_srp: Seq<char>,
    verificateur: Seq<char>,
    enveloppe_mdp: Seq<char>,
    enveloppe_code: Seq<char>,
    sel_recuperation: Seq<char>,
    condensat_preuve: Seq<char>,
) -> bool {
    email.len() > 0 && hex_de_longueur(preuve, 64) && hex_de_longueur(sel_srp, 32) && verificateur.len() > 0
        && octets(verificateur) <= 512 && tout_hex(verificateur) && enveloppe_mdp.len() > 0 && enveloppe_code.len()
        > 0 && hex_de_longueur(sel_recuperation, 64) && hex_de_longueur(condensat_preuve, 64)
}

/// Contrôle des champs de la confirmation (voir `confirmation_valide`).
pub fn controler_confirmation(
    email: &str,
    preuve: &str,
    sel_srp: &str,
    verificateur: &str,
    enveloppe_mdp: &str,
    enveloppe_code: &str,
    sel_recuperation: &str,
    condensat_preuve: &str,
) -> (r: bool)
    ensures
        r == confirmation_valide(
            email@,
            preuve@,
            sel_srp@,
            verificateur@,
            enveloppe_mdp@,
            enveloppe_code@,
            sel_recuperation@,
            condensat_preuve@,
        ),
{
    !email.is_empty() && hex_longueur(preuve, 64) && hex_longueur(sel_srp, 32) && !verificateur.is_empty()
        && !octets_depassent(&caracteres(verificateur), 512) && que_des_chiffres_hex(verificateur)
        && !enveloppe_mdp.is_empty() && !enveloppe_code.is_empty() && hex_longueur(sel_recuperation, 64)
        && hex_longueur(condensat_preuve, 64)
}

/// La preuve reçue correspond au condensat enregistré (non vide), octet par
/// octet.
pub fn preuve_acceptee(stockee: &str, recue: &str) -> (r: bool)
    ensures
        r == (stockee@.len() > 0 && vstd::utf8::encode_utf8(stockee@) == vstd::utf8::encode_utf8(recue@)),
{
    !stockee.is_empty() && constant_time_eq(stockee.as_bytes(), recue.as_bytes())
}

/// Corps HTML du courriel qui porte le code de récupération.
pub open spec fn courriel_code(code: Seq<char>) -> Seq<char> {
    "<p>Voici ton code de récupération de compte VEX :</p><p style=\"font-family:monospace;font-size:18px;letter-spacing:1px\"><strong>"@
        + code
        + "</strong></p><p>Ce code permet de reprendre l'accès à ton compte et à tes fichiers déjà chiffrés si tu perds ton mot de passe. Garde-le en lieu sûr — ne le transmets à personne.</p>"@
}

/// Corps du courriel du code de récupération (voir `courriel_code`).
pub fn courriel_code_recuperation(code: &str) -> (r: String)
    ensures
        r@ == courriel_code(code@),
{
    let mut o: Vec<char> = Vec::new();
    ajouter(
        &mut o,
        "<p>Voici ton code de récupération de compte VEX :</p><p style=\"font-family:monospace;font-size:18px;letter-spacing:1px\"><strong>",
    );
    ajouter(&mut o, code);
    ajouter(
        &mut o,
        "</strong></p><p>Ce code permet de reprendre l'accès à ton compte et à tes fichiers déjà chiffrés si tu perds ton mot de passe. Garde-le en lieu sûr — ne le transmets à personne.</p>",
    );
    chaine_de(&o)
}

/// Condensat d'où dérivent les données de récupération factices d'un
/// email : H("vex-recovery-salt:" ‖ minuscules(email)).
pub open spec fn condensat_recuperation(email: Seq<char>) -> Seq<u8> {
    sha256_spec(vstd::utf8::encode_utf8("vex-recovery-salt:"@ + minuscules_unicode(email)))
}

/// Sel factice de récupération : le condensat en hexadécimal.
pub open spec fn faux_sel_recuperation(email: Seq<char>) -> Seq<char> {
    hex_octets(condensat_recuperation(email))
}

/// Enveloppe factice : h ‖ H(h) tronqué à 60 octets, en base64 standard.
pub open spec fn fausse_enveloppe(email: Seq<char>) -> Seq<char> {
    let h = condensat_recuperation(email);
    base64_standard_enc((h + sha256_spec(h)).subrange(0, 60))
}

/// Sel et enveloppe factices mais stables pour un email : la récupération
/// d'un compte inexistant ressemble à celle d'un vrai compte.
pub fn fake_recovery_info(email: &str) -> (r: (String, String))
    ensures
        r.0@ == faux_sel_recuperation(email@),
        r.1@ == fausse_enveloppe(email@),
{
    let l = en_minuscules_unicode(email);
    let mut t: Vec<char> = Vec::new();
    ajouter(&mut t, "vex-recovery-salt:");
    ajouter(&mut t, l.as_str());
    let ts = chaine_de(&t);
    let h = sha256(ts.as_str().as_bytes());
    let sel = hex_encode(&h);
    let hh = sha256(&h);
    let mut blob = h.clone();
    blob.extend_from_slice(&hh);
    assert(blob@ =~= h@ + sha256_spec(h@));
    blob.truncate(60);
    (sel, encoder_base64_standard(&blob))
}

// ══════════════════════════════════════════════════════════════════
// Gabarit
// ══════════════════════════════════════════════════════════════════

/// Page de connexion : thème clair, traductions appliquées, objet des
/// textes du script à la place de chaque marque `{{I18N_JS}}`.
pub open spec fn page_connexion(html: Seq<char>, t: Seq<(String, String)>, i18n_js: Seq<char>) -> Seq<char> {
    remplacer(traduire(remplacer(html, "{{THEME}}"@, "light"@), t), "{{I18N_JS}}"@, i18n_js)
}

/// Remplit le gabarit de la page de connexion (voir `page_connexion`).
pub fn remplir_page_connexion(html: &str, t: &[(String, String)], i18n_js: &str) -> (r: String)
    ensures
        r@ == page_connexion(html@, t@, i18n_js@),
{
    proof {
        reveal_strlit("{{THEME}}");
        reveal_strlit("{{I18N_JS}}");
    }
    let mut s = remplace(html, "{{THEME}}", "light");
    let ghost base = s@;
    let mut i: usize = 0;
    assert(t@.subrange(0, 0) =~= Seq::<(String, String)>::empty());
    while i < t.len()
        invariant
            i <= t.len(),
            s@ == traduire(base, t@.subrange(0, i as int)),
        decreases t.len() - i,
    {
        assert(t@.subrange(0, i + 1).drop_last() =~= t@.subrange(0, i as int));
        s = remplace(s.as_str(), t[i].0.as_str(), t[i].1.as_str());
        i += 1;
    }
    assert(t@.subrange(0, t@.len() as int) =~= t@);
    remplace(s.as_str(), "{{I18N_JS}}", i18n_js)
}

} // verus!
