//! Page « Mon compte » : routes, contrôles des demandes (pseudo, thème,
//! changement de mot de passe, liens d'autologin, lien de paiement) et
//! remplissage du gabarit.

use vstd::prelude::*;
use crate::autologin::{contient_plan, vues_chaines, ConfigAutologin, secret_defaut};
use crate::connexion::{que_des_chiffres_hex, tout_hex};
use crate::texte::{
    ajouter, ajouter_decimal, ajouter_decimal_signe, caracteres, chaine_de, contient, decimal, decimal_signe,
    egale_lit, encode_url, encoder_url, espace, est_espace, i64_ecrit, analyser_i64, remplace, remplacer,
    rogne, rogner,
};

verus! {

broadcast use vstd::string::group_string_axioms;

// ══════════════════════════════════════════════════════════════════
// Routes
// ══════════════════════════════════════════════════════════════════

/// Les routes de la page de compte.
#[derive(PartialEq, Eq, Structural, Clone, Copy, Debug)]
pub enum RouteCompte {
    /// `GET /login/account` : la page elle-même.
    Page,
    Donnees,
    AffichageLire,
    AffichageEcrire,
    Theme,
    Langue,
    Pseudo,
    LienPaiement,
    MotDePasseEtape1,
    MotDePasseEtape2,
    AutologinCreer,
    AutologinSupprimer,
    Inconnue,
}

/// Le chemin d'une URL : ce qui précède le premier `?`.
pub open spec fn chemin_de(url: Seq<char>) -> Seq<char> {
    crate::texte::decouper(url, '?')[0]
}

/// Route d'une requête d'après sa méthode et son chemin.
pub open spec fn route_compte(methode: Seq<char>, chemin: Seq<char>) -> RouteCompte {
    let get = methode == "GET"@;
    let post = methode == "POST"@;
    if get && (chemin == "/login/account"@ || chemin == "/login/account/"@) {
        RouteCompte::Page
    } else if get && chemin == "/api/account/data"@ {
        RouteCompte::Donnees
    } else if get && chemin == "/api/account/affichage"@ {
        RouteCompte::AffichageLire
    } else if post && chemin == "/api/account/affichage"@ {
        RouteCompte::AffichageEcrire
    } else if post && chemin == "/api/account/theme"@ {
        RouteCompte::Theme
    } else if post && chemin == "/api/account/language"@ {
        RouteCompte::Langue
    } else if post && chemin == "/api/account/pseudo"@ {
        RouteCompte::Pseudo
    } else if post && chemin == "/api/account/lien_paiement"@ {
        RouteCompte::LienPaiement
    } else if post && chemin == "/api/account/password/step1"@ {
        RouteCompte::MotDePasseEtape1
    } else if post && chemin == "/api/account/password/step2"@ {
        RouteCompte::MotDePasseEtape2
    } else if post && chemin == "/api/account/autologin/create"@ {
        RouteCompte::AutologinCreer
    } else if post && chemin == "/api/account/autologin/delete"@ {
        RouteCompte::AutologinSupprimer
    } else {
        RouteCompte::Inconnue
    }
}

/// Route d'une requête (voir `route_compte`) ; le chemin est pris avant le
/// premier `?` de l'URL.
pub fn router_compte(methode: &str, url: &str) -> (r: RouteCompte)
    ensures
        r == route_compte(methode@, chemin_de(url@)),
{
    let u = caracteres(url);
    let morceaux = crate::texte::decoupe(&u, '?');
    proof {
        crate::texte::lemme_decouper_non_vide(u@, '?');
        assert(crate::texte::vues(morceaux@).len() == morceaux@.len());
        assert(crate::texte::vues(morceaux@)[0] == morceaux@[0]@);
    }
    let p = &morceaux[0];
    let m = caracteres(methode);
    let get = egale_lit(&m, "GET");
    let post = egale_lit(&m, "POST");
    if get && (egale_lit(p, "/login/account") || egale_lit(p, "/login/account/")) {
        RouteCompte::Page
    } else if get && egale_lit(p, "/api/account/data") {
        RouteCompte::Donnees
    } else if get && egale_lit(p, "/api/account/affichage") {
        RouteCompte::AffichageLire
    } else if post && egale_lit(p, "/api/account/affichage") {
        RouteCompte::AffichageEcrire
    } else if post && egale_lit(p, "/api/account/theme") {
        RouteCompte::Theme
    } else if post && egale_lit(p, "/api/account/language") {
        RouteCompte::Langue
    } else if post && egale_lit(p, "/api/account/pseudo") {
        RouteCompte::Pseudo
    } else if post && egale_lit(p, "/api/account/lien_paiement") {
        RouteCompte::LienPaiement
    } else if post && egale_lit(p, "/api/account/password/step1") {
        RouteCompte::MotDePasseEtape1
    } else if post && egale_lit(p, "/api/account/password/step2") {
        RouteCompte::MotDePasseEtape2
    } else if post && egale_lit(p, "/api/account/autologin/create") {
        RouteCompte::AutologinCreer
    } else if post && egale_lit(p, "/api/account/autologin/delete") {
        RouteCompte::AutologinSupprimer
    } else {
        RouteCompte::Inconnue
    }
}

// ══════════════════════════════════════════════════════════════════
// Pseudo
// ══════════════════════════════════════════════════════════════════

/// Demande de pseudo lue.
pub enum DemandePseudo {
    /// Pseudo vidé : le compte ne se connecte plus que par son email.
    Effacer,
    /// Plus de 64 octets, un `@` ou un espace.
    Invalide,
    /// Pseudo rogné à enregistrer (s'il n'est pas déjà pris).
    Retenir(String),
}

/// Le pseudo (rogné) est refusé : plus de 64 octets en UTF-8, un `@` ou un
/// espace.
pub open spec fn pseudo_refuse(p: Seq<char>) -> bool {
    vstd::utf8::encode_utf8(p).len() > 64 || p.contains('@') || exists|i: int|
        0 <= i < p.len() && est_espace(#[trigger] p[i])
}

/// Décision sur le pseudo reçu (`brut`, avant rognage).
pub open spec fn demande_pseudo(brut: Seq<char>) -> (int, Seq<char>) {
    let p = rogner(brut);
    if p.len() == 0 {
        (0, p)
    } else if pseudo_refuse(p) {
        (1, p)
    } else {
        (2, p)
    }
}

fn a_un_espace(p: &[char]) -> (r: bool)
    ensures
        r == exists|i: int| 0 <= i < p@.len() && est_espace(#[trigger] p@[i]),
{
    let mut i: usize = 0;
    while i < p.len()
        invariant
            i <= p.len(),
            forall|j: int| 0 <= j < i ==> !est_espace(#[trigger] p@[j]),
        decreases p.len() - i,
    {
        if espace(p[i]) {
            return true;
        }
        i += 1;
    }
    false
}

/// Lit le pseudo demandé (voir `demande_pseudo`).
pub fn lire_pseudo(brut: &str) -> (r: DemandePseudo)
    ensures
        match r {
            DemandePseudo::Effacer => demande_pseudo(brut@).0 == 0,
            DemandePseudo::Invalide => demande_pseudo(brut@).0 == 1,
            DemandePseudo::Retenir(p) => demande_pseudo(brut@) == (2int, p@),
        },
{
    let c = caracteres(brut);
    let p = rogne(&c);
    if p.len() == 0 {
        return DemandePseudo::Effacer;
    }
    if crate::texte::octets_depassent(&p, 64) || contient(&p, '@') || a_un_espace(&p) {
        return DemandePseudo::Invalide;
    }
    DemandePseudo::Retenir(chaine_de(&p))
}

// ══════════════════════════════════════════════════════════════════
// Thème
// ══════════════════════════════════════════════════════════════════

/// Thème demandé : l'entier écrit, 0 si le champ manque ou n'en est pas un.
pub open spec fn theme_demande(v: Option<Seq<char>>) -> i64 {
    match v {
        Some(s) => match i64_ecrit(s) {
            Some(n) => n,
            None => 0,
        },
        None => 0,
    }
}

/// Lit le thème demandé (voir `theme_demande`).
pub fn lire_theme(v: Option<&str>) -> (r: i64)
    ensures
        r == theme_demande(match v {
            Some(s) => Some(s@),
            None => None,
        }),
{
    match v {
        Some(s) => match analyser_i64(&caracteres(s)) {
            Some(n) => n,
            None => 0,
        },
        None => 0,
    }
}

// ══════════════════════════════════════════════════════════════════
// Changement de mot de passe
// ══════════════════════════════════════════════════════════════════

/// Longueur en octets UTF-8.
pub open spec fn octets(s: Seq<char>) -> nat {
    vstd::utf8::encode_utf8(s).len()
}

/// Champs de la seconde étape du changement de mot de passe acceptés : `A`
/// hexadécimal de 1 à 512 octets, `M1` de 64, jeton de 48, nouveau sel de
/// 32, nouveau vérificateur hexadécimal de 1 à 512, clé réenveloppée non
/// vide.
pub open spec fn champs_mdp_valides(
    a: Seq<char>,
    m1: Seq<char>,
    jeton: Seq<char>,
    sel: Seq<char>,
    verificateur: Seq<char>,
    enveloppe: Seq<char>,
) -> bool {
    !(a.len() == 0 || octets(a) > 512 || !tout_hex(a) || octets(m1) != 64 || !tout_hex(m1) || octets(jeton)
        != 48 || !tout_hex(jeton) || octets(sel) != 32 || !tout_hex(sel) || verificateur.len() == 0
        || octets(verificateur) > 512 || !tout_hex(verificateur) || enveloppe.len() == 0)
}

/// Contrôle des champs de la seconde étape (voir `champs_mdp_valides`).
pub fn champs_mdp_acceptes(a: &str, m1: &str, jeton: &str, sel: &str, verificateur: &str, enveloppe: &str) -> (r:
    bool)
    ensures
        r == champs_mdp_valides(a@, m1@, jeton@, sel@, verificateur@, enveloppe@),
{
    let ca = caracteres(a);
    let cm = caracteres(m1);
    let cj = caracteres(jeton);
    let cs = caracteres(sel);
    let cv = caracteres(verificateur);
    !(a.is_empty() || crate::texte::octets_depassent(&ca, 512) || !que_des_chiffres_hex(a)
        || !crate::texte::octets_egaux(&cm, 64) || !que_des_chiffres_hex(m1) || !crate::texte::octets_egaux(
        &cj,
        48,
    ) || !que_des_chiffres_hex(jeton) || !crate::texte::octets_egaux(&cs, 32) || !que_des_chiffres_hex(sel)
        || verificateur.is_empty() || crate::texte::octets_depassent(&cv, 512) || !que_des_chiffres_hex(
        verificateur,
    ) || enveloppe.is_empty())
}

// ══════════════════════════════════════════════════════════════════
// Liens d'autologin
// ══════════════════════════════════════════════════════════════════

/// Refus d'une création de lien d'autologin.
#[derive(PartialEq, Eq, Structural, Clone, Copy, Debug)]
pub enum RefusLien {
    /// Autologin fermé, plan non permis ou privilège insuffisant.
    NonDisponible,
    /// Le nombre maximal de liens est atteint.
    MaxLiens,
    /// Secret du serveur vide ou resté à sa valeur par défaut.
    SecretInvalide,
}

/// Décision sur une création de lien pour un utilisateur (`vip`,
/// `privilege`) qui a déjà `existants` liens.
pub open spec fn creation_lien(cfg: ConfigAutologin, vip: i64, privilege: i64, existants: nat) -> Result<(), RefusLien> {
    let plan = if vip == 1 { "vip"@ } else { "free"@ };
    let plans = vues_chaines(cfg.plans_autorises@);
    let secret = rogner(cfg.server_secret@);
    if !(cfg.enabled && (plans.contains("*"@) || plans.contains(plan)) && privilege <= cfg.privilege_min) {
        Err(RefusLien::NonDisponible)
    } else if existants >= cfg.max_tokens_per_user {
        Err(RefusLien::MaxLiens)
    } else if secret.len() == 0 || secret == secret_defaut() {
        Err(RefusLien::SecretInvalide)
    } else {
        Ok(())
    }
}

/// Contrôles d'une création de lien (voir `creation_lien`).
pub fn autoriser_lien(cfg: &ConfigAutologin, vip: i64, privilege: i64, existants: usize) -> (r: Result<(), RefusLien>)
    ensures
        r == creation_lien(*cfg, vip, privilege, existants as nat),
{
    let plan = if vip == 1 { "vip" } else { "free" };
    let plan_ok = contient_plan(&cfg.plans_autorises, "*") || contient_plan(&cfg.plans_autorises, plan);
    if !(cfg.enabled && plan_ok && privilege <= cfg.privilege_min) {
        return Err(RefusLien::NonDisponible);
    }
    if existants as u64 >= cfg.max_tokens_per_user {
        return Err(RefusLien::MaxLiens);
    }
    let s = rogne(&caracteres(cfg.server_secret.as_str()));
    if s.len() == 0 || egale_lit(&s, "vex_changeme_secret") {
        return Err(RefusLien::SecretInvalide);
    }
    Ok(())
}

// ══════════════════════════════════════════════════════════════════
// Lien de paiement
// ══════════════════════════════════════════════════════════════════

/// Message signé du lien de paiement : `uid.expiration`.
pub open spec fn message_paiement(user_id: i64, exp: u64) -> Seq<char> {
    decimal_signe(user_id as int) + "."@ + decimal(exp as nat)
}

/// Message signé du lien de paiement (voir `message_paiement`).
pub fn message_lien_paiement(user_id: i64, exp: u64) -> (r: String)
    ensures
        r@ == message_paiement(user_id, exp),
{
    let mut o: Vec<char> = Vec::new();
    ajouter_decimal_signe(&mut o, user_id);
    ajouter(&mut o, ".");
    ajouter_decimal(&mut o, exp as u128);
    chaine_de(&o)
}

/// Lien de paiement : l'adresse du service, `?` ou `&` selon qu'elle a déjà
/// une requête, puis l'utilisateur, l'expiration, la signature, le plan et
/// la période encodés.
pub open spec fn lien_paiement(
    base: Seq<char>,
    user_id: i64,
    exp: u64,
    sig: Seq<char>,
    plan: Seq<char>,
    periode: Seq<char>,
) -> Seq<char> {
    base + (if base.contains('?') { "&"@ } else { "?"@ }) + "uid="@ + decimal_signe(user_id as int) + "&exp="@
        + decimal(exp as nat) + "&sig="@ + sig + "&plan="@ + encode_url(plan) + "&periode="@ + encode_url(periode)
}

/// Lien de paiement (voir `lien_paiement`).
pub fn url_paiement(base: &str, user_id: i64, exp: u64, sig: &str, plan: &str, periode: &str) -> (r: String)
    ensures
        r@ == lien_paiement(base@, user_id, exp, sig@, plan@, periode@),
{
    let b = caracteres(base);
    let mut o: Vec<char> = Vec::new();
    ajouter(&mut o, base);
    if contient(&b, '?') {
        ajouter(&mut o, "&");
    } else {
        ajouter(&mut o, "?");
    }
    ajouter(&mut o, "uid=");
    ajouter_decimal_signe(&mut o, user_id);
    ajouter(&mut o, "&exp=");
    ajouter_decimal(&mut o, exp as u128);
    ajouter(&mut o, "&sig=");
    ajouter(&mut o, sig);
    ajouter(&mut o, "&plan=");
    ajouter(&mut o, encoder_url(plan).as_str());
    ajouter(&mut o, "&periode=");
    ajouter(&mut o, encoder_url(periode).as_str());
    chaine_de(&o)
}

/// Refus d'une demande de lien de paiement.
#[derive(PartialEq, Eq, Structural, Clone, Copy, Debug)]
pub enum RefusPaiement {
    /// Aucun plan demandé (400).
    PlanManquant,
    /// Adresse du service ou secret partagé absents de la configuration.
    NonConfigure,
}

/// Durée de validité d'un lien de paiement, en secondes.
pub const VALIDITE_PAIEMENT: u64 = 600;

/// Lien de paiement signé pour `plan` et `periode`, valable dix minutes à
/// partir de `maintenant` : signature HMAC-SHA256 de `uid.expiration` sous
/// le secret partagé (rogné), en hexadécimal minuscule.
pub open spec fn paiement(
    plan: Seq<char>,
    periode: Seq<char>,
    base: Seq<char>,
    secret: Seq<char>,
    user_id: i64,
    maintenant: u64,
) -> Result<Seq<char>, RefusPaiement> {
    let exp = (maintenant + VALIDITE_PAIEMENT) as u64;
    if plan.len() == 0 {
        Err(RefusPaiement::PlanManquant)
    } else if rogner(base).len() == 0 || rogner(secret).len() == 0 {
        Err(RefusPaiement::NonConfigure)
    } else {
        Ok(
            lien_paiement(
                rogner(base),
                user_id,
                exp,
                crate::srp::hex_octets(
                    crate::crypto::hmac_sha256(
                        vstd::utf8::encode_utf8(rogner(secret)),
                        vstd::utf8::encode_utf8(message_paiement(user_id, exp)),
                    ),
                ),
                plan,
                periode,
            ),
        )
    }
}

/// Lien de paiement signé (voir `paiement`) ; la période vaut `mois` si
/// elle n'est pas donnée.
pub fn lien_de_paiement(
    plan: &str,
    periode: Option<&str>,
    base: &str,
    secret: &str,
    user_id: i64,
    maintenant: u64,
) -> (r: Result<String, RefusPaiement>)
    requires
        maintenant <= u64::MAX - VALIDITE_PAIEMENT,
    ensures
        match (r, paiement(
            plan@,
            match periode {
                Some(p) => p@,
                None => "mois"@,
            },
            base@,
            secret@,
            user_id,
            maintenant,
        )) {
            (Ok(a), Ok(b)) => a@ == b,
            (Err(a), Err(b)) => a == b,
            _ => false,
        },
{
    if plan.is_empty() {
        return Err(RefusPaiement::PlanManquant);
    }
    let b = chaine_de(&rogne(&caracteres(base)));
    let s = chaine_de(&rogne(&caracteres(secret)));
    if b.as_str().is_empty() || s.as_str().is_empty() {
        return Err(RefusPaiement::NonConfigure);
    }
    let exp = maintenant + VALIDITE_PAIEMENT;
    let message = message_lien_paiement(user_id, exp);
    let mac = match crate::crypto::code_hmac_sha256(s.as_str().as_bytes(), message.as_str().as_bytes()) {
        Some(m) => m,
        None => return Err(RefusPaiement::NonConfigure),
    };
    let sig = crate::srp::hex_encode(&mac);
    let p = match periode {
        Some(p) => p,
        None => "mois",
    };
    Ok(url_paiement(b.as_str(), user_id, exp, sig.as_str(), plan, p))
}

// ══════════════════════════════════════════════════════════════════
// Gabarit de la page
// ══════════════════════════════════════════════════════════════════

/// Traductions appliquées dans l'ordre : chaque marque remplacée par son
/// texte.
pub open spec fn traduire(html: Seq<char>, t: Seq<(String, String)>) -> Seq<char>
    decreases t.len(),
{
    if t.len() == 0 {
        html
    } else {
        remplacer(traduire(html, t.drop_last()), t.last().0@, t.last().1@)
    }
}

/// Première occurrence de `p` remplacée par `r` (`str::replacen(p, r, 1)`).
pub open spec fn remplacer_premier(s: Seq<char>, p: Seq<char>, r: Seq<char>) -> Seq<char> {
    let i = crate::texte::premier_motif(s, p);
    if i < 0 {
        s
    } else {
        s.subrange(0, i) + r + s.subrange(i + p.len(), s.len() as int)
    }
}

/// Page du compte : barre de navigation et thème insérés, traductions
/// appliquées, puis l'objet des textes du script à la place de la première
/// marque `{{I18N_JS}}`.
pub open spec fn page_compte(
    html: Seq<char>,
    nav: Seq<char>,
    theme: Seq<char>,
    t: Seq<(String, String)>,
    i18n_js: Seq<char>,
) -> Seq<char> {
    remplacer_premier(
        traduire(remplacer(remplacer(html, "__NAV_HTML__"@, nav), "{{THEME}}"@, theme), t),
        "{{I18N_JS}}"@,
        i18n_js,
    )
}

/// Remplit le gabarit de la page du compte (voir `page_compte`).
pub fn remplir_page_compte(html: &str, nav: &str, theme: &str, t: &[(String, String)], i18n_js: &str) -> (r:
    String)
    ensures
        r@ == page_compte(html@, nav@, theme@, t@, i18n_js@),
{
    proof {
        reveal_strlit("__NAV_HTML__");
        reveal_strlit("{{THEME}}");
        reveal_strlit("{{I18N_JS}}");
    }
    let mut s = remplace(html, "__NAV_HTML__", nav);
    s = remplace(s.as_str(), "{{THEME}}", theme);
    let ghost base = s@;
    let mut i: usize = 0;
    assert(t@.subrange(0, 0) =~= Seq::<(String, String)>::empty());
    while i < t.len()
        invariant
            i <= t.len(),
            s@ == traduire(base, t@.subrange(0, i as int)),
        decreases t.len() - i,
    {
        assert(t@.subrange(0, i + 1).drop_last() =~= t@.subrange(0, i as int));
        s = remplace(s.as_str(), t[i].0.as_str(), t[i].1.as_str());
        i += 1;
    }
    assert(t@.subrange(0, t@.len() as int) =~= t@);
    remplacer_une_fois(s.as_str(), "{{I18N_JS}}", i18n_js)
}


/// Remplace la première occurrence de `p` par `r` (voir `remplacer_premier`).
pub fn remplacer_une_fois(s: &str, p: &str, r: &str) -> (v: String)
    ensures
        v@ == remplacer_premier(s@, p@, r@),
{
    let c = caracteres(s);
    let pc = caracteres(p);
    proof {
        crate::texte::lemme_premier_motif(c@, pc@);
    }
    match crate::texte::trouver_motif(&c, &pc) {
        Some(k) => {
            let n = c.len();
            assert(k + pc@.len() <= n);
            let apres: usize = k + pc.len();
            let mut o = crate::texte::tranche(&c, 0, k);
            ajouter(&mut o, r);
            let fin = crate::texte::tranche(&c, apres, c.len());
            crate::texte::ajouter_car(&mut o, &fin);
            chaine_de(&o)
        },
        None => chaine_de(&c),
    }
}

// ══════════════════════════════════════════════════════════════════
// Données du compte
// ══════════════════════════════════════════════════════════════════

/// Ligne du compte lue en base (champs absents possibles).
pub struct LigneCompte {
    pub nom: Option<String>,
    pub email: Option<String>,
    pub pseudo: Option<String>,
    pub privilege: Option<i64>,
    pub vip: Option<i64>,
}

/// Données de la page « Mon compte » : l'utilisateur et l'état de ses
/// liens d'autologin.
pub struct DonneesCompte {
    pub id: i64,
    pub nom: String,
    pub email: String,
    pub pseudo: String,
    pub privilege: i64,
    pub vip: i64,
    pub autologin_allowed: bool,
    pub enabled: bool,
    pub token_length: usize,
    pub max_tokens: u64,
    pub has_token: bool,
    pub utilisations: i64,
}

/// Texte ou vide.
pub open spec fn ou_vide(o: Option<String>) -> Seq<char> {
    match o {
        Some(s) => s@,
        None => Seq::empty(),
    }
}

/// L'utilisateur peut créer des liens d'autologin : autologin activé, plan
/// (`vip` si `vip == 1`, sinon `free`) listé ou `*` listé, privilège au plus
/// `privilege_min`.
pub open spec fn autologin_permis(cfg: ConfigAutologin, privilege: i64, vip: i64) -> bool {
    let plans = vues_chaines(cfg.plans_autorises@);
    let plan = if vip == 1 { "vip"@ } else { "free"@ };
    cfg.enabled && (plans.contains("*"@) || plans.contains(plan)) && privilege <= cfg.privilege_min
}

fn texte_ou_vide(o: &Option<String>) -> (r: String)
    ensures
        r@ == ou_vide(*o),
{
    match o {
        Some(s) => chaine_de(&caracteres(s.as_str())),
        None => chaine_de(&Vec::new()),
    }
}

/// Données du compte `user_id` : champs de sa ligne (textes vides,
/// privilège 10 et `vip` 0 à défaut), droit aux liens d'autologin (voir
/// `autologin_permis`), réglages, et ses liens : `utilisations` est le
/// compteur lu sur chacun (le premier fait foi, 0 s'il manque ou s'il n'y
/// en a pas).
pub fn build_account_data(
    user_id: i64,
    ligne: &LigneCompte,
    cfg: &ConfigAutologin,
    utilisations: &[Option<i64>],
) -> (r: DonneesCompte)
    ensures
        r.id == user_id,
        r.nom@ == ou_vide(ligne.nom),
        r.email@ == ou_vide(ligne.email),
        r.pseudo@ == ou_vide(ligne.pseudo),
        r.privilege == (match ligne.privilege {
            Some(p) => p,
            None => 10,
        }),
        r.vip == (match ligne.vip {
            Some(v) => v,
            None => 0,
        }),
        r.autologin_allowed == autologin_permis(*cfg, r.privilege, r.vip),
        r.enabled == cfg.enabled,
        r.token_length == cfg.token_length,
        r.max_tokens == cfg.max_tokens_per_user,
        r.has_token == (utilisations@.len() > 0),
        r.utilisations == (if utilisations@.len() > 0 {
            match utilisations@[0] {
                Some(u) => u,
                None => 0,
            }
        } else {
            0
        }),
{
    let privilege = match ligne.privilege {
        Some(p) => p,
        None => 10,
    };
    let vip = match ligne.vip {
        Some(v) => v,
        None => 0,
    };
    let plan = if vip == 1 { "vip" } else { "free" };
    let plan_ok = contient_plan(&cfg.plans_autorises, "*") || contient_plan(&cfg.plans_autorises, plan);
    let u = if utilisations.len() > 0 {
        match utilisations[0] {
            Some(u) => u,
            None => 0,
        }
    } else {
        0
    };
    DonneesCompte {
        id: user_id,
        nom: texte_ou_vide(&ligne.nom),
        email: texte_ou_vide(&ligne.email),
        pseudo: texte_ou_vide(&ligne.pseudo),
        privilege,
        vip,
        autologin_allowed: cfg.enabled && plan_ok && privilege <= cfg.privilege_min,
        enabled: cfg.enabled,
        token_length: cfg.token_length,
        max_tokens: cfg.max_tokens_per_user,
        has_token: utilisations.len() > 0,
        utilisations: u,
    }
}

} // verus!
