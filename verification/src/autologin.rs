//! Liens d'autologin : configuration, jetons, hachage, mots de passe, garde
//! de domaine, lecture des cookies.

use vstd::prelude::*;
use crate::crypto::{bcrypt_correspond, condensat_md5, condensat_sha256, md5_spec, octets_aleatoires, sha256_spec, verifier_bcrypt};
use crate::srp::{ajouter_hex, constant_time_eq, hex_octets, lemme_hex_longueur};
use crate::texte::{
    caracteres, chaine_de, commence, commence_par, decoupe, decouper, egales, lemme_premier, premier,
    rogne, rogner, tranche, trouver, vues, i64_ecrit,
};
use crate::utils::{entete, trouver_entete, vue_paires};

verus! {

broadcast use vstd::string::group_string_axioms;

// ══════════════════════════════════════════════════════════════════
// Configuration
// ══════════════════════════════════════════════════════════════════

/// Section `autologin` du fichier de configuration, telle que lue.
pub struct ConfigAutologin {
    pub enabled: bool,
    pub token_length: usize,
    pub max_tokens_per_user: u64,
    pub plans_autorises: Vec<String>,
    pub privilege_min: i64,
    pub domaine: String,
    pub server_secret: String,
}

/// Configuration autologin effective.
pub struct AutologinConfig {
    pub enabled: bool,
    pub token_length: usize,
    pub max_tokens: u64,
    pub plans_autorises: Vec<String>,
    pub privilege_min: i64,
    /// Seules les requêtes portant ce Host sont acceptées (vide : toutes).
    pub domaine: String,
    /// Sel secret du hachage des jetons ; ne jamais l'exposer.
    pub server_secret: String,
}

/// Secret par défaut, qui désactive l'autologin tant qu'il n'est pas changé.
pub open spec fn secret_defaut() -> Seq<char> {
    "vex_changeme_secret"@
}

/// Vues d'une suite de chaînes.
pub open spec fn vues_chaines(v: Seq<String>) -> Seq<Seq<char>> {
    v.map_values(|x: String| x@)
}

fn copie(s: &String) -> (r: String)
    ensures
        r@ == s@,
{
    s.clone()
}

impl AutologinConfig {
    /// Configuration effective : plans `free` et `vip` si aucun n'est
    /// listé, secret par défaut si aucun n'est donné.
    pub fn depuis_config(cfg: &ConfigAutologin) -> (r: AutologinConfig)
        ensures
            r.enabled == cfg.enabled,
            r.token_length == cfg.token_length,
            r.max_tokens == cfg.max_tokens_per_user,
            vues_chaines(r.plans_autorises@) == if cfg.plans_autorises@.len() == 0 {
                seq!["free"@, "vip"@]
            } else {
                vues_chaines(cfg.plans_autorises@)
            },
            r.privilege_min == cfg.privilege_min,
            r.domaine@ == cfg.domaine@,
            r.server_secret@ == if cfg.server_secret@.len() == 0 { secret_defaut() } else { cfg.server_secret@ },
    {
        let mut plans: Vec<String> = Vec::new();
        if cfg.plans_autorises.len() == 0 {
            plans.push(chaine_de(&caracteres("free")));
            plans.push(chaine_de(&caracteres("vip")));
            assert(vues_chaines(plans@) =~= seq!["free"@, "vip"@]);
        } else {
            let mut i: usize = 0;
            while i < cfg.plans_autorises.len()
                invariant
                    i <= cfg.plans_autorises.len(),
                    vues_chaines(plans@) == vues_chaines(cfg.plans_autorises@).subrange(0, i as int),
                decreases cfg.plans_autorises.len() - i,
            {
                let ghost avant = vues_chaines(plans@);
                plans.push(copie(&cfg.plans_autorises[i]));
                assert(vues_chaines(plans@) =~= avant.push(cfg.plans_autorises@[i as int]@));
                assert(vues_chaines(plans@) =~= vues_chaines(cfg.plans_autorises@).subrange(0, i + 1));
                i += 1;
            }
            assert(vues_chaines(cfg.plans_autorises@).subrange(0, i as int) =~= vues_chaines(cfg.plans_autorises@));
        }
        let secret = if cfg.server_secret.as_str().is_empty() {
            chaine_de(&caracteres("vex_changeme_secret"))
        } else {
            copie(&cfg.server_secret)
        };
        AutologinConfig {
            enabled: cfg.enabled,
            token_length: cfg.token_length,
            max_tokens: cfg.max_tokens_per_user,
            plans_autorises: plans,
            privilege_min: cfg.privilege_min,
            domaine: copie(&cfg.domaine),
            server_secret: secret,
        }
    }
}

// ══════════════════════════════════════════════════════════════════
// Jetons
// ══════════════════════════════════════════════════════════════════

/// Caractère alphanumérique ASCII.
pub open spec fn est_alnum(c: char) -> bool {
    ('0' <= c <= '9') || ('a' <= c <= 'z') || ('A' <= c <= 'Z')
}

/// Jeton bien formé : `longueur` caractères alphanumériques ASCII.
pub open spec fn jeton_valide(t: Seq<char>, longueur: nat) -> bool {
    t.len() == longueur && forall|i: int| 0 <= i < t.len() ==> est_alnum(#[trigger] t[i])
}

/// Les 62 caractères des jetons, dans l'ordre.
pub open spec fn alphabet_jeton() -> Seq<char> {
    "0123456789abcdefghijklmnopqrstuvwxyzABCDEFGHIJKLMNOPQRSTUVWXYZ"@
}

/// Caractères tirés des octets : chaque octet inférieur à 248 donne le
/// caractère `alphabet[b % 62]` (4 octets par caractère, sans biais), les
/// autres sont rejetés.
pub open spec fn caracteres_acceptes(b: Seq<u8>) -> Seq<char>
    decreases b.len(),
{
    if b.len() == 0 {
        Seq::empty()
    } else {
        let r = caracteres_acceptes(b.drop_last());
        if b.last() < 248 { r.push(alphabet_jeton()[(b.last() % 62) as int]) } else { r }
    }
}

proof fn lemme_alphabet()
    ensures
        alphabet_jeton().len() == 62,
        forall|i: int| 0 <= i < 62 ==> est_alnum(#[trigger] alphabet_jeton()[i]),
{
    reveal_strlit("0123456789abcdefghijklmnopqrstuvwxyzABCDEFGHIJKLMNOPQRSTUVWXYZ");
    assert(forall|i: int| 0 <= i < 62 ==> est_alnum(#[trigger] alphabet_jeton()[i]));
}

proof fn lemme_acceptes_alnum(b: Seq<u8>)
    ensures
        forall|i: int| 0 <= i < caracteres_acceptes(b).len() ==> est_alnum(#[trigger] caracteres_acceptes(b)[i]),
    decreases b.len(),
{
    lemme_alphabet();
    if b.len() > 0 {
        lemme_acceptes_alnum(b.drop_last());
        let r = caracteres_acceptes(b.drop_last());
        assert forall|i: int| 0 <= i < caracteres_acceptes(b).len() implies est_alnum(#[trigger] caracteres_acceptes(b)[i]) by {
            if i < r.len() {
                assert(caracteres_acceptes(b)[i] == r[i]);
            }
        }
    }
}

/// Jeton de `longueur` caractères tiré des octets : les `longueur` premiers
/// caractères acceptés (voir `caracteres_acceptes`), `None` s'il y en a moins.
pub fn jeton_depuis_octets(octets: &[u8], longueur: usize) -> (r: Option<String>)
    ensures
        match r {
            Some(t) => caracteres_acceptes(octets@).len() >= longueur
                && t@ == caracteres_acceptes(octets@).subrange(0, longueur as int),
            None => caracteres_acceptes(octets@).len() < longueur,
        },
{
    let jeu = caracteres("0123456789abcdefghijklmnopqrstuvwxyzABCDEFGHIJKLMNOPQRSTUVWXYZ");
    proof {
        lemme_alphabet();
    }
    let mut res: Vec<char> = Vec::new();
    let mut i: usize = 0;
    assert(octets@.subrange(0, 0) =~= Seq::<u8>::empty());
    while i < octets.len() && res.len() < longueur
        invariant
            i <= octets.len(),
            jeu@ == alphabet_jeton(),
            alphabet_jeton().len() == 62,
            res@.len() <= longueur,
            res@ == caracteres_acceptes(octets@.subrange(0, i as int)),
        decreases octets.len() - i,
    {
        assert(octets@.subrange(0, i + 1).drop_last() =~= octets@.subrange(0, i as int));
        let b = octets[i];
        if b < 248 {
            res.push(jeu[(b % 62) as usize]);
        }
        i += 1;
    }
    proof {
        lemme_acceptes_prefixe(octets@, i as int);
    }
    if res.len() < longueur {
        assert(octets@.subrange(0, i as int) =~= octets@);
        return None;
    }
    assert(res@ =~= caracteres_acceptes(octets@).subrange(0, longueur as int));
    Some(chaine_de(&res))
}

/// Les caractères acceptés d'un début des octets commencent ceux de
/// l'ensemble.
proof fn lemme_acceptes_prefixe(b: Seq<u8>, i: int)
    requires
        0 <= i <= b.len(),
    ensures
        caracteres_acceptes(b.subrange(0, i)).len() <= caracteres_acceptes(b).len(),
        caracteres_acceptes(b.subrange(0, i)) =~= caracteres_acceptes(b).subrange(0, caracteres_acceptes(b.subrange(0, i)).len() as int),
    decreases b.len() - i,
{
    if i < b.len() {
        lemme_acceptes_prefixe(b, i + 1);
        assert(b.subrange(0, i + 1).drop_last() =~= b.subrange(0, i));
    } else {
        assert(b.subrange(0, i) =~= b);
    }
}

/// Nombre de tirages avant d'abandonner (chaque octet est gardé avec une
/// probabilité 248/256 : ne pas aboutir n'arrive pas en pratique ; une
/// boucle vérifiée a une mesure qui décroît). La génération pas à pas
/// (`api_generer`) laisse l'appelant tirer autant qu'il le faut.
pub const TOURS_JETON: usize = 64;

/// Jeton de `longueur` caractères tirés uniformément parmi les 62
/// alphanumériques ASCII : octets du générateur cryptographique du système
/// (`longueur` par tirage) mis bout à bout et lus par `jeton_depuis_octets`.
/// `None` si le générateur échoue ou après `TOURS_JETON` tirages.
pub fn jeton_alphanumerique(longueur: usize) -> (r: Option<String>)
    ensures
        r matches Some(t) ==> jeton_valide(t@, longueur as nat),
        r matches Some(t) ==> exists|b: Seq<u8>| caracteres_acceptes(b).len() >= longueur
            && t@ == caracteres_acceptes(b).subrange(0, longueur as int),
        longueur == 0 ==> r is Some,
{
    let mut tous: Vec<u8> = Vec::new();
    let mut tour: usize = 0;
    loop
        invariant
            tour <= TOURS_JETON,
        decreases TOURS_JETON - tour,
    {
        match jeton_depuis_octets(&tous, longueur) {
            Some(t) => {
                proof {
                    lemme_acceptes_alnum(tous@);
                    assert forall|i: int| 0 <= i < t@.len() implies est_alnum(#[trigger] t@[i]) by {
                        assert(t@[i] == caracteres_acceptes(tous@)[i]);
                    }
                }
                return Some(t);
            },
            None => {},
        }
        if tour >= TOURS_JETON {
            return None;
        }
        let brut = match octets_aleatoires(longueur) {
            Some(b) => b,
            None => return None,
        };
        tous.extend_from_slice(&brut);
        tour += 1;
    }
}

/// Jeton brut d'autologin : `longueur` alphanumériques aléatoires.
pub fn generer_token_brut(longueur: usize) -> (r: Option<String>)
    ensures
        r matches Some(t) ==> jeton_valide(t@, longueur as nat),
        r matches Some(t) ==> exists|b: Seq<u8>| caracteres_acceptes(b).len() >= longueur
            && t@ == caracteres_acceptes(b).subrange(0, longueur as int),
        longueur == 0 ==> r is Some,
{
    jeton_alphanumerique(longueur)
}

/// Texte du jeton haché : hexadécimal minuscule de SHA-256(secret ‖ ":" ‖ jeton).
pub open spec fn hachage_jeton(jeton: Seq<char>, secret: Seq<char>) -> Seq<char> {
    hex_octets(sha256_spec(vstd::utf8::encode_utf8(secret) + seq![58u8] + vstd::utf8::encode_utf8(jeton)))
}

/// SHA-256(secret ‖ ":" ‖ jeton) en hexadécimal ; seule cette forme est
/// stockée, jamais le jeton lui-même.
pub fn hasher_token(token_brut: &str, server_secret: &str) -> (r: String)
    ensures
        r@ == hachage_jeton(token_brut@, server_secret@),
{
    let mut donnees: Vec<u8> = Vec::new();
    donnees.extend_from_slice(server_secret.as_bytes());
    donnees.push(58u8);
    donnees.extend_from_slice(token_brut.as_bytes());
    assert(donnees@ =~= vstd::utf8::encode_utf8(server_secret@) + seq![58u8] + vstd::utf8::encode_utf8(token_brut@));
    let h = condensat_sha256(&donnees);
    let mut out: Vec<char> = Vec::new();
    ajouter_hex(&mut out, &h);
    assert(out@ =~= hex_octets(h@));
    chaine_de(&out)
}

// ══════════════════════════════════════════════════════════════════
// Mots de passe
// ══════════════════════════════════════════════════════════════════

/// Le mot de passe `brut` correspond au hachage stocké : bcrypt pour un
/// hachage `$2…`, sinon MD5 hexadécimal pour un hachage de 32 octets. Seul
/// le mot de passe haché dans la valeur stockée passe, jamais cette valeur
/// elle-même.
pub open spec fn mot_de_passe_correct(brut: Seq<char>, hachage: Seq<char>) -> bool {
    let b = vstd::utf8::encode_utf8(brut);
    let h = vstd::utf8::encode_utf8(hachage);
    if commence_par(hachage, "$2"@) {
        bcrypt_correspond(b, hachage)
    } else if h.len() == 32 {
        vstd::utf8::encode_utf8(hex_octets(md5_spec(b))) == h
    } else {
        false
    }
}

/// Vérifie un mot de passe contre le hachage stocké (bcrypt, ou MD5 hérité
/// comparé en temps constant).
pub fn verifier_mot_de_passe(brut: &str, hash_db: &str) -> (r: bool)
    ensures
        r == mot_de_passe_correct(brut@, hash_db@),
{
    let h = caracteres(hash_db);
    let p = caracteres("$2");
    if commence(&h, &p) {
        return verifier_bcrypt(brut.as_bytes(), hash_db);
    }
    if hash_db.as_bytes().len() == 32 {
        let d = condensat_md5(brut.as_bytes());
        let mut hexa: Vec<char> = Vec::new();
        ajouter_hex(&mut hexa, &d);
        assert(hexa@ =~= hex_octets(d@));
        let s = chaine_de(&hexa);
        return constant_time_eq(s.as_str().as_bytes(), hash_db.as_bytes());
    }
    false
}

// ══════════════════════════════════════════════════════════════════
// Garde de domaine et cookies
// ══════════════════════════════════════════════════════════════════

/// Partie d'une adresse avant le premier `:`, sans espaces autour.
pub open spec fn base_hote(h: Seq<char>) -> Seq<char> {
    rogner(decouper(h, ':')[0])
}

/// Le Host de la requête correspond au domaine autorisé (ports ignorés) ;
/// tout Host convient si aucun domaine n'est configuré.
pub open spec fn domaine_accepte(h: Seq<(Seq<char>, Seq<char>)>, domaine: Seq<char>) -> bool {
    domaine.len() == 0 || base_hote(match entete(h, "host"@) {
        Some(v) => v,
        None => Seq::empty(),
    }) == base_hote(domaine)
}

fn base_hote_exec(h: &[char]) -> (r: Vec<char>)
    ensures
        r@ == base_hote(h@),
{
    let m = decoupe(h, ':');
    proof { crate::utils::lemme_decouper_non_vide(h@, ':'); }
    assert(vues(m@)[0] == m@[0]@);
    rogne(&m[0])
}

/// Garde anti-SSRF : le Host de la requête est le domaine autorisé.
pub fn verifier_domaine(entetes: &[(String, String)], domaine_autorise: &str) -> (r: bool)
    ensures
        r == domaine_accepte(vue_paires(entetes@), domaine_autorise@),
{
    if domaine_autorise.is_empty() {
        return true;
    }
    let host = match trouver_entete(entetes, "host") {
        Some(v) => v,
        None => Vec::new(),
    };
    let hb = base_hote_exec(&host);
    let d = caracteres(domaine_autorise);
    let db = base_hote_exec(&d);
    egales(&hb, &db)
}

/// Valeur du cookie `nom` dans la liste `a=1; b=2` : le premier morceau
/// (sans espaces autour) qui commence par `nom=`, pris après son premier `=`.
pub open spec fn cookie_dans(morceaux: Seq<Seq<char>>, nom: Seq<char>) -> Option<Seq<char>>
    decreases morceaux.len(),
{
    if morceaux.len() == 0 {
        None
    } else {
        let p = rogner(morceaux[0]);
        if commence_par(p, nom + seq!['=']) {
            Some(p.subrange(premier(p, '=') + 1, p.len() as int))
        } else {
            cookie_dans(morceaux.drop_first(), nom)
        }
    }
}

/// Valeur du cookie `nom` de la requête (vide s'il est absent).
pub open spec fn cookie_requete(h: Seq<(Seq<char>, Seq<char>)>, nom: Seq<char>) -> Seq<char> {
    match entete(h, "cookie"@) {
        Some(v) => match cookie_dans(decouper(v, ';'), nom) {
            Some(c) => c,
            None => Seq::empty(),
        },
        None => Seq::empty(),
    }
}

/// Valeur du cookie `name` de la requête, vide s'il est absent.
pub fn extraire_cookie(entetes: &[(String, String)], name: &str) -> (r: String)
    ensures
        r@ == cookie_requete(vue_paires(entetes@), name@),
{
    let v = match trouver_entete(entetes, "cookie") {
        Some(v) => v,
        None => return chaine_de(&Vec::new()),
    };
    let mut prefixe = caracteres(name);
    prefixe.push('=');
    assert(prefixe@ =~= name@ + seq!['=']);
    let morceaux = decoupe(&v, ';');
    let ghost m = vues(morceaux@);
    let mut i: usize = 0;
    assert(m.subrange(0, m.len() as int) =~= m);
    while i < morceaux.len()
        invariant
            i <= morceaux.len(),
            m == vues(morceaux@),
            m == decouper(v@, ';'),
            prefixe@ == name@ + seq!['='],
            entete(vue_paires(entetes@), "cookie"@) == Some(v@),
            cookie_dans(m, name@) == cookie_dans(m.subrange(i as int, m.len() as int), name@),
        decreases morceaux.len() - i,
    {
        let ghost reste = m.subrange(i as int, m.len() as int);
        assert(reste.drop_first() =~= m.subrange(i + 1, m.len() as int));
        assert(reste[0] == morceaux@[i as int]@);
        let p = rogne(&morceaux[i]);
        if commence(&p, &prefixe) {
            proof {
                lemme_premier(p@, '=');
                assert(prefixe@.len() == name@.len() + 1);
                assert(prefixe@[name@.len() as int] == '=');
                assert(prefixe@.len() <= p@.len());
                assert(p@.subrange(0, prefixe@.len() as int) == prefixe@);
                assert(p@.subrange(0, prefixe@.len() as int)[name@.len() as int] == p@[name@.len() as int]);
                assert(p@[name@.len() as int] == '=');
            }
            let e = trouver(&p, '=').unwrap();
            assert(e < p.len());
            assert(cookie_dans(reste, name@) == Some(p@.subrange(e + 1, p@.len() as int)));
            return chaine_de(&tranche(&p, e + 1, p.len()));
        }
        i += 1;
    }
    chaine_de(&Vec::new())
}

// ══════════════════════════════════════════════════════════════════
// Routes et décisions des API
// ══════════════════════════════════════════════════════════════════

/// Route du module autologin.
#[derive(PartialEq, Eq, Structural, Clone, Copy, Debug)]
pub enum RouteAutologin {
    /// GET `/autologin` : la page.
    Page,
    /// POST `/autologin/api/generer`.
    Generer,
    /// POST `/autologin/api/supprimer`.
    Supprimer,
    /// GET `/autologin/connecter`.
    Connecter,
    /// GET `/autologin/api/statut`.
    Statut,
    /// Autre : pas de réponse du module.
    Aucune,
}

/// Route d'après la méthode et le chemin.
pub open spec fn route_de(method: Seq<char>, path: Seq<char>) -> RouteAutologin {
    if method == "GET"@ && (path == "/autologin"@ || path == "/autologin/"@) {
        RouteAutologin::Page
    } else if method == "POST"@ && path == "/autologin/api/generer"@ {
        RouteAutologin::Generer
    } else if method == "POST"@ && path == "/autologin/api/supprimer"@ {
        RouteAutologin::Supprimer
    } else if method == "GET"@ && path == "/autologin/connecter"@ {
        RouteAutologin::Connecter
    } else if method == "GET"@ && path == "/autologin/api/statut"@ {
        RouteAutologin::Statut
    } else {
        RouteAutologin::Aucune
    }
}

/// Route d'une requête du module.
pub fn router(method: &str, path: &str) -> (r: RouteAutologin)
    ensures
        r == route_de(method@, path@),
{
    let m = caracteres(method);
    let p = caracteres(path);
    let get = crate::texte::egale_lit(&m, "GET");
    let post = crate::texte::egale_lit(&m, "POST");
    if get && (crate::texte::egale_lit(&p, "/autologin") || crate::texte::egale_lit(&p, "/autologin/")) {
        RouteAutologin::Page
    } else if post && crate::texte::egale_lit(&p, "/autologin/api/generer") {
        RouteAutologin::Generer
    } else if post && crate::texte::egale_lit(&p, "/autologin/api/supprimer") {
        RouteAutologin::Supprimer
    } else if get && crate::texte::egale_lit(&p, "/autologin/connecter") {
        RouteAutologin::Connecter
    } else if get && crate::texte::egale_lit(&p, "/autologin/api/statut") {
        RouteAutologin::Statut
    } else {
        RouteAutologin::Aucune
    }
}

/// L'autologin reste fermé tant que le secret par défaut est en place.
pub fn secret_par_defaut(server_secret: &str) -> (r: bool)
    ensures
        r == (server_secret@.len() == 0 || server_secret@ == secret_defaut()),
{
    let c = caracteres(server_secret);
    c.len() == 0 || crate::texte::egale_lit(&c, "vex_changeme_secret")
}

/// Corps JSON de la réponse 503 tant que le secret par défaut est en place :
/// `{"erreur": .., "ok": false}`, clés dans l'ordre de `serde_json`.
pub open spec fn corps_secret_defaut() -> Seq<char> {
    "{\"erreur\":\"Autologin désactivé : changez server_secret dans config.json.\",\"ok\":false}"@
}

/// Garde d'entrée de l'autologin, avant toute route : tant que le secret
/// serveur est vide ou vaut le secret par défaut, la requête reçoit 503 et
/// ce corps, et rien d'autre n'est fait. `None` : la requête continue.
pub fn garde_secret(server_secret: &str) -> (r: Option<(u16, String)>)
    ensures
        (server_secret@.len() == 0 || server_secret@ == secret_defaut()) ==> (r matches Some((code, corps))
            && code == 503 && corps@ == corps_secret_defaut()),
        !(server_secret@.len() == 0 || server_secret@ == secret_defaut()) ==> r is None,
{
    if secret_par_defaut(server_secret) {
        let corps = "{\"erreur\":\"Autologin désactivé : changez server_secret dans config.json.\",\"ok\":false}";
        Some((503, corps.to_string()))
    } else {
        None
    }
}

/// Refus d'une demande d'autologin.
#[derive(PartialEq, Eq, Debug)]
pub enum RefusAutologin {
    Desactive,
    NonAuthentifie,
    SessionCorrompue,
    /// Le plan de l'utilisateur (`vip` ou `free`) n'est pas permis.
    PlanRefuse { vip: bool },
    PrivilegeInsuffisant,
    MotDePasseRequis,
    UtilisateurIntrouvable,
    MotDePasseIncorrect,
    /// Déjà `nb` liens pour `max` permis.
    QuotaAtteint { nb: u64, max: u64 },
    ErreurGeneration,
    ErreurBase,
    ParametresInvalides,
    JetonInvalide,
}

impl RefusAutologin {
    /// Le plan refusé : `vip` ou `free`.
    pub fn plan(vip: bool) -> (r: &'static str)
        ensures
            r@ == if vip { "vip"@ } else { "free"@ },
    {
        if vip { "vip" } else { "free" }
    }

    /// Code HTTP du refus.
    pub fn statut(&self) -> (r: u16)
        ensures
            r == statut_autologin(*self),
    {
        match self {
            RefusAutologin::NonAuthentifie | RefusAutologin::SessionCorrompue => 401,
            RefusAutologin::MotDePasseRequis | RefusAutologin::ParametresInvalides => 400,
            RefusAutologin::UtilisateurIntrouvable => 404,
            RefusAutologin::QuotaAtteint { .. } => 409,
            RefusAutologin::ErreurGeneration | RefusAutologin::ErreurBase => 500,
            _ => 403,
        }
    }
}

/// Code HTTP d'un refus d'autologin.
pub open spec fn statut_autologin(e: RefusAutologin) -> u16 {
    match e {
        RefusAutologin::NonAuthentifie | RefusAutologin::SessionCorrompue => 401u16,
        RefusAutologin::MotDePasseRequis | RefusAutologin::ParametresInvalides => 400u16,
        RefusAutologin::UtilisateurIntrouvable => 404u16,
        RefusAutologin::QuotaAtteint { .. } => 409u16,
        RefusAutologin::ErreurGeneration | RefusAutologin::ErreurBase => 500u16,
        _ => 403u16,
    }
}

/// Ce que la session apprend de l'utilisateur connecté.
pub struct InfoSession {
    pub id: Option<i64>,
    pub privilege: Option<i64>,
    pub vip: Option<i64>,
    pub email: Option<String>,
}

/// Plan de l'utilisateur : `vip` si `vip == 1`, sinon `free`.
pub open spec fn plan_de(vip: Option<i64>) -> Seq<char> {
    if vip == Some(1i64) { "vip"@ } else { "free"@ }
}

/// Décision sur une demande de génération, avant la lecture du mot de
/// passe : l'id et l'email de l'utilisateur, ou le refus.
pub open spec fn generation_autorisee(cfg: AutologinConfig, session: Option<InfoSession>) -> Result<(i64, Seq<char>), RefusAutologin> {
    if !cfg.enabled {
        Err(RefusAutologin::Desactive)
    } else {
        match session {
            None => Err(RefusAutologin::NonAuthentifie),
            Some(u) => {
                let id = match u.id {
                    Some(i) => i,
                    None => 0,
                };
                let privilege = match u.privilege {
                    Some(p) => p,
                    None => 99,
                };
                let plans = vues_chaines(cfg.plans_autorises@);
                if id <= 0 {
                    Err(RefusAutologin::SessionCorrompue)
                } else if !plans.contains("*"@) && !plans.contains(plan_de(u.vip)) {
                    Err(RefusAutologin::PlanRefuse { vip: u.vip == Some(1i64) })
                } else if privilege > cfg.privilege_min {
                    Err(RefusAutologin::PrivilegeInsuffisant)
                } else {
                    Ok((
                        id,
                        match u.email {
                            Some(e) => e@,
                            None => Seq::empty(),
                        },
                    ))
                }
            },
        }
    }
}

pub(crate) fn contient_plan(plans: &Vec<String>, p: &str) -> (r: bool)
    ensures
        r == vues_chaines(plans@).contains(p@),
{
    let pc = caracteres(p);
    let mut i: usize = 0;
    while i < plans.len()
        invariant
            i <= plans.len(),
            pc@ == p@,
            forall|j: int| 0 <= j < i ==> vues_chaines(plans@)[j] != p@,
        decreases plans.len() - i,
    {
        let c = caracteres(plans[i].as_str());
        if egales(&c, &pc) {
            assert(vues_chaines(plans@)[i as int] == p@);
            return true;
        }
        i += 1;
    }
    false
}

/// Contrôles d'une demande de génération avant le mot de passe : autologin
/// ouvert, session valide, plan permis, privilège suffisant.
pub fn autoriser_generation(cfg: &AutologinConfig, session: Option<&InfoSession>) -> (r: Result<(i64, String), RefusAutologin>)
    ensures
        match (r, generation_autorisee(*cfg, match session {
            Some(s) => Some(*s),
            None => None,
        })) {
            (Ok((id, e)), Ok((id2, e2))) => id == id2 && e@ == e2,
            (Err(a), Err(b)) => a == b,
            _ => false,
        },
{
    if !cfg.enabled {
        return Err(RefusAutologin::Desactive);
    }
    let u = match session {
        Some(u) => u,
        None => return Err(RefusAutologin::NonAuthentifie),
    };
    let id = match u.id {
        Some(i) => i,
        None => 0,
    };
    let privilege = match u.privilege {
        Some(p) => p,
        None => 99,
    };
    let plan = if u.vip == Some(1i64) { "vip" } else { "free" };
    if id <= 0 {
        return Err(RefusAutologin::SessionCorrompue);
    }
    if !contient_plan(&cfg.plans_autorises, "*") && !contient_plan(&cfg.plans_autorises, plan) {
        return Err(RefusAutologin::PlanRefuse { vip: u.vip == Some(1i64) });
    }
    if privilege > cfg.privilege_min {
        return Err(RefusAutologin::PrivilegeInsuffisant);
    }
    let email = match &u.email {
        Some(e) => chaine_de(&caracteres(e.as_str())),
        None => chaine_de(&Vec::new()),
    };
    Ok((id, email))
}

/// Mot de passe reçu : refusé s'il est vide.
pub fn mot_de_passe_fourni(params: &crate::utils::Parametres) -> (r: Result<String, RefusAutologin>)
    ensures
        match r {
            Ok(m) => params@.contains_key("password"@) && params@["password"@] == m@ && m@.len() > 0,
            Err(e) => e == RefusAutologin::MotDePasseRequis && (!params@.contains_key("password"@)
                || params@["password"@].len() == 0),
        },
{
    match params.get("password") {
        Some(m) => {
            let c = caracteres(m.as_str());
            if c.len() == 0 {
                Err(RefusAutologin::MotDePasseRequis)
            } else {
                Ok(chaine_de(&c))
            }
        },
        None => Err(RefusAutologin::MotDePasseRequis),
    }
}

/// Contrôle du mot de passe contre le hachage stocké (`None` : utilisateur
/// introuvable).
pub fn controler_mot_de_passe(mdp: &str, hachage: Option<&str>) -> (r: Result<(), RefusAutologin>)
    ensures
        match hachage {
            None => r == Err::<(), RefusAutologin>(RefusAutologin::UtilisateurIntrouvable),
            Some(h) => if mot_de_passe_correct(mdp@, h@) {
                r == Ok::<(), RefusAutologin>(())
            } else {
                r == Err::<(), RefusAutologin>(RefusAutologin::MotDePasseIncorrect)
            },
        },
{
    match hachage {
        None => Err(RefusAutologin::UtilisateurIntrouvable),
        Some(h) => if verifier_mot_de_passe(mdp, h) {
            Ok(())
        } else {
            Err(RefusAutologin::MotDePasseIncorrect)
        },
    }
}

/// Quota de liens : refus quand l'utilisateur en a déjà `max` ou plus.
pub fn controler_quota(nb: u64, max: u64) -> (r: Result<(), RefusAutologin>)
    ensures
        nb >= max ==> r == Err::<(), RefusAutologin>(RefusAutologin::QuotaAtteint { nb, max }),
        nb < max ==> r == Ok::<(), RefusAutologin>(()),
{
    if nb >= max {
        Err(RefusAutologin::QuotaAtteint { nb, max })
    } else {
        Ok(())
    }
}

/// Lien d'autologin d'un compte et d'un jeton.
pub open spec fn lien_autologin(id: i64, token: Seq<char>) -> Seq<char> {
    "/autologin/connecter?uid="@ + crate::texte::decimal_signe(id as int) + "&token="@ + token
}

/// Lien d'autologin rendu une seule fois : `/autologin/connecter?uid=…&token=…`.
pub fn url_autologin(id: i64, token: &str) -> (r: String)
    ensures
        r@ == lien_autologin(id, token@),
{
    let mut o: Vec<char> = Vec::new();
    crate::texte::ajouter(&mut o, "/autologin/connecter?uid=");
    crate::texte::ajouter_decimal_signe(&mut o, id);
    crate::texte::ajouter(&mut o, "&token=");
    crate::texte::ajouter(&mut o, token);
    chaine_de(&o)
}

/// Paramètres d'un lien d'autologin lus de l'URL : le texte après le
/// premier `?` (jusqu'au suivant), paires décodées octet par octet.
pub open spec fn parametres_lien(url: Seq<char>) -> Map<Seq<char>, Seq<char>> {
    let m = decouper(url, '?');
    crate::utils::carte_de(crate::utils::paires_formulaire(
        crate::utils::Decodage::Latin1,
        if m.len() > 1 { m[1] } else { Seq::empty() },
    ))
}

/// Décision sur un lien d'autologin reçu : l'id et le jeton, si l'autologin
/// est ouvert, l'id un entier positif et le jeton d'au moins 32 octets.
pub open spec fn lien_lu(enabled: bool, url: Seq<char>) -> Result<(i64, Seq<char>), RefusAutologin> {
    let p = parametres_lien(url);
    let uid_texte = if p.contains_key("uid"@) { p["uid"@] } else { Seq::empty() };
    let token = if p.contains_key("token"@) { p["token"@] } else { Seq::empty() };
    let uid = match i64_ecrit(uid_texte) {
        Some(n) => n,
        None => 0,
    };
    if !enabled {
        Err(RefusAutologin::Desactive)
    } else if uid <= 0 || vstd::utf8::encode_utf8(token).len() < 32 {
        Err(RefusAutologin::ParametresInvalides)
    } else {
        Ok((uid, token))
    }
}

/// Lit et valide un lien `/autologin/connecter?uid=…&token=…`.
pub fn lire_lien(enabled: bool, url: &str) -> (r: Result<(i64, String), RefusAutologin>)
    ensures
        match (r, lien_lu(enabled, url@)) {
            (Ok((u, t)), Ok((u2, t2))) => u == u2 && t@ == t2,
            (Err(a), Err(b)) => a == b,
            _ => false,
        },
{
    if !enabled {
        return Err(RefusAutologin::Desactive);
    }
    let c = caracteres(url);
    let m = decoupe(&c, '?');
    let ghost vm = vues(m@);
    let requete: Vec<char> = if m.len() > 1 {
        assert(vm[1] == m@[1]@);
        tranche(&m[1], 0, m[1].len())
    } else {
        Vec::new()
    };
    assert(m@.len() > 1 ==> requete@ =~= m@[1]@);
    let p = crate::utils::lire_formulaire(crate::utils::Decodage::Latin1, &requete);
    let uid_texte = match p.get("uid") {
        Some(v) => caracteres(v.as_str()),
        None => Vec::new(),
    };
    let token = match p.get("token") {
        Some(v) => chaine_de(&caracteres(v.as_str())),
        None => chaine_de(&Vec::new()),
    };
    let uid: i64 = match crate::texte::analyser_i64(&uid_texte) {
        Some(n) => n,
        None => 0,
    };
    if uid <= 0 || token.as_str().as_bytes().len() < 32 {
        return Err(RefusAutologin::ParametresInvalides);
    }
    Ok((uid, token))
}

/// En-tête `Set-Cookie` de la session ouverte par un lien d'autologin.
pub fn cookie_session(cookie_id: &str) -> (r: String)
    ensures
        r@ == "connexion_cookie="@ + cookie_id@ + "; Path=/; HttpOnly; SameSite=Strict"@,
{
    let mut o: Vec<char> = Vec::new();
    crate::texte::ajouter(&mut o, "connexion_cookie=");
    crate::texte::ajouter(&mut o, cookie_id);
    crate::texte::ajouter(&mut o, "; Path=/; HttpOnly; SameSite=Strict");
    chaine_de(&o)
}


/// Un lien d'autologin rendu pour un compte d'identifiant positif et un
/// jeton alphanumérique d'au moins 32 caractères se relit, autologin
/// ouvert, en ce même compte et ce même jeton.
pub proof fn loi_lien_relu(id: i64, token: Seq<char>)
    requires
        id > 0,
        token.len() >= 32,
        forall|i: int| 0 <= i < token.len() ==> est_alnum(#[trigger] token[i]),
    ensures
        lien_lu(true, lien_autologin(id, token)) == Ok::<(i64, Seq<char>), RefusAutologin>((id, token)),
{
    reveal_strlit("/autologin/connecter?uid=");
    reveal_strlit("&token=");
    reveal_strlit("/autologin/connecter");
    reveal_strlit("uid");
    reveal_strlit("token");
    let d = crate::texte::decimal(id as nat);
    crate::texte::lemme_decimal_chiffres(id as nat);
    let a = "/autologin/connecter"@;
    let q = "uid"@ + seq!['='] + d + seq!['&'] + "token"@ + seq!['='] + token;
    assert(lien_autologin(id, token) =~= a + seq!['?'] + q);
    assert(!a.contains('?'));
    assert(!q.contains('?')) by {
        if q.contains('?') {
            let j = choose|j: int| 0 <= j < q.len() && q[j] == '?';
            if j < 4 {
            } else if j < 4 + d.len() {
                assert(q[j] == d[j - 4]);
            } else if j < 4 + d.len() + 7 {
            } else {
                assert(q[j] == token[j - 4 - d.len() - 7]);
            }
        }
    }
    crate::texte::lemme_decouper_concat(a, q, '?');
    crate::texte::lemme_decouper_sans(q, '?');
    assert(decouper(a + seq!['?'] + q, '?') =~= seq![a, q]);
    crate::utils::lemme_deux_paires("uid"@, d, "token"@, token);
    let paires = seq![("uid"@, d), ("token"@, token)];
    let p = crate::utils::carte_de(paires);
    assert(paires.drop_last() =~= seq![("uid"@, d)]);
    assert(paires.drop_last().drop_last() =~= Seq::<(Seq<char>, Seq<char>)>::empty());
    assert("uid"@ != "token"@) by {
        assert("uid"@.len() != "token"@.len());
    }
    assert(crate::utils::carte_de(paires.drop_last().drop_last()) == Map::<Seq<char>, Seq<char>>::empty());
    assert(crate::utils::carte_de(paires.drop_last()) == crate::utils::carte_de(paires.drop_last().drop_last()).insert(
        "uid"@,
        d,
    ));
    assert(p == crate::utils::carte_de(paires.drop_last()).insert("token"@, token));
    assert(p.contains_key("uid"@) && p["uid"@] == d);
    assert(p.contains_key("token"@) && p["token"@] == token);
    crate::texte::loi_relire_entier(id);
    assert(vstd::utf8::is_ascii_chars(token)) by {
        assert forall|i: int| 0 <= i < token.len() implies '\0' <= #[trigger] token[i] <= '\u{7f}' by {
            assert(est_alnum(token[i]));
        }
    }
    vstd::utf8::is_ascii_chars_encode_utf8(token);
}


// ══════════════════════════════════════════════════════════════════
// Génération d'un lien : pas à pas
// ══════════════════════════════════════════════════════════════════

/// Message d'un refus de génération, tel que la réponse l'écrit.
pub open spec fn message_generation(e: RefusAutologin) -> Seq<char> {
    match e {
        RefusAutologin::Desactive => "Autologin désactivé sur ce serveur."@,
        RefusAutologin::NonAuthentifie => "Non authentifié."@,
        RefusAutologin::SessionCorrompue => "Session corrompue."@,
        RefusAutologin::PlanRefuse { vip } => "Votre plan ("@ + (if vip { "vip"@ } else { "free"@ })
            + ") ne permet pas l'autologin."@,
        RefusAutologin::PrivilegeInsuffisant => "Votre niveau de privilège ne permet pas l'autologin."@,
        RefusAutologin::MotDePasseRequis => "Mot de passe requis."@,
        RefusAutologin::UtilisateurIntrouvable => "Utilisateur introuvable."@,
        RefusAutologin::MotDePasseIncorrect => "Mot de passe incorrect."@,
        RefusAutologin::QuotaAtteint { nb, max } => "Vous avez déjà "@ + crate::texte::decimal(nb as nat)
            + " lien(s) autologin (maximum : "@ + crate::texte::decimal(max as nat)
            + "). Révoquez-le avant d'en créer un nouveau."@,
        RefusAutologin::ErreurGeneration => "Erreur interne de génération."@,
        RefusAutologin::ErreurBase => "Erreur base de données."@,
        RefusAutologin::ParametresInvalides => "Paramètres invalides."@,
        RefusAutologin::JetonInvalide => "Token invalide ou expiré."@,
    }
}

/// Corps JSON d'un refus de génération, clés dans l'ordre de `serde_json` :
/// `{"erreur": .., "ok": false}`, précédé de `"deja_existant": true` quand
/// le quota est atteint.
pub open spec fn corps_refus_generation(e: RefusAutologin) -> Seq<char> {
    if e is QuotaAtteint {
        "{\"deja_existant\":true,\"erreur\":\""@ + message_generation(e) + "\",\"ok\":false}"@
    } else {
        "{\"erreur\":\""@ + message_generation(e) + "\",\"ok\":false}"@
    }
}

/// Corps JSON d'une génération réussie : avertissement, message, succès,
/// longueur du jeton et lien (rendu une seule fois), clés dans l'ordre de
/// `serde_json`.
pub open spec fn corps_lien_genere(id: i64, token: Seq<char>, longueur: nat) -> Seq<char> {
    "{\"avertissement\":\"Ce lien connecte directement votre compte sans mot de passe. Gardez-le confidentiel et ne le partagez jamais.\",\"message\":\"Lien généré. Copiez-le maintenant — il ne sera jamais réaffiché.\",\"ok\":true,\"token_length\":"@
        + crate::texte::decimal(longueur) + ",\"url\":\""@ + lien_autologin(id, token) + "\"}"@
}

impl RefusAutologin {
    /// Corps JSON de la réponse à ce refus de génération.
    pub fn corps_generation(&self) -> (r: String)
        ensures
            r@ == corps_refus_generation(*self),
    {
        let mut o: Vec<char> = Vec::new();
        match self {
            RefusAutologin::QuotaAtteint { .. } => crate::texte::ajouter(&mut o, "{\"deja_existant\":true,\"erreur\":\""),
            _ => crate::texte::ajouter(&mut o, "{\"erreur\":\""),
        }
        let ghost debut = o@;
        match self {
            RefusAutologin::Desactive => crate::texte::ajouter(&mut o, "Autologin désactivé sur ce serveur."),
            RefusAutologin::NonAuthentifie => crate::texte::ajouter(&mut o, "Non authentifié."),
            RefusAutologin::SessionCorrompue => crate::texte::ajouter(&mut o, "Session corrompue."),
            RefusAutologin::PlanRefuse { vip } => {
                crate::texte::ajouter(&mut o, "Votre plan (");
                crate::texte::ajouter(&mut o, RefusAutologin::plan(*vip));
                crate::texte::ajouter(&mut o, ") ne permet pas l'autologin.");
            },
            RefusAutologin::PrivilegeInsuffisant => crate::texte::ajouter(
                &mut o,
                "Votre niveau de privilège ne permet pas l'autologin.",
            ),
            RefusAutologin::MotDePasseRequis => crate::texte::ajouter(&mut o, "Mot de passe requis."),
            RefusAutologin::UtilisateurIntrouvable => crate::texte::ajouter(&mut o, "Utilisateur introuvable."),
            RefusAutologin::MotDePasseIncorrect => crate::texte::ajouter(&mut o, "Mot de passe incorrect."),
            RefusAutologin::QuotaAtteint { nb, max } => {
                crate::texte::ajouter(&mut o, "Vous avez déjà ");
                crate::texte::ajouter_decimal(&mut o, *nb as u128);
                crate::texte::ajouter(&mut o, " lien(s) autologin (maximum : ");
                crate::texte::ajouter_decimal(&mut o, *max as u128);
                crate::texte::ajouter(&mut o, "). Révoquez-le avant d'en créer un nouveau.");
            },
            RefusAutologin::ErreurGeneration => crate::texte::ajouter(&mut o, "Erreur interne de génération."),
            RefusAutologin::ErreurBase => crate::texte::ajouter(&mut o, "Erreur base de données."),
            RefusAutologin::ParametresInvalides => crate::texte::ajouter(&mut o, "Paramètres invalides."),
            RefusAutologin::JetonInvalide => crate::texte::ajouter(&mut o, "Token invalide ou expiré."),
        }
        assert(o@ =~= debut + message_generation(*self));
        crate::texte::ajouter(&mut o, "\",\"ok\":false}");
        chaine_de(&o)
    }
}

/// Où en est une génération de lien.
pub enum EtapeGeneration {
    /// La session de l'utilisateur est attendue.
    Session,
    /// Le hachage stocké du compte est attendu ; `mdp` est le mot de passe
    /// reçu.
    Hachage { id: i64, mdp: String },
    /// Le nombre de liens déjà enregistrés pour le compte est attendu.
    Nombre { id: i64 },
    /// Des octets aléatoires sont attendus ; `octets` sont ceux déjà tirés.
    Octets { id: i64, octets: Vec<u8> },
    /// Le résultat de l'écriture du jeton haché est attendu.
    Ecriture { id: i64, token: String },
    /// La réponse est donnée.
    Terminee,
}

/// Ce que l'appelant apprend pour l'étape en cours.
pub enum EvenementGeneration {
    /// Session de la requête, `None` si elle n'est pas valide.
    Session(Option<InfoSession>),
    /// Hachage du mot de passe du compte, `None` si le compte est introuvable.
    Hachage(Option<String>),
    /// Nombre de liens du compte.
    Nombre(u64),
    /// Octets du générateur du système, `None` s'il échoue.
    Octets(Option<Vec<u8>>),
    /// L'écriture en base a réussi.
    Ecriture(bool),
}

/// Ce que l'appelant doit faire ensuite.
pub enum ActionGeneration {
    /// Lire la session de la requête.
    LireSession,
    /// Lire le hachage du mot de passe du compte d'adresse `email`.
    LireHachage { email: String },
    /// Compter les liens du compte.
    CompterJetons { id: i64 },
    /// Tirer `nombre` octets du générateur du système.
    TirerOctets { nombre: usize },
    /// Écrire la ligne `{compteid, nombre_hash}` de la table `autologin`.
    Ecrire { compteid: i64, nombre_hash: String },
    /// Répondre et s'arrêter.
    Repondre { statut: u16, corps: String },
}

pub enum VueEtape {
    Session,
    Hachage { id: i64, mdp: Seq<char> },
    Nombre { id: i64 },
    Octets { id: i64, octets: Seq<u8> },
    Ecriture { id: i64, token: Seq<char> },
    Terminee,
}

pub enum VueAction {
    LireSession,
    LireHachage { email: Seq<char> },
    CompterJetons { id: i64 },
    TirerOctets { nombre: nat },
    Ecrire { compteid: i64, nombre_hash: Seq<char> },
    Repondre { statut: u16, corps: Seq<char> },
}

pub open spec fn vue_etape(e: EtapeGeneration) -> VueEtape {
    match e {
        EtapeGeneration::Session => VueEtape::Session,
        EtapeGeneration::Hachage { id, mdp } => VueEtape::Hachage { id, mdp: mdp@ },
        EtapeGeneration::Nombre { id } => VueEtape::Nombre { id },
        EtapeGeneration::Octets { id, octets } => VueEtape::Octets { id, octets: octets@ },
        EtapeGeneration::Ecriture { id, token } => VueEtape::Ecriture { id, token: token@ },
        EtapeGeneration::Terminee => VueEtape::Terminee,
    }
}

pub open spec fn vue_action(a: ActionGeneration) -> VueAction {
    match a {
        ActionGeneration::LireSession => VueAction::LireSession,
        ActionGeneration::LireHachage { email } => VueAction::LireHachage { email: email@ },
        ActionGeneration::CompterJetons { id } => VueAction::CompterJetons { id },
        ActionGeneration::TirerOctets { nombre } => VueAction::TirerOctets { nombre: nombre as nat },
        ActionGeneration::Ecrire { compteid, nombre_hash } => VueAction::Ecrire { compteid, nombre_hash: nombre_hash@ },
        ActionGeneration::Repondre { statut, corps } => VueAction::Repondre { statut, corps: corps@ },
    }
}

/// Réponse à un refus, qui termine la génération.
pub open spec fn fin_refus(e: RefusAutologin) -> (VueEtape, VueAction) {
    (VueEtape::Terminee, VueAction::Repondre { statut: statut_autologin(e), corps: corps_refus_generation(e) })
}

/// Mot de passe reçu dans le corps de la requête, s'il est non vide.
pub open spec fn mdp_recu(p: Map<Seq<char>, Seq<char>>) -> Option<Seq<char>> {
    if p.contains_key("password"@) && p["password"@].len() > 0 {
        Some(p["password"@])
    } else {
        None
    }
}

/// Premier pas : rien n'est lu si l'autologin est fermé.
pub open spec fn debut_generation_spec(cfg: AutologinConfig) -> (VueEtape, VueAction) {
    if !cfg.enabled {
        fin_refus(RefusAutologin::Desactive)
    } else {
        (VueEtape::Session, VueAction::LireSession)
    }
}

/// Pas suivant d'une génération de lien, de l'étape et de l'événement :
/// session (autologin ouvert, session valide, plan et privilège permis),
/// mot de passe reçu, vérifié contre le hachage stocké avant toute autre
/// action, quota de liens, jeton tiré des octets du système (tirages
/// répétés tant qu'il manque des caractères), écriture de son seul
/// hachage en colonne `nombre_hash`, puis le lien rendu une seule fois.
/// Un événement qui ne répond pas à l'étape termine sur une erreur 500.
pub open spec fn pas_generation(
    cfg: AutologinConfig,
    params: Map<Seq<char>, Seq<char>>,
    e: VueEtape,
    ev: EvenementGeneration,
) -> (VueEtape, VueAction) {
    match (e, ev) {
        (VueEtape::Session, EvenementGeneration::Session(s)) => match generation_autorisee(cfg, s) {
            Err(x) => fin_refus(x),
            Ok((id, email)) => match mdp_recu(params) {
                None => fin_refus(RefusAutologin::MotDePasseRequis),
                Some(m) => (VueEtape::Hachage { id, mdp: m }, VueAction::LireHachage { email }),
            },
        },
        (VueEtape::Hachage { id, mdp }, EvenementGeneration::Hachage(h)) => match h {
            None => fin_refus(RefusAutologin::UtilisateurIntrouvable),
            Some(h) => if mot_de_passe_correct(mdp, h@) {
                (VueEtape::Nombre { id }, VueAction::CompterJetons { id })
            } else {
                fin_refus(RefusAutologin::MotDePasseIncorrect)
            },
        },
        (VueEtape::Nombre { id }, EvenementGeneration::Nombre(nb)) => if nb >= cfg.max_tokens {
            fin_refus(RefusAutologin::QuotaAtteint { nb, max: cfg.max_tokens })
        } else {
            (VueEtape::Octets { id, octets: Seq::empty() }, VueAction::TirerOctets { nombre: cfg.token_length as nat })
        },
        (VueEtape::Octets { id, octets }, EvenementGeneration::Octets(b)) => match b {
            None => fin_refus(RefusAutologin::ErreurGeneration),
            Some(b) => {
                let tous = octets + b@;
                let n = cfg.token_length as int;
                if caracteres_acceptes(tous).len() >= n {
                    let token = caracteres_acceptes(tous).subrange(0, n);
                    (
                        VueEtape::Ecriture { id, token },
                        VueAction::Ecrire { compteid: id, nombre_hash: hachage_jeton(token, cfg.server_secret@) },
                    )
                } else {
                    (VueEtape::Octets { id, octets: tous }, VueAction::TirerOctets { nombre: cfg.token_length as nat })
                }
            },
        },
        (VueEtape::Ecriture { id, token }, EvenementGeneration::Ecriture(ok)) => if ok {
            (
                VueEtape::Terminee,
                VueAction::Repondre { statut: 200, corps: corps_lien_genere(id, token, cfg.token_length as nat) },
            )
        } else {
            fin_refus(RefusAutologin::ErreurBase)
        },
        _ => fin_refus(RefusAutologin::ErreurBase),
    }
}

fn refus(e: RefusAutologin) -> (r: (EtapeGeneration, ActionGeneration))
    ensures
        (vue_etape(r.0), vue_action(r.1)) == fin_refus(e),
{
    let statut = e.statut();
    let corps = e.corps_generation();
    (EtapeGeneration::Terminee, ActionGeneration::Repondre { statut, corps })
}

/// Premier pas d'une génération de lien (voir `debut_generation_spec`).
pub fn debut_generation(cfg: &AutologinConfig) -> (r: (EtapeGeneration, ActionGeneration))
    ensures
        (vue_etape(r.0), vue_action(r.1)) == debut_generation_spec(*cfg),
{
    if !cfg.enabled {
        refus(RefusAutologin::Desactive)
    } else {
        (EtapeGeneration::Session, ActionGeneration::LireSession)
    }
}

/// Génération d'un lien d'autologin, pas à pas (voir `pas_generation`) :
/// l'appelant fait l'action rendue et revient avec son résultat.
pub fn api_generer(
    cfg: &AutologinConfig,
    params: &crate::utils::Parametres,
    etape: EtapeGeneration,
    ev: EvenementGeneration,
) -> (r: (EtapeGeneration, ActionGeneration))
    ensures
        (vue_etape(r.0), vue_action(r.1)) == pas_generation(*cfg, params@, vue_etape(etape), ev),
{
    match (etape, ev) {
        (EtapeGeneration::Session, EvenementGeneration::Session(s)) => match autoriser_generation(cfg, s.as_ref()) {
            Err(x) => refus(x),
            Ok((id, email)) => match mot_de_passe_fourni(params) {
                Err(_) => refus(RefusAutologin::MotDePasseRequis),
                Ok(m) => (EtapeGeneration::Hachage { id, mdp: m }, ActionGeneration::LireHachage { email }),
            },
        },
        (EtapeGeneration::Hachage { id, mdp }, EvenementGeneration::Hachage(h)) => {
            match controler_mot_de_passe(mdp.as_str(), match &h {
                Some(x) => Some(x.as_str()),
                None => None,
            }) {
                Ok(()) => (EtapeGeneration::Nombre { id }, ActionGeneration::CompterJetons { id }),
                Err(x) => refus(x),
            }
        },
        (EtapeGeneration::Nombre { id }, EvenementGeneration::Nombre(nb)) => match controler_quota(nb, cfg.max_tokens) {
            Err(x) => refus(x),
            Ok(()) => (
                EtapeGeneration::Octets { id, octets: Vec::new() },
                ActionGeneration::TirerOctets { nombre: cfg.token_length },
            ),
        },
        (EtapeGeneration::Octets { id, octets }, EvenementGeneration::Octets(b)) => match b {
            None => refus(RefusAutologin::ErreurGeneration),
            Some(b) => {
                let mut tous = octets;
                let ghost avant = tous@;
                tous.extend_from_slice(&b);
                assert(tous@ =~= avant + b@);
                match jeton_depuis_octets(&tous, cfg.token_length) {
                    Some(token) => {
                        let h = hasher_token(token.as_str(), cfg.server_secret.as_str());
                        (EtapeGeneration::Ecriture { id, token }, ActionGeneration::Ecrire { compteid: id, nombre_hash: h })
                    },
                    None => (EtapeGeneration::Octets { id, octets: tous }, ActionGeneration::TirerOctets {
                        nombre: cfg.token_length,
                    }),
                }
            },
        },
        (EtapeGeneration::Ecriture { id, token }, EvenementGeneration::Ecriture(ok)) => if ok {
            let mut o: Vec<char> = Vec::new();
            crate::texte::ajouter(
                &mut o,
                "{\"avertissement\":\"Ce lien connecte directement votre compte sans mot de passe. Gardez-le confidentiel et ne le partagez jamais.\",\"message\":\"Lien généré. Copiez-le maintenant — il ne sera jamais réaffiché.\",\"ok\":true,\"token_length\":",
            );
            crate::texte::ajouter_decimal(&mut o, cfg.token_length as u128);
            crate::texte::ajouter(&mut o, ",\"url\":\"");
            crate::texte::ajouter(&mut o, url_autologin(id, token.as_str()).as_str());
            crate::texte::ajouter(&mut o, "\"}");
            (EtapeGeneration::Terminee, ActionGeneration::Repondre { statut: 200, corps: chaine_de(&o) })
        } else {
            refus(RefusAutologin::ErreurBase)
        },
        _ => refus(RefusAutologin::ErreurBase),
    }
}

} // verus!
