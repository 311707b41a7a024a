//! Messagerie : aiguillage des requêtes, décodage des adresses dans les
//! chemins, échappement des textes insérés dans le script et dans les
//! requêtes SQL, requêtes des dossiers, de lecture, de suppression, d'envoi.

use vstd::prelude::*;
use crate::json::{champ, chaine_json, json_chaine, t, texte_ref, valeur_de, Json};
use crate::texte::{
    ajouter, ajouter_decimal_signe, caracteres, chaine_de, commence_par, decimal_signe, decouper, egale_lit, rogne,
    rogner, tranche,
};

verus! {

broadcast use vstd::string::group_string_axioms;

/// Routes de la messagerie.
pub enum RouteMess {
    /// La page, sans authentification.
    Page,
    Navbar,
    Preferences,
    Liste,
    Utilisateurs,
    /// Lire sa propre clé publique (`GET`).
    MaCle,
    /// Enregistrer sa clé publique (toute autre méthode).
    PoserCle,
    Envoyer,
    Lu,
    Supprimer,
    /// Clé publique d'un correspondant, d'après l'adresse décodée du chemin.
    CleDe(String),
    Inconnue,
}

/// Vue d'une route : son genre et l'adresse d'un correspondant.
pub open spec fn vue_route_mess(r: RouteMess) -> (int, Seq<char>) {
    match r {
        RouteMess::Page => (0, Seq::empty()),
        RouteMess::Navbar => (1, Seq::empty()),
        RouteMess::Preferences => (2, Seq::empty()),
        RouteMess::Liste => (3, Seq::empty()),
        RouteMess::Utilisateurs => (4, Seq::empty()),
        RouteMess::MaCle => (5, Seq::empty()),
        RouteMess::PoserCle => (6, Seq::empty()),
        RouteMess::Envoyer => (7, Seq::empty()),
        RouteMess::Lu => (8, Seq::empty()),
        RouteMess::Supprimer => (9, Seq::empty()),
        RouteMess::CleDe(e) => (10, e@),
        RouteMess::Inconnue => (11, Seq::empty()),
    }
}

/// `s` sans les répétitions du préfixe `p` en tête (`trim_start_matches`).
pub open spec fn sans_prefixes(s: Seq<char>, p: Seq<char>) -> Seq<char>
    decreases s.len(),
{
    if p.len() > 0 && commence_par(s, p) {
        sans_prefixes(s.subrange(p.len() as int, s.len() as int), p)
    } else {
        s
    }
}

/// Route d'une requête d'après son chemin (avant le premier `?`) et sa
/// méthode.
pub open spec fn route_mess(url: Seq<char>, get: bool) -> (int, Seq<char>) {
    let c = decouper(url, '?')[0];
    if c == "/mess"@ || c == "/mess/"@ {
        (0, Seq::empty())
    } else if c == "/api/mess/navbar"@ {
        (1, Seq::empty())
    } else if c == "/api/mess/prefs"@ {
        (2, Seq::empty())
    } else if c == "/api/mess/list"@ {
        (3, Seq::empty())
    } else if c == "/api/mess/users"@ {
        (4, Seq::empty())
    } else if (c == "/api/mess/pubkey"@ || c == "/api/mess/pubkey/"@) && get {
        (5, Seq::empty())
    } else if c == "/api/mess/pubkey"@ || c == "/api/mess/pubkey/"@ {
        (6, Seq::empty())
    } else if c == "/api/mess/send"@ {
        (7, Seq::empty())
    } else if c == "/api/mess/read"@ {
        (8, Seq::empty())
    } else if c == "/api/mess/delete"@ {
        (9, Seq::empty())
    } else if commence_par(c, "/api/mess/pubkey/"@) {
        (10, decoder_chemin(sans_prefixes(c, "/api/mess/pubkey/"@)))
    } else {
        (11, Seq::empty())
    }
}

fn sans_prefixes_exec(s: &[char], p: &str) -> (r: Vec<char>)
    requires
        p@.len() > 0,
    ensures
        r@ == sans_prefixes(s@, p@),
{
    let pc = caracteres(p);
    let mut i: usize = 0;
    assert(s@.subrange(0, s@.len() as int) =~= s@);
    while i < s.len() && crate::texte::commence_en(s, i, &pc)
        invariant
            i <= s.len(),
            pc@ == p@,
            p@.len() > 0,
            sans_prefixes(s@, p@) == sans_prefixes(s@.subrange(i as int, s@.len() as int), p@),
        decreases s.len() - i,
    {
        let ghost t = s@.subrange(i as int, s@.len() as int);
        assert(t.subrange(p@.len() as int, t.len() as int) =~= s@.subrange(i + p@.len(), s@.len() as int));
        i += pc.len();
    }
    proof {
        if i == s.len() {
            let t = s@.subrange(i as int, s@.len() as int);
            assert(t.len() == 0);
        }
    }
    tranche(s, i, s.len())
}

/// Aiguillage d'une requête de la messagerie (voir `route_mess`).
pub fn router_mess(url: &str, get: bool) -> (r: RouteMess)
    ensures
        vue_route_mess(r) == route_mess(url@, get),
{
    let u = caracteres(url);
    let morceaux = crate::texte::decoupe(&u, '?');
    proof {
        crate::texte::lemme_decouper_non_vide(u@, '?');
        assert(crate::texte::vues(morceaux@).len() == morceaux@.len());
        assert(crate::texte::vues(morceaux@)[0] == morceaux@[0]@);
        reveal_strlit("/api/mess/pubkey/");
    }
    let c = &morceaux[0];
    if egale_lit(c, "/mess") || egale_lit(c, "/mess/") {
        RouteMess::Page
    } else if egale_lit(c, "/api/mess/navbar") {
        RouteMess::Navbar
    } else if egale_lit(c, "/api/mess/prefs") {
        RouteMess::Preferences
    } else if egale_lit(c, "/api/mess/list") {
        RouteMess::Liste
    } else if egale_lit(c, "/api/mess/users") {
        RouteMess::Utilisateurs
    } else if (egale_lit(c, "/api/mess/pubkey") || egale_lit(c, "/api/mess/pubkey/")) && get {
        RouteMess::MaCle
    } else if egale_lit(c, "/api/mess/pubkey") || egale_lit(c, "/api/mess/pubkey/") {
        RouteMess::PoserCle
    } else if egale_lit(c, "/api/mess/send") {
        RouteMess::Envoyer
    } else if egale_lit(c, "/api/mess/read") {
        RouteMess::Lu
    } else if egale_lit(c, "/api/mess/delete") {
        RouteMess::Supprimer
    } else if crate::texte::commence_lit(c, "/api/mess/pubkey/") {
        let brut = sans_prefixes_exec(c, "/api/mess/pubkey/");
        RouteMess::CleDe(chaine_de(&decoder_car(&brut)))
    } else {
        RouteMess::Inconnue
    }
}

// ══════════════════════════════════════════════════════════════════
// Décodage d'une adresse
// ══════════════════════════════════════════════════════════════════

/// Valeur d'un chiffre hexadécimal ASCII.
pub open spec fn valeur_hex(c: char) -> Option<nat> {
    if '0' <= c <= '9' {
        Some((c as nat - '0' as nat) as nat)
    } else if 'a' <= c <= 'f' {
        Some((c as nat - 'a' as nat + 10) as nat)
    } else if 'A' <= c <= 'F' {
        Some((c as nat - 'A' as nat + 10) as nat)
    } else {
        None
    }
}

/// `u8::from_str_radix` en base 16 des deux caractères : deux chiffres, ou
/// `+` suivi d'un chiffre.
pub open spec fn octet_de(h1: char, h2: char) -> Option<nat> {
    match (valeur_hex(h1), valeur_hex(h2)) {
        (Some(a), Some(b)) => Some(a * 16 + b),
        (None, Some(b)) => if h1 == '+' { Some(b) } else { None },
        _ => None,
    }
}

/// Décodage d'un morceau de chemin : `+` devient une espace ; `%` lit les
/// deux caractères suivants (`0` pour ceux qui manquent) comme un octet
/// écrit en hexadécimal, rendu comme le caractère de même code, ou les
/// recopie après le `%` s'ils n'en forment pas un.
pub open spec fn decoder_chemin(s: Seq<char>) -> Seq<char>
    decreases s.len(),
{
    if s.len() == 0 {
        s
    } else if s[0] == '%' {
        let h1 = if s.len() > 1 { s[1] } else { '0' };
        let h2 = if s.len() > 2 { s[2] } else { '0' };
        let reste = if s.len() > 2 { s.subrange(3, s.len() as int) } else { Seq::empty() };
        match octet_de(h1, h2) {
            Some(b) => seq![(b as u8) as char] + decoder_chemin(reste),
            None => seq!['%', h1, h2] + decoder_chemin(reste),
        }
    } else if s[0] == '+' {
        seq![' '] + decoder_chemin(s.drop_first())
    } else {
        seq![s[0]] + decoder_chemin(s.drop_first())
    }
}

fn hex_val(c: char) -> (r: Option<u8>)
    ensures
        match (r, valeur_hex(c)) {
            (Some(a), Some(b)) => a as nat == b && a < 16,
            (None, None) => true,
            _ => false,
        },
{
    if '0' <= c && c <= '9' {
        Some((c as u32 - '0' as u32) as u8)
    } else if 'a' <= c && c <= 'f' {
        Some((c as u32 - 'a' as u32 + 10) as u8)
    } else if 'A' <= c && c <= 'F' {
        Some((c as u32 - 'A' as u32 + 10) as u8)
    } else {
        None
    }
}

fn octet_exec(h1: char, h2: char) -> (r: Option<u8>)
    ensures
        match (r, octet_de(h1, h2)) {
            (Some(a), Some(b)) => a as nat == b,
            (None, None) => true,
            _ => false,
        },
{
    let x = hex_val(h1);
    let y = hex_val(h2);
    match (x, y) {
        (Some(a), Some(b)) => {
            assert(a < 16 && b < 16);
            assert(a * 16 + b <= 255) by (nonlinear_arith)
                requires
                    a < 16,
                    b < 16,
            ;
            let v: u8 = a * 16 + b;
            Some(v)
        },
        (None, Some(b)) => if h1 == '+' {
            Some(b)
        } else {
            None
        },
        _ => None,
    }
}

/// Décodage d'un morceau de chemin (voir `decoder_chemin`).
pub fn decoder_car(s: &[char]) -> (r: Vec<char>)
    ensures
        r@ == decoder_chemin(s@),
{
    let mut o: Vec<char> = Vec::new();
    let mut i: usize = 0;
    assert(s@.subrange(0, s@.len() as int) =~= s@);
    while i < s.len()
        invariant
            i <= s.len(),
            o@ + decoder_chemin(s@.subrange(i as int, s@.len() as int)) == decoder_chemin(s@),
        decreases s.len() - i,
    {
        let ghost t = s@.subrange(i as int, s@.len() as int);
        let c = s[i];
        if c == '%' {
            let h1 = if s.len() - i > 1 { s[i + 1] } else { '0' };
            let h2 = if s.len() - i > 2 { s[i + 2] } else { '0' };
            let suivant: usize = if s.len() - i > 2 { i + 3 } else { s.len() };
            proof {
                if t.len() > 2 {
                    assert(t.subrange(3, t.len() as int) =~= s@.subrange(suivant as int, s@.len() as int));
                } else {
                    assert(s@.subrange(suivant as int, s@.len() as int) =~= Seq::<char>::empty());
                }
            }
            match octet_exec(h1, h2) {
                Some(b) => {
                    o.push(b as char);
                },
                None => {
                    o.push('%');
                    o.push(h1);
                    o.push(h2);
                },
            }
            i = suivant;
        } else {
            assert(t.drop_first() =~= s@.subrange(i + 1, s@.len() as int));
            o.push(if c == '+' {
                ' '
            } else {
                c
            });
            i += 1;
        }
    }
    assert(s@.subrange(i as int, s@.len() as int) =~= Seq::<char>::empty());
    o
}

/// Texte inséré entre apostrophes dans le script : `\` doublé, `'` précédé
/// d'une barre oblique inverse.
pub open spec fn esc_script(s: Seq<char>) -> Seq<char>
    decreases s.len(),
{
    if s.len() == 0 {
        s
    } else {
        let r = esc_script(s.drop_last());
        if s.last() == '\\' {
            r + seq!['\\', '\\']
        } else if s.last() == '\'' {
            r + seq!['\\', '\'']
        } else {
            r.push(s.last())
        }
    }
}

/// Échappement des textes insérés entre apostrophes (voir `esc_script`).
pub fn esc(s: &str) -> (r: String)
    ensures
        r@ == esc_script(s@),
{
    let c = caracteres(s);
    let mut o: Vec<char> = Vec::new();
    let mut i: usize = 0;
    assert(c@.subrange(0, 0) =~= Seq::<char>::empty());
    while i < c.len()
        invariant
            i <= c.len(),
            o@ == esc_script(c@.subrange(0, i as int)),
        decreases c.len() - i,
    {
        assert(c@.subrange(0, i + 1).drop_last() =~= c@.subrange(0, i as int));
        if c[i] == '\\' {
            o.push('\\');
            o.push('\\');
        } else if c[i] == '\'' {
            o.push('\\');
            o.push('\'');
        } else {
            o.push(c[i]);
        }
        i += 1;
    }
    assert(c@.subrange(0, c@.len() as int) =~= c@);
    chaine_de(&o)
}

// ══════════════════════════════════════════════════════════════════
// Requêtes SQL
// ══════════════════════════════════════════════════════════════════

/// Dossier de messages consulté.
#[derive(PartialEq, Eq, Structural, Clone, Copy, Debug)]
pub enum Dossier {
    /// Messages reçus non supprimés (par défaut).
    Recus,
    /// Messages envoyés non supprimés (`sent`).
    Envoyes,
    /// Messages supprimés, envoyés ou reçus (`trash`).
    Corbeille,
}

/// Dossier désigné par le paramètre `folder`.
pub open spec fn dossier_nomme(folder: Option<Seq<char>>) -> Dossier {
    match folder {
        Some(f) => if f == "sent"@ {
            Dossier::Envoyes
        } else if f == "trash"@ {
            Dossier::Corbeille
        } else {
            Dossier::Recus
        },
        None => Dossier::Recus,
    }
}

/// Dossier du paramètre `folder` (voir `dossier_nomme`).
pub fn dossier_de(folder: Option<&str>) -> (r: Dossier)
    ensures
        r == dossier_nomme(
            match folder {
                Some(f) => Some(f@),
                None => None,
            },
        ),
{
    match folder {
        Some(f) => {
            let c = caracteres(f);
            if egale_lit(&c, "sent") {
                Dossier::Envoyes
            } else if egale_lit(&c, "trash") {
                Dossier::Corbeille
            } else {
                Dossier::Recus
            }
        },
        None => Dossier::Recus,
    }
}

/// Condition SQL des messages du dossier pour l'adresse `e` (échappée).
pub open spec fn condition_dossier(d: Dossier, e: Seq<char>) -> Seq<char> {
    match d {
        Dossier::Envoyes => "message_type='mess' AND JSON_UNQUOTE(JSON_EXTRACT(metadata,'$.from'))='"@ + e
            + "' AND status!='delivered'"@,
        Dossier::Corbeille => "message_type='mess' AND status='delivered' AND (JSON_UNQUOTE(JSON_EXTRACT(metadata,'$.from'))='"@
            + e + "' OR JSON_UNQUOTE(JSON_EXTRACT(metadata,'$.to'))='"@ + e + "')"@,
        Dossier::Recus => "message_type='mess' AND JSON_UNQUOTE(JSON_EXTRACT(metadata,'$.to'))='"@ + e
            + "' AND status!='delivered'"@,
    }
}

/// Requête des 200 derniers messages du dossier de l'adresse `email`.
pub open spec fn requete_liste(d: Dossier, email: Seq<char>) -> Seq<char> {
    "SELECT id,metadata,content,UNIX_TIMESTAMP(created_at),status FROM p2p_messages WHERE "@
        + condition_dossier(d, esc_script(email)) + " ORDER BY created_at DESC LIMIT 200"@
}

/// Requête de la liste d'un dossier (voir `requete_liste`).
pub fn sql_liste(d: Dossier, email: &str) -> (r: String)
    ensures
        r@ == requete_liste(d, email@),
{
    let e = esc(email);
    let mut o: Vec<char> = Vec::new();
    ajouter(&mut o, "SELECT id,metadata,content,UNIX_TIMESTAMP(created_at),status FROM p2p_messages WHERE ");
    match d {
        Dossier::Envoyes => {
            ajouter(&mut o, "message_type='mess' AND JSON_UNQUOTE(JSON_EXTRACT(metadata,'$.from'))='");
            ajouter(&mut o, e.as_str());
            ajouter(&mut o, "' AND status!='delivered'");
        },
        Dossier::Corbeille => {
            ajouter(&mut o, "message_type='mess' AND status='delivered' AND (JSON_UNQUOTE(JSON_EXTRACT(metadata,'$.from'))='");
            ajouter(&mut o, e.as_str());
            ajouter(&mut o, "' OR JSON_UNQUOTE(JSON_EXTRACT(metadata,'$.to'))='");
            ajouter(&mut o, e.as_str());
            ajouter(&mut o, "')");
        },
        Dossier::Recus => {
            ajouter(&mut o, "message_type='mess' AND JSON_UNQUOTE(JSON_EXTRACT(metadata,'$.to'))='");
            ajouter(&mut o, e.as_str());
            ajouter(&mut o, "' AND status!='delivered'");
        },
    }
    ajouter(&mut o, " ORDER BY created_at DESC LIMIT 200");
    chaine_de(&o)
}

/// `v.as_i64()` : un entier qui tient dans un `i64`.
pub open spec fn entier_de(v: Json) -> Option<i64> {
    match v {
        Json::Nombre(n) => Some(n),
        _ => None,
    }
}

/// Identifiant de message de la requête : `id` entier non nul.
pub open spec fn id_message(data: Json) -> Option<i64> {
    match entier_de(champ(data, "id"@)) {
        Some(n) => if n != 0 { Some(n) } else { None },
        None => None,
    }
}

/// Identifiant de message de la requête (`None` : « id manquant »).
pub fn lire_id_message(data: &Json) -> (r: Option<i64>)
    ensures
        r == id_message(*data),
{
    match valeur_de(data, "id") {
        Some(Json::Nombre(n)) => if *n != 0 { Some(*n) } else { None },
        _ => None,
    }
}

/// Requête marquant lu le message `id` reçu par `email`.
pub open spec fn requete_lecture(id: i64, email: Seq<char>) -> Seq<char> {
    "UPDATE p2p_messages SET status='read' WHERE id="@ + decimal_signe(id as int)
        + " AND message_type='mess' AND JSON_UNQUOTE(JSON_EXTRACT(metadata,'$.to'))='"@ + esc_script(email) + "'"@
}

/// Requête de lecture (voir `requete_lecture`).
pub fn sql_lecture(id: i64, email: &str) -> (r: String)
    ensures
        r@ == requete_lecture(id, email@),
{
    let mut o: Vec<char> = Vec::new();
    ajouter(&mut o, "UPDATE p2p_messages SET status='read' WHERE id=");
    ajouter_decimal_signe(&mut o, id);
    ajouter(&mut o, " AND message_type='mess' AND JSON_UNQUOTE(JSON_EXTRACT(metadata,'$.to'))='");
    ajouter(&mut o, esc(email).as_str());
    ajouter(&mut o, "'");
    chaine_de(&o)
}

/// Requête mettant à la corbeille le message `id` envoyé ou reçu par `email`.
pub open spec fn requete_suppression(id: i64, email: Seq<char>) -> Seq<char> {
    "UPDATE p2p_messages SET status='delivered' WHERE id="@ + decimal_signe(id as int)
        + " AND message_type='mess' AND (JSON_UNQUOTE(JSON_EXTRACT(metadata,'$.to'))='"@ + esc_script(email)
        + "' OR JSON_UNQUOTE(JSON_EXTRACT(metadata,'$.from'))='"@ + esc_script(email) + "')"@
}

/// Requête de suppression (voir `requete_suppression`).
pub fn sql_suppression(id: i64, email: &str) -> (r: String)
    ensures
        r@ == requete_suppression(id, email@),
{
    let e = esc(email);
    let mut o: Vec<char> = Vec::new();
    ajouter(&mut o, "UPDATE p2p_messages SET status='delivered' WHERE id=");
    ajouter_decimal_signe(&mut o, id);
    ajouter(&mut o, " AND message_type='mess' AND (JSON_UNQUOTE(JSON_EXTRACT(metadata,'$.to'))='");
    ajouter(&mut o, e.as_str());
    ajouter(&mut o, "' OR JSON_UNQUOTE(JSON_EXTRACT(metadata,'$.from'))='");
    ajouter(&mut o, e.as_str());
    ajouter(&mut o, "')");
    chaine_de(&o)
}

/// Requête des 100 premiers autres comptes, par nom.
pub open spec fn requete_utilisateurs(email: Seq<char>) -> Seq<char> {
    "SELECT nom,email FROM login WHERE email!='"@ + esc_script(email) + "' ORDER BY nom LIMIT 100"@
}

/// Requête des destinataires possibles (voir `requete_utilisateurs`).
pub fn sql_utilisateurs(email: &str) -> (r: String)
    ensures
        r@ == requete_utilisateurs(email@),
{
    let mut o: Vec<char> = Vec::new();
    ajouter(&mut o, "SELECT nom,email FROM login WHERE email!='");
    ajouter(&mut o, esc(email).as_str());
    ajouter(&mut o, "' ORDER BY nom LIMIT 100");
    chaine_de(&o)
}

/// Message à envoyer : destinataire (rogné), sujet et corps chiffrés.
pub struct Envoi {
    pub to_email: String,
    pub subj_enc: String,
    pub body_enc: String,
}

/// Message lu de la requête d'envoi, si aucun champ n'est vide
/// (« Champs manquants » sinon).
pub open spec fn envoi_demande(data: Json) -> Option<(Seq<char>, Seq<char>, Seq<char>)> {
    let to = rogner(t(data, "to_email"@));
    let s = t(data, "subj_enc"@);
    let b = t(data, "body_enc"@);
    if to.len() == 0 || s.len() == 0 || b.len() == 0 {
        None
    } else {
        Some((to, s, b))
    }
}

/// Message de la requête d'envoi (voir `envoi_demande`).
pub fn lire_envoi(data: &Json) -> (r: Option<Envoi>)
    ensures
        match r {
            Some(e) => envoi_demande(*data) == Some((e.to_email@, e.subj_enc@, e.body_enc@)),
            None => envoi_demande(*data) is None,
        },
{
    let to = rogne(&caracteres(texte_ref(data, "to_email")));
    let s = caracteres(texte_ref(data, "subj_enc"));
    let b = caracteres(texte_ref(data, "body_enc"));
    if to.len() == 0 || s.len() == 0 || b.len() == 0 {
        return None;
    }
    Some(Envoi { to_email: chaine_de(&to), subj_enc: chaine_de(&s), body_enc: chaine_de(&b) })
}

/// Métadonnées JSON d'un message, clés dans l'ordre alphabétique comme les
/// écrit `serde_json`.
pub open spec fn metadonnees(de: Seq<char>, a: Seq<char>, sujet: Seq<char>) -> Seq<char> {
    "{\"from\":"@ + json_chaine(de) + ",\"subj_enc\":"@ + json_chaine(sujet) + ",\"to\":"@ + json_chaine(a) + "}"@
}

/// Requête d'insertion du message envoyé par `de`.
pub open spec fn requete_envoi(de: Seq<char>, a: Seq<char>, sujet: Seq<char>, corps: Seq<char>) -> Seq<char> {
    "INSERT INTO p2p_messages (id,from_user_id,to_user_id,message_type,metadata,content,status) VALUES (NULL,0,0,'mess','"@
        + esc_script(metadonnees(de, a, sujet)) + "','"@ + esc_script(corps) + "','sent')"@
}

/// Requête d'envoi (voir `requete_envoi`).
pub fn sql_envoi(de: &str, e: &Envoi) -> (r: String)
    ensures
        r@ == requete_envoi(de@, e.to_email@, e.subj_enc@, e.body_enc@),
{
    let mut m: Vec<char> = Vec::new();
    ajouter(&mut m, "{\"from\":");
    ajouter(&mut m, chaine_json(de).as_str());
    ajouter(&mut m, ",\"subj_enc\":");
    ajouter(&mut m, chaine_json(e.subj_enc.as_str()).as_str());
    ajouter(&mut m, ",\"to\":");
    ajouter(&mut m, chaine_json(e.to_email.as_str()).as_str());
    ajouter(&mut m, "}");
    let meta = chaine_de(&m);
    let mut o: Vec<char> = Vec::new();
    ajouter(&mut o, "INSERT INTO p2p_messages (id,from_user_id,to_user_id,message_type,metadata,content,status) VALUES (NULL,0,0,'mess','");
    ajouter(&mut o, esc(meta.as_str()).as_str());
    ajouter(&mut o, "','");
    ajouter(&mut o, esc(e.body_enc.as_str()).as_str());
    ajouter(&mut o, "','sent')");
    chaine_de(&o)
}

} // verus!
