//! « Se connecter avec VEX » pour les services externes : validation de la
//! demande, consentement, jeton signé par la clé Ed25519 du nœud, domaines
//! déjà autorisés retenus dans un cookie signé.

use vstd::prelude::*;
use crate::crypto::{
    base64_url, base64_url_decode, decoder_base64_url, ed25519_valide, encoder_base64_url, signature_ed25519,
    signer_ed25519, verifier_ed25519,
};
use crate::json::{ajouter_h, ajouter_vec, chaine_json, h, json_chaine, Json};
use crate::texte::{
    ajouter, ajouter_decimal, ajouter_decimal_signe, avant_parmi, decimal_signe, caracteres, chaine_de, commence_lit, commence_par, encode_url,
    encoder_url, est_espace, espace, prefixe_avant, rogne, rogner, segment_apres, segment_suivant,
};
use crate::utils::{prendre, tronquer, Parametres};

verus! {

broadcast use vstd::string::group_string_axioms;

/// Durée de validité d'un jeton signé (secondes).
pub const VALIDITE_JETON: i64 = 300;
/// Durée du cookie des domaines autorisés (secondes) : 180 jours.
pub const DUREE_ACCORDS: i64 = 15552000;
/// Nombre maximal de domaines retenus.
pub const MAX_ACCORDS: usize = 20;

// ══════════════════════════════════════════════════════════════════
// Petits outils
// ══════════════════════════════════════════════════════════════════

/// Caractère refusé dans une URL de retour : espace, guillemets, chevrons,
/// dièse.
pub open spec fn interdit_retour(c: char) -> bool {
    est_espace(c) || c == '"' || c == '<' || c == '>' || c == '\'' || c == '#'
}

/// URL de retour acceptée : `http://` ou `https://`, moins de 500 octets,
/// sans caractère refusé.
pub open spec fn retour_ok(r: Seq<char>) -> bool {
    &&& (commence_par(r, "https://"@) || commence_par(r, "http://"@))
    &&& vstd::utf8::encode_utf8(r).len() < 500
    &&& forall|i: int| 0 <= i < r.len() ==> !interdit_retour(#[trigger] r[i])
}

/// L'URL de retour est-elle acceptable ?
pub fn retour_valide(r: &str) -> (b: bool)
    ensures
        b == retour_ok(r@),
{
    let c = caracteres(r);
    if !(commence_lit(&c, "https://") || commence_lit(&c, "http://")) {
        return false;
    }
    if r.as_bytes().len() >= 500 {
        return false;
    }
    let mut i: usize = 0;
    while i < c.len()
        invariant
            i <= c.len(),
            c@ == r@,
            commence_par(r@, "https://"@) || commence_par(r@, "http://"@),
            vstd::utf8::encode_utf8(r@).len() < 500,
            forall|j: int| 0 <= j < i ==> !interdit_retour(#[trigger] c@[j]),
        decreases c.len() - i,
    {
        let x = c[i];
        if espace(x) || x == '"' || x == '<' || x == '>' || x == '\'' || x == '#' {
            assert(interdit_retour(c@[i as int]));
            return false;
        }
        i += 1;
    }
    true
}

/// Domaine d'une URL : après `://` (ou tout, s'il n'y en a pas), jusqu'au
/// premier `/`.
pub open spec fn domaine_de(url: Seq<char>) -> Seq<char> {
    let apres = match segment_apres(url, "://"@) {
        Some(s) => s,
        None => url,
    };
    avant_parmi(apres, seq!['/'])
}

/// Domaine d'une URL.
pub fn domaine(url: &str) -> (r: String)
    ensures
        r@ == domaine_de(url@),
{
    let c = caracteres(url);
    let apres = match segment_suivant(&c, "://") {
        Some(s) => s,
        None => c,
    };
    let sep = ['/'];
    assert(sep@ =~= seq!['/']);
    chaine_de(&prefixe_avant(&apres, &sep))
}

/// Séparateur avant un paramètre ajouté : `&` si l'URL a déjà une requête,
/// sinon `?`.
pub open spec fn sep_de(url: Seq<char>) -> Seq<char> {
    if url.contains('?') { "&"@ } else { "?"@ }
}

/// Séparateur avant un paramètre ajouté à l'URL.
pub fn sep(url: &str) -> (r: &'static str)
    ensures
        r@ == sep_de(url@),
{
    let c = caracteres(url);
    if crate::texte::contient(&c, '?') { "&" } else { "?" }
}

/// Encodage pourcent (RFC 3986) d'un paramètre.
pub fn enc(s: &str) -> (r: String)
    ensures
        r@ == encode_url(s@),
{
    encoder_url(s)
}

/// Thème de l'utilisateur d'après sa préférence (`1` : sombre).
pub fn theme_de(teme: i64) -> (r: &'static str)
    ensures
        r@ == if teme == 1 { "dark"@ } else { "light"@ },
{
    if teme == 1 { "dark" } else { "light" }
}

// ══════════════════════════════════════════════════════════════════
// La demande
// ══════════════════════════════════════════════════════════════════

/// Valeur d'un paramètre, vide s'il est absent.
pub open spec fn param(p: Map<Seq<char>, Seq<char>>, k: Seq<char>) -> Seq<char> {
    if p.contains_key(k) { p[k] } else { Seq::empty() }
}

fn lire_param(p: &Parametres, k: &str) -> (r: Vec<char>)
    ensures
        r@ == param(p@, k@),
{
    match p.get(k) {
        Some(v) => caracteres(v.as_str()),
        None => Vec::new(),
    }
}

/// Caractère ASCII alphanumérique.
pub open spec fn alnum(c: char) -> bool {
    ('a' <= c <= 'z') || ('A' <= c <= 'Z') || ('0' <= c <= '9')
}

/// État opaque du service accepté : 1 à 128 caractères alphanumériques.
pub open spec fn etat_ok(e: Seq<char>) -> bool {
    0 < e.len() <= 128 && forall|i: int| 0 <= i < e.len() ==> alnum(#[trigger] e[i])
}

fn etat_valide(e: &[char]) -> (r: bool)
    ensures
        r == etat_ok(e@),
{
    if e.len() == 0 || e.len() > 128 {
        return false;
    }
    let mut i: usize = 0;
    while i < e.len()
        invariant
            i <= e.len(),
            forall|j: int| 0 <= j < i ==> alnum(#[trigger] e@[j]),
        decreases e.len() - i,
    {
        let c = e[i];
        if !(('a' <= c && c <= 'z') || ('A' <= c && c <= 'Z') || ('0' <= c && c <= '9')) {
            return false;
        }
        i += 1;
    }
    true
}

/// Une demande de connexion d'un service : son nom (40 caractères au
/// plus), l'URL de retour, l'état opaque.
pub struct DemandeSso {
    pub service: String,
    pub retour: String,
    pub etat: String,
}

/// Nom du service affiché : « Service externe » s'il est vide.
pub open spec fn nom_service(s: Seq<char>) -> Seq<char> {
    if rogner(s).len() == 0 { "Service externe"@ } else { s }
}

/// La demande lue des paramètres, si elle est valide.
pub open spec fn demande_de(p: Map<Seq<char>, Seq<char>>) -> Option<(Seq<char>, Seq<char>, Seq<char>)> {
    let retour = param(p, "retour"@);
    let etat = param(p, "etat"@);
    if retour_ok(retour) && etat_ok(etat) {
        Some((nom_service(prendre(param(p, "service"@), 40)), retour, etat))
    } else {
        None
    }
}

/// Lit et valide la demande ; `None` si le lien est incomplet ou mal formé.
pub fn lire_demande(p: &Parametres) -> (r: Option<DemandeSso>)
    ensures
        match r {
            Some(d) => demande_de(p@) == Some((d.service@, d.retour@, d.etat@)),
            None => demande_de(p@) is None,
        },
{
    let service = tronquer(&lire_param(p, "service"), 40);
    let retour = chaine_de(&lire_param(p, "retour"));
    let etat = lire_param(p, "etat");
    if !retour_valide(retour.as_str()) || !etat_valide(&etat) {
        return None;
    }
    let service = if rogne(&service).len() == 0 {
        caracteres("Service externe")
    } else {
        service
    };
    Some(DemandeSso { service: chaine_de(&service), retour, etat: chaine_de(&etat) })
}

/// Adresse de cette page, à recharger avec le cookie de session.
pub open spec fn adresse_ici(service: Seq<char>, retour: Seq<char>, etat: Seq<char>) -> Seq<char> {
    "/p2p/sso?service="@ + encode_url(service) + "&retour="@ + encode_url(retour) + "&etat="@ + encode_url(etat)
        + "&r=1"@
}

/// Adresse de cette page, à recharger avec le cookie de session.
pub fn ici(d: &DemandeSso) -> (r: String)
    ensures
        r@ == adresse_ici(d.service@, d.retour@, d.etat@),
{
    let mut o: Vec<char> = Vec::new();
    ajouter(&mut o, "/p2p/sso?service=");
    ajouter(&mut o, enc(d.service.as_str()).as_str());
    ajouter(&mut o, "&retour=");
    ajouter(&mut o, enc(d.retour.as_str()).as_str());
    ajouter(&mut o, "&etat=");
    ajouter(&mut o, enc(d.etat.as_str()).as_str());
    ajouter(&mut o, "&r=1");
    chaine_de(&o)
}

/// Adresse de retour en cas de refus.
pub open spec fn adresse_refus(retour: Seq<char>, etat: Seq<char>) -> Seq<char> {
    retour + sep_de(retour) + "erreur=refus&etat="@ + etat
}

/// Adresse de retour en cas de refus.
pub fn refus(retour: &str, etat: &str) -> (r: String)
    ensures
        r@ == adresse_refus(retour@, etat@),
{
    let mut o: Vec<char> = Vec::new();
    ajouter(&mut o, retour);
    ajouter(&mut o, sep(retour));
    ajouter(&mut o, "erreur=refus&etat=");
    ajouter(&mut o, etat);
    chaine_de(&o)
}

/// Domaines autorisés après un nouvel accord : le domaine en tête, sans
/// doublon, vingt au plus.
pub open spec fn accords_apres(l: Seq<Seq<char>>, d: Seq<char>) -> Seq<Seq<char>> {
    prendre(seq![d] + l.filter(|x: Seq<char>| x != d), MAX_ACCORDS as nat)
}

/// Retient le domaine `d` en tête de la liste des domaines autorisés.
pub fn retenir_accord(l: &[String], d: &str) -> (r: Vec<String>)
    ensures
        r@.map_values(|s: String| s@) == accords_apres(l@.map_values(|s: String| s@), d@),
{
    let ghost vl = l@.map_values(|s: String| s@);
    let dc = caracteres(d);
    let mut r: Vec<String> = Vec::new();
    r.push(chaine_de(&dc));
    let mut i: usize = 0;
    proof {
        reveal(Seq::filter);
    }
    assert(vl.subrange(0, 0).filter(|x: Seq<char>| x != d@) =~= Seq::<Seq<char>>::empty());
    while i < l.len()
        invariant
            i <= l.len(),
            vl == l@.map_values(|s: String| s@),
            dc@ == d@,
            r@.map_values(|s: String| s@) =~= seq![d@] + vl.subrange(0, i as int).filter(|x: Seq<char>| x != d@),
        decreases l.len() - i,
    {
        let ghost avant = vl.subrange(0, i as int);
        assert(vl.subrange(0, i + 1) =~= avant.push(vl[i as int]));
        proof {
            reveal(Seq::filter);
            assert(vl.subrange(0, i + 1).drop_last() =~= avant);
        }
        let c = caracteres(l[i].as_str());
        if !crate::texte::egales(&c, &dc) {
            let ghost a = r@.map_values(|s: String| s@);
            r.push(chaine_de(&c));
            assert(r@.map_values(|s: String| s@) =~= a.push(vl[i as int]));
        }
        i += 1;
    }
    assert(vl.subrange(0, l.len() as int) =~= vl);
    if r.len() > MAX_ACCORDS {
        r.truncate(MAX_ACCORDS);
    }
    r
}

// ══════════════════════════════════════════════════════════════════
// Jeton signé
// ══════════════════════════════════════════════════════════════════

/// Écriture JSON d'un booléen.
pub open spec fn json_booleen(b: bool) -> Seq<char> {
    if b { "true"@ } else { "false"@ }
}

/// Texte JSON de la charge d'un jeton, tel que l'écrit `serde_json` : objet
/// `{v: 1, node_id, user_id, nom, sombre, retour, etat, iat, exp}`, clés
/// dans l'ordre alphabétique (table triée de `serde_json`), sans espaces.
pub open spec fn json_jeton(
    node_id: Seq<char>,
    user_id: i64,
    nom: Seq<char>,
    sombre: bool,
    retour: Seq<char>,
    etat: Seq<char>,
    iat: i64,
    exp: i64,
) -> Seq<char> {
    "{\"etat\":"@ + json_chaine(etat) + ",\"exp\":"@ + decimal_signe(exp as int) + ",\"iat\":"@
        + decimal_signe(iat as int) + ",\"node_id\":"@ + json_chaine(node_id) + ",\"nom\":"@ + json_chaine(nom)
        + ",\"retour\":"@ + json_chaine(retour) + ",\"sombre\":"@ + json_booleen(sombre) + ",\"user_id\":"@
        + decimal_signe(user_id as int) + ",\"v\":1}"@
}

/// Charge JSON d'un jeton (voir `json_jeton`).
fn charge_jeton(node_id: &str, user_id: i64, nom: &str, sombre: bool, retour: &str, etat: &str, iat: i64, exp: i64) -> (r: String)
    ensures
        r@ == json_jeton(node_id@, user_id, nom@, sombre, retour@, etat@, iat, exp),
{
    let mut o: Vec<char> = Vec::new();
    ajouter(&mut o, "{\"etat\":");
    ajouter(&mut o, chaine_json(etat).as_str());
    ajouter(&mut o, ",\"exp\":");
    ajouter_decimal_signe(&mut o, exp);
    ajouter(&mut o, ",\"iat\":");
    ajouter_decimal_signe(&mut o, iat);
    ajouter(&mut o, ",\"node_id\":");
    ajouter(&mut o, chaine_json(node_id).as_str());
    ajouter(&mut o, ",\"nom\":");
    ajouter(&mut o, chaine_json(nom).as_str());
    ajouter(&mut o, ",\"retour\":");
    ajouter(&mut o, chaine_json(retour).as_str());
    ajouter(&mut o, ",\"sombre\":");
    ajouter(&mut o, if sombre { "true" } else { "false" });
    ajouter(&mut o, ",\"user_id\":");
    ajouter_decimal_signe(&mut o, user_id);
    ajouter(&mut o, ",\"v\":1}");
    chaine_de(&o)
}

/// Jeton d'identité : charge JSON encodée en base64 URL.
pub open spec fn jeton_de(node_id: Seq<char>, user_id: i64, nom: Seq<char>, sombre: bool, retour: Seq<char>, etat: Seq<char>, maintenant: i64) -> Seq<char> {
    base64_url(
        vstd::utf8::encode_utf8(
            json_jeton(node_id, user_id, nom, sombre, retour, etat, maintenant, (maintenant + VALIDITE_JETON) as i64),
        ),
    )
}

/// Adresse de retour du service avec l'identité signée :
/// `retour?etat=…&jeton=…&sig=…`, la signature Ed25519 portant sur le texte
/// du jeton.
pub open spec fn destination(cle: Seq<u8>, node_id: Seq<char>, user_id: i64, nom: Seq<char>, sombre: bool, retour: Seq<char>, etat: Seq<char>, maintenant: i64) -> Seq<char> {
    let jeton = jeton_de(node_id, user_id, nom, sombre, retour, etat, maintenant);
    retour + sep_de(retour) + "etat="@ + etat + "&jeton="@ + jeton + "&sig="@ + base64_url(
        signature_ed25519(cle, vstd::utf8::encode_utf8(jeton)),
    )
}

/// Signe l'identité de l'utilisateur (jeton valable 300 s) et renvoie
/// l'URL de retour du service.
pub fn emettre(
    cle: &[u8; 32],
    node_id: &str,
    user_id: i64,
    nom: &str,
    sombre: bool,
    retour: &str,
    etat: &str,
    maintenant: i64,
) -> (r: String)
    requires
        maintenant <= i64::MAX - VALIDITE_JETON,
    ensures
        r@ == destination(cle@, node_id@, user_id, nom@, sombre, retour@, etat@, maintenant),
{
    let charge = charge_jeton(node_id, user_id, nom, sombre, retour, etat, maintenant, maintenant + VALIDITE_JETON);
    let jeton = encoder_base64_url(charge.as_str().as_bytes());
    let sig = encoder_base64_url(&signer_ed25519(cle, jeton.as_str().as_bytes()));
    let mut o: Vec<char> = Vec::new();
    ajouter(&mut o, retour);
    ajouter(&mut o, sep(retour));
    ajouter(&mut o, "etat=");
    ajouter(&mut o, etat);
    ajouter(&mut o, "&jeton=");
    ajouter(&mut o, jeton.as_str());
    ajouter(&mut o, "&sig=");
    ajouter(&mut o, sig.as_str());
    chaine_de(&o)
}

// ══════════════════════════════════════════════════════════════════
// Cookie des domaines autorisés
// ══════════════════════════════════════════════════════════════════

/// Éléments JSON (chaînes) séparés par des virgules.
pub open spec fn liste_json(d: Seq<Seq<char>>) -> Seq<char>
    decreases d.len(),
{
    if d.len() == 0 {
        Seq::empty()
    } else if d.len() == 1 {
        json_chaine(d[0])
    } else {
        liste_json(d.drop_last()) + ","@ + json_chaine(d.last())
    }
}

/// Texte JSON `{"d":[domaines],"u":user_id}` tel que l'écrit `serde_json`
/// (clés triées, sans espaces).
pub open spec fn json_accords(user_id: i64, domaines: Seq<Seq<char>>) -> Seq<char> {
    "{\"d\":["@ + liste_json(domaines) + "],\"u\":"@ + decimal_signe(user_id as int) + "}"@
}

/// Charge JSON du cookie des domaines autorisés (voir `json_accords`).
fn charge_accords(user_id: i64, domaines: &[String]) -> (r: String)
    ensures
        r@ == json_accords(user_id, domaines@.map_values(|s: String| s@)),
{
    let ghost d = domaines@.map_values(|s: String| s@);
    let mut o: Vec<char> = Vec::new();
    ajouter(&mut o, "{\"d\":[");
    let ghost debut = o@;
    let mut i: usize = 0;
    while i < domaines.len()
        invariant
            i <= domaines.len(),
            d == domaines@.map_values(|s: String| s@),
            o@ == debut + liste_json(d.subrange(0, i as int)),
        decreases domaines.len() - i,
    {
        assert(d.subrange(0, i + 1).drop_last() =~= d.subrange(0, i as int));
        assert(d[i as int] == domaines@[i as int]@);
        if i > 0 {
            ajouter(&mut o, ",");
        }
        ajouter(&mut o, chaine_json(domaines[i].as_str()).as_str());
        proof {
            reveal_strlit(",");
            if i == 0 {
                assert(liste_json(d.subrange(0, 1)) == json_chaine(d.subrange(0, 1)[0]));
                assert(liste_json(d.subrange(0, 0)) =~= Seq::<char>::empty());
            }
        }
        assert(o@ =~= debut + liste_json(d.subrange(0, i + 1)));
        i += 1;
    }
    assert(d.subrange(0, domaines.len() as int) =~= d);
    ajouter(&mut o, "],\"u\":");
    ajouter_decimal_signe(&mut o, user_id);
    ajouter(&mut o, "}");
    chaine_de(&o)
}

/// Cookie `vex_sso_ok` : charge base64 URL, point, signature de la charge ;
/// lié au compte, limité à `/p2p/sso`, 180 jours.
pub open spec fn cookie_de(cle: Seq<u8>, user_id: i64, domaines: Seq<Seq<char>>) -> Seq<char> {
    let charge = base64_url(vstd::utf8::encode_utf8(json_accords(user_id, domaines)));
    "vex_sso_ok="@ + charge + "."@ + base64_url(signature_ed25519(cle, vstd::utf8::encode_utf8(charge)))
        + "; Path=/p2p/sso; Max-Age=15552000; HttpOnly; SameSite=Lax"@
}

/// Cookie signé des domaines autorisés par le compte.
pub fn cookie_accords(cle: &[u8; 32], user_id: i64, domaines: &[String]) -> (r: String)
    ensures
        r@ == cookie_de(cle@, user_id, domaines@.map_values(|s: String| s@)),
{
    let json = charge_accords(user_id, domaines);
    let charge = encoder_base64_url(json.as_str().as_bytes());
    let sig = encoder_base64_url(&signer_ed25519(cle, charge.as_str().as_bytes()));
    let mut o: Vec<char> = Vec::new();
    ajouter(&mut o, "vex_sso_ok=");
    ajouter(&mut o, charge.as_str());
    ajouter(&mut o, ".");
    ajouter(&mut o, sig.as_str());
    ajouter(&mut o, "; Path=/p2p/sso; Max-Age=15552000; HttpOnly; SameSite=Lax");
    chaine_de(&o)
}

/// Octets de la charge d'un cookie d'accords dont la signature est valide
/// pour la clé publique : `charge.signature`, toutes deux en base64 URL.
pub open spec fn charge_verifiee(brut: Seq<char>, cle_publique: Seq<u8>) -> Option<Seq<u8>> {
    let i = crate::texte::premier(brut, '.');
    if i < 0 {
        None
    } else {
        let charge = brut.subrange(0, i);
        let sig = brut.subrange(i + 1, brut.len() as int);
        match base64_url_decode(sig) {
            None => None,
            Some(s) => if !ed25519_valide(cle_publique, vstd::utf8::encode_utf8(charge), s) {
                None
            } else {
                base64_url_decode(charge)
            },
        }
    }
}

/// Vérifie la signature du cookie d'accords et rend les octets de sa
/// charge (JSON) ; `None` s'il est absent, altéré ou mal formé.
pub fn charge_accords_verifiee(brut: &str, cle_publique: &[u8; 32]) -> (r: Option<Vec<u8>>)
    ensures
        match r {
            Some(v) => charge_verifiee(brut@, cle_publique@) == Some(v@),
            None => charge_verifiee(brut@, cle_publique@) is None,
        },
{
    let c = caracteres(brut);
    let i = match crate::texte::trouver(&c, '.') {
        Some(i) => i,
        None => return None,
    };
    proof {
        crate::texte::lemme_premier(c@, '.');
    }
    let charge = chaine_de(&crate::texte::tranche(&c, 0, i));
    let sig = chaine_de(&crate::texte::tranche(&c, i + 1, c.len()));
    let s = match decoder_base64_url(sig.as_str()) {
        Some(s) => s,
        None => return None,
    };
    if !verifier_ed25519(cle_publique, charge.as_str().as_bytes(), &s) {
        return None;
    }
    decoder_base64_url(charge.as_str())
}

/// Domaines d'une charge d'accords lue : ceux de la liste `d`, en textes,
/// si `u` est bien le compte ; aucun sinon.
pub open spec fn domaines_de(v: Json, user_id: i64) -> Seq<Seq<char>> {
    if crate::json::champ(v, "u"@) == Json::Nombre(user_id) {
        textes(crate::json::elements(v, "d"@))
    } else {
        Seq::empty()
    }
}

/// Les textes d'une suite de valeurs, dans l'ordre.
pub open spec fn textes(s: Seq<Json>) -> Seq<Seq<char>>
    decreases s.len(),
{
    if s.len() == 0 {
        Seq::empty()
    } else {
        match s.last() {
            Json::Texte(x) => textes(s.drop_last()).push(x@),
            _ => textes(s.drop_last()),
        }
    }
}

/// Domaines déjà autorisés par le compte, d'après la charge lue du cookie
/// (autre compte : aucun).
pub fn domaines_accords(v: &Json, user_id: i64) -> (r: Vec<String>)
    ensures
        r@.map_values(|s: String| s@) == domaines_de(*v, user_id),
{
    let mut r: Vec<String> = Vec::new();
    match crate::json::valeur_de(v, "u") {
        Some(Json::Nombre(u)) => {
            if *u != user_id {
                return r;
            }
        },
        _ => return r,
    }
    let l = crate::json::elements_de(v, "d");
    let mut i: usize = 0;
    assert(l@.subrange(0, 0) =~= Seq::<Json>::empty());
    while i < l.len()
        invariant
            i <= l.len(),
            r@.map_values(|s: String| s@) =~= textes(l@.subrange(0, i as int)),
        decreases l.len() - i,
    {
        assert(l@.subrange(0, i + 1).drop_last() =~= l@.subrange(0, i as int));
        match &l[i] {
            Json::Texte(x) => {
                let ghost a = r@.map_values(|s: String| s@);
                r.push(chaine_de(&caracteres(x.as_str())));
                assert(r@.map_values(|s: String| s@) =~= a.push(x@));
            },
            _ => {},
        }
        i += 1;
    }
    assert(l@.subrange(0, l@.len() as int) =~= l@);
    r
}

// ══════════════════════════════════════════════════════════════════
// Déroulement
// ══════════════════════════════════════════════════════════════════

/// Ce que le serveur doit faire d'une requête SSO.
pub enum ActionSso {
    /// `/p2p/sso/etat` : répondre `{"connecte": …}`.
    Etat { connecte: bool },
    /// Lien incomplet ou mal formé.
    Invalide,
    /// Première arrivée depuis le service : page qui se recharge vers `ici`
    /// (le cookie de session est alors envoyé).
    Recharger { ici: String },
    /// Pas connecté : inviter à se connecter, puis continuer seul.
    AttendreConnexion { service: String },
    /// Demander le consentement.
    Accord { demande: DemandeSso, domaine: String, refus: String },
    /// Émettre le jeton et rediriger ; retenir `accords` dans le cookie s'il
    /// y en a.
    Emettre { demande: DemandeSso, accords: Option<Vec<String>> },
    /// Session expirée pendant le consentement.
    SessionExpiree,
    /// Refus : rediriger vers le service avec `erreur=refus`.
    Refuser { adresse: String },
}

/// Vue d'une action : chaque texte par ses caractères.
pub enum VueSso {
    Etat(bool),
    Invalide,
    Recharger(Seq<char>),
    AttendreConnexion(Seq<char>),
    Accord((Seq<char>, Seq<char>, Seq<char>), Seq<char>, Seq<char>),
    Emettre((Seq<char>, Seq<char>, Seq<char>), Option<Seq<Seq<char>>>),
    SessionExpiree,
    Refuser(Seq<char>),
}

/// Vue d'une demande.
pub open spec fn vue_demande(d: DemandeSso) -> (Seq<char>, Seq<char>, Seq<char>) {
    (d.service@, d.retour@, d.etat@)
}

/// Vue d'une action.
pub open spec fn vue_action(a: ActionSso) -> VueSso {
    match a {
        ActionSso::Etat { connecte } => VueSso::Etat(connecte),
        ActionSso::Invalide => VueSso::Invalide,
        ActionSso::Recharger { ici } => VueSso::Recharger(ici@),
        ActionSso::AttendreConnexion { service } => VueSso::AttendreConnexion(service@),
        ActionSso::Accord { demande, domaine, refus } => VueSso::Accord(vue_demande(demande), domaine@, refus@),
        ActionSso::Emettre { demande, accords } => VueSso::Emettre(
            vue_demande(demande),
            match accords {
                Some(l) => Some(l@.map_values(|s: String| s@)),
                None => None,
            },
        ),
        ActionSso::SessionExpiree => VueSso::SessionExpiree,
        ActionSso::Refuser { adresse } => VueSso::Refuser(adresse@),
    }
}

/// Décision pour une requête : chemin, méthode, paramètres de la requête
/// et du corps (formulaire, lu pour un POST seulement), session ouverte,
/// domaines déjà autorisés par le compte.
pub open spec fn decision_sso(
    path: Seq<char>,
    method: Seq<char>,
    query: Map<Seq<char>, Seq<char>>,
    corps: Map<Seq<char>, Seq<char>>,
    connecte: bool,
    accords: Seq<Seq<char>>,
) -> VueSso {
    let params = if method == "POST"@ { corps } else { query };
    if path == "/p2p/sso/etat"@ {
        VueSso::Etat(connecte)
    } else {
        match demande_de(params) {
            None => VueSso::Invalide,
            Some(d) => {
                let (service, retour, etat) = d;
                if method == "GET"@ {
                    if !(query.contains_key("r"@) && query["r"@] == "1"@) {
                        VueSso::Recharger(adresse_ici(service, retour, etat))
                    } else if !connecte {
                        VueSso::AttendreConnexion(service)
                    } else if accords.contains(domaine_de(retour)) {
                        VueSso::Emettre(d, None)
                    } else {
                        VueSso::Accord(d, domaine_de(retour), adresse_refus(retour, etat))
                    }
                } else if !connecte {
                    VueSso::SessionExpiree
                } else if !(corps.contains_key("decision"@) && corps["decision"@] == "ok"@) {
                    VueSso::Refuser(adresse_refus(retour, etat))
                } else if corps.contains_key("retenir"@) && corps["retenir"@] == "1"@ {
                    VueSso::Emettre(d, Some(accords_apres(accords, domaine_de(retour))))
                } else {
                    VueSso::Emettre(d, None)
                }
            },
        }
    }
}

fn param_vaut(p: &Parametres, k: &str, v: &str) -> (r: bool)
    ensures
        r == (p@.contains_key(k@) && p@[k@] == v@),
{
    match p.get(k) {
        Some(x) => {
            let c = caracteres(x.as_str());
            crate::texte::egale_lit(&c, v)
        },
        None => false,
    }
}

fn contient_chaine(l: &[String], s: &str) -> (r: bool)
    ensures
        r == l@.map_values(|x: String| x@).contains(s@),
{
    let sc = caracteres(s);
    let ghost vl = l@.map_values(|x: String| x@);
    let mut i: usize = 0;
    while i < l.len()
        invariant
            i <= l.len(),
            sc@ == s@,
            vl == l@.map_values(|x: String| x@),
            forall|j: int| 0 <= j < i ==> vl[j] != s@,
        decreases l.len() - i,
    {
        let c = caracteres(l[i].as_str());
        if crate::texte::egales(&c, &sc) {
            assert(vl[i as int] == s@);
            return true;
        }
        i += 1;
    }
    false
}

/// Décide de la suite d'une requête SSO (voir `decision_sso`). Pour une
/// méthode autre que POST, `corps` est vide.
pub fn traiter(path: &str, method: &str, query: &Parametres, corps: &Parametres, connecte: bool, accords: &[String]) -> (r: ActionSso)
    ensures
        vue_action(r) == decision_sso(path@, method@, query@, corps@, connecte, accords@.map_values(|s: String| s@)),
{
    let pc = caracteres(path);
    if crate::texte::egale_lit(&pc, "/p2p/sso/etat") {
        return ActionSso::Etat { connecte };
    }
    let mc = caracteres(method);
    let post = crate::texte::egale_lit(&mc, "POST");
    let params = if post { corps } else { query };
    let d = match lire_demande(params) {
        Some(d) => d,
        None => return ActionSso::Invalide,
    };
    if crate::texte::egale_lit(&mc, "GET") {
        if !param_vaut(query, "r", "1") {
            let a = ici(&d);
            return ActionSso::Recharger { ici: a };
        }
        if !connecte {
            return ActionSso::AttendreConnexion { service: d.service };
        }
        let dom = domaine(d.retour.as_str());
        if contient_chaine(accords, dom.as_str()) {
            return ActionSso::Emettre { demande: d, accords: None };
        }
        let rf = refus(d.retour.as_str(), d.etat.as_str());
        return ActionSso::Accord { demande: d, domaine: dom, refus: rf };
    }
    if !connecte {
        return ActionSso::SessionExpiree;
    }
    if !param_vaut(corps, "decision", "ok") {
        let rf = refus(d.retour.as_str(), d.etat.as_str());
        return ActionSso::Refuser { adresse: rf };
    }
    if param_vaut(corps, "retenir", "1") {
        let dom = domaine(d.retour.as_str());
        let l = retenir_accord(accords, dom.as_str());
        return ActionSso::Emettre { demande: d, accords: Some(l) };
    }
    ActionSso::Emettre { demande: d, accords: None }
}


/// Une demande GET confirmée (`r=1`) d'une session ouverte donne le jeton
/// sans page d'accord exactement quand le domaine de l'adresse de retour
/// (entre `://` et le premier `/`) est parmi ceux que le compte a déjà
/// autorisés ; sinon la page d'accord est montrée pour ce domaine. La clé
/// cherchée est le domaine, jamais l'adresse de retour entière.
pub proof fn loi_domaine_deja_autorise(
    path: Seq<char>,
    query: Map<Seq<char>, Seq<char>>,
    corps: Map<Seq<char>, Seq<char>>,
    accords: Seq<Seq<char>>,
)
    requires
        path != "/p2p/sso/etat"@,
        query.contains_key("r"@) && query["r"@] == "1"@,
        demande_de(query) is Some,
    ensures
        accords.contains(domaine_de(param(query, "retour"@))) ==> decision_sso(
            path,
            "GET"@,
            query,
            corps,
            true,
            accords,
        ) == VueSso::Emettre(demande_de(query)->0, None),
        !accords.contains(domaine_de(param(query, "retour"@))) ==> (decision_sso(
            path,
            "GET"@,
            query,
            corps,
            true,
            accords,
        ) matches VueSso::Accord(d, dom, _) && d == demande_de(query)->0 && dom == domaine_de(
            param(query, "retour"@),
        )),
{
    reveal_strlit("GET");
    reveal_strlit("POST");
    assert("GET"@.len() == 3 && "POST"@.len() == 4);
    assert("GET"@ != "POST"@);
}


/// Aucun jeton sans session ouverte, et seulement sur l'un des deux
/// chemins prévus : une demande GET confirmée dont le domaine de retour
/// est déjà autorisé (sans retenir de domaine), ou un accord explicite
/// (`decision=ok`). Quand le domaine est retenu, il vient en tête de la
/// nouvelle liste des domaines autorisés.
pub proof fn loi_jeton_sur_session(
    path: Seq<char>,
    method: Seq<char>,
    query: Map<Seq<char>, Seq<char>>,
    corps: Map<Seq<char>, Seq<char>>,
    connecte: bool,
    accords: Seq<Seq<char>>,
)
    ensures
        match decision_sso(path, method, query, corps, connecte, accords) {
            VueSso::Emettre(d, acc) => {
                &&& connecte
                &&& method == "GET"@ ==> accords.contains(domaine_de(d.1)) && acc is None
                &&& method != "GET"@ ==> corps.contains_key("decision"@) && corps["decision"@] == "ok"@
                &&& (acc matches Some(l) ==> l.len() > 0 && l[0] == domaine_de(d.1))
            },
            _ => true,
        },
        !connecte ==> !(decision_sso(path, method, query, corps, connecte, accords) is Emettre),
{
}

/// Un refus explicite (toute décision autre que `ok` d'une session
/// ouverte) renvoie à l'adresse de retour avec `erreur=refus` et l'état de
/// la demande, sans jeton.
pub proof fn loi_refus_explicite(
    path: Seq<char>,
    method: Seq<char>,
    query: Map<Seq<char>, Seq<char>>,
    corps: Map<Seq<char>, Seq<char>>,
    accords: Seq<Seq<char>>,
)
    requires
        path != "/p2p/sso/etat"@,
        method == "POST"@,
        demande_de(corps) is Some,
        !(corps.contains_key("decision"@) && corps["decision"@] == "ok"@),
    ensures
        decision_sso(path, method, query, corps, true, accords) == VueSso::Refuser(
            adresse_refus(param(corps, "retour"@), param(corps, "etat"@)),
        ),
{
    reveal_strlit("GET");
    reveal_strlit("POST");
    assert("GET"@.len() == 3 && "POST"@.len() == 4);
    assert("GET"@ != "POST"@);
}

} // verus!
