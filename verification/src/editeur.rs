//! Éditeur de sites : aiguillage des requêtes et gabarit de l'éditeur.

use vstd::prelude::*;
use crate::compte::{remplacer_premier, traduire};
use crate::p2p::{retirer_barres_fin, sans_barres_fin};
use crate::crypto::{base64_standard, decoder_base64_standard};
use crate::json::{champ, t, texte_ref, valeur_de, Json};
use crate::sitec::{partage_add, partage_ajoute, partage_remove, partage_retire};
use crate::sitec_nettoyage::{blocs_nets, sanitiser_blocs, vue_blocs, BlocNet};
use crate::texte::{
    ajouter, caracteres, chaine_de, commence_par, decouper, egale_lit, egales, en_minuscules, minuscules, remplace,
    remplacer, rogne, rogner, tranche,
};

verus! {

broadcast use vstd::string::group_string_axioms;

/// Routes de l'API de l'éditeur (authentification requise).
#[derive(PartialEq, Eq, Structural, Clone, Copy, Debug)]
pub enum ApiSitec {
    Navbar,
    Liste,
    Lire,
    Creer,
    PagesDuSite,
    Reordonner,
    QuitterSite,
    Enregistrer,
    Supprimer,
    Partager,
    Utilisateurs,
    EnvoyerMedia,
    MesImages,
    ImporterFichier,
    Vignette,
    Inconnue,
}

/// Aiguillage d'une requête de l'éditeur.
pub enum RouteSitec {
    /// Rendu public de la page d'identifiant donné.
    Page(String),
    /// L'éditeur lui-même.
    Editeur,
    Api(ApiSitec),
}

/// Vue d'un aiguillage : genre, identifiant de page, route d'API.
pub open spec fn vue_route(r: RouteSitec) -> (int, Seq<char>, ApiSitec) {
    match r {
        RouteSitec::Page(id) => (0, id@, ApiSitec::Inconnue),
        RouteSitec::Editeur => (1, Seq::empty(), ApiSitec::Inconnue),
        RouteSitec::Api(a) => (2, Seq::empty(), a),
    }
}

/// Route d'API désignée par le chemin.
pub open spec fn api_de(c: Seq<char>) -> ApiSitec {
    if c == "/api/sitec/navbar"@ {
        ApiSitec::Navbar
    } else if c == "/api/sitec/list"@ {
        ApiSitec::Liste
    } else if c == "/api/sitec/get"@ {
        ApiSitec::Lire
    } else if c == "/api/sitec/create"@ {
        ApiSitec::Creer
    } else if c == "/api/sitec/site_pages"@ {
        ApiSitec::PagesDuSite
    } else if c == "/api/sitec/site_reorder"@ {
        ApiSitec::Reordonner
    } else if c == "/api/sitec/site_leave"@ {
        ApiSitec::QuitterSite
    } else if c == "/api/sitec/save"@ {
        ApiSitec::Enregistrer
    } else if c == "/api/sitec/delete"@ {
        ApiSitec::Supprimer
    } else if c == "/api/sitec/share"@ {
        ApiSitec::Partager
    } else if c == "/api/sitec/users"@ {
        ApiSitec::Utilisateurs
    } else if c == "/api/sitec/media_upload"@ {
        ApiSitec::EnvoyerMedia
    } else if c == "/api/sitec/mes_images"@ {
        ApiSitec::MesImages
    } else if c == "/api/sitec/import_fichier"@ {
        ApiSitec::ImporterFichier
    } else if c == "/api/sitec/fichier_thumb"@ {
        ApiSitec::Vignette
    } else {
        ApiSitec::Inconnue
    }
}

/// Aiguillage d'après le chemin (avant le premier `?`) : `/page/ID` (sans
/// ses `/` finaux), l'éditeur `/sitec` ou `/sitec/`, sinon l'API.
pub open spec fn route_sitec(url: Seq<char>) -> (int, Seq<char>, ApiSitec) {
    let c = decouper(url, '?')[0];
    if commence_par(c, "/page/"@) {
        (0, sans_barres_fin(c.subrange(6, c.len() as int)), ApiSitec::Inconnue)
    } else if c == "/sitec"@ || c == "/sitec/"@ {
        (1, Seq::empty(), ApiSitec::Inconnue)
    } else {
        (2, Seq::empty(), api_de(c))
    }
}

fn api_exec(c: &[char]) -> (r: ApiSitec)
    ensures
        r == api_de(c@),
{
    if egale_lit(c, "/api/sitec/navbar") {
        ApiSitec::Navbar
    } else if egale_lit(c, "/api/sitec/list") {
        ApiSitec::Liste
    } else if egale_lit(c, "/api/sitec/get") {
        ApiSitec::Lire
    } else if egale_lit(c, "/api/sitec/create") {
        ApiSitec::Creer
    } else if egale_lit(c, "/api/sitec/site_pages") {
        ApiSitec::PagesDuSite
    } else if egale_lit(c, "/api/sitec/site_reorder") {
        ApiSitec::Reordonner
    } else if egale_lit(c, "/api/sitec/site_leave") {
        ApiSitec::QuitterSite
    } else if egale_lit(c, "/api/sitec/save") {
        ApiSitec::Enregistrer
    } else if egale_lit(c, "/api/sitec/delete") {
        ApiSitec::Supprimer
    } else if egale_lit(c, "/api/sitec/share") {
        ApiSitec::Partager
    } else if egale_lit(c, "/api/sitec/users") {
        ApiSitec::Utilisateurs
    } else if egale_lit(c, "/api/sitec/media_upload") {
        ApiSitec::EnvoyerMedia
    } else if egale_lit(c, "/api/sitec/mes_images") {
        ApiSitec::MesImages
    } else if egale_lit(c, "/api/sitec/import_fichier") {
        ApiSitec::ImporterFichier
    } else if egale_lit(c, "/api/sitec/fichier_thumb") {
        ApiSitec::Vignette
    } else {
        ApiSitec::Inconnue
    }
}

/// Aiguillage d'une requête de l'éditeur (voir `route_sitec`).
pub fn router_sitec(url: &str) -> (r: RouteSitec)
    ensures
        vue_route(r) == route_sitec(url@),
{
    let u = caracteres(url);
    let morceaux = crate::texte::decoupe(&u, '?');
    proof {
        crate::texte::lemme_decouper_non_vide(u@, '?');
        assert(crate::texte::vues(morceaux@).len() == morceaux@.len());
        assert(crate::texte::vues(morceaux@)[0] == morceaux@[0]@);
        reveal_strlit("/page/");
    }
    let c = &morceaux[0];
    if crate::texte::commence_lit(c, "/page/") {
        let id = retirer_barres_fin(&tranche(c, 6, c.len()));
        RouteSitec::Page(chaine_de(&id))
    } else if egale_lit(c, "/sitec") || egale_lit(c, "/sitec/") {
        RouteSitec::Editeur
    } else {
        RouteSitec::Api(api_exec(c))
    }
}

/// Gabarit de l'éditeur : la langue à la place de `lang="fr"`, les
/// traductions appliquées, puis l'objet des textes du script à la place de
/// la première marque `{{I18N_JS}}`.
pub open spec fn page_editeur(html: Seq<char>, langue: Seq<char>, t: Seq<(String, String)>, i18n_js: Seq<char>) -> Seq<
    char,
> {
    remplacer_premier(
        traduire(remplacer(html, "lang=\"fr\""@, "lang=\""@ + langue + "\""@), t),
        "{{I18N_JS}}"@,
        i18n_js,
    )
}

/// Remplit le gabarit de l'éditeur (voir `page_editeur`).
pub fn remplir_page_editeur(html: &str, langue: &str, t: &[(String, String)], i18n_js: &str) -> (r: String)
    ensures
        r@ == page_editeur(html@, langue@, t@, i18n_js@),
{
    proof {
        reveal_strlit("lang=\"fr\"");
        reveal_strlit("{{I18N_JS}}");
    }
    let mut l: Vec<char> = Vec::new();
    ajouter(&mut l, "lang=\"");
    ajouter(&mut l, langue);
    ajouter(&mut l, "\"");
    let ls = chaine_de(&l);
    let mut s = remplace(html, "lang=\"fr\"", ls.as_str());
    let ghost base = s@;
    let mut i: usize = 0;
    assert(t@.subrange(0, 0) =~= Seq::<(String, String)>::empty());
    while i < t.len()
        invariant
            i <= t.len(),
            s@ == traduire(base, t@.subrange(0, i as int)),
        decreases t.len() - i,
    {
        assert(t@.subrange(0, i + 1).drop_last() =~= t@.subrange(0, i as int));
        s = remplace(s.as_str(), t[i].0.as_str(), t[i].1.as_str());
        i += 1;
    }
    assert(t@.subrange(0, t@.len() as int) =~= t@);
    crate::compte::remplacer_une_fois(s.as_str(), "{{I18N_JS}}", i18n_js)
}

// ══════════════════════════════════════════════════════════════════
// Actions de l'API
// ══════════════════════════════════════════════════════════════════

/// Un compte peut modifier une page s'il en est le propriétaire ou si son
/// privilège vaut au plus 6 (administration).
pub open spec fn modification_permise(owner_id: i64, user_id: i64, privilege: i64) -> bool {
    owner_id == user_id || privilege <= 6
}

/// Le compte peut-il modifier la page ? (voir `modification_permise`)
pub fn peut_modifier(owner_id: i64, user_id: i64, privilege: i64) -> (r: bool)
    ensures
        r == modification_permise(owner_id, user_id, privilege),
{
    !(owner_id != user_id && privilege > 6)
}

/// Mode d'édition d'une page.
#[derive(PartialEq, Eq, Structural, Clone, Copy, Debug)]
pub enum ModePage {
    Simple,
    Brut,
    Blocs,
}

/// Mode demandé : `brut` ou `blocs`, `simple` pour toute autre valeur.
pub open spec fn mode_demande(data: Json) -> ModePage {
    match champ(data, "mode"@) {
        Json::Texte(m) => if m@ == "brut"@ {
            ModePage::Brut
        } else if m@ == "blocs"@ {
            ModePage::Blocs
        } else {
            ModePage::Simple
        },
        _ => ModePage::Simple,
    }
}

impl ModePage {
    /// Nom du mode tel qu'il est enregistré.
    pub fn nom(&self) -> (r: &'static str)
        ensures
            r@ == match *self {
                ModePage::Simple => "simple"@,
                ModePage::Brut => "brut"@,
                ModePage::Blocs => "blocs"@,
            },
    {
        match self {
            ModePage::Simple => "simple",
            ModePage::Brut => "brut",
            ModePage::Blocs => "blocs",
        }
    }
}

/// Contenu d'une page à enregistrer, lu de la requête de l'éditeur.
pub struct PageEnregistree {
    pub titre: String,
    pub mode: ModePage,
    pub contenu_html: String,
    pub contenu_titre: String,
    pub contenu_corps: String,
    /// Blocs nettoyés (voir `sanitiser_blocs`).
    pub contenu_blocs: Vec<BlocNet>,
    /// 1 si la page est publique, sinon 0.
    pub public: i64,
}

/// Titre demandé, ou `sans_titre` s'il n'est pas une chaîne.
pub open spec fn titre_demande(data: Json, sans_titre: Seq<char>) -> Seq<char> {
    match champ(data, "titre"@) {
        Json::Texte(s) => s@,
        _ => sans_titre,
    }
}

/// Contenu d'une page lu de la requête d'enregistrement : titre (ou le
/// titre par défaut traduit), mode, contenus texte (vides s'ils manquent),
/// blocs nettoyés, page publique si `public` vaut `true`.
pub fn lire_enregistrement(data: &Json, sans_titre: &str) -> (r: PageEnregistree)
    ensures
        r.titre@ == titre_demande(*data, sans_titre@),
        r.mode == mode_demande(*data),
        r.contenu_html@ == t(*data, "contenu_html"@),
        r.contenu_titre@ == t(*data, "contenu_titre"@),
        r.contenu_corps@ == t(*data, "contenu_corps"@),
        vue_blocs(r.contenu_blocs@) == blocs_nets(champ(*data, "contenu_blocs"@)),
        r.public == (if champ(*data, "public"@) == Json::Booleen(true) { 1i64 } else { 0i64 }),
{
    let titre = match valeur_de(data, "titre") {
        Some(Json::Texte(s)) => chaine_de(&caracteres(s.as_str())),
        _ => chaine_de(&caracteres(sans_titre)),
    };
    let mode = match valeur_de(data, "mode") {
        Some(Json::Texte(m)) => {
            let c = caracteres(m.as_str());
            if egale_lit(&c, "brut") {
                ModePage::Brut
            } else if egale_lit(&c, "blocs") {
                ModePage::Blocs
            } else {
                ModePage::Simple
            }
        },
        _ => ModePage::Simple,
    };
    let blocs = match valeur_de(data, "contenu_blocs") {
        Some(v) => sanitiser_blocs(v),
        None => sanitiser_blocs(&Json::Nul),
    };
    let public = match valeur_de(data, "public") {
        Some(Json::Booleen(true)) => 1i64,
        _ => 0i64,
    };
    PageEnregistree {
        titre,
        mode,
        contenu_html: chaine_de(&caracteres(texte_ref(data, "contenu_html"))),
        contenu_titre: chaine_de(&caracteres(texte_ref(data, "contenu_titre"))),
        contenu_corps: chaine_de(&caracteres(texte_ref(data, "contenu_corps"))),
        contenu_blocs: blocs,
        public,
    }
}

/// Site et rang dans le menu d'une page créée : le site demandé (rogné)
/// s'il n'est pas vide et qu'une page du compte y figure déjà, après la
/// dernière ; sinon un site neuf dont la page est seule, au rang 0.
pub open spec fn placement(id: Seq<char>, site_demande: Seq<char>, dernier_rang: Option<i64>) -> (Seq<char>, int) {
    match dernier_rang {
        Some(o) => if rogner(site_demande).len() > 0 { (rogner(site_demande), o + 1) } else { (id, 0) },
        None => (id, 0),
    }
}

/// Placement d'une page créée (voir `placement`). `dernier_rang` est le
/// rang de la dernière page du compte dans le site demandé, s'il y en a une
/// (0 quand la ligne n'a pas de rang).
pub fn placement_nouvelle_page(id: &str, site_demande: &str, dernier_rang: Option<i64>) -> (r: (String, i64))
    requires
        dernier_rang matches Some(o) ==> o < i64::MAX,
    ensures
        (r.0@, r.1 as int) == placement(id@, site_demande@, dernier_rang),
{
    let site = rogne(&caracteres(site_demande));
    match dernier_rang {
        Some(o) => if site.len() > 0 {
            (chaine_de(&site), o + 1)
        } else {
            (chaine_de(&caracteres(id)), 0)
        },
        None => (chaine_de(&caracteres(id)), 0),
    }
}

/// Demande de partage : ajout, sauf si l'action vaut `remove`.
#[derive(PartialEq, Eq, Structural, Clone, Copy, Debug)]
pub enum ActionPartage {
    Ajouter,
    Retirer,
}

/// Action de partage demandée (`add` par défaut).
pub open spec fn action_demandee(data: Json) -> ActionPartage {
    match champ(data, "action"@) {
        Json::Texte(a) => if a@ == "remove"@ { ActionPartage::Retirer } else { ActionPartage::Ajouter },
        _ => ActionPartage::Ajouter,
    }
}

/// Action de partage de la requête (voir `action_demandee`).
pub fn lire_action_partage(data: &Json) -> (r: ActionPartage)
    ensures
        r == action_demandee(*data),
{
    match valeur_de(data, "action") {
        Some(Json::Texte(a)) => if egale_lit(&caracteres(a.as_str()), "remove") {
            ActionPartage::Retirer
        } else {
            ActionPartage::Ajouter
        },
        _ => ActionPartage::Ajouter,
    }
}

/// Liste de partage après l'action pour l'utilisateur `uid`.
pub fn appliquer_partage(action: ActionPartage, partage: &str, uid: i64) -> (r: String)
    ensures
        r@ == match action {
            ActionPartage::Ajouter => partage_ajoute(partage@, uid),
            ActionPartage::Retirer => partage_retire(partage@, uid),
        },
{
    match action {
        ActionPartage::Ajouter => partage_add(partage, uid),
        ActionPartage::Retirer => partage_remove(partage, uid),
    }
}

/// Refus d'un média envoyé à l'éditeur.
#[derive(PartialEq, Eq, Structural, Clone, Copy, Debug)]
pub enum RefusMedia {
    /// Type MIME non accepté.
    TypeInvalide,
    /// Contenu qui n'est pas du base64 standard.
    Illisible,
    /// Fichier vide ou de plus de `MAX_MEDIA_BYTES` octets.
    TropGros,
}

/// Taille maximale d'un média, en octets (5 Mo).
pub const MAX_MEDIA_BYTES: usize = 5242880;

/// Extension d'un type MIME d'image accepté (déjà en minuscules).
pub open spec fn extension_media(mime: Seq<char>) -> Option<Seq<char>> {
    if mime == "image/jpeg"@ || mime == "image/jpg"@ {
        Some("jpg"@)
    } else if mime == "image/png"@ {
        Some("png"@)
    } else if mime == "image/gif"@ {
        Some("gif"@)
    } else if mime == "image/webp"@ {
        Some("webp"@)
    } else {
        None
    }
}

/// Média accepté : type MIME (en minuscules ASCII) d'image connu, contenu
/// base64 standard décodé, non vide et d'au plus 5 Mo ; ses octets et
/// l'extension du fichier à écrire.
pub open spec fn media_accepte(mime: Seq<char>, b64: Seq<char>) -> Result<(Seq<u8>, Seq<char>), RefusMedia> {
    match extension_media(minuscules(mime)) {
        None => Err(RefusMedia::TypeInvalide),
        Some(ext) => match base64_standard(b64) {
            None => Err(RefusMedia::Illisible),
            Some(b) => if b.len() == 0 || b.len() > MAX_MEDIA_BYTES {
                Err(RefusMedia::TropGros)
            } else {
                Ok((b, ext))
            },
        },
    }
}

fn extension_exec(m: &[char]) -> (r: Option<&'static str>)
    ensures
        match r {
            Some(e) => extension_media(m@) == Some(e@),
            None => extension_media(m@) is None,
        },
{
    if egale_lit(m, "image/jpeg") || egale_lit(m, "image/jpg") {
        Some("jpg")
    } else if egale_lit(m, "image/png") {
        Some("png")
    } else if egale_lit(m, "image/gif") {
        Some("gif")
    } else if egale_lit(m, "image/webp") {
        Some("webp")
    } else {
        None
    }
}

/// Contrôle d'un média (voir `media_accepte`).
pub fn controler_media(mime_type: &str, file_b64: &str) -> (r: Result<(Vec<u8>, &'static str), RefusMedia>)
    ensures
        match r {
            Ok((b, e)) => media_accepte(mime_type@, file_b64@) == Ok::<(Seq<u8>, Seq<char>), RefusMedia>((b@, e@)),
            Err(x) => media_accepte(mime_type@, file_b64@) == Err::<(Seq<u8>, Seq<char>), RefusMedia>(x),
        },
{
    let m = en_minuscules(&caracteres(mime_type));
    let ext = match extension_exec(&m) {
        Some(e) => e,
        None => return Err(RefusMedia::TypeInvalide),
    };
    let b = match decoder_base64_standard(file_b64) {
        Some(b) => b,
        None => return Err(RefusMedia::Illisible),
    };
    if b.len() == 0 || b.len() > MAX_MEDIA_BYTES {
        return Err(RefusMedia::TropGros);
    }
    Ok((b, ext))
}

/// Page lue en base pour réordonner un site : propriétaire et site.
pub struct PageSite {
    pub owner_id: i64,
    pub site_id: String,
}

/// Même propriétaire et même site.
pub open spec fn meme_site(a: PageSite, b: PageSite) -> bool {
    a.owner_id == b.owner_id && a.site_id@ == b.site_id@
}

/// Rangs à écrire pour réordonner un site, et refus : `pages[i]` est la
/// page du i-ème identifiant demandé (`None` si introuvable : ignorée). Les
/// pages trouvées reçoivent leur position comme rang, dans l'ordre, jusqu'à
/// la première qui n'est pas du propriétaire et du site de `premiere` : là,
/// la demande est refusée (les rangs déjà écrits restent).
pub open spec fn rangs_site(premiere: PageSite, pages: Seq<Option<PageSite>>) -> (Seq<int>, bool)
    decreases pages.len(),
{
    if pages.len() == 0 {
        (Seq::empty(), false)
    } else {
        let (r, refus) = rangs_site(premiere, pages.drop_last());
        if refus {
            (r, true)
        } else {
            match pages.last() {
                None => (r, false),
                Some(p) => if meme_site(p, premiere) { (r.push(pages.len() - 1), false) } else { (r, true) },
            }
        }
    }
}

/// Rangs à écrire et refus d'un réordonnancement (voir `rangs_site`).
pub fn reordonner_site(premiere: &PageSite, pages: &[Option<PageSite>]) -> (r: (Vec<usize>, bool))
    ensures
        (r.0@.map_values(|i: usize| i as int), r.1) == rangs_site(*premiere, pages@),
{
    let mut rangs: Vec<usize> = Vec::new();
    let mut i: usize = 0;
    let p = caracteres(premiere.site_id.as_str());
    while i < pages.len()
        invariant
            i <= pages.len(),
            p@ == premiere.site_id@,
            (rangs@.map_values(|k: usize| k as int), false) == rangs_site(*premiere, pages@.subrange(0, i as int)),
        decreases pages.len() - i,
    {
        let ghost avant = rangs@;
        assert(pages@.subrange(0, i + 1).drop_last() =~= pages@.subrange(0, i as int));
        match &pages[i] {
            None => {},
            Some(x) => {
                if x.owner_id != premiere.owner_id || !egales(&caracteres(x.site_id.as_str()), &p) {
                    assert(rangs_site(*premiere, pages@.subrange(0, i + 1)).1);
                    proof {
                        lemme_refus_stable(*premiere, pages@, i as int + 1);
                    }
                    assert(pages@.subrange(0, pages@.len() as int) =~= pages@);
                    return (rangs, true);
                }
                rangs.push(i);
                assert(rangs@.map_values(|k: usize| k as int) =~= avant.map_values(|k: usize| k as int).push(i as int));
            },
        }
        i += 1;
    }
    assert(pages@.subrange(0, pages@.len() as int) =~= pages@);
    (rangs, false)
}

/// Une fois refusé, le réordonnancement reste refusé avec les mêmes rangs.
proof fn lemme_refus_stable(premiere: PageSite, pages: Seq<Option<PageSite>>, k: int)
    requires
        0 <= k <= pages.len(),
        rangs_site(premiere, pages.subrange(0, k)).1,
    ensures
        rangs_site(premiere, pages) == rangs_site(premiere, pages.subrange(0, k)),
    decreases pages.len() - k,
{
    if k < pages.len() {
        assert(pages.subrange(0, k + 1).drop_last() =~= pages.subrange(0, k));
        lemme_refus_stable(premiere, pages, k + 1);
    } else {
        assert(pages.subrange(0, k) =~= pages);
    }
}

} // verus!
