//! Autorisation d'un appareil (flux « device code ») : un appareil obtient
//! un code, l'utilisateur connecté l'approuve, l'appareil relève une seule
//! fois son jeton ; l'utilisateur peut révoquer ses appareils.

use vstd::prelude::*;
use crate::temps::{instant_de, instant_iso_de, lire_date_heure, lire_date_heure_iso};
use crate::texte::{
    ajouter, ajouter_car, caracteres, chaine_de, decouper, echappe, echapper_html, egale_lit, encode_url, encoder_url,
    remplace, remplacer, Echappement,
};

verus! {

broadcast use vstd::string::group_string_axioms;

/// Durée de validité d'un code non approuvé, en secondes.
pub const EXPIRATION_SECONDES: i64 = 600;

/// Longueur d'un code de demande.
pub const LONGUEUR_CODE: usize = 10;

/// Longueur d'un jeton d'appareil.
pub const LONGUEUR_JETON: usize = 48;

// ══════════════════════════════════════════════════════════════════
// Routes
// ══════════════════════════════════════════════════════════════════

/// Les routes du flux d'autorisation.
#[derive(PartialEq, Eq, Structural, Clone, Copy, Debug)]
pub enum RouteAppareil {
    Demander,
    Page,
    Approuver,
    Statut,
    Liste,
    Revoquer,
    /// Téléchargement (`GET` ou `HEAD`).
    Telecharger,
    Installation,
    Inconnue,
}

/// Route d'une requête d'après sa méthode et son chemin.
pub open spec fn route_appareil(m: Seq<char>, c: Seq<char>) -> RouteAppareil {
    if m == "POST"@ && c == "/api/appareil/demander"@ {
        RouteAppareil::Demander
    } else if m == "GET"@ && c == "/autoriser-appareil"@ {
        RouteAppareil::Page
    } else if m == "POST"@ && c == "/api/appareil/approuver"@ {
        RouteAppareil::Approuver
    } else if m == "GET"@ && c == "/api/appareil/statut"@ {
        RouteAppareil::Statut
    } else if m == "GET"@ && c == "/api/appareil/liste"@ {
        RouteAppareil::Liste
    } else if m == "POST"@ && c == "/api/appareil/revoquer"@ {
        RouteAppareil::Revoquer
    } else if (m == "GET"@ || m == "HEAD"@) && c == "/api/appareil/telecharger"@ {
        RouteAppareil::Telecharger
    } else if m == "GET"@ && c == "/install.ps1"@ {
        RouteAppareil::Installation
    } else {
        RouteAppareil::Inconnue
    }
}

/// Route d'une requête (voir `route_appareil`) ; le chemin est pris avant
/// le premier `?` de l'URL.
pub fn router_appareil(methode: &str, url: &str) -> (r: RouteAppareil)
    ensures
        r == route_appareil(methode@, decouper(url@, '?')[0]),
{
    let u = caracteres(url);
    let morceaux = crate::texte::decoupe(&u, '?');
    proof {
        crate::texte::lemme_decouper_non_vide(u@, '?');
        assert(crate::texte::vues(morceaux@).len() == morceaux@.len());
        assert(crate::texte::vues(morceaux@)[0] == morceaux@[0]@);
    }
    let c = &morceaux[0];
    let m = caracteres(methode);
    let get = egale_lit(&m, "GET");
    let post = egale_lit(&m, "POST");
    if post && egale_lit(c, "/api/appareil/demander") {
        RouteAppareil::Demander
    } else if get && egale_lit(c, "/autoriser-appareil") {
        RouteAppareil::Page
    } else if post && egale_lit(c, "/api/appareil/approuver") {
        RouteAppareil::Approuver
    } else if get && egale_lit(c, "/api/appareil/statut") {
        RouteAppareil::Statut
    } else if get && egale_lit(c, "/api/appareil/liste") {
        RouteAppareil::Liste
    } else if post && egale_lit(c, "/api/appareil/revoquer") {
        RouteAppareil::Revoquer
    } else if (get || egale_lit(&m, "HEAD")) && egale_lit(c, "/api/appareil/telecharger") {
        RouteAppareil::Telecharger
    } else if get && egale_lit(c, "/install.ps1") {
        RouteAppareil::Installation
    } else {
        RouteAppareil::Inconnue
    }
}

// ══════════════════════════════════════════════════════════════════
// Demandes enregistrées
// ══════════════════════════════════════════════════════════════════

/// Une demande d'appareil telle qu'enregistrée (champs absents possibles).
pub struct LigneAppareil {
    pub statut: Option<String>,
    pub jeton_brut: Option<String>,
    pub user_id: Option<i64>,
    pub nom_appareil: Option<String>,
    pub created_at: Option<String>,
}

/// Statut de la demande : le texte, vide s'il manque.
pub open spec fn statut_de(l: LigneAppareil) -> Seq<char> {
    match l.statut {
        Some(s) => s@,
        None => Seq::empty(),
    }
}

/// Instant de création, lu au format `T` puis au format à espace.
pub open spec fn creation(l: LigneAppareil) -> Option<i64> {
    match l.created_at {
        Some(c) => match instant_iso_de(c@) {
            Some(t) => Some(t),
            None => instant_de(c@),
        },
        None => None,
    }
}

/// Le code a expiré : date de création absente ou illisible, ou plus de dix
/// minutes écoulées à l'instant `maintenant` (secondes Unix).
pub open spec fn expire(l: LigneAppareil, maintenant: i64) -> bool {
    match creation(l) {
        Some(t) => maintenant - t > EXPIRATION_SECONDES,
        None => true,
    }
}

fn statut_egal(l: &LigneAppareil, s: &str) -> (r: bool)
    ensures
        r == (l.statut is Some && statut_de(*l) == s@),
{
    match &l.statut {
        Some(x) => egale_lit(&caracteres(x.as_str()), s),
        None => false,
    }
}

/// Le code a-t-il expiré (voir `expire`) ?
pub fn code_expire(l: &LigneAppareil, maintenant: i64) -> (r: bool)
    ensures
        r == expire(*l, maintenant),
{
    let t = match &l.created_at {
        Some(c) => match lire_date_heure_iso(c.as_str()) {
            Some(t) => Some(t),
            None => lire_date_heure(c.as_str()),
        },
        None => None,
    };
    match t {
        Some(t) => maintenant as i128 - t as i128 > EXPIRATION_SECONDES as i128,
        None => true,
    }
}

// ══════════════════════════════════════════════════════════════════
// Page d'autorisation
// ══════════════════════════════════════════════════════════════════

/// Ce que montre la page d'autorisation.
#[derive(PartialEq, Eq, Structural, Clone, Copy, Debug)]
pub enum EtatPage {
    CodeInvalide,
    CodeExpire,
    DejaTraite,
    /// La demande attend la décision de l'utilisateur.
    AAutoriser,
}

/// État de la page pour la demande trouvée (ou non).
pub open spec fn etat_page(l: Option<LigneAppareil>, maintenant: i64) -> EtatPage {
    match l {
        None => EtatPage::CodeInvalide,
        Some(x) => if expire(x, maintenant) {
            EtatPage::CodeExpire
        } else if !(x.statut is Some && statut_de(x) == "en_attente"@) {
            EtatPage::DejaTraite
        } else {
            EtatPage::AAutoriser
        },
    }
}

/// État de la page d'autorisation (voir `etat_page`).
pub fn etat_page_autorisation(l: Option<&LigneAppareil>, maintenant: i64) -> (r: EtatPage)
    ensures
        r == etat_page(
            match l {
                Some(x) => Some(*x),
                None => None,
            },
            maintenant,
        ),
{
    match l {
        None => EtatPage::CodeInvalide,
        Some(x) => if code_expire(x, maintenant) {
            EtatPage::CodeExpire
        } else if !statut_egal(x, "en_attente") {
            EtatPage::DejaTraite
        } else {
            EtatPage::AAutoriser
        },
    }
}

/// Adresse de connexion qui ramène à la page d'autorisation du code.
pub open spec fn redirection_connexion(code: Seq<char>) -> Seq<char> {
    "/login/login?retour="@ + encode_url("/autoriser-appareil?code="@ + code)
}

/// Adresse de connexion pour un visiteur non connecté (voir
/// `redirection_connexion`).
pub fn retour_connexion(code: &str) -> (r: String)
    ensures
        r@ == redirection_connexion(code@),
{
    let mut retour: Vec<char> = Vec::new();
    ajouter(&mut retour, "/autoriser-appareil?code=");
    ajouter(&mut retour, code);
    let r = chaine_de(&retour);
    let mut o: Vec<char> = Vec::new();
    ajouter(&mut o, "/login/login?retour=");
    ajouter(&mut o, encoder_url(r.as_str()).as_str());
    chaine_de(&o)
}

// ══════════════════════════════════════════════════════════════════
// Page d'autorisation
// ══════════════════════════════════════════════════════════════════

/// Textes traduits de la page d'autorisation, dans la langue du visiteur.
pub struct TextesAutorisation {
    pub titre_page: String,
    pub code_invalide_titre: String,
    pub code_invalide_texte: String,
    pub code_expire_titre: String,
    pub code_expire_texte: String,
    pub deja_traite_titre: String,
    pub deja_traite_texte: String,
    pub autoriser_titre: String,
    /// Demande d'accès, où `{nom}` désigne l'appareil.
    pub demande_acces: String,
    pub code_affiche_label: String,
    pub verifie_correspond: String,
    pub avertissement: String,
    pub bouton_autoriser: String,
    pub bouton_refuser: String,
    pub resultat_autorise: String,
    pub resultat_refuse: String,
    pub erreur_generique: String,
}

/// Nom affiché de l'appareil : le nom enregistré, ou « Appareil inconnu ».
pub open spec fn nom_affiche(l: LigneAppareil) -> Seq<char> {
    match l.nom_appareil {
        Some(n) => n@,
        None => "Appareil inconnu"@,
    }
}

/// La demande d'accès où chaque `{nom}` devient le nom, échappé, en gras.
pub open spec fn demande_nommee(demande: Seq<char>, nom: Seq<char>) -> Seq<char> {
    remplacer(demande, "{nom}"@, "<strong>"@ + echappe(Echappement::Html, nom) + "</strong>"@)
}

/// Texte placé entre apostrophes dans le script : `'` devient `\'`.
pub open spec fn pour_js(s: Seq<char>) -> Seq<char> {
    remplacer(s, "'"@, "\\'"@)
}

/// Corps de la carte quand la demande attend la décision de l'utilisateur.
pub open spec fn corps_a_autoriser(t: TextesAutorisation, nom: Seq<char>, code: Seq<char>) -> Seq<char> {
    "<p>"@
        + demande_nommee(t.demande_acces@, nom)
        + "</p><p style=\"background:var(--surface2);border:1px solid var(--border);border-radius:8px;padding:10px 14px;font-size:.8rem;color:var(--text-dim)\">"@
        + t.code_affiche_label@
        + " <strong style=\"color:var(--text);letter-spacing:1px\">"@
        + echappe(Echappement::Html, code)
        + "</strong> — "@
        + t.verifie_correspond@
        + "</p><p style=\"color:var(--orange);font-size:.8rem\">⚠ "@
        + t.avertissement@
        + "</p><div style=\"display:flex;gap:10px;margin-top:20px\"><button onclick=\"repondre('oui')\" style=\"flex:1;padding:12px;background:var(--accent);color:#fff;border:none;border-radius:8px;font-weight:700;cursor:pointer\">"@
        + t.bouton_autoriser@
        + "</button><button onclick=\"repondre('non')\" style=\"flex:1;padding:12px;background:var(--surface2);color:var(--text);border:1px solid var(--border);border-radius:8px;font-weight:700;cursor:pointer\">"@
        + t.bouton_refuser@
        + "</button></div><p id=\"resultat\" style=\"margin-top:16px;font-size:.85rem;color:var(--text)\"></p>"@
}

/// Titre et corps de la carte selon l'état de la demande.
pub open spec fn carte_autorisation(t: TextesAutorisation, etat: EtatPage, nom: Seq<char>, code: Seq<char>) -> (Seq<char>, Seq<char>) {
    match etat {
        EtatPage::CodeInvalide => (t.code_invalide_titre@, t.code_invalide_texte@),
        EtatPage::CodeExpire => (t.code_expire_titre@, t.code_expire_texte@),
        EtatPage::DejaTraite => (t.deja_traite_titre@, t.deja_traite_texte@),
        EtatPage::AAutoriser => (t.autoriser_titre@, corps_a_autoriser(t, nom, code)),
    }
}

/// Page HTML complète autour du titre et du corps de la carte.
pub open spec fn page_autorisation_html(
    langue: Seq<char>,
    theme: Seq<char>,
    t: TextesAutorisation,
    titre: Seq<char>,
    corps: Seq<char>,
    code: Seq<char>,
) -> Seq<char> {
    "<!DOCTYPE html><html lang=\""@
        + langue
        + "\" data-theme=\""@
        + theme
        + "\"><head><meta charset=\"UTF-8\">\n<title>"@
        + t.titre_page@
        + "</title>\n<link rel=\"stylesheet\" href=\"/static/css/theme.css\">\n<style>\nbody { font-family:-apple-system,sans-serif; background:var(--bg); color:var(--text); display:flex;\n       justify-content:center; padding:60px 16px; margin:0; }\n.carte { max-width:440px; background:var(--panel); border:1px solid var(--panel-border); border-radius:14px; padding:28px; }\nh1 { font-size:1.1rem; margin:0 0 14px; }\np { font-size:.9rem; line-height:1.6; color:var(--text-dim); }\n</style></head><body>\n<div class=\"carte\"><h1>"@
        + titre
        + "</h1>"@
        + corps
        + "</div>\n<script>\nfunction repondre(decision) {\n  fetch('/api/appareil/approuver', {\n    method:'POST', headers:{'Content-Type':'application/x-www-form-urlencoded'}, credentials:'include',\n    body:'code="@
        + encode_url(code)
        + "&decision=' + decision,\n  }).then(r => r.json()).then(d => {\n    document.getElementById('resultat').textContent = d.success\n      ? (decision === 'oui' ? '"@
        + pour_js(t.resultat_autorise@)
        + "' : '"@
        + pour_js(t.resultat_refuse@)
        + "')\n      : (d.error || '"@
        + pour_js(t.erreur_generique@)
        + "');\n  });\n}\n</script>\n</body></html>"@
}

/// Page d'autorisation d'un appareil pour l'utilisateur connecté : la
/// demande trouvée pour `code` (ou non) décide de la carte affichée.
pub open spec fn page_autorisation_spec(
    ligne: Option<LigneAppareil>,
    maintenant: i64,
    code: Seq<char>,
    langue: Seq<char>,
    theme: Seq<char>,
    t: TextesAutorisation,
) -> Seq<char> {
    let nom = match ligne {
        Some(l) => nom_affiche(l),
        None => "Appareil inconnu"@,
    };
    let (titre, corps) = carte_autorisation(t, etat_page(ligne, maintenant), nom, code);
    page_autorisation_html(langue, theme, t, titre, corps, code)
}

fn corps_autorisation(t: &TextesAutorisation, nom: &str, code: &str) -> (r: Vec<char>)
    ensures
        r@ == corps_a_autoriser(*t, nom@, code@),
{
    let mut n: Vec<char> = Vec::new();
    ajouter(&mut n, "<strong>");
    ajouter(&mut n, echapper_html(nom).as_str());
    ajouter(&mut n, "</strong>");
    let nc = chaine_de(&n);
    proof {
        reveal_strlit("{nom}");
    }
    let demande = remplace(t.demande_acces.as_str(), "{nom}", nc.as_str());
    let mut o: Vec<char> = Vec::new();
        ajouter(&mut o, "<p>");
        ajouter(&mut o, demande.as_str());
        ajouter(&mut o, "</p><p style=\"background:var(--surface2);border:1px solid var(--border);border-radius:8px;padding:10px 14px;font-size:.8rem;color:var(--text-dim)\">");
        ajouter(&mut o, t.code_affiche_label.as_str());
        ajouter(&mut o, " <strong style=\"color:var(--text);letter-spacing:1px\">");
        ajouter(&mut o, echapper_html(code).as_str());
        ajouter(&mut o, "</strong> — ");
        ajouter(&mut o, t.verifie_correspond.as_str());
        ajouter(&mut o, "</p><p style=\"color:var(--orange);font-size:.8rem\">⚠ ");
        ajouter(&mut o, t.avertissement.as_str());
        ajouter(&mut o, "</p><div style=\"display:flex;gap:10px;margin-top:20px\"><button onclick=\"repondre('oui')\" style=\"flex:1;padding:12px;background:var(--accent);color:#fff;border:none;border-radius:8px;font-weight:700;cursor:pointer\">");
        ajouter(&mut o, t.bouton_autoriser.as_str());
        ajouter(&mut o, "</button><button onclick=\"repondre('non')\" style=\"flex:1;padding:12px;background:var(--surface2);color:var(--text);border:1px solid var(--border);border-radius:8px;font-weight:700;cursor:pointer\">");
        ajouter(&mut o, t.bouton_refuser.as_str());
        ajouter(&mut o, "</button></div><p id=\"resultat\" style=\"margin-top:16px;font-size:.85rem;color:var(--text)\"></p>");
    o
}

/// Page d'autorisation d'un appareil (voir `page_autorisation_spec`).
pub fn page_autorisation(
    ligne: Option<&LigneAppareil>,
    maintenant: i64,
    code: &str,
    langue: &str,
    theme: &str,
    t: &TextesAutorisation,
) -> (r: String)
    ensures
        r@ == page_autorisation_spec(
            match ligne {
                Some(x) => Some(*x),
                None => None,
            },
            maintenant,
            code@,
            langue@,
            theme@,
            *t,
        ),
{
    let etat = etat_page_autorisation(ligne, maintenant);
    let nom: &str = match ligne {
        Some(l) => match &l.nom_appareil {
            Some(n) => n.as_str(),
            None => "Appareil inconnu",
        },
        None => "Appareil inconnu",
    };
    let (titre, corps): (Vec<char>, Vec<char>) = match etat {
        EtatPage::CodeInvalide => (caracteres(t.code_invalide_titre.as_str()), caracteres(t.code_invalide_texte.as_str())),
        EtatPage::CodeExpire => (caracteres(t.code_expire_titre.as_str()), caracteres(t.code_expire_texte.as_str())),
        EtatPage::DejaTraite => (caracteres(t.deja_traite_titre.as_str()), caracteres(t.deja_traite_texte.as_str())),
        EtatPage::AAutoriser => (caracteres(t.autoriser_titre.as_str()), corps_autorisation(t, nom, code)),
    };
    proof {
        reveal_strlit("'");
    }
    let mut o: Vec<char> = Vec::new();
        ajouter(&mut o, "<!DOCTYPE html><html lang=\"");
        ajouter(&mut o, langue);
        ajouter(&mut o, "\" data-theme=\"");
        ajouter(&mut o, theme);
        ajouter(&mut o, "\"><head><meta charset=\"UTF-8\">\n<title>");
        ajouter(&mut o, t.titre_page.as_str());
        ajouter(&mut o, "</title>\n<link rel=\"stylesheet\" href=\"/static/css/theme.css\">\n<style>\nbody { font-family:-apple-system,sans-serif; background:var(--bg); color:var(--text); display:flex;\n       justify-content:center; padding:60px 16px; margin:0; }\n.carte { max-width:440px; background:var(--panel); border:1px solid var(--panel-border); border-radius:14px; padding:28px; }\nh1 { font-size:1.1rem; margin:0 0 14px; }\np { font-size:.9rem; line-height:1.6; color:var(--text-dim); }\n</style></head><body>\n<div class=\"carte\"><h1>");
        ajouter_car(&mut o, &titre);
        ajouter(&mut o, "</h1>");
        ajouter_car(&mut o, &corps);
        ajouter(&mut o, "</div>\n<script>\nfunction repondre(decision) {\n  fetch('/api/appareil/approuver', {\n    method:'POST', headers:{'Content-Type':'application/x-www-form-urlencoded'}, credentials:'include',\n    body:'code=");
        ajouter(&mut o, encoder_url(code).as_str());
        ajouter(&mut o, "&decision=' + decision,\n  }).then(r => r.json()).then(d => {\n    document.getElementById('resultat').textContent = d.success\n      ? (decision === 'oui' ? '");
        ajouter(&mut o, remplace(t.resultat_autorise.as_str(), "'", "\\'").as_str());
        ajouter(&mut o, "' : '");
        ajouter(&mut o, remplace(t.resultat_refuse.as_str(), "'", "\\'").as_str());
        ajouter(&mut o, "')\n      : (d.error || '");
        ajouter(&mut o, remplace(t.erreur_generique.as_str(), "'", "\\'").as_str());
        ajouter(&mut o, "');\n  });\n}\n</script>\n</body></html>");
    chaine_de(&o)
}


// ══════════════════════════════════════════════════════════════════
// Approbation
// ══════════════════════════════════════════════════════════════════

/// Refus d'une décision sur une demande.
#[derive(PartialEq, Eq, Structural, Clone, Copy, Debug)]
pub enum RefusApprobation {
    /// Code inconnu (404).
    Introuvable,
    /// Code expiré (410).
    Expire,
    /// Demande déjà traitée (409).
    DejaTraite,
}

impl RefusApprobation {
    /// Code HTTP du refus.
    pub fn statut_http(&self) -> (r: u16)
        ensures
            r == match *self {
                RefusApprobation::Introuvable => 404u16,
                RefusApprobation::Expire => 410u16,
                RefusApprobation::DejaTraite => 409u16,
            },
    {
        match self {
            RefusApprobation::Introuvable => 404,
            RefusApprobation::Expire => 410,
            RefusApprobation::DejaTraite => 409,
        }
    }
}

/// Une décision peut-elle être prise sur la demande ?
pub open spec fn approbation(l: Option<LigneAppareil>, maintenant: i64) -> Result<(), RefusApprobation> {
    match l {
        None => Err(RefusApprobation::Introuvable),
        Some(x) => if expire(x, maintenant) {
            Err(RefusApprobation::Expire)
        } else if !(x.statut is Some && statut_de(x) == "en_attente"@) {
            Err(RefusApprobation::DejaTraite)
        } else {
            Ok(())
        },
    }
}

/// Contrôle d'une décision (voir `approbation`).
pub fn controler_approbation(l: Option<&LigneAppareil>, maintenant: i64) -> (r: Result<(), RefusApprobation>)
    ensures
        r == approbation(
            match l {
                Some(x) => Some(*x),
                None => None,
            },
            maintenant,
        ),
{
    match l {
        None => Err(RefusApprobation::Introuvable),
        Some(x) => if code_expire(x, maintenant) {
            Err(RefusApprobation::Expire)
        } else if !statut_egal(x, "en_attente") {
            Err(RefusApprobation::DejaTraite)
        } else {
            Ok(())
        },
    }
}

/// Demande approuvée : statut `approuve`, jeton brut en attente de relève,
/// utilisateur propriétaire.
pub fn approuver(l: LigneAppareil, user_id: i64, jeton: String) -> (r: LigneAppareil)
    ensures
        statut_de(r) == "approuve"@,
        r.statut is Some,
        r.jeton_brut == Some(jeton),
        r.user_id == Some(user_id),
        r.nom_appareil == l.nom_appareil,
        r.created_at == l.created_at,
{
    LigneAppareil {
        statut: Some(chaine_de(&caracteres("approuve"))),
        jeton_brut: Some(jeton),
        user_id: Some(user_id),
        nom_appareil: l.nom_appareil,
        created_at: l.created_at,
    }
}

/// Demande refusée : statut `refuse`, le reste inchangé.
pub fn refuser(l: LigneAppareil) -> (r: LigneAppareil)
    ensures
        statut_de(r) == "refuse"@,
        r.statut is Some,
        r.jeton_brut == l.jeton_brut,
        r.user_id == l.user_id,
        r.nom_appareil == l.nom_appareil,
        r.created_at == l.created_at,
{
    LigneAppareil {
        statut: Some(chaine_de(&caracteres("refuse"))),
        jeton_brut: l.jeton_brut,
        user_id: l.user_id,
        nom_appareil: l.nom_appareil,
        created_at: l.created_at,
    }
}

/// La décision reçue est une approbation : exactement `oui`.
pub fn decision_oui(decision: &str) -> (r: bool)
    ensures
        r == (decision@ == "oui"@),
{
    egale_lit(&caracteres(decision), "oui")
}

// ══════════════════════════════════════════════════════════════════
// Relève par l'appareil
// ══════════════════════════════════════════════════════════════════

/// Réponse à l'appareil qui interroge le statut de son code.
pub enum ReponseStatut {
    Introuvable,
    Expire,
    /// Le jeton a déjà été relevé : il n'est jamais livré deux fois.
    DejaRecupere,
    /// Le jeton, livré cette fois-ci.
    Approuve(String),
    Refuse,
    EnAttente,
}

/// Vue d'une réponse : son genre et le jeton livré.
pub open spec fn vue_reponse(r: ReponseStatut) -> (int, Seq<char>) {
    match r {
        ReponseStatut::Introuvable => (0, Seq::empty()),
        ReponseStatut::Expire => (1, Seq::empty()),
        ReponseStatut::DejaRecupere => (2, Seq::empty()),
        ReponseStatut::Approuve(j) => (3, j@),
        ReponseStatut::Refuse => (4, Seq::empty()),
        ReponseStatut::EnAttente => (5, Seq::empty()),
    }
}

/// Le jeton brut en attente, vide s'il n'y en a pas.
pub open spec fn jeton_de(l: LigneAppareil) -> Seq<char> {
    match l.jeton_brut {
        Some(j) => j@,
        None => Seq::empty(),
    }
}

/// Réponse due à l'appareil : introuvable ; expiré si le code en attente a
/// expiré ; le jeton s'il est approuvé et pas encore relevé ; refusé ; en
/// attente sinon (y compris une demande révoquée).
pub open spec fn reponse_statut(l: Option<LigneAppareil>, maintenant: i64) -> (int, Seq<char>) {
    match l {
        None => (0, Seq::empty()),
        Some(x) => if expire(x, maintenant) && x.statut is Some && statut_de(x) == "en_attente"@ {
            (1, Seq::empty())
        } else if x.statut is Some && statut_de(x) == "approuve"@ {
            if jeton_de(x).len() == 0 {
                (2, Seq::empty())
            } else {
                (3, jeton_de(x))
            }
        } else if x.statut is Some && statut_de(x) == "refuse"@ {
            (4, Seq::empty())
        } else {
            (5, Seq::empty())
        },
    }
}

/// Réponse à l'appareil (voir `reponse_statut`) ; quand elle livre le
/// jeton, la demande doit ensuite passer par `apres_releve`.
pub fn statut_appareil(l: Option<&LigneAppareil>, maintenant: i64) -> (r: ReponseStatut)
    ensures
        vue_reponse(r) == reponse_statut(
            match l {
                Some(x) => Some(*x),
                None => None,
            },
            maintenant,
        ),
{
    match l {
        None => ReponseStatut::Introuvable,
        Some(x) => {
            if code_expire(x, maintenant) && statut_egal(x, "en_attente") {
                return ReponseStatut::Expire;
            }
            if statut_egal(x, "approuve") {
                let j = match &x.jeton_brut {
                    Some(j) => chaine_de(&caracteres(j.as_str())),
                    None => chaine_de(&Vec::new()),
                };
                if j.as_str().is_empty() {
                    ReponseStatut::DejaRecupere
                } else {
                    ReponseStatut::Approuve(j)
                }
            } else if statut_egal(x, "refuse") {
                ReponseStatut::Refuse
            } else {
                ReponseStatut::EnAttente
            }
        },
    }
}

/// La demande après la relève du jeton : le jeton brut est effacé.
pub fn apres_releve(l: LigneAppareil) -> (r: LigneAppareil)
    ensures
        r.statut == l.statut,
        r.jeton_brut is None,
        r.user_id == l.user_id,
        r.nom_appareil == l.nom_appareil,
        r.created_at == l.created_at,
{
    LigneAppareil { statut: l.statut, jeton_brut: None, user_id: l.user_id, nom_appareil: l.nom_appareil, created_at: l.created_at }
}

// ══════════════════════════════════════════════════════════════════
// Révocation
// ══════════════════════════════════════════════════════════════════

/// Refus d'une révocation.
#[derive(PartialEq, Eq, Structural, Clone, Copy, Debug)]
pub enum RefusRevocation {
    /// Code inconnu (404).
    Introuvable,
    /// L'appareil appartient à un autre utilisateur (403).
    NonAutorise,
}

/// Un utilisateur ne révoque que ses propres appareils.
pub open spec fn revocation(l: Option<LigneAppareil>, user_id: i64) -> Result<(), RefusRevocation> {
    match l {
        None => Err(RefusRevocation::Introuvable),
        Some(x) => if x.user_id != Some(user_id) {
            Err(RefusRevocation::NonAutorise)
        } else {
            Ok(())
        },
    }
}

/// Contrôle d'une révocation (voir `revocation`).
pub fn controler_revocation(l: Option<&LigneAppareil>, user_id: i64) -> (r: Result<(), RefusRevocation>)
    ensures
        r == revocation(
            match l {
                Some(x) => Some(*x),
                None => None,
            },
            user_id,
        ),
{
    match l {
        None => Err(RefusRevocation::Introuvable),
        Some(x) => if x.user_id != Some(user_id) {
            Err(RefusRevocation::NonAutorise)
        } else {
            Ok(())
        },
    }
}

/// Demande révoquée : statut `revoque`, jeton brut effacé.
pub fn revoquer(l: LigneAppareil) -> (r: LigneAppareil)
    ensures
        statut_de(r) == "revoque"@,
        r.statut is Some,
        r.jeton_brut is None,
        r.user_id == l.user_id,
        r.nom_appareil == l.nom_appareil,
        r.created_at == l.created_at,
{
    LigneAppareil {
        statut: Some(chaine_de(&caracteres("revoque"))),
        jeton_brut: None,
        user_id: l.user_id,
        nom_appareil: l.nom_appareil,
        created_at: l.created_at,
    }
}

// ══════════════════════════════════════════════════════════════════
// Lois du flux
// ══════════════════════════════════════════════════════════════════

/// Une demande approuvée dont le jeton n'est pas encore relevé livre ce
/// jeton, à tout instant ; la même demande après la relève (jeton effacé,
/// voir `apres_releve`) répond « déjà récupéré », à tout instant : un jeton
/// n'est livré qu'une fois.
pub proof fn loi_jeton_livre_une_fois(a: LigneAppareil, b: LigneAppareil, t1: i64, t2: i64)
    requires
        a.statut is Some,
        statut_de(a) == "approuve"@,
        jeton_de(a).len() > 0,
        b.statut == a.statut,
        b.jeton_brut is None,
    ensures
        reponse_statut(Some(a), t1) == (3int, jeton_de(a)),
        reponse_statut(Some(b), t2) == (2int, Seq::<char>::empty()),
{
    reveal_strlit("approuve");
    reveal_strlit("en_attente");
    assert("approuve"@ != "en_attente"@) by {
        assert("approuve"@[0] != "en_attente"@[0]);
    }
}

/// Une demande révoquée ne livre jamais de jeton : l'appareil qui
/// interroge ensuite son statut reçoit « en attente », à tout instant.
pub proof fn loi_revoque_sans_jeton(l: LigneAppareil, t: i64)
    requires
        l.statut is Some,
        statut_de(l) == "revoque"@,
    ensures
        reponse_statut(Some(l), t) == (5int, Seq::<char>::empty()),
{
    reveal_strlit("revoque");
    reveal_strlit("approuve");
    reveal_strlit("en_attente");
    reveal_strlit("refuse");
    assert("revoque"@ != "approuve"@) by {
        assert("revoque"@[0] != "approuve"@[0]);
    }
    assert("revoque"@ != "en_attente"@) by {
        assert("revoque"@[0] != "en_attente"@[0]);
    }
    assert("revoque"@ != "refuse"@) by {
        assert("revoque"@[2] != "refuse"@[2]);
    }
}

// ══════════════════════════════════════════════════════════════════
// Script d'installation
// ══════════════════════════════════════════════════════════════════

/// Script PowerShell d'installation, avec sa marque `__BASE_URL__`.
pub const SCRIPT_INSTALLATION_TEMPLATE: &'static str = "$ErrorActionPreference = 'Stop'\n$base = '__BASE_URL__'\n\nWrite-Host \"Connexion a VEX Cloud Sync...\" -ForegroundColor Cyan\n\n$demande = Invoke-RestMethod -Uri \"$base/api/appareil/demander\" -Method Post -Body @{ nom_appareil = $env:COMPUTERNAME }\nif (-not $demande.success) {\n    Write-Error \"Impossible de demarrer la demande d'autorisation.\"\n    exit 1\n}\n$code = $demande.code\n$urlAuth = \"$base/autoriser-appareil?code=$code\"\n\nWrite-Host \"\"\nWrite-Host \"Ouvre cette page et clique Autoriser (tentative d'ouverture automatique) :\"\nWrite-Host $urlAuth -ForegroundColor Yellow\nWrite-Host \"\"\ntry { Start-Process $urlAuth } catch {}\n\nWrite-Host \"En attente de ton autorisation...\" -NoNewline\n$jeton = $null\nfor ($i = 0; $i -lt 150; $i++) {\n    Start-Sleep -Seconds 2\n    Write-Host \".\" -NoNewline\n    $statut = Invoke-RestMethod -Uri \"$base/api/appareil/statut?code=$code\"\n    if ($statut.statut -eq 'approuve') { $jeton = $statut.jeton; break }\n    if ($statut.statut -eq 'refuse') { Write-Host \"\"; Write-Error \"Autorisation refusee.\"; exit 1 }\n    if ($statut.statut -eq 'expire' -or $statut.statut -eq 'introuvable') {\n        Write-Host \"\"\n        Write-Error \"Code expire -- relance le script.\"\n        exit 1\n    }\n}\nWrite-Host \"\"\nif (-not $jeton) {\n    Write-Error \"Delai depasse (5 min) -- relance le script.\"\n    exit 1\n}\n\n$dossier = \"$env:LOCALAPPDATA\\VexCloudSync\"\nNew-Item -ItemType Directory -Force -Path $dossier | Out-Null\n$exePath = Join-Path $dossier \"vex-cloudsync.exe\"\n\nWrite-Host \"Telechargement de vex-cloudsync.exe...\"\nInvoke-WebRequest -Uri \"$base/api/appareil/telecharger\" -Headers @{ Authorization = \"Bearer $jeton\" } -OutFile $exePath\n\nWrite-Host \"Installe : $exePath\" -ForegroundColor Green\nWrite-Host \"Windows peut afficher un avertissement SmartScreen au premier lancement -- c'est normal pour un logiciel encore peu diffuse, clique 'Informations complementaires' puis 'Executer quand meme'.\" -ForegroundColor DarkGray\nStart-Process $exePath\n";

/// Le script d'installation pour le serveur `hote` : chaque marque
/// remplacée par `https://hote`.
pub fn script_installation(hote: &str) -> (r: String)
    ensures
        r@ == remplacer(SCRIPT_INSTALLATION_TEMPLATE@, "__BASE_URL__"@, "https://"@ + hote@),
{
    proof {
        reveal_strlit("__BASE_URL__");
    }
    let mut base: Vec<char> = Vec::new();
    ajouter(&mut base, "https://");
    ajouter(&mut base, hote);
    let b = chaine_de(&base);
    remplace(SCRIPT_INSTALLATION_TEMPLATE, "__BASE_URL__", b.as_str())
}

/// Valeur de l'en-tête `Content-Disposition` d'un fichier téléchargé.
pub fn disposition(nom_fichier: &str) -> (r: String)
    ensures
        r@ == "attachment; filename=\""@ + nom_fichier@ + "\""@,
{
    let mut o: Vec<char> = Vec::new();
    ajouter(&mut o, "attachment; filename=\"");
    ajouter(&mut o, nom_fichier);
    ajouter(&mut o, "\"");
    chaine_de(&o)
}


// ══════════════════════════════════════════════════════════════════
// Archive de l'application
// ══════════════════════════════════════════════════════════════════

/// Vue des entrées d'une archive : noms et octets.
pub open spec fn vue_entrees(e: Seq<(String, Vec<u8>)>) -> Seq<(Seq<char>, Seq<u8>)> {
    e.map_values(|x: (String, Vec<u8>)| (x.0@, x.1@))
}

/// Archive ZIP des entrées, dans l'ordre, chacune compressée par Deflate
/// avec la date par défaut de l'écrivain (valeur nommée du crate `zip`).
pub uninterp spec fn archive_zip(entrees: Seq<(Seq<char>, Seq<u8>)>) -> Seq<u8>;

/// Les noms des entrées sont deux à deux différents.
pub open spec fn noms_distincts(e: Seq<(Seq<char>, Seq<u8>)>) -> bool {
    forall|i: int, j: int| 0 <= i < j < e.len() ==> #[trigger] e[i].0 != #[trigger] e[j].0
}

/// Nombre total d'octets des entrées.
pub open spec fn taille_totale(e: Seq<(Seq<char>, Seq<u8>)>) -> nat
    decreases e.len(),
{
    if e.len() == 0 { 0 } else { taille_totale(e.drop_last()) + e.last().1.len() }
}

/// Chaque nom d'entrée tient en 65 535 octets UTF-8 (la longueur d'un nom
/// s'écrit sur 16 bits dans l'en-tête ZIP).
pub open spec fn noms_courts(e: Seq<(Seq<char>, Seq<u8>)>) -> bool {
    forall|i: int| 0 <= i < e.len() ==> vstd::utf8::encode_utf8(#[trigger] e[i].0).len() <= 65535
}

/// L'UTF-8 d'un texte fait au plus quatre octets par caractère.
proof fn lemme_utf8_borne(s: Seq<char>)
    ensures
        vstd::utf8::encode_utf8(s).len() <= 4 * s.len(),
    decreases s.len(),
{
    if s.len() > 0 {
        lemme_utf8_borne(s.drop_first());
        assert(vstd::utf8::encode_scalar(s[0] as u32).len() <= 4);
    }
}

/// `zip::ZipWriter` sur un tampon en mémoire : `start_file` (Deflate) et
/// `write_all` pour chaque entrée, puis `finish`. Contrat : quand l'écriture
/// aboutit, les octets sont la valeur nommée `archive_zip` des entrées. Elle
/// aboutit quand les noms sont distincts (`start_file` refuse un nom répété)
/// et que l'ensemble tient en 2^31 octets : aucune taille ni position ne
/// dépasse alors la limite 32 bits, au-delà de laquelle l'écrivain refuse
/// une entrée sans l'option `large_file` ; écrire dans un `Vec` n'échoue pas.
/// Un nom de plus de 65 535 octets fait paniquer l'écrivain (conversion de
/// sa longueur en 16 bits) : de tels noms sont exclus.
#[verifier::external_body]
fn creer_archive_zip(entrees: &[(String, Vec<u8>)]) -> (r: Option<Vec<u8>>)
    requires
        noms_courts(vue_entrees(entrees@)),
    ensures
        r is Some ==> r.unwrap()@ == archive_zip(vue_entrees(entrees@)),
        noms_distincts(vue_entrees(entrees@)) && taille_totale(vue_entrees(entrees@)) <= 0x8000_0000 ==> r is Some,
{
    let mut w = zip::ZipWriter::new(std::io::Cursor::new(Vec::new()));
    let o = zip::write::SimpleFileOptions::default().compression_method(zip::CompressionMethod::Deflated);
    for (nom, octets) in entrees.iter() {
        if w.start_file(nom.as_str(), o).is_err() || std::io::Write::write_all(&mut w, octets).is_err() {
            return None;
        }
    }
    w.finish().ok().map(|c| c.into_inner())
}

/// Entrées de l'archive de l'application pour la langue `langue` : la
/// notice traduite, l'exécutable, le désinstalleur s'il est là, puis le
/// fichier `langue.txt`.
pub open spec fn entrees_bundle(exe: Seq<u8>, desinstaller: Option<Seq<u8>>, langue: Seq<char>) -> Seq<(Seq<char>, Seq<u8>)> {
    let (nom, texte) = crate::notice::notice(langue);
    seq![(nom@, vstd::utf8::encode_utf8(texte@)), ("vex-cloudsync.exe"@, exe)] + (match desinstaller {
        Some(d) => seq![("desinstaller.exe"@, d)],
        None => Seq::empty(),
    }) + seq![("langue.txt"@, vstd::utf8::encode_utf8(langue))]
}

fn copie_octets(b: &[u8]) -> (r: Vec<u8>)
    ensures
        r@ == b@,
{
    let mut v: Vec<u8> = Vec::new();
    v.extend_from_slice(b);
    v
}

/// Archive de l'application dans la langue du compte (voir
/// `entrees_bundle`).
pub fn bundle_cloudsync(exe: &[u8], desinstaller: Option<&[u8]>, langue: &str) -> (r: Option<Vec<u8>>)
    ensures
        taille_totale(
            entrees_bundle(
                exe@,
                match desinstaller {
                    Some(d) => Some(d@),
                    None => None,
                },
                langue@,
            ),
        ) <= 0x8000_0000 ==> r is Some,
        r is Some ==> r.unwrap()@ == archive_zip(
            entrees_bundle(
                exe@,
                match desinstaller {
                    Some(d) => Some(d@),
                    None => None,
                },
                langue@,
            ),
        ),
{
    let (nom, texte) = crate::notice::contenu(langue);
    let mut e: Vec<(String, Vec<u8>)> = Vec::new();
    e.push((chaine_de(&caracteres(nom)), copie_octets(texte.as_bytes())));
    e.push((chaine_de(&caracteres("vex-cloudsync.exe")), copie_octets(exe)));
    match desinstaller {
        Some(d) => e.push((chaine_de(&caracteres("desinstaller.exe")), copie_octets(d))),
        None => {},
    }
    e.push((chaine_de(&caracteres("langue.txt")), copie_octets(langue.as_bytes())));
    assert(vue_entrees(e@) =~= entrees_bundle(
        exe@,
        match desinstaller {
            Some(d) => Some(d@),
            None => None,
        },
        langue@,
    ));
    proof {
        reveal_strlit("readme.txt");
        reveal_strlit("lisez-moi.txt");
        reveal_strlit("vex-cloudsync.exe");
        reveal_strlit("desinstaller.exe");
        reveal_strlit("langue.txt");
        let v = vue_entrees(e@);
        assert(nom@ == "readme.txt"@ || nom@ == "lisez-moi.txt"@);
        assert(v[0].0 == nom@);
        assert(v[1].0 == "vex-cloudsync.exe"@);
        assert(v[v.len() - 1].0 == "langue.txt"@);
        assert(desinstaller is Some ==> v[2].0 == "desinstaller.exe"@);
        assert("readme.txt"@[0] != "vex-cloudsync.exe"@[0]);
        assert("readme.txt"@[0] != "desinstaller.exe"@[0]);
        assert("readme.txt"@[0] != "langue.txt"@[0]);
        assert("lisez-moi.txt"@[0] != "vex-cloudsync.exe"@[0]);
        assert("lisez-moi.txt"@[0] != "desinstaller.exe"@[0]);
        assert("lisez-moi.txt"@[1] != "langue.txt"@[1]);
        assert("vex-cloudsync.exe"@[0] != "desinstaller.exe"@[0]);
        assert("vex-cloudsync.exe"@[0] != "langue.txt"@[0]);
        assert("desinstaller.exe"@[0] != "langue.txt"@[0]);
        assert(noms_distincts(v));
        assert forall|i: int| 0 <= i < v.len() implies vstd::utf8::encode_utf8(#[trigger] v[i].0).len() <= 65535 by {
            lemme_utf8_borne(v[i].0);
        }
    }
    creer_archive_zip(&e)
}


/// Sur une demande existante et non expirée, une décision est permise
/// exactement quand son statut est `en_attente` : une demande en attente
/// n'est jamais « déjà traitée », une demande approuvée ou refusée l'est
/// toujours.
pub proof fn loi_approbation_en_attente(x: LigneAppareil, maintenant: i64)
    requires
        !expire(x, maintenant),
    ensures
        (approbation(Some(x), maintenant) is Ok) <==> (x.statut matches Some(s) && s@ == "en_attente"@),
        !(approbation(Some(x), maintenant) is Ok) ==> approbation(Some(x), maintenant) == Err::<(), RefusApprobation>(
            RefusApprobation::DejaTraite,
        ),
        (x.statut matches Some(s) && (s@ == "approuve"@ || s@ == "refuse"@)) ==> approbation(Some(x), maintenant)
            == Err::<(), RefusApprobation>(RefusApprobation::DejaTraite),
{
    reveal_strlit("en_attente");
    reveal_strlit("approuve");
    reveal_strlit("refuse");
    assert("en_attente"@.len() == 10 && "approuve"@.len() == 8 && "refuse"@.len() == 6);
}

/// Une demande approuvée ou refusée ne peut plus recevoir de décision :
/// après `approuver` ou `refuser`, le contrôle répond « déjà traitée »
/// tant qu'elle n'a pas expiré.
pub proof fn loi_decision_unique(x: LigneAppareil, maintenant: i64)
    requires
        !expire(x, maintenant),
        x.statut is Some,
        statut_de(x) == "approuve"@ || statut_de(x) == "refuse"@,
    ensures
        approbation(Some(x), maintenant) == Err::<(), RefusApprobation>(RefusApprobation::DejaTraite),
{
    reveal_strlit("en_attente");
    reveal_strlit("approuve");
    reveal_strlit("refuse");
    assert("en_attente"@.len() == 10 && "approuve"@.len() == 8 && "refuse"@.len() == 6);
}

} // verus!
