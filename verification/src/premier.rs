//! Création du tout premier compte et déconnexion.

use vstd::prelude::*;
use crate::compte::{octets, pseudo_refuse};
use crate::connexion::{que_des_chiffres_hex, tout_hex};
use crate::texte::{
    ajouter, ajouter_decimal, caracteres, chaine_de, contient, decimal, echappe, echapper_html_apos, octets_depassent,
    octets_egaux, remplace, remplacer, rogne, rogner, Echappement,
};

verus! {

broadcast use vstd::string::group_string_axioms;

// ══════════════════════════════════════════════════════════════════
// Premier compte
// ══════════════════════════════════════════════════════════════════

/// La page de création du premier compte avec la longueur minimale du mot
/// de passe à la place de chaque marque `__PASS_MIN_LEN__`.
pub fn page_premier_compte(html: &str, longueur_min: u64) -> (r: String)
    ensures
        r@ == remplacer(html@, "__PASS_MIN_LEN__"@, decimal(longueur_min as nat)),
{
    proof {
        reveal_strlit("__PASS_MIN_LEN__");
    }
    let mut n: Vec<char> = Vec::new();
    ajouter_decimal(&mut n, longueur_min as u128);
    let ns = chaine_de(&n);
    remplace(html, "__PASS_MIN_LEN__", ns.as_str())
}

/// Refus de la création du premier compte.
#[derive(PartialEq, Eq, Structural, Clone, Copy, Debug)]
pub enum RefusPremierCompte {
    RequeteInvalide,
    ChampsObligatoires,
    EmailInvalide,
    PseudoInvalide,
    SelInvalide,
    VerificateurInvalide,
    CompteExisteDeja,
}

/// Le compte fondateur à enregistrer : nom, email et pseudo échappés (le
/// pseudo vide n'est pas enregistré).
pub struct PremierCompte {
    pub nom: String,
    pub email: String,
    pub pseudo: Option<String>,
}

/// Échappement HTML de `& < > " '`.
pub open spec fn esc5(s: Seq<char>) -> Seq<char> {
    echappe(Echappement::HtmlApos, s)
}

/// Décision sur la création du premier compte ; en cas d'accord, le nom,
/// l'email et le pseudo tels qu'enregistrés.
pub open spec fn premier_compte(
    setup: bool,
    nom: Seq<char>,
    email: Seq<char>,
    pseudo: Seq<char>,
    sel: Seq<char>,
    verificateur: Seq<char>,
    comptes: u64,
) -> Result<(Seq<char>, Seq<char>, Option<Seq<char>>), RefusPremierCompte> {
    let n = rogner(nom);
    let e = rogner(email);
    let p = esc5(rogner(pseudo));
    if !setup {
        Err(RefusPremierCompte::RequeteInvalide)
    } else if n.len() == 0 || e.len() == 0 {
        Err(RefusPremierCompte::ChampsObligatoires)
    } else if !e.contains('@') || !e.contains('.') {
        Err(RefusPremierCompte::EmailInvalide)
    } else if p.len() > 0 && pseudo_refuse(p) {
        Err(RefusPremierCompte::PseudoInvalide)
    } else if octets(sel) != 32 || !tout_hex(sel) {
        Err(RefusPremierCompte::SelInvalide)
    } else if verificateur.len() == 0 || octets(verificateur) > 512 || !tout_hex(verificateur) {
        Err(RefusPremierCompte::VerificateurInvalide)
    } else if comptes > 0 {
        Err(RefusPremierCompte::CompteExisteDeja)
    } else {
        Ok((esc5(n), esc5(e), if p.len() == 0 { None } else { Some(p) }))
    }
}

fn a_un_espace(p: &[char]) -> (r: bool)
    ensures
        r == exists|i: int| 0 <= i < p@.len() && crate::texte::est_espace(#[trigger] p@[i]),
{
    let mut i: usize = 0;
    while i < p.len()
        invariant
            i <= p.len(),
            forall|j: int| 0 <= j < i ==> !crate::texte::est_espace(#[trigger] p@[j]),
        decreases p.len() - i,
    {
        if crate::texte::espace(p[i]) {
            return true;
        }
        i += 1;
    }
    false
}

/// Contrôles de la création du premier compte (voir `premier_compte`) ;
/// `comptes` est le nombre de comptes déjà enregistrés.
pub fn controler_premier_compte(
    setup: bool,
    nom: &str,
    email: &str,
    pseudo: &str,
    sel: &str,
    verificateur: &str,
    comptes: u64,
) -> (r: Result<PremierCompte, RefusPremierCompte>)
    ensures
        match (r, premier_compte(setup, nom@, email@, pseudo@, sel@, verificateur@, comptes)) {
            (Ok(c), Ok((n, e, p))) => c.nom@ == n && c.email@ == e && match (c.pseudo, p) {
                (Some(a), Some(b)) => a@ == b,
                (None, None) => true,
                _ => false,
            },
            (Err(a), Err(b)) => a == b,
            _ => false,
        },
{
    if !setup {
        return Err(RefusPremierCompte::RequeteInvalide);
    }
    let n = rogne(&caracteres(nom));
    let e = rogne(&caracteres(email));
    let pt = chaine_de(&rogne(&caracteres(pseudo)));
    let ps = echapper_html_apos(pt.as_str());
    let p = caracteres(ps.as_str());
    if n.len() == 0 || e.len() == 0 {
        return Err(RefusPremierCompte::ChampsObligatoires);
    }
    if !contient(&e, '@') || !contient(&e, '.') {
        return Err(RefusPremierCompte::EmailInvalide);
    }
    if p.len() > 0 && (octets_depassent(&p, 64) || contient(&p, '@') || a_un_espace(&p)) {
        return Err(RefusPremierCompte::PseudoInvalide);
    }
    if !octets_egaux(&caracteres(sel), 32) || !que_des_chiffres_hex(sel) {
        return Err(RefusPremierCompte::SelInvalide);
    }
    if verificateur.is_empty() || octets_depassent(&caracteres(verificateur), 512) || !que_des_chiffres_hex(
        verificateur,
    ) {
        return Err(RefusPremierCompte::VerificateurInvalide);
    }
    if comptes > 0 {
        return Err(RefusPremierCompte::CompteExisteDeja);
    }
    let ns = chaine_de(&n);
    let es = chaine_de(&e);
    Ok(
        PremierCompte {
            nom: echapper_html_apos(ns.as_str()),
            email: echapper_html_apos(es.as_str()),
            pseudo: if p.len() == 0 {
                None
            } else {
                Some(ps)
            },
        },
    )
}

/// Réponse JSON d'échec : `{"success":false,"error":"…"}`, les guillemets
/// du message précédés d'une barre oblique inverse.
pub open spec fn json_erreur(msg: Seq<char>) -> Seq<char> {
    "{\"success\":false,\"error\":\""@ + remplacer(msg, "\""@, "\\\""@) + "\"}"@
}

/// Réponse JSON d'échec (voir `json_erreur`).
pub fn jerr(msg: &str) -> (r: String)
    ensures
        r@ == json_erreur(msg@),
{
    proof {
        reveal_strlit("\"");
    }
    let m = remplace(msg, "\"", "\\\"");
    let mut o: Vec<char> = Vec::new();
    ajouter(&mut o, "{\"success\":false,\"error\":\"");
    ajouter(&mut o, m.as_str());
    ajouter(&mut o, "\"}");
    chaine_de(&o)
}

// ══════════════════════════════════════════════════════════════════
// Déconnexion
// ══════════════════════════════════════════════════════════════════

/// Cookie de session expiré, mêmes attributs qu'à la connexion.
pub const COOKIE_EXPIRE: &'static str = "connexion_cookie=; Path=/; HttpOnly; Max-Age=0";

/// Réponse à une déconnexion.
#[derive(PartialEq, Eq, Structural, Clone, Copy, Debug)]
pub enum ReponseDeconnexion {
    /// Sans cookie, appel de script : `{"success":false,"redirect":"/login/login"}`.
    JsonSansCookie,
    /// Sans cookie, navigateur : redirection vers la connexion.
    RedirectionSansCookie,
    /// Appel de script : `{"success":true,…}` et cookie expiré.
    JsonDeconnecte,
    /// Navigateur : la page de déconnexion et cookie expiré.
    PageDeconnexion,
}

/// Plan d'une déconnexion : la session à supprimer (seulement si le cookie
/// désigne une session active) et la réponse ; la réponse ne dit jamais si
/// le cookie était valide.
pub open spec fn plan_deconnexion(cookie_vide: bool, post: bool, session_active: bool) -> (bool, ReponseDeconnexion) {
    if cookie_vide {
        (false, if post { ReponseDeconnexion::JsonSansCookie } else { ReponseDeconnexion::RedirectionSansCookie })
    } else {
        (session_active, if post { ReponseDeconnexion::JsonDeconnecte } else { ReponseDeconnexion::PageDeconnexion })
    }
}

/// Plan d'une déconnexion (voir `plan_deconnexion`).
pub fn deconnexion(cookie: &str, post: bool, session_active: bool) -> (r: (bool, ReponseDeconnexion))
    ensures
        r == plan_deconnexion(cookie@.len() == 0, post, session_active),
{
    if cookie.is_empty() {
        (false, if post { ReponseDeconnexion::JsonSansCookie } else { ReponseDeconnexion::RedirectionSansCookie })
    } else {
        (session_active, if post { ReponseDeconnexion::JsonDeconnecte } else { ReponseDeconnexion::PageDeconnexion })
    }
}

/// Corps JSON d'une redirection demandée au script :
/// `{"success":false,"redirect":"…"}`.
pub fn json_redirection(adresse: &str) -> (r: String)
    ensures
        r@ == "{\"success\":false,\"redirect\":\""@ + adresse@ + "\"}"@,
{
    let mut o: Vec<char> = Vec::new();
    ajouter(&mut o, "{\"success\":false,\"redirect\":\"");
    ajouter(&mut o, adresse);
    ajouter(&mut o, "\"}");
    chaine_de(&o)
}

} // verus!
