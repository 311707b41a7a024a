//! Pages de la connexion des services externes par VEX.

use vstd::prelude::*;
use crate::json::{chaine_json, json_chaine};
use crate::texte::{ajouter, ajouter_echappe, caracteres, chaine_de, echappe, Echappement};

verus! {

broadcast use vstd::string::group_string_axioms;

/// Page de la connexion d'un service : titre échappé, corps déjà composé, thème.
pub open spec fn page_sso(titre: Seq<char>, corps: Seq<char>, theme: Seq<char>) -> Seq<char> {
    "<!DOCTYPE html>\n<html lang=\"fr\" data-theme=\""@ + theme + "\">\n<head>\n<meta charset=\"UTF-8\"><meta name=\"viewport\" content=\"width=device-width, initial-scale=1.0\">\n<title>"@ + echappe(Echappement::HtmlApos, titre) + " — VEX</title>\n<link rel=\"icon\" href=\"/static/img/favicon.ico\">\n<link rel=\"stylesheet\" href=\"/static/css/theme.css?v=6\">\n<style>\n  body { margin:0; min-height:100vh; display:flex; align-items:center; justify-content:center; padding:20px; box-sizing:border-box;\n         font-family:-apple-system,BlinkMacSystemFont,'Segoe UI',Roboto,sans-serif; background:var(--bg); color:var(--text); }\n  .sso { width:460px; max-width:100%; background:var(--surface); border:1px solid var(--panel-border); border-radius:var(--radius);\n          box-shadow:var(--shadow); padding:28px; }\n  .sso-tete { display:flex; align-items:center; gap:14px; padding-bottom:16px; margin-bottom:16px; border-bottom:2px solid var(--panel-border); }\n  .sso-tete img { width:42px; height:42px; filter:grayscale(100%) brightness(.65); }\n  .sso-tete h1 { font-size:19px; margin:0; }\n  .sso-demande { font-size:15px; line-height:1.5; }\n  .sso-cadre { background:var(--alt); border-radius:10px; padding:12px 14px; display:flex; flex-direction:column; gap:6px; font-size:14px; }\n  .sso-petit { font-size:12.5px; color:var(--text-dim); line-height:1.5; }\n  .sso-retenir { display:flex; align-items:center; gap:7px; margin-top:12px; cursor:pointer; }\n  .sso-boutons { display:flex; justify-content:flex-end; gap:8px; margin-top:18px; }\n  .sso-btn { padding:9px 18px; border-radius:8px; border:1px solid transparent; background:var(--accent); color:#fff; font-weight:600;\n              font-size:14px; cursor:pointer; text-decoration:none; }\n  .sso-btn.sec { background:var(--surface2); color:var(--text); border-color:var(--panel-border); }\n</style>\n</head>\n<body>\n  <div class=\"sso\">\n    <div class=\"sso-tete\"><img src=\"/static/img/vex.svg\" alt=\"VEX\"><h1>"@ + echappe(Echappement::HtmlApos, titre) + "</h1></div>\n    "@ + corps + "\n  </div>\n</body>\n</html>"@
}

/// Page de la connexion d'un service : titre échappé, corps déjà composé, thème.
pub fn page(titre: &str, corps: &str, theme: &str) -> (r: String)
    ensures
        r@ == page_sso(titre@, corps@, theme@),
{
    let mut o: Vec<char> = Vec::new();
    ajouter(&mut o, "<!DOCTYPE html>\n<html lang=\"fr\" data-theme=\"");
    ajouter(&mut o, theme);
    ajouter(&mut o, "\">\n<head>\n<meta charset=\"UTF-8\"><meta name=\"viewport\" content=\"width=device-width, initial-scale=1.0\">\n<title>");
    ajouter_echappe(&mut o, Echappement::HtmlApos, &caracteres(titre));
    ajouter(&mut o, " — VEX</title>\n<link rel=\"icon\" href=\"/static/img/favicon.ico\">\n<link rel=\"stylesheet\" href=\"/static/css/theme.css?v=6\">\n<style>\n  body { margin:0; min-height:100vh; display:flex; align-items:center; justify-content:center; padding:20px; box-sizing:border-box;\n         font-family:-apple-system,BlinkMacSystemFont,'Segoe UI',Roboto,sans-serif; background:var(--bg); color:var(--text); }\n  .sso { width:460px; max-width:100%; background:var(--surface); border:1px solid var(--panel-border); border-radius:var(--radius);\n          box-shadow:var(--shadow); padding:28px; }\n  .sso-tete { display:flex; align-items:center; gap:14px; padding-bottom:16px; margin-bottom:16px; border-bottom:2px solid var(--panel-border); }\n  .sso-tete img { width:42px; height:42px; filter:grayscale(100%) brightness(.65); }\n  .sso-tete h1 { font-size:19px; margin:0; }\n  .sso-demande { font-size:15px; line-height:1.5; }\n  .sso-cadre { background:var(--alt); border-radius:10px; padding:12px 14px; display:flex; flex-direction:column; gap:6px; font-size:14px; }\n  .sso-petit { font-size:12.5px; color:var(--text-dim); line-height:1.5; }\n  .sso-retenir { display:flex; align-items:center; gap:7px; margin-top:12px; cursor:pointer; }\n  .sso-boutons { display:flex; justify-content:flex-end; gap:8px; margin-top:18px; }\n  .sso-btn { padding:9px 18px; border-radius:8px; border:1px solid transparent; background:var(--accent); color:#fff; font-weight:600;\n              font-size:14px; cursor:pointer; text-decoration:none; }\n  .sso-btn.sec { background:var(--surface2); color:var(--text); border-color:var(--panel-border); }\n</style>\n</head>\n<body>\n  <div class=\"sso\">\n    <div class=\"sso-tete\"><img src=\"/static/img/vex.svg\" alt=\"VEX\"><h1>");
    ajouter_echappe(&mut o, Echappement::HtmlApos, &caracteres(titre));
    ajouter(&mut o, "</h1></div>\n    ");
    ajouter(&mut o, corps);
    ajouter(&mut o, "\n  </div>\n</body>\n</html>");
    assert(o@ =~= page_sso(titre@, corps@, theme@));
    chaine_de(&o)
}

/// Page qui se recharge aussitôt à l'adresse `ici` (le cookie de session est alors envoyé).
pub open spec fn rechargement(ici: Seq<char>) -> Seq<char> {
    "<!DOCTYPE html><html><head><meta charset=\"utf-8\"><meta http-equiv=\"refresh\" content=\"0;url="@ + echappe(Echappement::HtmlApos, ici) + "\"><script>location.replace("@ + json_chaine(ici) + ");</script></head><body></body></html>"@
}

/// Page qui se recharge aussitôt à l'adresse `ici` (le cookie de session est alors envoyé).
pub fn page_rechargement(ici: &str) -> (r: String)
    ensures
        r@ == rechargement(ici@),
{
    let mut o: Vec<char> = Vec::new();
    ajouter(&mut o, "<!DOCTYPE html><html><head><meta charset=\"utf-8\"><meta http-equiv=\"refresh\" content=\"0;url=");
    ajouter_echappe(&mut o, Echappement::HtmlApos, &caracteres(ici));
    ajouter(&mut o, "\"><script>location.replace(");
    ajouter(&mut o, chaine_json(ici).as_str());
    ajouter(&mut o, ");</script></head><body></body></html>");
    assert(o@ =~= rechargement(ici@));
    chaine_de(&o)
}

/// Corps de la page d'attente d'un visiteur non connecté : elle se recharge seule dès que la session existe.
pub open spec fn attente(service: Seq<char>) -> Seq<char> {
    "<p class=\"sso-demande\"><b>"@ + echappe(Echappement::HtmlApos, service) + "</b> veut vérifier votre identité VEX.</p><div class=\"sso-cadre\">Connectez-vous d'abord à VEX : cette page continuera toute seule.</div><div class=\"sso-boutons\"><a class=\"sso-btn\" href=\"/login\" target=\"_blank\" rel=\"opener\">Se connecter à VEX</a></div><p class=\"sso-petit\" id=\"attente\">En attente de votre connexion…</p><script>setInterval(function(){fetch('/p2p/sso/etat',{cache:'no-store'}).then(function(r){return r.json()}).then(function(d){if(d.connecte)location.reload()}).catch(function(){})},2000);</script>"@
}

/// Corps de la page d'attente d'un visiteur non connecté : elle se recharge seule dès que la session existe.
pub fn corps_attente(service: &str) -> (r: String)
    ensures
        r@ == attente(service@),
{
    let mut o: Vec<char> = Vec::new();
    ajouter(&mut o, "<p class=\"sso-demande\"><b>");
    ajouter_echappe(&mut o, Echappement::HtmlApos, &caracteres(service));
    ajouter(&mut o, "</b> veut vérifier votre identité VEX.</p><div class=\"sso-cadre\">Connectez-vous d'abord à VEX : cette page continuera toute seule.</div><div class=\"sso-boutons\"><a class=\"sso-btn\" href=\"/login\" target=\"_blank\" rel=\"opener\">Se connecter à VEX</a></div><p class=\"sso-petit\" id=\"attente\">En attente de votre connexion…</p><script>setInterval(function(){fetch('/p2p/sso/etat',{cache:'no-store'}).then(function(r){return r.json()}).then(function(d){if(d.connecte)location.reload()}).catch(function(){})},2000);</script>");
    assert(o@ =~= attente(service@));
    chaine_de(&o)
}

/// Corps de la page d'accord : le service, le compte connecté, le domaine de retour et le formulaire de décision.
pub open spec fn accord(service: Seq<char>, nom: Seq<char>, domaine: Seq<char>, retour: Seq<char>, etat: Seq<char>, refus: Seq<char>) -> Seq<char> {
    "<p class=\"sso-demande\"><b>"@ + echappe(Echappement::HtmlApos, service) + "</b> demande à vérifier votre identité VEX.</p><div class=\"sso-cadre\"><div>Connecté sur ce nœud en tant que <b>"@ + echappe(Echappement::HtmlApos, nom) + "</b></div><div>Vous serez renvoyé vers <b>"@ + echappe(Echappement::HtmlApos, domaine) + "</b></div></div><p class=\"sso-petit\">Le service recevra uniquement votre nom, votre identifiant sur ce nœud et votre thème. Jamais votre mot de passe, votre email ni vos fichiers.</p><form method=\"post\" action=\"/p2p/sso\"><input type=\"hidden\" name=\"service\" value=\""@ + echappe(Echappement::HtmlApos, service) + "\"><input type=\"hidden\" name=\"retour\" value=\""@ + echappe(Echappement::HtmlApos, retour) + "\"><input type=\"hidden\" name=\"etat\" value=\""@ + echappe(Echappement::HtmlApos, etat) + "\"><label class=\"sso-petit sso-retenir\"><input type=\"checkbox\" name=\"retenir\" value=\"1\" checked> Ne plus me demander pour <b>"@ + echappe(Echappement::HtmlApos, domaine) + "</b> sur ce navigateur</label><div class=\"sso-boutons\"><a class=\"sso-btn sec\" href=\""@ + echappe(Echappement::HtmlApos, refus) + "\">Refuser</a><button class=\"sso-btn\" type=\"submit\" name=\"decision\" value=\"ok\">Autoriser</button></div></form>"@
}

/// Corps de la page d'accord : le service, le compte connecté, le domaine de retour et le formulaire de décision.
pub fn corps_accord(service: &str, nom: &str, domaine: &str, retour: &str, etat: &str, refus: &str) -> (r: String)
    ensures
        r@ == accord(service@, nom@, domaine@, retour@, etat@, refus@),
{
    let mut o: Vec<char> = Vec::new();
    ajouter(&mut o, "<p class=\"sso-demande\"><b>");
    ajouter_echappe(&mut o, Echappement::HtmlApos, &caracteres(service));
    ajouter(&mut o, "</b> demande à vérifier votre identité VEX.</p><div class=\"sso-cadre\"><div>Connecté sur ce nœud en tant que <b>");
    ajouter_echappe(&mut o, Echappement::HtmlApos, &caracteres(nom));
    ajouter(&mut o, "</b></div><div>Vous serez renvoyé vers <b>");
    ajouter_echappe(&mut o, Echappement::HtmlApos, &caracteres(domaine));
    ajouter(&mut o, "</b></div></div><p class=\"sso-petit\">Le service recevra uniquement votre nom, votre identifiant sur ce nœud et votre thème. Jamais votre mot de passe, votre email ni vos fichiers.</p><form method=\"post\" action=\"/p2p/sso\"><input type=\"hidden\" name=\"service\" value=\"");
    ajouter_echappe(&mut o, Echappement::HtmlApos, &caracteres(service));
    ajouter(&mut o, "\"><input type=\"hidden\" name=\"retour\" value=\"");
    ajouter_echappe(&mut o, Echappement::HtmlApos, &caracteres(retour));
    ajouter(&mut o, "\"><input type=\"hidden\" name=\"etat\" value=\"");
    ajouter_echappe(&mut o, Echappement::HtmlApos, &caracteres(etat));
    ajouter(&mut o, "\"><label class=\"sso-petit sso-retenir\"><input type=\"checkbox\" name=\"retenir\" value=\"1\" checked> Ne plus me demander pour <b>");
    ajouter_echappe(&mut o, Echappement::HtmlApos, &caracteres(domaine));
    ajouter(&mut o, "</b> sur ce navigateur</label><div class=\"sso-boutons\"><a class=\"sso-btn sec\" href=\"");
    ajouter_echappe(&mut o, Echappement::HtmlApos, &caracteres(refus));
    ajouter(&mut o, "\">Refuser</a><button class=\"sso-btn\" type=\"submit\" name=\"decision\" value=\"ok\">Autoriser</button></div></form>");
    assert(o@ =~= accord(service@, nom@, domaine@, retour@, etat@, refus@));
    chaine_de(&o)
}

/// Titre et corps de la page d'une demande mal formée.
pub const TITRE_INVALIDE: &'static str = "Demande invalide";
pub const CORPS_INVALIDE: &'static str = "<p>Le lien de connexion est incomplet ou mal formé.</p>";

/// Titre et corps de la page d'une session expirée avant l'accord.
pub const TITRE_EXPIRE: &'static str = "Session expirée";
pub const CORPS_EXPIRE: &'static str = "<p>Votre session VEX a expiré. Recommencez depuis le service.</p>";

/// Titre des pages d'accord et d'attente.
pub const TITRE_CONNEXION: &'static str = "Connexion à un service externe";

} // verus!
