//! Tableau de bord : tuile d'administration, tuiles des extensions,
//! listes de fichiers, de messages et de sites, tailles et durées lisibles.

use vstd::prelude::*;
use crate::json::{valeur_de, Json};
use crate::temps::{date_courte, date_jma, instant_de, lire_date_heure, ts_de, ts_de_date};
use crate::texte::{
    ajouter, ajouter_car, ajouter_decimal, ajouter_decimal_signe, ajouter_echappe, caracteres, chaine_de,
    decimal, decimal_signe, dernier, echappe, egale_lit, lemme_dernier, remplace, remplacer, rogne, rogner, tranche,
    trouver_dernier, Echappement,
};
use crate::connexion::{en_minuscules_unicode, minuscules_unicode};

verus! {

broadcast use vstd::string::group_string_axioms;

/// Échappement HTML des quatre caractères `& < > "`.
pub open spec fn he(s: Seq<char>) -> Seq<char> {
    echappe(Echappement::Html, s)
}

fn ajouter_he(o: &mut Vec<char>, s: &str)
    ensures
        final(o)@ == old(o)@ + he(s@),
{
    let c = caracteres(s);
    ajouter_echappe(o, Echappement::Html, &c);
}

/// Échappement HTML des quatre caractères `& < > "`.
pub fn echapper(s: &str) -> (r: String)
    ensures
        r@ == he(s@),
{
    let mut o: Vec<char> = Vec::new();
    ajouter_he(&mut o, s);
    chaine_de(&o)
}

// ══════════════════════════════════════════════════════════════════
// Durées
// ══════════════════════════════════════════════════════════════════

/// « il y a … » d'un instant Unix vu à `maintenant`.
pub open spec fn depuis(ts: i64, maintenant: i64) -> Seq<char> {
    let d: int = maintenant - ts;
    if ts <= 0 {
        "date inconnue"@
    } else if d < 60 {
        "a l'instant"@
    } else if d < 3600 {
        "il y a "@ + decimal((d / 60) as nat) + " min"@
    } else if d < 86400 {
        "il y a "@ + decimal((d / 3600) as nat) + " h"@
    } else {
        "il y a "@ + decimal((d / 86400) as nat) + " j"@
    }
}

/// « il y a … » d'un instant Unix.
pub fn depuis_texte(ts: i64, maintenant: i64) -> (r: Vec<char>)
    ensures
        r@ == depuis(ts, maintenant),
{
    let mut o: Vec<char> = Vec::new();
    if ts <= 0 {
        ajouter(&mut o, "date inconnue");
        return o;
    }
    let d: i128 = maintenant as i128 - ts as i128;
    if d < 60 {
        ajouter(&mut o, "a l'instant");
    } else if d < 3600 {
        ajouter(&mut o, "il y a ");
        ajouter_decimal(&mut o, (d / 60) as u128);
        ajouter(&mut o, " min");
    } else if d < 86400 {
        ajouter(&mut o, "il y a ");
        ajouter_decimal(&mut o, (d / 3600) as u128);
        ajouter(&mut o, " h");
    } else {
        ajouter(&mut o, "il y a ");
        ajouter_decimal(&mut o, (d / 86400) as u128);
        ajouter(&mut o, " j");
    }
    o
}

/// Temps écoulé depuis une date des tables, vu à `maintenant` : « à
/// l'instant », minutes, heures, jours, puis la date courte au-delà d'une
/// semaine (la date elle-même si elle est illisible).
pub open spec fn il_y_a(date: Seq<char>, maintenant: i64) -> Seq<char> {
    let d: int = maintenant - ts_de(date);
    if d < 60 {
        "à l'instant"@
    } else if d < 3600 {
        decimal((d / 60) as nat) + " min"@
    } else if d < 86400 {
        decimal((d / 3600) as nat) + " h"@
    } else if d < 604800 {
        decimal((d / 86400) as nat) + " j"@
    } else {
        match date_jma(date) {
            Some(x) => x,
            None => date,
        }
    }
}

/// Temps écoulé depuis une date des tables (voir `il_y_a`).
pub fn time_ago(date: &str, maintenant: i64) -> (r: Vec<char>)
    ensures
        r@ == il_y_a(date@, maintenant),
{
    let ts = ts_de_date(date);
    let d: i128 = maintenant as i128 - ts as i128;
    let mut o: Vec<char> = Vec::new();
    if d < 60 {
        ajouter(&mut o, "à l'instant");
    } else if d < 3600 {
        ajouter_decimal(&mut o, (d / 60) as u128);
        ajouter(&mut o, " min");
    } else if d < 86400 {
        ajouter_decimal(&mut o, (d / 3600) as u128);
        ajouter(&mut o, " h");
    } else if d < 604800 {
        ajouter_decimal(&mut o, (d / 86400) as u128);
        ajouter(&mut o, " j");
    } else {
        match date_courte(date) {
            Some(x) => ajouter(&mut o, x.as_str()),
            None => ajouter(&mut o, date),
        }
    }
    o
}


// ══════════════════════════════════════════════════════════════════
// Éléments des tuiles
// ══════════════════════════════════════════════════════════════════

/// Classe de l'étiquette selon le niveau.
pub open spec fn classe_badge(niveau: Seq<char>) -> Seq<char> {
    if niveau == "ok"@ {
        "badge-success"@
    } else if niveau == "attention"@ {
        "badge-warn"@
    } else if niveau == "alerte"@ {
        "badge-danger"@
    } else if niveau == "neutre"@ {
        "badge-neutral"@
    } else {
        "badge-info"@
    }
}

/// Étiquette d'une ligne, teintée selon le niveau.
pub open spec fn etiquette_de(texte: Seq<char>, niveau: Seq<char>) -> Seq<char> {
    "<span class=\"item-badge "@ + classe_badge(niveau) + "\">"@ + he(texte) + "</span>"@
}

/// Étiquette d'une ligne, teintée selon le niveau.
pub fn etiquette(o: &mut Vec<char>, texte: &str, niveau: &str)
    ensures
        final(o)@ == old(o)@ + etiquette_de(texte@, niveau@),
{
    let n = caracteres(niveau);
    let classe = if egale_lit(&n, "ok") {
        "badge-success"
    } else if egale_lit(&n, "attention") {
        "badge-warn"
    } else if egale_lit(&n, "alerte") {
        "badge-danger"
    } else if egale_lit(&n, "neutre") {
        "badge-neutral"
    } else {
        "badge-info"
    };
    let ghost a = o@;
    ajouter(o, "<span class=\"item-badge ");
    ajouter(o, classe);
    ajouter(o, "\">");
    ajouter_he(o, texte);
    ajouter(o, "</span>");
    assert(o@ =~= a + etiquette_de(texte@, niveau@));
}


/// Horodatage relatif d'une ligne (recalculé par le navigateur grâce à
/// `data-ts`).
pub open spec fn horodatage_de(ts: i64, maintenant: i64) -> Seq<char> {
    "<span class=\"item-time\" data-ts=\""@ + decimal_signe(ts as int) + "\">"@ + he(depuis(ts, maintenant)) + "</span>"@
}

/// Horodatage relatif d'une ligne.
pub fn horodatage(o: &mut Vec<char>, ts: i64, maintenant: i64)
    ensures
        final(o)@ == old(o)@ + horodatage_de(ts, maintenant),
{
    let ghost a = o@;
    ajouter(o, "<span class=\"item-time\" data-ts=\"");
    ajouter_decimal_signe(o, ts);
    ajouter(o, "\">");
    ajouter_he(o, chaine_de(&depuis_texte(ts, maintenant)).as_str());
    ajouter(o, "</span>");
    assert(o@ =~= a + horodatage_de(ts, maintenant));
}


/// Classe du titre d'une ligne : `fona` est une classe animée.
pub open spec fn classe_titre(couleur: Seq<char>) -> Seq<char> {
    if couleur == "fona"@ { "item-title fona"@ } else { "item-title"@ }
}

/// Style de couleur du titre et de l'icône (aucun pour `fona` ou sans
/// couleur).
pub open spec fn style_de(couleur: Seq<char>) -> Seq<char> {
    if couleur.len() == 0 || couleur == "fona"@ { Seq::empty() } else { " style=\"color:"@ + he(couleur) + "\""@ }
}

/// Infobulle de la ligne, s'il y en a une.
pub open spec fn bulle_de(infobulle: Seq<char>) -> Seq<char> {
    if infobulle.len() == 0 { Seq::empty() } else { " title=\""@ + he(infobulle) + "\""@ }
}

fn style_ligne(couleur: &str) -> (r: (Vec<char>, &'static str))
    ensures
        r.0@ == style_de(couleur@),
        r.1@ == classe_titre(couleur@),
{
    let c = caracteres(couleur);
    let fona = egale_lit(&c, "fona");
    let mut style: Vec<char> = Vec::new();
    if !(c.len() == 0 || fona) {
        ajouter(&mut style, " style=\"color:");
        ajouter_he(&mut style, couleur);
        ajouter(&mut style, "\"");
    }
    (style, if fona { "item-title fona" } else { "item-title" })
}

fn bulle_ligne(infobulle: &str) -> (r: Vec<char>)
    ensures
        r@ == bulle_de(infobulle@),
{
    let mut bulle: Vec<char> = Vec::new();
    if caracteres(infobulle).len() > 0 {
        ajouter(&mut bulle, " title=\"");
        ajouter_he(&mut bulle, infobulle);
        ajouter(&mut bulle, "\"");
    }
    bulle
}

/// Ligne d'information d'une tuile ; le titre (et l'icône) prennent la
/// couleur donnée, sauf `fona` qui est une classe animée.
pub open spec fn ligne_info_de(
    icone: Seq<char>,
    titre: Seq<char>,
    sous_titre: Seq<char>,
    droite: Seq<char>,
    couleur: Seq<char>,
    infobulle: Seq<char>,
) -> Seq<char> {
    "<div class=\"log-item\""@ + bulle_de(infobulle) + ">\n            <div class=\"item-left\">\n                <i class=\"fas fa-"@ + he(icone) + " item-icon\""@ + style_de(couleur) + "></i>\n                <div class=\"item-info\">\n                    <div class=\""@ + classe_titre(couleur) + "\""@ + style_de(couleur) + ">"@ + he(titre) + "</div>\n                    <div class=\"item-subtitle\">"@ + he(sous_titre) + "</div>\n                </div>\n            </div>\n            <div class=\"item-right\">"@ + droite + "</div>\n        </div>"@
}

/// Ligne d'information colorée d'une tuile.
pub fn ligne_info_coloree(
    o: &mut Vec<char>,
    icone: &str,
    titre: &str,
    sous_titre: &str,
    droite: &str,
    couleur: &str,
    infobulle: &str,
)
    ensures
        final(o)@ == old(o)@ + ligne_info_de(icone@, titre@, sous_titre@, droite@, couleur@, infobulle@),
{
    let (style, classe) = style_ligne(couleur);
    let bulle = bulle_ligne(infobulle);
    let ghost a = o@;
    ajouter(o, "<div class=\"log-item\"");
    ajouter_car(o, &bulle);
    ajouter(o, ">\n            <div class=\"item-left\">\n                <i class=\"fas fa-");
    ajouter_he(o, icone);
    ajouter(o, " item-icon\"");
    ajouter_car(o, &style);
    ajouter(o, "></i>\n                <div class=\"item-info\">\n                    <div class=\"");
    ajouter(o, classe);
    ajouter(o, "\"");
    ajouter_car(o, &style);
    ajouter(o, ">");
    ajouter_he(o, titre);
    ajouter(o, "</div>\n                    <div class=\"item-subtitle\">");
    ajouter_he(o, sous_titre);
    ajouter(o, "</div>\n                </div>\n            </div>\n            <div class=\"item-right\">");
    ajouter(o, droite);
    ajouter(o, "</div>\n        </div>");
    assert(o@ =~= a + ligne_info_de(icone@, titre@, sous_titre@, droite@, couleur@, infobulle@));
}

/// Ligne d'information sans couleur ni infobulle.
pub fn ligne_info(o: &mut Vec<char>, icone: &str, titre: &str, sous_titre: &str, droite: &str)
    ensures
        final(o)@ == old(o)@ + ligne_info_de(icone@, titre@, sous_titre@, droite@, Seq::empty(), Seq::empty()),
{
    proof {
        reveal_strlit("");
        assert(""@ =~= Seq::<char>::empty());
    }
    ligne_info_coloree(o, icone, titre, sous_titre, droite, "", "");
}


// ══════════════════════════════════════════════════════════════════
// Tuile d'administration
// ══════════════════════════════════════════════════════════════════

/// Une connexion récente (table `loginc`).
pub struct Connexion {
    pub email: String,
    pub nom: String,
    pub datecra: String,
    pub pc: String,
}

/// Un compte du personnel (privilège, et dernière connexion connue, 0 si
/// aucune), avec le libellé et la couleur de son privilège.
pub struct Staff {
    pub nom: String,
    pub email: String,
    pub privilege: Option<i64>,
    pub libelle: String,
    pub couleur: String,
    pub derniere: i64,
}

/// Informations publiées par une extension active pour l'administration.
pub struct ExtensionInfos {
    pub id: String,
    pub admin_infos: Option<Vec<Json>>,
}

/// Ce que la tuile d'administration affiche, lu en base et dans la
/// configuration.
pub struct DonneesAdmin {
    /// Privilège de l'utilisateur qui regarde.
    pub privilege: i64,
    /// Événements suivis (`dashboard_events` des préférences).
    pub evenements: Json,
    /// Emails des comptes de fondateur.
    pub emails_fondateur: Vec<String>,
    /// Les dernières connexions, plus récentes d'abord.
    pub connexions: Vec<Connexion>,
    pub maintenant: i64,
    pub nb_comptes: u64,
    pub nb_fichiers: u64,
    pub nb_pages: u64,
    /// Comptes par privilège croissant.
    pub staff: Vec<Staff>,
    pub maintenance: bool,
    pub debug: bool,
    pub version: Option<String>,
    /// Date de la configuration.
    pub ts_config: i64,
    pub extensions: Vec<ExtensionInfos>,
}

/// Un événement est suivi sauf si l'utilisateur l'a explicitement coupé
/// (valeur entière nulle).
pub open spec fn evt(ev: Json, cle: Seq<char>) -> bool {
    match crate::json::champ(ev, cle) {
        Json::Nombre(n) => n != 0,
        _ => true,
    }
}

/// Un événement est-il suivi ?
pub fn evt_actif(ev: &Json, cle: &str) -> (r: bool)
    ensures
        r == evt(*ev, cle@),
{
    match valeur_de(ev, cle) {
        Some(Json::Nombre(n)) => *n != 0,
        _ => true,
    }
}

/// Seul le fondateur voit le fondateur.
pub open spec fn voit_fondateur(privilege: i64) -> bool {
    privilege <= 1
}

/// Connexion gardée : de moins d'une heure, et pas d'un fondateur pour qui
/// ne doit pas le voir.
pub open spec fn connexion_gardee(c: Connexion, maintenant: i64, voit: bool, fondateurs: Seq<Seq<char>>) -> bool {
    maintenant - ts_de(c.datecra@) < 3600 && (voit || !fondateurs.contains(
        crate::connexion::minuscules_unicode(c.email@),
    ))
}

/// Connexions gardées, dans l'ordre.
pub open spec fn connexions_gardees(l: Seq<Connexion>, maintenant: i64, voit: bool, fondateurs: Seq<Seq<char>>) -> Seq<Connexion>
    decreases l.len(),
{
    if l.len() == 0 {
        Seq::empty()
    } else {
        let r = connexions_gardees(l.drop_last(), maintenant, voit, fondateurs);
        if connexion_gardee(l.last(), maintenant, voit, fondateurs) { r.push(l.last()) } else { r }
    }
}

/// Emails des fondateurs en minuscules (aucun si l'utilisateur voit le
/// fondateur).
pub open spec fn fondateurs(d: DonneesAdmin) -> Seq<Seq<char>> {
    if voit_fondateur(d.privilege) {
        Seq::empty()
    } else {
        d.emails_fondateur@.map_values(|e: String| crate::connexion::minuscules_unicode(e@))
    }
}

/// Les (au plus) cinq connexions actives affichées.
pub open spec fn logs(d: DonneesAdmin) -> Seq<Connexion> {
    crate::utils::prendre(
        connexions_gardees(d.connexions@, d.maintenant, voit_fondateur(d.privilege), fondateurs(d)),
        5,
    )
}

/// Ligne « Vue d'ensemble ».
pub open spec fn bloc_stats(d: DonneesAdmin) -> Seq<char> {
    let n = logs(d).len();
    if evt(d.evenements, "stats"@) {
        ligne_info_de(
            "chart-simple"@,
            "Vue d'ensemble"@,
            decimal(d.nb_comptes as nat) + " comptes — "@ + decimal(d.nb_fichiers as nat) + " fichiers — "@ + decimal(
                d.nb_pages as nat,
            ) + " pages"@,
            etiquette_de(decimal(n) + " session"@ + (if n > 1 { "s"@ } else { Seq::empty() }), "info"@)
                + horodatage_de(d.maintenant, d.maintenant),
            Seq::empty(),
            Seq::empty(),
        )
    } else {
        Seq::empty()
    }
}

/// Privilège d'un compte du personnel (99 s'il est inconnu).
pub open spec fn privilege_de(s: Staff) -> i64 {
    match s.privilege {
        Some(p) => p,
        None => 99,
    }
}

/// Compte du personnel affiché : privilège 1 à 3, le fondateur seulement
/// pour qui le voit.
pub open spec fn staff_visible(s: Staff, voit: bool) -> bool {
    privilege_de(s) <= 3 && (privilege_de(s) != 1 || voit)
}

/// Comptes du personnel affichés, dans l'ordre.
pub open spec fn staff_visibles(l: Seq<Staff>, voit: bool) -> Seq<Staff>
    decreases l.len(),
{
    if l.len() == 0 {
        Seq::empty()
    } else {
        let r = staff_visibles(l.drop_last(), voit);
        if staff_visible(l.last(), voit) { r.push(l.last()) } else { r }
    }
}

/// Ligne d'un compte du personnel : pseudo coloré, dernière connexion.
pub open spec fn ligne_staff(s: Staff, maintenant: i64) -> Seq<char> {
    ligne_info_de(
        "user-shield"@,
        s.nom@,
        s.email@,
        if s.derniere > 0 { horodatage_de(s.derniere, maintenant) } else { "<span class=\"item-time\">jamais connecte</span>"@ },
        s.couleur@,
        s.libelle@,
    )
}

/// Lignes des comptes du personnel.
pub open spec fn lignes_staff(l: Seq<Staff>, maintenant: i64) -> Seq<char>
    decreases l.len(),
{
    if l.len() == 0 { Seq::empty() } else { lignes_staff(l.drop_last(), maintenant) + ligne_staff(l.last(), maintenant) }
}

/// Bloc du personnel : quatre comptes au plus, ou un avertissement.
pub open spec fn bloc_staff(d: DonneesAdmin) -> Seq<char> {
    let v = staff_visibles(d.staff@, voit_fondateur(d.privilege));
    if !evt(d.evenements, "admins"@) {
        Seq::empty()
    } else if v.len() == 0 {
        ligne_info_de(
            "user-shield"@,
            "Aucun administrateur"@,
            "Aucun compte de privilege 1 a 3"@,
            etiquette_de("Attention"@, "#f59e0b"@),
            Seq::empty(),
            Seq::empty(),
        )
    } else {
        lignes_staff(crate::utils::prendre(v, 4), d.maintenant)
    }
}

/// Étiquettes d'état du serveur.
pub open spec fn badges_etat(d: DonneesAdmin) -> Seq<char> {
    let b = (if d.maintenance { etiquette_de("Maintenance"@, "alerte"@) } else { Seq::empty() }) + (if d.debug {
        etiquette_de("Debug"@, "attention"@)
    } else {
        Seq::empty()
    });
    (if b.len() == 0 { etiquette_de("Normal"@, "ok"@) } else { b }) + horodatage_de(d.ts_config, d.maintenant)
}

/// Ligne d'état du serveur.
pub open spec fn bloc_etat(d: DonneesAdmin) -> Seq<char> {
    if evt(d.evenements, "etat"@) {
        ligne_info_de(
            "server"@,
            "Etat du serveur"@,
            match d.version {
                Some(v) => v@,
                None => "VEX"@,
            },
            badges_etat(d),
            Seq::empty(),
            Seq::empty(),
        )
    } else {
        Seq::empty()
    }
}

/// Texte du champ `k` d'une information, `defaut` s'il n'en est pas un.
pub open spec fn texte_ou(v: Json, k: Seq<char>, defaut: Seq<char>) -> Seq<char> {
    match crate::json::champ(v, k) {
        Json::Texte(s) => s@,
        _ => defaut,
    }
}

/// Ligne d'une information publiée par l'extension `id`.
pub open spec fn ligne_extension(id: Seq<char>, info: Json, ts_config: i64, maintenant: i64) -> Seq<char> {
    let ts = match crate::json::champ(info, "maj"@) {
        Json::Nombre(n) => n,
        _ => ts_config,
    };
    ligne_info_de(
        texte_ou(info, "icone"@, "puzzle-piece"@),
        texte_ou(info, "label"@, id),
        texte_ou(info, "detail"@, id),
        etiquette_de(texte_ou(info, "valeur"@, Seq::empty()), texte_ou(info, "niveau"@, "info"@)) + horodatage_de(
            ts,
            maintenant,
        ),
        Seq::empty(),
        Seq::empty(),
    )
}

/// Lignes des informations d'une extension (trois au plus).
pub open spec fn lignes_infos(id: Seq<char>, infos: Seq<Json>, ts_config: i64, maintenant: i64) -> Seq<char>
    decreases infos.len(),
{
    if infos.len() == 0 {
        Seq::empty()
    } else {
        lignes_infos(id, infos.drop_last(), ts_config, maintenant) + ligne_extension(id, infos.last(), ts_config, maintenant)
    }
}

/// Lignes de toutes les extensions, dans l'ordre.
pub open spec fn lignes_extensions(e: Seq<ExtensionInfos>, ts_config: i64, maintenant: i64) -> Seq<char>
    decreases e.len(),
{
    if e.len() == 0 {
        Seq::empty()
    } else {
        lignes_extensions(e.drop_last(), ts_config, maintenant) + match e.last().admin_infos {
            Some(a) => lignes_infos(e.last().id@, crate::utils::prendre(a@, 3), ts_config, maintenant),
            None => Seq::empty(),
        }
    }
}

/// Bloc des extensions.
pub open spec fn bloc_extensions(d: DonneesAdmin) -> Seq<char> {
    if evt(d.evenements, "extensions"@) { lignes_extensions(d.extensions@, d.ts_config, d.maintenant) } else { Seq::empty() }
}

/// Ligne d'une connexion active.
pub open spec fn ligne_connexion(c: Connexion, maintenant: i64) -> Seq<char> {
    "<div class=\"log-item\">\n                    <div class=\"item-left\">\n                        <i class=\"fas fa-user-shield item-icon\"></i>\n                        <div class=\"item-info\">\n                            <div class=\"item-title\">"@ + he(c.nom@) + "</div>\n                            <div class=\"item-subtitle\">"@ + he(c.email@) + " — IP: "@ + he(c.pc@) + "</div>\n                        </div>\n                    </div>\n                    <div class=\"item-right\">\n                        <span class=\"item-badge badge-success\">Actif</span>\n                        <span class=\"item-time\" data-ts=\""@ + decimal_signe(ts_de(c.datecra@) as int) + "\">"@ + il_y_a(c.datecra@, maintenant) + "</span>\n                    </div>\n                </div>"@
}

/// Lignes des connexions actives.
pub open spec fn lignes_connexions(l: Seq<Connexion>, maintenant: i64) -> Seq<char>
    decreases l.len(),
{
    if l.len() == 0 { Seq::empty() } else { lignes_connexions(l.drop_last(), maintenant) + ligne_connexion(l.last(), maintenant) }
}

/// Bloc des connexions actives.
pub open spec fn bloc_connexions(d: DonneesAdmin) -> Seq<char> {
    if !evt(d.evenements, "connexions"@) {
        Seq::empty()
    } else if logs(d).len() == 0 {
        "<div class=\"empty-state\"><i class=\"fas fa-clipboard-list\"></i><p>Aucune connexion active</p></div>"@
    } else {
        lignes_connexions(logs(d), d.maintenant)
    }
}

/// Pied de la tuile : lien vers les journaux et heure de mise à jour.
pub open spec fn pied_admin(maintenant: i64) -> Seq<char> {
    "<div class=\"show-more\" style=\"display:flex;align-items:center;justify-content:space-between;gap:10px\">\n            <a href=\"/admin/\"><i class=\"fas fa-chevron-right\"></i> Tous les logs</a>\n            <span class=\"item-time\" data-ts=\""@ + decimal_signe(maintenant as int) + "\" title=\"Rafraichissement automatique toutes les 30 s\">Mis a jour "@ + he(depuis(maintenant, maintenant)) + "</span>\n        </div>"@
}

/// Contenu de la tuile d'administration.
pub open spec fn contenu_admin(d: DonneesAdmin) -> Seq<char> {
    let brut = bloc_stats(d) + bloc_staff(d) + bloc_etat(d) + bloc_extensions(d) + bloc_connexions(d);
    (if rogner(brut).len() == 0 { "<div class=\"empty-state\"><i class=\"fas fa-eye-slash\"></i><p>Aucun evenement selectionne — reglez l'affichage dans Mon compte.</p></div>"@ } else { brut }) + pied_admin(d.maintenant)
}

/// Tuile d'administration.
pub open spec fn carte_admin(d: DonneesAdmin) -> Seq<char> {
    let contenu = contenu_admin(d);
    "<div class=\"card\" data-tuile=\"admin\" id=\"carte-admin\">\n            <div class=\"card-header\">\n                <div class=\"card-icon\" style=\"background:rgba(211,47,47,0.1);color:#d32f2f;\">\n                    <i class=\"fas fa-shield-alt\"></i>\n                </div>\n                <div class=\"card-header-text\">\n                    <div class=\"card-title\">Administration</div>\n                    <div class=\"card-subtitle\">Etat du service</div>\n                </div>\n                <a href=\"/admin/\" class=\"btn-action\"><i class=\"fas fa-cog\"></i> Gérer</a>\n            </div>\n            <div class=\"card-content\">"@ + contenu + "</div>\n        </div>"@
}


fn fondateurs_exec(d: &DonneesAdmin) -> (r: Vec<String>)
    ensures
        r@.map_values(|e: String| e@) == fondateurs(*d),
{
    let mut r: Vec<String> = Vec::new();
    if d.privilege <= 1 {
        assert(r@.map_values(|e: String| e@) =~= fondateurs(*d));
        return r;
    }
    let mut i: usize = 0;
    while i < d.emails_fondateur.len()
        invariant
            i <= d.emails_fondateur.len(),
            r@.map_values(|e: String| e@) =~= d.emails_fondateur@.subrange(0, i as int).map_values(
                |e: String| crate::connexion::minuscules_unicode(e@),
            ),
        decreases d.emails_fondateur.len() - i,
    {
        let ghost a = r@.map_values(|e: String| e@);
        r.push(crate::connexion::en_minuscules_unicode(d.emails_fondateur[i].as_str()));
        assert(r@.map_values(|e: String| e@) =~= a.push(crate::connexion::minuscules_unicode(d.emails_fondateur@[i as int]@)));
        i += 1;
    }
    assert(d.emails_fondateur@.subrange(0, i as int) =~= d.emails_fondateur@);
    r
}

fn parmi_chaines(l: &Vec<String>, s: &str) -> (r: bool)
    ensures
        r == l@.map_values(|e: String| e@).contains(s@),
{
    let sc = caracteres(s);
    let ghost vl = l@.map_values(|e: String| e@);
    let mut i: usize = 0;
    while i < l.len()
        invariant
            i <= l.len(),
            sc@ == s@,
            vl == l@.map_values(|e: String| e@),
            forall|j: int| 0 <= j < i ==> vl[j] != s@,
        decreases l.len() - i,
    {
        if crate::texte::egales(&caracteres(l[i].as_str()), &sc) {
            assert(vl[i as int] == s@);
            return true;
        }
        i += 1;
    }
    false
}

fn gardee(c: &Connexion, maintenant: i64, voit: bool, fond: &Vec<String>) -> (r: bool)
    ensures
        r == connexion_gardee(*c, maintenant, voit, fond@.map_values(|e: String| e@)),
{
    let ts = ts_de_date(c.datecra.as_str());
    let recente = (maintenant as i128) - (ts as i128) < 3600;
    recente && (voit || !parmi_chaines(fond, crate::connexion::en_minuscules_unicode(c.email.as_str()).as_str()))
}

proof fn lemme_gardees_prefixe(l: Seq<Connexion>, i: int, m: i64, v: bool, f: Seq<Seq<char>>)
    requires
        0 <= i <= l.len(),
    ensures
        connexions_gardees(l.subrange(0, i), m, v, f).len() <= connexions_gardees(l, m, v, f).len(),
        connexions_gardees(l.subrange(0, i), m, v, f) == connexions_gardees(l, m, v, f).subrange(
            0,
            connexions_gardees(l.subrange(0, i), m, v, f).len() as int,
        ),
    decreases l.len() - i,
{
    if i == l.len() {
        assert(l.subrange(0, i) =~= l);
    } else {
        lemme_gardees_prefixe(l, i + 1, m, v, f);
        assert(l.subrange(0, i + 1).drop_last() =~= l.subrange(0, i));
    }
}

fn ajouter_ligne_connexion(o: &mut Vec<char>, c: &Connexion, maintenant: i64)
    ensures
        final(o)@ == old(o)@ + ligne_connexion(*c, maintenant),
{
    let ghost a = o@;
    ajouter(o, "<div class=\"log-item\">\n                    <div class=\"item-left\">\n                        <i class=\"fas fa-user-shield item-icon\"></i>\n                        <div class=\"item-info\">\n                            <div class=\"item-title\">");
    ajouter_he(o, c.nom.as_str());
    ajouter(o, "</div>\n                            <div class=\"item-subtitle\">");
    ajouter_he(o, c.email.as_str());
    ajouter(o, " — IP: ");
    ajouter_he(o, c.pc.as_str());
    ajouter(o, "</div>\n                        </div>\n                    </div>\n                    <div class=\"item-right\">\n                        <span class=\"item-badge badge-success\">Actif</span>\n                        <span class=\"item-time\" data-ts=\"");
    ajouter_decimal_signe(o, ts_de_date(c.datecra.as_str()));
    ajouter(o, "\">");
    ajouter_car(o, &time_ago(c.datecra.as_str(), maintenant));
    ajouter(o, "</span>\n                    </div>\n                </div>");
    assert(o@ =~= a + ligne_connexion(*c, maintenant));
}

/// Lignes des connexions affichées et leur nombre.
fn connexions_affichees(d: &DonneesAdmin, fond: &Vec<String>) -> (r: (Vec<char>, usize))
    requires
        fond@.map_values(|e: String| e@) == fondateurs(*d),
    ensures
        r.0@ == lignes_connexions(logs(*d), d.maintenant),
        r.1 == logs(*d).len(),
{
    let voit = d.privilege <= 1;
    let ghost f = fondateurs(*d);
    let ghost l = d.connexions@;
    let mut o: Vec<char> = Vec::new();
    let mut k: usize = 0;
    let mut i: usize = 0;
    assert(l.subrange(0, 0) =~= Seq::<Connexion>::empty());
    while i < d.connexions.len() && k < 5
        invariant
            i <= d.connexions.len(),
            l == d.connexions@,
            voit == voit_fondateur(d.privilege),
            f == fondateurs(*d),
            fond@.map_values(|e: String| e@) == f,
            k <= 5,
            k == connexions_gardees(l.subrange(0, i as int), d.maintenant, voit, f).len(),
            o@ == lignes_connexions(connexions_gardees(l.subrange(0, i as int), d.maintenant, voit, f), d.maintenant),
        decreases d.connexions.len() - i,
    {
        assert(l.subrange(0, i + 1).drop_last() =~= l.subrange(0, i as int));
        if gardee(&d.connexions[i], d.maintenant, voit, fond) {
            let ghost g = connexions_gardees(l.subrange(0, i as int), d.maintenant, voit, f);
            ajouter_ligne_connexion(&mut o, &d.connexions[i], d.maintenant);
            assert(g.push(l[i as int]).drop_last() =~= g);
            k += 1;
        }
        i += 1;
    }
    proof {
        lemme_gardees_prefixe(l, i as int, d.maintenant, voit, f);
        if i == d.connexions.len() {
            assert(l.subrange(0, i as int) =~= l);
        }
        let g = connexions_gardees(l, d.maintenant, voit, f);
        assert(crate::utils::prendre(g, 5) =~= connexions_gardees(l.subrange(0, i as int), d.maintenant, voit, f));
    }
    (o, k)
}

/// Le compte du personnel est-il affiché ?
pub fn staff_affiche(s: &Staff, privilege: i64) -> (r: bool)
    ensures
        r == staff_visible(*s, voit_fondateur(privilege)),
{
    let p = match s.privilege {
        Some(p) => p,
        None => 99,
    };
    p <= 3 && (p != 1 || privilege <= 1)
}

proof fn lemme_staff_prefixe(l: Seq<Staff>, i: int, v: bool)
    requires
        0 <= i <= l.len(),
    ensures
        staff_visibles(l.subrange(0, i), v).len() <= staff_visibles(l, v).len(),
        staff_visibles(l.subrange(0, i), v) == staff_visibles(l, v).subrange(0, staff_visibles(l.subrange(0, i), v).len() as int),
    decreases l.len() - i,
{
    if i == l.len() {
        assert(l.subrange(0, i) =~= l);
    } else {
        lemme_staff_prefixe(l, i + 1, v);
        assert(l.subrange(0, i + 1).drop_last() =~= l.subrange(0, i));
    }
}

fn ajouter_staff(o: &mut Vec<char>, d: &DonneesAdmin)
    ensures
        final(o)@ == old(o)@ + bloc_staff(*d),
{
    if !evt_actif(&d.evenements, "admins") {
        assert(o@ =~= old(o)@ + bloc_staff(*d));
        return;
    }
    let ghost a = o@;
    let ghost voit = voit_fondateur(d.privilege);
    let ghost l = d.staff@;
    let mut lignes: Vec<char> = Vec::new();
    let mut k: usize = 0;
    let mut i: usize = 0;
    assert(l.subrange(0, 0) =~= Seq::<Staff>::empty());
    while i < d.staff.len() && k < 4
        invariant
            i <= d.staff.len(),
            l == d.staff@,
            voit == voit_fondateur(d.privilege),
            k <= 4,
            k == staff_visibles(l.subrange(0, i as int), voit).len(),
            lignes@ == lignes_staff(staff_visibles(l.subrange(0, i as int), voit), d.maintenant),
        decreases d.staff.len() - i,
    {
        assert(l.subrange(0, i + 1).drop_last() =~= l.subrange(0, i as int));
        let s = &d.staff[i];
        if staff_affiche(s, d.privilege) {
            let ghost g = staff_visibles(l.subrange(0, i as int), voit);
            let mut droite: Vec<char> = Vec::new();
            if s.derniere > 0 {
                horodatage(&mut droite, s.derniere, d.maintenant);
            } else {
                ajouter(&mut droite, "<span class=\"item-time\">jamais connecte</span>");
            }
            ligne_info_coloree(
                &mut lignes,
                "user-shield",
                s.nom.as_str(),
                s.email.as_str(),
                chaine_de(&droite).as_str(),
                s.couleur.as_str(),
                s.libelle.as_str(),
            );
            assert(g.push(l[i as int]).drop_last() =~= g);
            k += 1;
        }
        i += 1;
    }
    proof {
        lemme_staff_prefixe(l, i as int, voit);
        if i == d.staff.len() {
            assert(l.subrange(0, i as int) =~= l);
        }
        let g = staff_visibles(l, voit);
        assert(crate::utils::prendre(g, 4) =~= staff_visibles(l.subrange(0, i as int), voit));
    }
    if k == 0 {
        let mut e: Vec<char> = Vec::new();
        etiquette(&mut e, "Attention", "#f59e0b");
        ligne_info(o, "user-shield", "Aucun administrateur", "Aucun compte de privilege 1 a 3", chaine_de(&e).as_str());
    } else {
        ajouter_car(o, &lignes);
    }
    assert(o@ =~= a + bloc_staff(*d));
}

fn texte_ou_exec<'a>(v: &'a Json, k: &str, defaut: &'a str) -> (r: &'a str)
    ensures
        r@ == texte_ou(*v, k@, defaut@),
{
    match valeur_de(v, k) {
        Some(Json::Texte(s)) => s.as_str(),
        _ => defaut,
    }
}

fn ajouter_ligne_extension(o: &mut Vec<char>, id: &str, info: &Json, ts_config: i64, maintenant: i64)
    ensures
        final(o)@ == old(o)@ + ligne_extension(id@, *info, ts_config, maintenant),
{
    let ts = match valeur_de(info, "maj") {
        Some(Json::Nombre(n)) => *n,
        _ => ts_config,
    };
    let mut droite: Vec<char> = Vec::new();
    etiquette(&mut droite, texte_ou_exec(info, "valeur", ""), texte_ou_exec(info, "niveau", "info"));
    horodatage(&mut droite, ts, maintenant);
    proof {
        reveal_strlit("");
        assert(""@ =~= Seq::<char>::empty());
    }
    ligne_info(
        o,
        texte_ou_exec(info, "icone", "puzzle-piece"),
        texte_ou_exec(info, "label", id),
        texte_ou_exec(info, "detail", id),
        chaine_de(&droite).as_str(),
    );
}

fn ajouter_extensions(o: &mut Vec<char>, e: &Vec<ExtensionInfos>, ts_config: i64, maintenant: i64)
    ensures
        final(o)@ == old(o)@ + lignes_extensions(e@, ts_config, maintenant),
{
    let ghost a = o@;
    let mut i: usize = 0;
    assert(e@.subrange(0, 0) =~= Seq::<ExtensionInfos>::empty());
    while i < e.len()
        invariant
            i <= e.len(),
            o@ =~= a + lignes_extensions(e@.subrange(0, i as int), ts_config, maintenant),
        decreases e.len() - i,
    {
        assert(e@.subrange(0, i + 1).drop_last() =~= e@.subrange(0, i as int));
        match &e[i].admin_infos {
            Some(infos) => {
                let n: usize = if infos.len() < 3 { infos.len() } else { 3 };
                let ghost p = crate::utils::prendre(infos@, 3);
                assert(p =~= infos@.subrange(0, n as int));
                let ghost b = o@;
                let mut j: usize = 0;
                assert(p.subrange(0, 0) =~= Seq::<Json>::empty());
                while j < n
                    invariant
                        i < e.len(),
                        j <= n <= infos.len(),
                        p == infos@.subrange(0, n as int),
                        o@ =~= b + lignes_infos(e@[i as int].id@, p.subrange(0, j as int), ts_config, maintenant),
                    decreases n - j,
                {
                    assert(p.subrange(0, j + 1).drop_last() =~= p.subrange(0, j as int));
                    ajouter_ligne_extension(o, e[i].id.as_str(), &infos[j], ts_config, maintenant);
                    j += 1;
                }
                assert(p.subrange(0, n as int) =~= p);
            },
            None => {},
        }
        i += 1;
    }
    assert(e@.subrange(0, e@.len() as int) =~= e@);
}

fn ajouter_stats(c: &mut Vec<char>, d: &DonneesAdmin, n: usize)
    requires
        n == logs(*d).len(),
    ensures
        final(c)@ == old(c)@ + bloc_stats(*d),
{
    let ghost a = c@;
    let maintenant = d.maintenant;
    if evt_actif(&d.evenements, "stats") {
        let mut sous: Vec<char> = Vec::new();
        ajouter_decimal(&mut sous, d.nb_comptes as u128);
        ajouter(&mut sous, " comptes — ");
        ajouter_decimal(&mut sous, d.nb_fichiers as u128);
        ajouter(&mut sous, " fichiers — ");
        ajouter_decimal(&mut sous, d.nb_pages as u128);
        ajouter(&mut sous, " pages");
        let mut sessions: Vec<char> = Vec::new();
        ajouter_decimal(&mut sessions, n as u128);
        ajouter(&mut sessions, " session");
        if n > 1 {
            ajouter(&mut sessions, "s");
        }
        assert(sessions@ =~= decimal(n as nat) + " session"@ + (if n > 1 { "s"@ } else { Seq::empty() }));
        let mut droite: Vec<char> = Vec::new();
        etiquette(&mut droite, chaine_de(&sessions).as_str(), "info");
        horodatage(&mut droite, maintenant, maintenant);
        ligne_info(c, "chart-simple", "Vue d'ensemble", chaine_de(&sous).as_str(), chaine_de(&droite).as_str());
    }
    assert(c@ =~= a + bloc_stats(*d));
}

fn ajouter_etat(c: &mut Vec<char>, d: &DonneesAdmin)
    ensures
        final(c)@ == old(c)@ + bloc_etat(*d),
{
    let ghost a = c@;
    if evt_actif(&d.evenements, "etat") {
        let mut b: Vec<char> = Vec::new();
        if d.maintenance {
            etiquette(&mut b, "Maintenance", "alerte");
        }
        if d.debug {
            etiquette(&mut b, "Debug", "attention");
        }
        if b.len() == 0 {
            etiquette(&mut b, "Normal", "ok");
        }
        horodatage(&mut b, d.ts_config, d.maintenant);
        assert(b@ =~= badges_etat(*d));
        let version = match &d.version {
            Some(v) => v.as_str(),
            None => "VEX",
        };
        ligne_info(c, "server", "Etat du serveur", version, chaine_de(&b).as_str());
    }
    assert(c@ =~= a + bloc_etat(*d));
}

fn ajouter_connexions(c: &mut Vec<char>, d: &DonneesAdmin, lignes: &Vec<char>, n: usize)
    requires
        n == logs(*d).len(),
        lignes@ == lignes_connexions(logs(*d), d.maintenant),
    ensures
        final(c)@ == old(c)@ + bloc_connexions(*d),
{
    let ghost a = c@;
    if evt_actif(&d.evenements, "connexions") {
        if n == 0 {
            ajouter(c, "<div class=\"empty-state\"><i class=\"fas fa-clipboard-list\"></i><p>Aucune connexion active</p></div>");
        } else {
            ajouter_car(c, lignes);
        }
    }
    assert(c@ =~= a + bloc_connexions(*d));
}

/// Tuile d'administration du tableau de bord (voir `carte_admin`) : chiffres
/// clés, personnel, état du serveur, informations des extensions,
/// connexions de la dernière heure (cinq au plus), selon les événements
/// suivis ; le fondateur n'est visible que du fondateur.
#[verifier::spinoff_prover]
#[verifier::rlimit(60)]
pub fn build_admin_card(d: &DonneesAdmin) -> (r: String)
    ensures
        r@ == carte_admin(*d),
{
    let fond = fondateurs_exec(d);
    let (lignes_cx, n) = connexions_affichees(d, &fond);
    let maintenant = d.maintenant;
    let mut c: Vec<char> = Vec::new();
    ajouter_stats(&mut c, d, n);
    ajouter_staff(&mut c, d);
    ajouter_etat(&mut c, d);
    let ghost c3 = c@;
    if evt_actif(&d.evenements, "extensions") {
        ajouter_extensions(&mut c, &d.extensions, d.ts_config, maintenant);
    }
    assert(c@ =~= c3 + bloc_extensions(*d));
    ajouter_connexions(&mut c, d, &lignes_cx, n);
    assert(c@ =~= bloc_stats(*d) + bloc_staff(*d) + bloc_etat(*d) + bloc_extensions(*d) + bloc_connexions(*d));
    let mut contenu: Vec<char> = if rogne(&c).len() == 0 {
        caracteres("<div class=\"empty-state\"><i class=\"fas fa-eye-slash\"></i><p>Aucun evenement selectionne — reglez l'affichage dans Mon compte.</p></div>")
    } else {
        c
    };
    ajouter(&mut contenu, "<div class=\"show-more\" style=\"display:flex;align-items:center;justify-content:space-between;gap:10px\">\n            <a href=\"/admin/\"><i class=\"fas fa-chevron-right\"></i> Tous les logs</a>\n            <span class=\"item-time\" data-ts=\"");
    ajouter_decimal_signe(&mut contenu, maintenant);
    ajouter(&mut contenu, "\" title=\"Rafraichissement automatique toutes les 30 s\">Mis a jour ");
    ajouter_he(&mut contenu, chaine_de(&depuis_texte(maintenant, maintenant)).as_str());
    ajouter(&mut contenu, "</span>\n        </div>");
    assert(contenu@ =~= contenu_admin(*d));
    let mut o: Vec<char> = Vec::new();
    ajouter(&mut o, "<div class=\"card\" data-tuile=\"admin\" id=\"carte-admin\">\n            <div class=\"card-header\">\n                <div class=\"card-icon\" style=\"background:rgba(211,47,47,0.1);color:#d32f2f;\">\n                    <i class=\"fas fa-shield-alt\"></i>\n                </div>\n                <div class=\"card-header-text\">\n                    <div class=\"card-title\">Administration</div>\n                    <div class=\"card-subtitle\">Etat du service</div>\n                </div>\n                <a href=\"/admin/\" class=\"btn-action\"><i class=\"fas fa-cog\"></i> Gérer</a>\n            </div>\n            <div class=\"card-content\">");
    ajouter_car(&mut o, &contenu);
    ajouter(&mut o, "</div>\n        </div>");
    assert(o@ =~= carte_admin(*d));
    chaine_de(&o)
}


// ══════════════════════════════════════════════════════════════════
// Tuiles des extensions
// ══════════════════════════════════════════════════════════════════

/// Une extension active et sa configuration.
pub struct ExtensionTuile {
    pub id: String,
    pub config: Json,
}

/// Droite d'une ligne de tuile : étiquette puis temps, s'ils sont donnés.
pub open spec fn droite_ligne(l: Json, couleur: Seq<char>) -> Seq<char> {
    let badge = texte_ou(l, "badge"@, Seq::empty());
    let temps = texte_ou(l, "temps"@, Seq::empty());
    (if badge.len() == 0 { Seq::empty() } else { etiquette_de(badge, couleur) }) + (if temps.len() == 0 {
        Seq::empty()
    } else {
        "<span class=\"item-time\">"@ + he(temps) + "</span>"@
    })
}

/// Ligne d'une tuile d'extension.
pub open spec fn ligne_tuile(l: Json, icone: Seq<char>, couleur: Seq<char>) -> Seq<char> {
    ligne_info_de(
        texte_ou(l, "icone"@, icone),
        texte_ou(l, "titre"@, Seq::empty()),
        texte_ou(l, "sous_titre"@, Seq::empty()),
        droite_ligne(l, couleur),
        Seq::empty(),
        Seq::empty(),
    )
}

/// Lignes d'une tuile d'extension.
pub open spec fn lignes_tuile(l: Seq<Json>, icone: Seq<char>, couleur: Seq<char>) -> Seq<char>
    decreases l.len(),
{
    if l.len() == 0 { Seq::empty() } else { lignes_tuile(l.drop_last(), icone, couleur) + ligne_tuile(l.last(), icone, couleur) }
}

/// Tuile d'une extension, si sa configuration en déclare une
/// (`dashboard_tile` objet) ; cinq lignes au plus.
pub open spec fn tuile_extension(e: ExtensionTuile) -> Seq<char> {
    let t = crate::json::champ(e.config, "dashboard_tile"@);
    if !(t is Objet) {
        Seq::empty()
    } else {
        tuile_de(e.id@, t)
    }
}

/// Lignes d'une tuile déclarée `t`, ou « rien à afficher ».
pub open spec fn lignes_de(t: Json) -> Seq<char> {
    let icone = texte_ou(t, "icone"@, "puzzle-piece"@);
    let couleur = texte_ou(t, "couleur"@, "#3b82f6"@);
    let l = lignes_tuile(crate::utils::prendre(crate::json::elements(t, "lignes"@), 5), icone, couleur);
    if l.len() == 0 { "<div class=\"empty-state\"><i class=\"fas fa-puzzle-piece\"></i><p>Rien a afficher</p></div>"@ } else { l }
}

/// Tuile déclarée `t` de l'extension `id`.
pub open spec fn tuile_de(id: Seq<char>, t: Json) -> Seq<char> {
    {
        let titre = texte_ou(t, "titre"@, id);
        let sous = texte_ou(t, "sous_titre"@, Seq::empty());
        let icone = texte_ou(t, "icone"@, "puzzle-piece"@);
        let couleur = texte_ou(t, "couleur"@, "#3b82f6"@);
        let url = texte_ou(t, "url"@, "/ext/"@ + id);
        let lignes = lignes_de(t);
        "<div class=\"card\" data-tuile=\"ext_"@ + he(id) + "\">\n                <div class=\"card-header\">\n                    <div class=\"card-icon\" style=\"background:"@ + he(couleur) + "1a;color:"@ + he(couleur) + ";\">\n                        <i class=\"fas fa-"@ + he(icone) + "\"></i>\n                    </div>\n                    <div class=\"card-header-text\">\n                        <div class=\"card-title\">"@ + he(titre) + "</div>\n                        <div class=\"card-subtitle\">"@ + he(sous) + "</div>\n                    </div>\n                    <a href=\""@ + he(url) + "\" class=\"btn-action\"><i class=\"fas fa-arrow-right\"></i> Ouvrir</a>\n                </div>\n                <div class=\"card-content\">"@ + lignes + "</div>\n            </div>"@
    }
}

/// Tuiles de toutes les extensions, dans l'ordre.
pub open spec fn tuiles_extensions(e: Seq<ExtensionTuile>) -> Seq<char>
    decreases e.len(),
{
    if e.len() == 0 { Seq::empty() } else { tuiles_extensions(e.drop_last()) + tuile_extension(e.last()) }
}

fn ajouter_ligne_tuile(o: &mut Vec<char>, l: &Json, icone: &str, couleur: &str)
    ensures
        final(o)@ == old(o)@ + ligne_tuile(*l, icone@, couleur@),
{
    let badge = texte_ou_exec(l, "badge", "");
    let temps = texte_ou_exec(l, "temps", "");
    let mut droite: Vec<char> = Vec::new();
    proof {
        reveal_strlit("");
        assert(""@ =~= Seq::<char>::empty());
    }
    if caracteres(badge).len() > 0 {
        etiquette(&mut droite, badge, couleur);
    }
    if caracteres(temps).len() > 0 {
        ajouter(&mut droite, "<span class=\"item-time\">");
        ajouter_he(&mut droite, temps);
        ajouter(&mut droite, "</span>");
    }
    assert(droite@ =~= droite_ligne(*l, couleur@));
    ligne_info(
        o,
        texte_ou_exec(l, "icone", icone),
        texte_ou_exec(l, "titre", ""),
        texte_ou_exec(l, "sous_titre", ""),
        chaine_de(&droite).as_str(),
    );
}

proof fn lemme_tuile_de(
    id: Seq<char>,
    t: Json,
    titre: Seq<char>,
    sous: Seq<char>,
    icone: Seq<char>,
    couleur: Seq<char>,
    url: Seq<char>,
    lignes: Seq<char>,
)
    requires
        titre == texte_ou(t, "titre"@, id),
        sous == texte_ou(t, "sous_titre"@, Seq::empty()),
        icone == texte_ou(t, "icone"@, "puzzle-piece"@),
        couleur == texte_ou(t, "couleur"@, "#3b82f6"@),
        url == texte_ou(t, "url"@, "/ext/"@ + id),
        lignes == lignes_de(t),
    ensures
        tuile_de(id, t) == "<div class=\"card\" data-tuile=\"ext_"@ + he(id) + "\">\n                <div class=\"card-header\">\n                    <div class=\"card-icon\" style=\"background:"@ + he(couleur) + "1a;color:"@ + he(couleur) + ";\">\n                        <i class=\"fas fa-"@ + he(icone) + "\"></i>\n                    </div>\n                    <div class=\"card-header-text\">\n                        <div class=\"card-title\">"@ + he(titre) + "</div>\n                        <div class=\"card-subtitle\">"@ + he(sous) + "</div>\n                    </div>\n                    <a href=\""@ + he(url) + "\" class=\"btn-action\"><i class=\"fas fa-arrow-right\"></i> Ouvrir</a>\n                </div>\n                <div class=\"card-content\">"@ + lignes + "</div>\n            </div>"@,
{
}

fn lignes_de_tuile(t: &Json) -> (r: Vec<char>)
    ensures
        r@ == lignes_de(*t),
{
    let icone = texte_ou_exec(t, "icone", "puzzle-piece");
    let couleur = texte_ou_exec(t, "couleur", "#3b82f6");
    let l = crate::json::elements_de(t, "lignes");
    let n: usize = if l.len() < 5 { l.len() } else { 5 };
    let ghost p = crate::utils::prendre(l@, 5);
    assert(p =~= l@.subrange(0, n as int));
    let mut lignes: Vec<char> = Vec::new();
    let mut j: usize = 0;
    assert(p.subrange(0, 0) =~= Seq::<Json>::empty());
    while j < n
        invariant
            j <= n <= l.len(),
            p == l@.subrange(0, n as int),
            lignes@ =~= lignes_tuile(p.subrange(0, j as int), icone@, couleur@),
        decreases n - j,
    {
        assert(p.subrange(0, j + 1).drop_last() =~= p.subrange(0, j as int));
        ajouter_ligne_tuile(&mut lignes, &l[j], icone, couleur);
        j += 1;
    }
    assert(p.subrange(0, n as int) =~= p);
    if lignes.len() == 0 {
        lignes = caracteres("<div class=\"empty-state\"><i class=\"fas fa-puzzle-piece\"></i><p>Rien a afficher</p></div>");
    }
    lignes
}

fn url_tuile(t: &Json, id: &str) -> (r: Vec<char>)
    ensures
        r@ == texte_ou(*t, "url"@, "/ext/"@ + id@),
{
    let mut defaut_url: Vec<char> = Vec::new();
    ajouter(&mut defaut_url, "/ext/");
    ajouter(&mut defaut_url, id);
    assert(defaut_url@ =~= "/ext/"@ + id@);
    match valeur_de(t, "url") {
        Some(Json::Texte(u)) => caracteres(u.as_str()),
        _ => defaut_url,
    }
}

fn assembler_tuile(
    o: &mut Vec<char>,
    id: &str,
    titre: &str,
    sous: &str,
    icone: &str,
    couleur: &str,
    url: &Vec<char>,
    lignes: &Vec<char>,
)
    ensures
        final(o)@ == old(o)@ + ("<div class=\"card\" data-tuile=\"ext_"@ + he(id@) + "\">\n                <div class=\"card-header\">\n                    <div class=\"card-icon\" style=\"background:"@ + he(couleur@) + "1a;color:"@ + he(couleur@) + ";\">\n                        <i class=\"fas fa-"@ + he(icone@) + "\"></i>\n                    </div>\n                    <div class=\"card-header-text\">\n                        <div class=\"card-title\">"@ + he(titre@) + "</div>\n                        <div class=\"card-subtitle\">"@ + he(sous@) + "</div>\n                    </div>\n                    <a href=\""@ + he(url@) + "\" class=\"btn-action\"><i class=\"fas fa-arrow-right\"></i> Ouvrir</a>\n                </div>\n                <div class=\"card-content\">"@ + lignes@ + "</div>\n            </div>"@),
{
    let ghost a = o@;
    ajouter(o, "<div class=\"card\" data-tuile=\"ext_");
    ajouter_he(o, id);
    ajouter(o, "\">\n                <div class=\"card-header\">\n                    <div class=\"card-icon\" style=\"background:");
    ajouter_he(o, couleur);
    ajouter(o, "1a;color:");
    ajouter_he(o, couleur);
    ajouter(o, ";\">\n                        <i class=\"fas fa-");
    ajouter_he(o, icone);
    ajouter(o, "\"></i>\n                    </div>\n                    <div class=\"card-header-text\">\n                        <div class=\"card-title\">");
    ajouter_he(o, titre);
    ajouter(o, "</div>\n                        <div class=\"card-subtitle\">");
    ajouter_he(o, sous);
    ajouter(o, "</div>\n                    </div>\n                    <a href=\"");
    ajouter_he(o, chaine_de(&url).as_str());
    ajouter(o, "\" class=\"btn-action\"><i class=\"fas fa-arrow-right\"></i> Ouvrir</a>\n                </div>\n                <div class=\"card-content\">");
    ajouter_car(o, &lignes);
    ajouter(o, "</div>\n            </div>");
    assert(o@ =~= a + ("<div class=\"card\" data-tuile=\"ext_"@ + he(id@) + "\">\n                <div class=\"card-header\">\n                    <div class=\"card-icon\" style=\"background:"@ + he(couleur@) + "1a;color:"@ + he(couleur@) + ";\">\n                        <i class=\"fas fa-"@ + he(icone@) + "\"></i>\n                    </div>\n                    <div class=\"card-header-text\">\n                        <div class=\"card-title\">"@ + he(titre@) + "</div>\n                        <div class=\"card-subtitle\">"@ + he(sous@) + "</div>\n                    </div>\n                    <a href=\""@ + he(url@) + "\" class=\"btn-action\"><i class=\"fas fa-arrow-right\"></i> Ouvrir</a>\n                </div>\n                <div class=\"card-content\">"@ + lignes@ + "</div>\n            </div>"@));
}

fn ajouter_tuile_de(o: &mut Vec<char>, id: &str, t: &Json)
    ensures
        final(o)@ == old(o)@ + tuile_de(id@, *t),
{
    let titre = texte_ou_exec(t, "titre", id);
    let sous = texte_ou_exec(t, "sous_titre", "");
    let icone = texte_ou_exec(t, "icone", "puzzle-piece");
    let couleur = texte_ou_exec(t, "couleur", "#3b82f6");
    let url = url_tuile(t, id);
    let lignes = lignes_de_tuile(t);
    proof {
        reveal_strlit("");
        assert(""@ =~= Seq::<char>::empty());
        lemme_tuile_de(id@, *t, titre@, sous@, icone@, couleur@, url@, lignes@);
    }
    assembler_tuile(o, id, titre, sous, icone, couleur, &url, &lignes);
}

fn ajouter_tuile(o: &mut Vec<char>, e: &ExtensionTuile)
    ensures
        final(o)@ == old(o)@ + tuile_extension(*e),
{
    let ghost a = o@;
    match valeur_de(&e.config, "dashboard_tile") {
        Some(t) => {
            match t {
                Json::Objet(_) => {
                    ajouter_tuile_de(o, e.id.as_str(), t);
                },
                _ => {},
            }
        },
        None => {},
    }
    assert(o@ =~= a + tuile_extension(*e));
}

/// Tuiles déclarées par les extensions actives (`dashboard_tile` de leur
/// configuration), lues à chaque affichage.
pub fn build_ext_tiles(extensions: &[ExtensionTuile]) -> (r: String)
    ensures
        r@ == tuiles_extensions(extensions@),
{
    let mut o: Vec<char> = Vec::new();
    let mut i: usize = 0;
    assert(extensions@.subrange(0, 0) =~= Seq::<ExtensionTuile>::empty());
    while i < extensions.len()
        invariant
            i <= extensions.len(),
            o@ =~= tuiles_extensions(extensions@.subrange(0, i as int)),
        decreases extensions.len() - i,
    {
        assert(extensions@.subrange(0, i + 1).drop_last() =~= extensions@.subrange(0, i as int));
        ajouter_tuile(&mut o, &extensions[i]);
        i += 1;
    }
    assert(extensions@.subrange(0, extensions@.len() as int) =~= extensions@);
    chaine_de(&o)
}


// ══════════════════════════════════════════════════════════════════
// Tailles lisibles
// ══════════════════════════════════════════════════════════════════

/// Nombre de bits de `n`.
pub open spec fn nb_bits(n: nat) -> nat
    decreases n,
{
    if n == 0 { 0 } else { 1 + nb_bits(n / 2) }
}

/// 2 puissance `k`.
pub open spec fn puiss2(k: nat) -> nat
    decreases k,
{
    if k == 0 { 1 } else { 2 * puiss2((k - 1) as nat) }
}

/// Valeur du flottant double le plus proche de l'entier `n` (53 bits de
/// mantisse, égalité départagée vers le pair), conversion `as f64`.
pub open spec fn vers_f64(n: nat) -> nat {
    if nb_bits(n) <= 53 {
        n
    } else {
        let s = (nb_bits(n) - 53) as nat;
        let p = puiss2(s);
        let q = n / p;
        let r = n % p;
        (if r * 2 > p || (r * 2 == p && q % 2 == 1) { q + 1 } else { q }) * p
    }
}

/// `x / 2^k` arrondi au centième (égalité départagée vers le pair), en
/// centièmes : l'arrondi exact de `{:.2}`.
pub open spec fn centiemes(x: nat, k: nat) -> nat {
    let p = puiss2(k);
    let a = x * 100;
    let f = a / p;
    let r = a % p;
    if r * 2 > p || (r * 2 == p && f % 2 == 1) { f + 1 } else { f }
}

/// Écriture d'un nombre de centièmes avec deux décimales.
pub open spec fn deux_decimales(c: nat) -> Seq<char> {
    decimal(c / 100) + "."@ + (if c % 100 < 10 { "0"@ } else { Seq::empty() }) + decimal(c % 100)
}

/// Taille lisible : Go, Mo, Ko avec deux décimales, sinon en octets.
pub open spec fn taille_lisible(b: u64) -> Seq<char> {
    if b >= 1073741824 {
        deux_decimales(centiemes(vers_f64(b as nat), 30)) + " GB"@
    } else if b >= 1048576 {
        deux_decimales(centiemes(vers_f64(b as nat), 20)) + " MB"@
    } else if b >= 1024 {
        deux_decimales(centiemes(vers_f64(b as nat), 10)) + " KB"@
    } else {
        decimal(b as nat) + " octets"@
    }
}

proof fn lemme_puiss2_pos(k: nat)
    ensures
        puiss2(k) >= 1,
    decreases k,
{
    if k > 0 {
        lemme_puiss2_pos((k - 1) as nat);
    }
}

proof fn lemme_puiss2_valeurs()
    ensures
        puiss2(11) == 2048,
        puiss2(30) == 0x4000_0000,
        puiss2(64) == 0x1_0000_0000_0000_0000,
{
    reveal_with_fuel(puiss2, 65);
}

proof fn lemme_bits(n: nat)
    ensures
        n < puiss2(nb_bits(n)),
        n > 0 ==> puiss2((nb_bits(n) - 1) as nat) <= n,
    decreases n,
{
    if n > 0 {
        lemme_bits(n / 2);
    }
}

proof fn lemme_bits_borne(n: nat, j: nat)
    requires
        n < puiss2(j),
    ensures
        nb_bits(n) <= j,
    decreases j,
{
    if n > 0 {
        if j == 0 {
            assert(false);
        } else {
            lemme_bits_borne(n / 2, (j - 1) as nat);
        }
    }
}

proof fn lemme_puiss2_croissante(i: nat, j: nat)
    requires
        i <= j,
    ensures
        puiss2(i) <= puiss2(j),
    decreases j,
{
    if i < j {
        lemme_puiss2_croissante(i, (j - 1) as nat);
        lemme_puiss2_pos((j - 1) as nat);
    }
}

fn bits(n: u64) -> (r: u32)
    ensures
        r as nat == nb_bits(n as nat),
        r <= 64,
{
    proof {
        lemme_puiss2_valeurs();
        lemme_bits_borne(n as nat, 64);
    }
    let mut m = n;
    let mut k: u32 = 0;
    while m > 0
        invariant
            nb_bits(n as nat) == k + nb_bits(m as nat),
            nb_bits(n as nat) <= 64,
        decreases m,
    {
        m = m / 2;
        k += 1;
    }
    k
}

fn puissance2(s: u32) -> (p: u128)
    requires
        s <= 30,
    ensures
        p == puiss2(s as nat),
        1 <= p <= 0x4000_0000,
        s <= 11 ==> p <= 2048,
{
    proof {
        lemme_puiss2_valeurs();
    }
    let mut p: u128 = 1;
    let mut i: u32 = 0;
    while i < s
        invariant
            i <= s <= 30,
            p == puiss2(i as nat),
            puiss2(30) == 0x4000_0000,
        decreases s - i,
    {
        proof {
            lemme_puiss2_croissante((i + 1) as nat, 30);
        }
        p = p * 2;
        i += 1;
    }
    proof {
        lemme_puiss2_pos(s as nat);
        lemme_puiss2_croissante(s as nat, 30);
        if s <= 11 {
            lemme_puiss2_croissante(s as nat, 11);
        }
    }
    p
}

pub(crate) fn f64_de(n: u64) -> (r: u128)
    ensures
        r == vers_f64(n as nat),
        r <= 0x1_0000_0000_0000_0000 + 2048,
{
    let nb = bits(n);
    if nb <= 53 {
        return n as u128;
    }
    let s = nb - 53;
    let p = puissance2(s);
    let q = (n as u128) / p;
    let r = (n as u128) % p;
    let q2 = if r * 2 > p || (r * 2 == p && q % 2 == 1) { q + 1 } else { q };
    assert(q * p <= n) by (nonlinear_arith)
        requires
            q == (n as u128) / p,
            p >= 1,
    ;
    assert(q2 * p <= n + p) by (nonlinear_arith)
        requires
            q2 <= q + 1,
            q * p <= n,
    ;
    q2 * p
}

fn centiemes_de(x: u128, k: u32) -> (c: u128)
    requires
        k <= 30,
        x <= 0x1_0000_0000_0000_0000 + 2048,
    ensures
        c == centiemes(x as nat, k as nat),
        c <= (x * 100) + 1,
{
    let p = puissance2(k);
    let a = x * 100;
    let f = a / p;
    let r = a % p;
    assert(f <= a) by (nonlinear_arith)
        requires
            f == a / p,
            p >= 1,
    ;
    if r * 2 > p || (r * 2 == p && f % 2 == 1) { f + 1 } else { f }
}

/// `x / 2^k` arrondi au dixième (égalité départagée vers le pair), en
/// dixièmes : l'arrondi exact de `{:.1}`.
pub open spec fn dixiemes(x: nat, k: nat) -> nat {
    let p = puiss2(k);
    let a = x * 10;
    let f = a / p;
    let r = a % p;
    if r * 2 > p || (r * 2 == p && f % 2 == 1) { f + 1 } else { f }
}

/// Écriture d'un nombre de dixièmes avec une décimale.
pub open spec fn une_decimale(c: nat) -> Seq<char> {
    decimal(c / 10) + "."@ + decimal(c % 10)
}

pub(crate) fn dixiemes_de(x: u128, k: u32) -> (c: u128)
    requires
        k <= 30,
        x <= 0x1_0000_0000_0000_0000 + 2048,
    ensures
        c == dixiemes(x as nat, k as nat),
{
    let p = puissance2(k);
    let a = x * 10;
    let f = a / p;
    let r = a % p;
    assert(f <= a) by (nonlinear_arith)
        requires
            f == a / p,
            p >= 1,
    ;
    if r * 2 > p || (r * 2 == p && f % 2 == 1) { f + 1 } else { f }
}

pub(crate) fn ajouter_une_decimale(o: &mut Vec<char>, c: u128)
    ensures
        final(o)@ == old(o)@ + une_decimale(c as nat),
{
    let ghost a = o@;
    ajouter_decimal(o, c / 10);
    ajouter(o, ".");
    ajouter_decimal(o, c % 10);
}

fn ajouter_deux_decimales(o: &mut Vec<char>, c: u128)
    ensures
        final(o)@ == old(o)@ + deux_decimales(c as nat),
{
    let ghost a = o@;
    ajouter_decimal(o, c / 100);
    ajouter(o, ".");
    if c % 100 < 10 {
        ajouter(o, "0");
    }
    ajouter_decimal(o, c % 100);
    assert(o@ =~= a + deux_decimales(c as nat)) by {
        reveal_strlit("");
    }
}

/// Taille lisible (voir `taille_lisible`) : même texte que l'écriture à
/// deux décimales du quotient flottant.
pub fn format_size(bytes: u64) -> (r: Vec<char>)
    ensures
        r@ == taille_lisible(bytes),
{
    let mut o: Vec<char> = Vec::new();
    if bytes >= 1_024 {
        let x = f64_de(bytes);
        let (k, unite) = if bytes >= 1_073_741_824 {
            (30u32, " GB")
        } else if bytes >= 1_048_576 {
            (20u32, " MB")
        } else {
            (10u32, " KB")
        };
        let c = centiemes_de(x, k);
        ajouter_deux_decimales(&mut o, c);
        ajouter(&mut o, unite);
    } else {
        ajouter_decimal(&mut o, bytes as u128);
        ajouter(&mut o, " octets");
    }
    o
}


// ══════════════════════════════════════════════════════════════════
// Listes du tableau de bord
// ══════════════════════════════════════════════════════════════════

/// Texte qui suit le dernier point du nom (le nom entier s'il n'a pas de
/// point).
pub open spec fn extension_de(nom: Seq<char>) -> Seq<char> {
    nom.subrange(dernier(nom, '.') + 1, nom.len() as int)
}

/// Icône Font Awesome d'une extension déjà en minuscules.
pub open spec fn icone_extension(e: Seq<char>) -> Seq<char> {
    if e == "jpg"@ || e == "jpeg"@ || e == "png"@ || e == "gif"@ {
        "fa-file-image"@
    } else     if e == "mp4"@ || e == "webm"@ {
        "fa-file-video"@
    } else     if e == "pdf"@ {
        "fa-file-pdf"@
    } else     if e == "doc"@ || e == "docx"@ {
        "fa-file-word"@
    } else     if e == "xls"@ || e == "xlsx"@ {
        "fa-file-excel"@
    } else     if e == "zip"@ || e == "rar"@ {
        "fa-file-zipper"@
    } else     if e == "php"@ || e == "js"@ || e == "html"@ {
        "fa-file-code"@
    } else {
        "fa-file"@
    }
}

/// Icône d'un nom de fichier : d'après son extension mise en minuscules.
pub open spec fn icone_fichier(nom: Seq<char>) -> Seq<char> {
    icone_extension(minuscules_unicode(extension_de(nom)))
}

/// Icône d'une extension déjà en minuscules (voir `icone_extension`).
pub fn icone_pour_extension(e: &str) -> (r: &'static str)
    ensures
        r@ == icone_extension(e@),
{
    let c = caracteres(e);
    if egale_lit(&c, "jpg") || egale_lit(&c, "jpeg") || egale_lit(&c, "png") || egale_lit(&c, "gif") {
        "fa-file-image"
    } else     if egale_lit(&c, "mp4") || egale_lit(&c, "webm") {
        "fa-file-video"
    } else     if egale_lit(&c, "pdf") {
        "fa-file-pdf"
    } else     if egale_lit(&c, "doc") || egale_lit(&c, "docx") {
        "fa-file-word"
    } else     if egale_lit(&c, "xls") || egale_lit(&c, "xlsx") {
        "fa-file-excel"
    } else     if egale_lit(&c, "zip") || egale_lit(&c, "rar") {
        "fa-file-zipper"
    } else     if egale_lit(&c, "php") || egale_lit(&c, "js") || egale_lit(&c, "html") {
        "fa-file-code"
    } else {
        "fa-file"
    }
}

/// Icône d'un fichier d'après son nom (voir `icone_fichier`).
pub fn file_icon(nom: &str) -> (r: &'static str)
    ensures
        r@ == icone_fichier(nom@),
{
    let c = caracteres(nom);
    proof { lemme_dernier(nom@, '.'); }
    let debut: usize = match trouver_dernier(&c, '.') {
        Some(i) => i + 1,
        None => 0,
    };
    let ext = chaine_de(&tranche(&c, debut, c.len()));
    let min = en_minuscules_unicode(ext.as_str());
    icone_pour_extension(min.as_str())
}

/// Un fichier de la liste : identifiant, nom, taille en octets, date.
pub struct FichierListe {
    pub id: i64,
    pub nom: String,
    pub taille: u64,
    pub date: String,
}

/// Un message reçu : expéditeur, objet, date.
pub struct MessageListe {
    pub de: String,
    pub objet: String,
    pub date: String,
}

/// Un site : nom, adresse, nombre de vues.
pub struct SiteListe {
    pub nompage: String,
    pub urlpage: String,
    pub popular: u64,
}

/// L'objet affiché d'un message : « (Sans objet) » s'il n'a que des espaces.
pub open spec fn objet_affiche(objet: Seq<char>) -> Seq<char> {
    if rogner(objet).len() == 0 {
        "(Sans objet)"@
    } else {
        objet
    }
}


/// Ligne HTML d'un élément de la liste.
pub open spec fn ligne_fichier(f: FichierListe, maintenant: i64) -> Seq<char> {
    "<div class=\"file-item\" onclick=\"window.location.href='/tel/?id="@ + decimal_signe(f.id as int) + "'\">\n                <div class=\"item-left\">\n                    <i class=\"fas "@ + icone_fichier(f.nom@) + " item-icon\"></i>\n                    <div class=\"item-info\">\n                        <div class=\"item-title\">"@ + he(f.nom@) + "</div>\n                        <div class=\"item-subtitle\">"@ + taille_lisible(f.taille) + "</div>\n                    </div>\n                </div>\n                <div class=\"item-right\">\n                    <span class=\"item-time\">"@ + il_y_a(f.date@, maintenant) + "</span>\n                    <a href=\"/tel/?id="@ + decimal_signe(f.id as int) + "&amp;download=1\" class=\"btn-action\" onclick=\"event.stopPropagation();\"><i class=\"fas fa-download\"></i></a>\n                    <a href=\"/tel/?id="@ + decimal_signe(f.id as int) + "\" class=\"btn-action\" onclick=\"event.stopPropagation();\"><i class=\"fas fa-eye\"></i></a>\n                </div>\n            </div>"@
}

/// Lignes HTML des éléments, dans l'ordre.
pub open spec fn lignes_fichier(s: Seq<FichierListe>, maintenant: i64) -> Seq<char>
    decreases s.len(),
{
    if s.len() == 0 {
        Seq::empty()
    } else {
        lignes_fichier(s.drop_last(), maintenant) + ligne_fichier(s.last(), maintenant)
    }
}

/// La liste complète : un état vide sans élément, sinon les lignes suivies
/// du lien vers la page entière.
pub open spec fn liste_fichier(s: Seq<FichierListe>, maintenant: i64) -> Seq<char> {
    if s.len() == 0 {
        "<div class=\"empty-state\"><i class=\"fas fa-folder-open\"></i><p>Aucun fichier</p></div>"@
    } else {
        lignes_fichier(s, maintenant) + "<div class=\"show-more\"><a href=\"/tel/\"><i class=\"fas fa-chevron-right\"></i> Tous les fichiers</a></div>"@
    }
}

fn ajouter_ligne_fichier(o: &mut Vec<char>, f: &FichierListe, maintenant: i64)
    ensures
        final(o)@ == old(o)@ + ligne_fichier(*f, maintenant),
{
    let ghost a = o@;
    ajouter(o, "<div class=\"file-item\" onclick=\"window.location.href='/tel/?id=");
    ajouter_decimal_signe(o, f.id);
    ajouter(o, "'\">\n                <div class=\"item-left\">\n                    <i class=\"fas ");
    ajouter(o, file_icon(f.nom.as_str()));
    ajouter(o, " item-icon\"></i>\n                    <div class=\"item-info\">\n                        <div class=\"item-title\">");
    ajouter_he(o, f.nom.as_str());
    ajouter(o, "</div>\n                        <div class=\"item-subtitle\">");
    ajouter_car(o, &format_size(f.taille));
    ajouter(o, "</div>\n                    </div>\n                </div>\n                <div class=\"item-right\">\n                    <span class=\"item-time\">");
    ajouter_car(o, &time_ago(f.date.as_str(), maintenant));
    ajouter(o, "</span>\n                    <a href=\"/tel/?id=");
    ajouter_decimal_signe(o, f.id);
    ajouter(o, "&amp;download=1\" class=\"btn-action\" onclick=\"event.stopPropagation();\"><i class=\"fas fa-download\"></i></a>\n                    <a href=\"/tel/?id=");
    ajouter_decimal_signe(o, f.id);
    ajouter(o, "\" class=\"btn-action\" onclick=\"event.stopPropagation();\"><i class=\"fas fa-eye\"></i></a>\n                </div>\n            </div>");
    assert(o@ =~= a + ligne_fichier(*f, maintenant));
}

/// Liste des fichiers récents (ceux que donne `elements`), avec leur icône,
/// leur taille lisible et leur âge vu à `maintenant`.
#[allow(non_snake_case)]
pub fn build_Fichiers_files(elements: &[FichierListe], maintenant: i64) -> (r: String)
    ensures
        r@ == liste_fichier(elements@, maintenant),
{
    let mut o: Vec<char> = Vec::new();
    if elements.len() == 0 {
        ajouter(&mut o, "<div class=\"empty-state\"><i class=\"fas fa-folder-open\"></i><p>Aucun fichier</p></div>");
        return chaine_de(&o);
    }
    let mut i: usize = 0;
    assert(elements@.subrange(0, 0) =~= Seq::<FichierListe>::empty());
    while i < elements.len()
        invariant
            i <= elements.len(),
            o@ =~= lignes_fichier(elements@.subrange(0, i as int), maintenant),
        decreases elements.len() - i,
    {
        assert(elements@.subrange(0, i + 1).drop_last() =~= elements@.subrange(0, i as int));
        ajouter_ligne_fichier(&mut o, &elements[i], maintenant);
        i += 1;
    }
    assert(elements@.subrange(0, elements@.len() as int) =~= elements@);
    ajouter(&mut o, "<div class=\"show-more\"><a href=\"/tel/\"><i class=\"fas fa-chevron-right\"></i> Tous les fichiers</a></div>");
    chaine_de(&o)
}


/// Ligne HTML d'un élément de la liste.
pub open spec fn ligne_message(m: MessageListe, maintenant: i64) -> Seq<char> {
    "<div class=\"mail-item\" onclick=\"window.location.href='/mess/vexmail'\">\n                <div class=\"item-left\">\n                    <i class=\"fas fa-envelope item-icon\"></i>\n                    <div class=\"item-info\">\n                        <div class=\"item-title\">"@ + he(objet_affiche(m.objet@)) + "</div>\n                        <div class=\"item-subtitle\">De: "@ + he(m.de@) + "</div>\n                    </div>\n                </div>\n                <div class=\"item-right\">\n                    <span class=\"item-time\">"@ + il_y_a(m.date@, maintenant) + "</span>\n                    <a href=\"/mess/vexmail\" class=\"btn-action\" onclick=\"event.stopPropagation();\"><i class=\"fas fa-eye\"></i></a>\n                </div>\n            </div>"@
}

/// Lignes HTML des éléments, dans l'ordre.
pub open spec fn lignes_message(s: Seq<MessageListe>, maintenant: i64) -> Seq<char>
    decreases s.len(),
{
    if s.len() == 0 {
        Seq::empty()
    } else {
        lignes_message(s.drop_last(), maintenant) + ligne_message(s.last(), maintenant)
    }
}

/// La liste complète : un état vide sans élément, sinon les lignes suivies
/// du lien vers la page entière.
pub open spec fn liste_message(s: Seq<MessageListe>, maintenant: i64) -> Seq<char> {
    if s.len() == 0 {
        "<div class=\"empty-state\"><i class=\"fas fa-inbox\"></i><p>Aucun email récent</p></div>"@
    } else {
        lignes_message(s, maintenant) + "<div class=\"show-more\"><a href=\"/mess/vexmail\"><i class=\"fas fa-chevron-right\"></i> Tous les emails</a></div>"@
    }
}

fn ajouter_ligne_message(o: &mut Vec<char>, m: &MessageListe, maintenant: i64)
    ensures
        final(o)@ == old(o)@ + ligne_message(*m, maintenant),
{
    let brut = caracteres(m.objet.as_str());
    let tr = rogne(&brut);
    let mut objet_aff: Vec<char> = Vec::new();
    if tr.len() == 0 {
        let so = caracteres("(Sans objet)");
        ajouter_echappe(&mut objet_aff, Echappement::Html, &so);
    } else {
        ajouter_echappe(&mut objet_aff, Echappement::Html, &brut);
    }
    assert(objet_aff@ =~= he(objet_affiche(m.objet@)));
    let ghost a = o@;
    ajouter(o, "<div class=\"mail-item\" onclick=\"window.location.href='/mess/vexmail'\">\n                <div class=\"item-left\">\n                    <i class=\"fas fa-envelope item-icon\"></i>\n                    <div class=\"item-info\">\n                        <div class=\"item-title\">");
    ajouter_car(o, &objet_aff);
    ajouter(o, "</div>\n                        <div class=\"item-subtitle\">De: ");
    ajouter_he(o, m.de.as_str());
    ajouter(o, "</div>\n                    </div>\n                </div>\n                <div class=\"item-right\">\n                    <span class=\"item-time\">");
    ajouter_car(o, &time_ago(m.date.as_str(), maintenant));
    ajouter(o, "</span>\n                    <a href=\"/mess/vexmail\" class=\"btn-action\" onclick=\"event.stopPropagation();\"><i class=\"fas fa-eye\"></i></a>\n                </div>\n            </div>");
    assert(o@ =~= a + ligne_message(*m, maintenant));
}

/// Liste des derniers messages reçus.
#[allow(non_snake_case)]
pub fn build_mail_messages(elements: &[MessageListe], maintenant: i64) -> (r: String)
    ensures
        r@ == liste_message(elements@, maintenant),
{
    let mut o: Vec<char> = Vec::new();
    if elements.len() == 0 {
        ajouter(&mut o, "<div class=\"empty-state\"><i class=\"fas fa-inbox\"></i><p>Aucun email récent</p></div>");
        return chaine_de(&o);
    }
    let mut i: usize = 0;
    assert(elements@.subrange(0, 0) =~= Seq::<MessageListe>::empty());
    while i < elements.len()
        invariant
            i <= elements.len(),
            o@ =~= lignes_message(elements@.subrange(0, i as int), maintenant),
        decreases elements.len() - i,
    {
        assert(elements@.subrange(0, i + 1).drop_last() =~= elements@.subrange(0, i as int));
        ajouter_ligne_message(&mut o, &elements[i], maintenant);
        i += 1;
    }
    assert(elements@.subrange(0, elements@.len() as int) =~= elements@);
    ajouter(&mut o, "<div class=\"show-more\"><a href=\"/mess/vexmail\"><i class=\"fas fa-chevron-right\"></i> Tous les emails</a></div>");
    chaine_de(&o)
}


/// Ligne HTML d'un élément de la liste.
pub open spec fn ligne_site(s: SiteListe, maintenant: i64) -> Seq<char> {
    "<div class=\"file-item\" onclick=\"window.open('"@ + he("/sitec/pages/"@ + s.urlpage@) + "','_blank')\">\n                <div class=\"item-left\">\n                    <i class=\"fas fa-globe item-icon\"></i>\n                    <div class=\"item-info\">\n                        <div class=\"item-title\">"@ + he(s.nompage@) + "</div>\n                        <div class=\"item-subtitle\">"@ + he(s.urlpage@) + "</div>\n                    </div>\n                </div>\n                <div class=\"item-right\">\n                    <span class=\"item-badge badge-info\">"@ + decimal(s.popular as nat) + " vues</span>\n                    <a href=\""@ + he("/sitec/pages/"@ + s.urlpage@) + "\" target=\"_blank\" class=\"btn-action\" onclick=\"event.stopPropagation();\"><i class=\"fas fa-external-link-alt\"></i></a>\n                </div>\n            </div>"@
}

/// Lignes HTML des éléments, dans l'ordre.
pub open spec fn lignes_site(s: Seq<SiteListe>, maintenant: i64) -> Seq<char>
    decreases s.len(),
{
    if s.len() == 0 {
        Seq::empty()
    } else {
        lignes_site(s.drop_last(), maintenant) + ligne_site(s.last(), maintenant)
    }
}

/// La liste complète : un état vide sans élément, sinon les lignes suivies
/// du lien vers la page entière.
pub open spec fn liste_site(s: Seq<SiteListe>, maintenant: i64) -> Seq<char> {
    if s.len() == 0 {
        "<div class=\"empty-state\"><i class=\"fas fa-globe\"></i><p>Aucun site créé</p></div>"@
    } else {
        lignes_site(s, maintenant) + "<div class=\"show-more\"><a href=\"/sitec/\"><i class=\"fas fa-chevron-right\"></i> Tous les sites</a></div>"@
    }
}

fn ajouter_ligne_site(o: &mut Vec<char>, s: &SiteListe, maintenant: i64)
    ensures
        final(o)@ == old(o)@ + ligne_site(*s, maintenant),
{
    let mut url_b: Vec<char> = Vec::new();
    ajouter(&mut url_b, "/sitec/pages/");
    ajouter(&mut url_b, s.urlpage.as_str());
    let mut url_h: Vec<char> = Vec::new();
    ajouter_echappe(&mut url_h, Echappement::Html, &url_b);
    assert(url_h@ =~= he("/sitec/pages/"@ + s.urlpage@));
    let ghost a = o@;
    ajouter(o, "<div class=\"file-item\" onclick=\"window.open('");
    ajouter_car(o, &url_h);
    ajouter(o, "','_blank')\">\n                <div class=\"item-left\">\n                    <i class=\"fas fa-globe item-icon\"></i>\n                    <div class=\"item-info\">\n                        <div class=\"item-title\">");
    ajouter_he(o, s.nompage.as_str());
    ajouter(o, "</div>\n                        <div class=\"item-subtitle\">");
    ajouter_he(o, s.urlpage.as_str());
    ajouter(o, "</div>\n                    </div>\n                </div>\n                <div class=\"item-right\">\n                    <span class=\"item-badge badge-info\">");
    ajouter_decimal(o, s.popular as u128);
    ajouter(o, " vues</span>\n                    <a href=\"");
    ajouter_car(o, &url_h);
    ajouter(o, "\" target=\"_blank\" class=\"btn-action\" onclick=\"event.stopPropagation();\"><i class=\"fas fa-external-link-alt\"></i></a>\n                </div>\n            </div>");
    assert(o@ =~= a + ligne_site(*s, maintenant));
}

/// Liste des sites les plus vus.
#[allow(non_snake_case)]
pub fn build_sitec_sites(elements: &[SiteListe], maintenant: i64) -> (r: String)
    ensures
        r@ == liste_site(elements@, maintenant),
{
    let mut o: Vec<char> = Vec::new();
    if elements.len() == 0 {
        ajouter(&mut o, "<div class=\"empty-state\"><i class=\"fas fa-globe\"></i><p>Aucun site créé</p></div>");
        return chaine_de(&o);
    }
    let mut i: usize = 0;
    assert(elements@.subrange(0, 0) =~= Seq::<SiteListe>::empty());
    while i < elements.len()
        invariant
            i <= elements.len(),
            o@ =~= lignes_site(elements@.subrange(0, i as int), maintenant),
        decreases elements.len() - i,
    {
        assert(elements@.subrange(0, i + 1).drop_last() =~= elements@.subrange(0, i as int));
        ajouter_ligne_site(&mut o, &elements[i], maintenant);
        i += 1;
    }
    assert(elements@.subrange(0, elements@.len() as int) =~= elements@);
    ajouter(&mut o, "<div class=\"show-more\"><a href=\"/sitec/\"><i class=\"fas fa-chevron-right\"></i> Tous les sites</a></div>");
    chaine_de(&o)
}


// ══════════════════════════════════════════════════════════════════
// Compteurs, bienvenue, tuiles masquées, page
// ══════════════════════════════════════════════════════════════════

/// Somme des tailles.
pub open spec fn somme(s: Seq<u64>) -> int
    decreases s.len(),
{
    if s.len() == 0 { 0 } else { somme(s.drop_last()) + s.last() }
}

/// « N fichier(s) — taille » pour `total` fichiers dont les tailles sont `tailles`.
pub open spec fn stats_fichiers(total: u64, tailles: Seq<u64>) -> Seq<char> {
    decimal(total as nat) + " fichier"@ + (if total > 1 { "s"@ } else { ""@ }) + " — "@
        + taille_lisible(somme(tailles) as u64)
}


proof fn lemme_somme_croissante(s: Seq<u64>, i: int)
    requires
        0 <= i <= s.len(),
    ensures
        somme(s.subrange(0, i)) <= somme(s),
    decreases s.len() - i,
{
    if i < s.len() {
        lemme_somme_croissante(s, i + 1);
        assert(s.subrange(0, i + 1).drop_last() =~= s.subrange(0, i));
    } else {
        assert(s.subrange(0, i) =~= s);
    }
}


/// Résumé des fichiers : nombre et taille totale lisible.
#[allow(non_snake_case)]
pub fn build_Fichiers_stats(total: u64, tailles: &[u64]) -> (r: String)
    requires
        somme(tailles@) <= u64::MAX,
    ensures
        r@ == stats_fichiers(total, tailles@),
{
    let mut t: u64 = 0;
    let mut i: usize = 0;
    assert(tailles@.subrange(0, 0) =~= Seq::<u64>::empty());
    while i < tailles.len()
        invariant
            i <= tailles.len(),
            somme(tailles@) <= u64::MAX,
            t == somme(tailles@.subrange(0, i as int)),
        decreases tailles.len() - i,
    {
        proof {
            lemme_somme_croissante(tailles@, i + 1);
            assert(tailles@.subrange(0, i + 1).drop_last() =~= tailles@.subrange(0, i as int));
        }
        t = t + tailles[i];
        i += 1;
    }
    assert(tailles@.subrange(0, tailles@.len() as int) =~= tailles@);
    let mut o: Vec<char> = Vec::new();
    ajouter_decimal(&mut o, total as u128);
    ajouter(&mut o, " fichier");
    if total > 1 {
        ajouter(&mut o, "s");
    }
    ajouter(&mut o, " — ");
    let taille = format_size(t);
    ajouter_car(&mut o, &taille);
    proof {
        reveal_strlit("");
        assert(""@ =~= Seq::<char>::empty());
    }
    assert(o@ =~= stats_fichiers(total, tailles@));
    chaine_de(&o)
}

/// Nombre de messages non lus, en décimal.
pub fn build_mail_unread(non_lus: u64) -> (r: String)
    ensures
        r@ == decimal(non_lus as nat),
{
    let mut o: Vec<char> = Vec::new();
    ajouter_decimal(&mut o, non_lus as u128);
    chaine_de(&o)
}

/// « N site(s) ».
pub open spec fn stats_sites(n: u64) -> Seq<char> {
    decimal(n as nat) + " site"@ + (if n > 1 { "s"@ } else { ""@ })
}

/// Nombre de sites de l'utilisateur.
pub fn build_sitec_stats(n: u64) -> (r: String)
    ensures
        r@ == stats_sites(n),
{
    let mut o: Vec<char> = Vec::new();
    ajouter_decimal(&mut o, n as u128);
    ajouter(&mut o, " site");
    if n > 1 {
        ajouter(&mut o, "s");
    }
    proof {
        reveal_strlit("");
        assert(""@ =~= Seq::<char>::empty());
    }
    assert(o@ =~= stats_sites(n));
    chaine_de(&o)
}

/// Nombre d'éléments qu'il reste à prendre parmi les publics pour que la
/// liste en ait cinq.
pub fn a_completer(n: usize) -> (r: u64)
    ensures
        r == (if n < 5 { 5 - n } else { 0 }),
{
    if n < 5 { (5 - n) as u64 } else { 0 }
}

/// La liste des éléments propres, complétée jusqu'à cinq par les éléments
/// publics quand elle en a moins de cinq.
pub fn completer<T>(propres: Vec<T>, publics: Vec<T>) -> (r: Vec<T>)
    ensures
        r@ == (if propres@.len() < 5 {
            propres@ + crate::utils::prendre(publics@, (5 - propres@.len()) as nat)
        } else {
            propres@
        }),
{
    let mut r = propres;
    if r.len() < 5 {
        let reste: usize = 5 - r.len();
        let ghost a = r@;
        let mut publics = publics;
        if publics.len() > reste {
            publics.truncate(reste);
        }
        r.append(&mut publics);
    }
    r
}


/// Bloc du nom de bienvenue : le nom échappé, en couleur de rang (l'effet
/// « fona » a sa propre classe).
pub open spec fn bienvenue(nom: Seq<char>, couleur: Seq<char>) -> Seq<char> {
    if couleur == "fona"@ {
        "<div class=\"welcome-name fona\">"@ + he(nom) + "</div>"@
    } else {
        "<div class=\"welcome-name\" style=\"color:"@ + he(couleur) + ";\">"@ + he(nom)
            + "</div>"@
    }
}

/// Bloc du nom de bienvenue (voir `bienvenue`).
pub fn build_welcome_name(nom: &str, couleur: &str) -> (r: String)
    ensures
        r@ == bienvenue(nom@, couleur@),
{
    let c = caracteres(couleur);
    let mut o: Vec<char> = Vec::new();
    if egale_lit(&c, "fona") {
        ajouter(&mut o, "<div class=\"welcome-name fona\">");
        ajouter_he(&mut o, nom);
        ajouter(&mut o, "</div>");
    } else {
        ajouter(&mut o, "<div class=\"welcome-name\" style=\"color:");
        ajouter_he(&mut o, couleur);
        ajouter(&mut o, ";\">");
        ajouter_he(&mut o, nom);
        ajouter(&mut o, "</div>");
    }
    assert(o@ =~= bienvenue(nom@, couleur@));
    chaine_de(&o)
}

/// La tuile est masquée : sa préférence vaut l'entier 0.
pub open spec fn tuile_masquee(v: Json) -> bool {
    match v {
        Json::Nombre(n) => n == 0,
        _ => false,
    }
}

/// `s` sans ses guillemets doubles.
pub open spec fn sans_guillemets(s: Seq<char>) -> Seq<char>
    decreases s.len(),
{
    if s.len() == 0 {
        s
    } else if s.last() == '"' {
        sans_guillemets(s.drop_last())
    } else {
        sans_guillemets(s.drop_last()).push(s.last())
    }
}

/// Sélecteur CSS d'une tuile.
pub open spec fn selecteur_tuile(k: Seq<char>) -> Seq<char> {
    "[data-tuile=\""@ + sans_guillemets(k) + "\"]"@
}

/// Sélecteurs des tuiles masquées, dans l'ordre des préférences.
pub open spec fn selecteurs_masques(m: Seq<(String, Json)>) -> Seq<Seq<char>>
    decreases m.len(),
{
    if m.len() == 0 {
        Seq::empty()
    } else if tuile_masquee(m.last().1) {
        selecteurs_masques(m.drop_last()).push(selecteur_tuile(m.last().0@))
    } else {
        selecteurs_masques(m.drop_last())
    }
}

/// Les textes de `s` joints par `sep`.
pub open spec fn joindre(s: Seq<Seq<char>>, sep: Seq<char>) -> Seq<char>
    decreases s.len(),
{
    if s.len() == 0 {
        Seq::empty()
    } else if s.len() == 1 {
        s[0]
    } else {
        joindre(s.drop_last(), sep) + sep + s.last()
    }
}

/// Style qui cache les tuiles que l'utilisateur a masquées (vide s'il n'y en
/// a aucune).
pub open spec fn style_tuiles(tuiles: Json) -> Seq<char> {
    let sel = match tuiles {
        Json::Objet(m) => selecteurs_masques(m@),
        _ => Seq::empty(),
    };
    if sel.len() == 0 {
        Seq::empty()
    } else {
        "<style>"@ + joindre(sel, ","@) + "{display:none!important}</style>"@
    }
}

fn ajouter_sans_guillemets(o: &mut Vec<char>, k: &str)
    ensures
        final(o)@ == old(o)@ + sans_guillemets(k@),
{
    let c = caracteres(k);
    let ghost a = o@;
    let mut i: usize = 0;
    assert(c@.subrange(0, 0) =~= Seq::<char>::empty());
    while i < c.len()
        invariant
            i <= c.len(),
            o@ =~= a + sans_guillemets(c@.subrange(0, i as int)),
        decreases c.len() - i,
    {
        assert(c@.subrange(0, i + 1).drop_last() =~= c@.subrange(0, i as int));
        if c[i] != '"' {
            o.push(c[i]);
        }
        i += 1;
    }
    assert(c@.subrange(0, c@.len() as int) =~= c@);
}

/// Style des tuiles masquées (voir `style_tuiles`).
pub fn tuiles_style(tuiles: &Json) -> (r: String)
    ensures
        r@ == style_tuiles(*tuiles),
{
    let mut o: Vec<char> = Vec::new();
    match tuiles {
        Json::Objet(m) => {
            let mut sel: Vec<char> = Vec::new();
            let mut k: usize = 0;
            let mut i: usize = 0;
            assert(m@.subrange(0, 0) =~= Seq::<(String, Json)>::empty());
            while i < m.len()
                invariant
                    i <= m.len(),
                    k <= i,
                    k == selecteurs_masques(m@.subrange(0, i as int)).len(),
                    sel@ =~= joindre(selecteurs_masques(m@.subrange(0, i as int)), ","@),
                decreases m.len() - i,
            {
                assert(m@.subrange(0, i + 1).drop_last() =~= m@.subrange(0, i as int));
                let ghost avant = selecteurs_masques(m@.subrange(0, i as int));
                let masquee = match &m[i].1 {
                    Json::Nombre(n) => *n == 0,
                    _ => false,
                };
                if masquee {
                    let ghost a = sel@;
                    if k > 0 {
                        ajouter(&mut sel, ",");
                    }
                    ajouter(&mut sel, "[data-tuile=\"");
                    ajouter_sans_guillemets(&mut sel, m[i].0.as_str());
                    ajouter(&mut sel, "\"]");
                    proof {
                        let apres = avant.push(selecteur_tuile(m@[i as int].0@));
                        assert(apres.drop_last() =~= avant);
                        if k == 0 {
                            assert(avant.len() == 0);
                            assert(a.len() == 0);
                        }
                    }
                    k += 1;
                }
                i += 1;
            }
            assert(m@.subrange(0, m@.len() as int) =~= m@);
            if k > 0 {
                ajouter(&mut o, "<style>");
                ajouter_car(&mut o, &sel);
                ajouter(&mut o, "{display:none!important}</style>");
            }
        },
        _ => {},
    }
    chaine_de(&o)
}

/// Les tuiles de la carte d'administration se montrent sous le rang 8.
pub fn admin_autorise(privilege: i64) -> (r: bool)
    ensures
        r == (privilege < 8),
{
    privilege < 8
}


/// Les morceaux que la page du tableau de bord insère dans son gabarit.
pub struct MorceauxTableau {
    pub nav_html: String,
    pub theme: String,
    pub bienvenue: String,
    pub tuiles_style: String,
    pub ext_tiles: String,
    pub admin_card: String,
    pub fichiers_stats: String,
    pub fichiers_files: String,
    pub mail_unread: String,
    pub mail_messages: String,
    pub sitec_stats: String,
    pub sitec_sites: String,
}

/// La page : le gabarit où chaque marque est remplacée par son morceau,
/// dans l'ordre des marques.
pub open spec fn page_tableau(template: Seq<char>, m: MorceauxTableau) -> Seq<char> {
    remplacer(remplacer(remplacer(remplacer(remplacer(remplacer(remplacer(remplacer(remplacer(remplacer(remplacer(remplacer(template, "__NAV_HTML__"@, m.nav_html@), "{{THEME}}"@, m.theme@), "{{WELCOME_NAME_BLOCK}}"@, m.bienvenue@), "{{TUILES_STYLE}}"@, m.tuiles_style@), "{{EXT_TILES}}"@, m.ext_tiles@), "{{ADMIN_CARD}}"@, m.admin_card@), "{{Fichiers_STATS}}"@, m.fichiers_stats@), "{{Fichiers_FILES}}"@, m.fichiers_files@), "{{MAIL_UNREAD}}"@, m.mail_unread@), "{{MAIL_MESSAGES}}"@, m.mail_messages@), "{{SITEC_STATS}}"@, m.sitec_stats@), "{{SITEC_SITES}}"@, m.sitec_sites@)
}

/// Le thème de la page d'après la préférence (1 : sombre).
pub fn theme_de(teme: i64) -> (r: &'static str)
    ensures
        r@ == (if teme == 1 { "dark"@ } else { "light"@ }),
{
    if teme == 1 { "dark" } else { "light" }
}

/// Remplit le gabarit de la page du tableau de bord (voir `page_tableau`).
pub fn remplir_tableau(template: &str, m: &MorceauxTableau) -> (r: String)
    ensures
        r@ == page_tableau(template@, *m),
{
    proof {
        reveal_strlit("__NAV_HTML__");
        reveal_strlit("{{THEME}}");
        reveal_strlit("{{WELCOME_NAME_BLOCK}}");
        reveal_strlit("{{TUILES_STYLE}}");
        reveal_strlit("{{EXT_TILES}}");
        reveal_strlit("{{ADMIN_CARD}}");
        reveal_strlit("{{Fichiers_STATS}}");
        reveal_strlit("{{Fichiers_FILES}}");
        reveal_strlit("{{MAIL_UNREAD}}");
        reveal_strlit("{{MAIL_MESSAGES}}");
        reveal_strlit("{{SITEC_STATS}}");
        reveal_strlit("{{SITEC_SITES}}");
    }
    let mut s = String::from_str(template);
    s = remplace(s.as_str(), "__NAV_HTML__", m.nav_html.as_str());
    s = remplace(s.as_str(), "{{THEME}}", m.theme.as_str());
    s = remplace(s.as_str(), "{{WELCOME_NAME_BLOCK}}", m.bienvenue.as_str());
    s = remplace(s.as_str(), "{{TUILES_STYLE}}", m.tuiles_style.as_str());
    s = remplace(s.as_str(), "{{EXT_TILES}}", m.ext_tiles.as_str());
    s = remplace(s.as_str(), "{{ADMIN_CARD}}", m.admin_card.as_str());
    s = remplace(s.as_str(), "{{Fichiers_STATS}}", m.fichiers_stats.as_str());
    s = remplace(s.as_str(), "{{Fichiers_FILES}}", m.fichiers_files.as_str());
    s = remplace(s.as_str(), "{{MAIL_UNREAD}}", m.mail_unread.as_str());
    s = remplace(s.as_str(), "{{MAIL_MESSAGES}}", m.mail_messages.as_str());
    s = remplace(s.as_str(), "{{SITEC_STATS}}", m.sitec_stats.as_str());
    s = remplace(s.as_str(), "{{SITEC_SITES}}", m.sitec_sites.as_str());
    s
}


} // verus!
