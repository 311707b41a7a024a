//! Recherche : aiguillage, requête plein texte, extraits, applications,
//! noms lisibles, gabarit de la page.

use vstd::prelude::*;
use crate::compte::{remplacer_premier, traduire};
use crate::connexion::{en_minuscules_unicode, minuscules_unicode};
use crate::json::{chaine_json, json_chaine};
use crate::texte::{encode_url, encoder_url};
use crate::tableau::{ajouter_une_decimale, dixiemes, dixiemes_de, f64_de, joindre, une_decimale, vers_f64};
use crate::texte::{
    ajouter, ajouter_car, ajouter_decimal, ajouter_decimal_signe, caracteres, decimal, chaine_de, commence_par, contient_motif, decimal_signe,
    decouper, egale_lit, egales, espace, est_espace, finit_lit, finit_par, premier_motif, remplace, remplacer, rogne,
    rogne_fin, rogner, rogner_fin, tranche, trouver_motif,
};
use crate::utils::prendre;

verus! {

broadcast use vstd::string::group_string_axioms;

// ══════════════════════════════════════════════════════════════════
// Aiguillage
// ══════════════════════════════════════════════════════════════════

/// Routes de la recherche.
#[derive(PartialEq, Eq, Structural, Clone, Copy, Debug)]
pub enum RouteRecherche {
    Page,
    Globale,
    Extensions,
    Abonnement,
    WikiListe,
    WikiArticle,
    ActualiteArticle,
    /// Écriture réservée aux comptes de confiance (`POST`).
    ActualiteEnregistrer,
    ActualiteSupprimer,
    WikiEnregistrer,
    WikiSupprimer,
    WikipediaArticle,
    /// La FAQ est retirée (410), avant toute session.
    FaqRetiree,
    Inconnue,
}

/// Route d'une requête d'après son chemin et sa méthode.
pub open spec fn route_recherche(c: Seq<char>, post: bool) -> RouteRecherche {
    if c == "/recherche"@ || c == "/recherche/"@ {
        RouteRecherche::Page
    } else if c == "/api/recherche/global"@ {
        RouteRecherche::Globale
    } else if c == "/api/recherche/extensions"@ {
        RouteRecherche::Extensions
    } else if c == "/api/recherche/abonnement"@ {
        RouteRecherche::Abonnement
    } else if c == "/api/recherche/wiki"@ {
        RouteRecherche::WikiListe
    } else if c == "/api/recherche/wiki/article"@ {
        RouteRecherche::WikiArticle
    } else if c == "/api/recherche/actualite/article"@ {
        RouteRecherche::ActualiteArticle
    } else if c == "/api/recherche/actualite/save"@ && post {
        RouteRecherche::ActualiteEnregistrer
    } else if c == "/api/recherche/actualite/delete"@ && post {
        RouteRecherche::ActualiteSupprimer
    } else if c == "/api/recherche/wiki/save"@ && post {
        RouteRecherche::WikiEnregistrer
    } else if c == "/api/recherche/wiki/delete"@ && post {
        RouteRecherche::WikiSupprimer
    } else if c == "/api/recherche/wikipedia/article"@ {
        RouteRecherche::WikipediaArticle
    } else if commence_par(c, "/api/recherche/faq"@) {
        RouteRecherche::FaqRetiree
    } else {
        RouteRecherche::Inconnue
    }
}

/// Route d'une requête (voir `route_recherche`) ; le chemin est pris avant
/// le premier `?` de l'URL.
pub fn router_recherche(url: &str, post: bool) -> (r: RouteRecherche)
    ensures
        r == route_recherche(decouper(url@, '?')[0], post),
{
    let u = caracteres(url);
    let morceaux = crate::texte::decoupe(&u, '?');
    proof {
        crate::texte::lemme_decouper_non_vide(u@, '?');
        assert(crate::texte::vues(morceaux@).len() == morceaux@.len());
        assert(crate::texte::vues(morceaux@)[0] == morceaux@[0]@);
    }
    let c = &morceaux[0];
    if egale_lit(c, "/recherche") || egale_lit(c, "/recherche/") {
        RouteRecherche::Page
    } else if egale_lit(c, "/api/recherche/global") {
        RouteRecherche::Globale
    } else if egale_lit(c, "/api/recherche/extensions") {
        RouteRecherche::Extensions
    } else if egale_lit(c, "/api/recherche/abonnement") {
        RouteRecherche::Abonnement
    } else if egale_lit(c, "/api/recherche/wiki") {
        RouteRecherche::WikiListe
    } else if egale_lit(c, "/api/recherche/wiki/article") {
        RouteRecherche::WikiArticle
    } else if egale_lit(c, "/api/recherche/actualite/article") {
        RouteRecherche::ActualiteArticle
    } else if egale_lit(c, "/api/recherche/actualite/save") && post {
        RouteRecherche::ActualiteEnregistrer
    } else if egale_lit(c, "/api/recherche/actualite/delete") && post {
        RouteRecherche::ActualiteSupprimer
    } else if egale_lit(c, "/api/recherche/wiki/save") && post {
        RouteRecherche::WikiEnregistrer
    } else if egale_lit(c, "/api/recherche/wiki/delete") && post {
        RouteRecherche::WikiSupprimer
    } else if egale_lit(c, "/api/recherche/wikipedia/article") {
        RouteRecherche::WikipediaArticle
    } else if crate::texte::commence_lit(c, "/api/recherche/faq") {
        RouteRecherche::FaqRetiree
    } else {
        RouteRecherche::Inconnue
    }
}

/// Les comptes de confiance (privilège au plus 6) écrivent les actualités.
pub fn compte_de_confiance(privilege: i64) -> (r: bool)
    ensures
        r == (privilege <= 6),
{
    privilege <= 6
}

// ══════════════════════════════════════════════════════════════════
// Requête plein texte
// ══════════════════════════════════════════════════════════════════

/// Les morceaux de `s` séparés par chaque espace (morceaux vides compris).
pub open spec fn decouper_espaces(s: Seq<char>) -> Seq<Seq<char>>
    decreases s.len(),
{
    if s.len() == 0 {
        seq![Seq::empty()]
    } else {
        let d = decouper_espaces(s.drop_last());
        if est_espace(s.last()) {
            d.push(Seq::empty())
        } else {
            d.drop_last().push(d.last().push(s.last()))
        }
    }
}

/// Opérateur booléen de la recherche plein texte.
pub open spec fn operateur(c: char) -> bool {
    c == '+' || c == '-' || c == '<' || c == '>' || c == '(' || c == ')' || c == '~' || c == '*' || c == '"'
        || c == '@'
}

/// `s` sans ses opérateurs.
pub open spec fn sans_operateurs(s: Seq<char>) -> Seq<char>
    decreases s.len(),
{
    if s.len() == 0 {
        s
    } else if operateur(s.last()) {
        sans_operateurs(s.drop_last())
    } else {
        sans_operateurs(s.drop_last()).push(s.last())
    }
}

/// Termes de la requête : chaque mot sans ses opérateurs, suivi de `*`, les
/// mots vides écartés.
pub open spec fn termes(mots: Seq<Seq<char>>) -> Seq<Seq<char>>
    decreases mots.len(),
{
    if mots.len() == 0 {
        Seq::empty()
    } else {
        let t = termes(mots.drop_last());
        let m = sans_operateurs(mots.last());
        if m.len() == 0 {
            t
        } else {
            t.push(m.push('*'))
        }
    }
}

/// Requête booléenne plein texte : chaque mot devient un préfixe `mot*` ;
/// `None` s'il ne reste aucun mot.
pub open spec fn requete(q: Seq<char>) -> Option<Seq<char>> {
    let t = termes(decouper_espaces(q));
    if t.len() == 0 {
        None
    } else {
        Some(joindre(t, " "@))
    }
}

fn est_operateur(c: char) -> (r: bool)
    ensures
        r == operateur(c),
{
    c == '+' || c == '-' || c == '<' || c == '>' || c == '(' || c == ')' || c == '~' || c == '*' || c == '"'
        || c == '@'
}

/// Requête plein texte (voir `requete`).
pub fn requete_fulltext(q: &str) -> (r: Option<String>)
    ensures
        match r {
            Some(s) => requete(q@) == Some(s@),
            None => requete(q@) is None,
        },
{
    let c = caracteres(q);
    let mut t: Vec<Vec<char>> = Vec::new();
    let mut courant: Vec<char> = Vec::new();
    let mut i: usize = 0;
    assert(c@.subrange(0, 0) =~= Seq::<char>::empty());
    while i < c.len()
        invariant
            i <= c.len(),
            crate::texte::vues(t@) == termes(decouper_espaces(c@.subrange(0, i as int)).drop_last()),
            courant@ == sans_operateurs(decouper_espaces(c@.subrange(0, i as int)).last()),
        decreases c.len() - i,
    {
        let ghost p = c@.subrange(0, i as int);
        let ghost d = decouper_espaces(p);
        assert(c@.subrange(0, i + 1).drop_last() =~= p);
        if espace(c[i]) {
            if courant.len() > 0 {
                let mut m = courant;
                m.push('*');
                let ghost avant = crate::texte::vues(t@);
                t.push(m);
                assert(crate::texte::vues(t@) =~= avant.push(sans_operateurs(d.last()).push('*')));
            }
            assert(decouper_espaces(c@.subrange(0, i + 1)).drop_last() =~= d);
            courant = Vec::new();
            assert(courant@ =~= sans_operateurs(Seq::<char>::empty()));
        } else {
            assert(decouper_espaces(c@.subrange(0, i + 1)).drop_last() =~= d.drop_last());
            assert(d.last().push(c@[i as int]).drop_last() =~= d.last());
            if !est_operateur(c[i]) {
                courant.push(c[i]);
            }
        }
        i += 1;
    }
    assert(c@.subrange(0, c@.len() as int) =~= c@);
    if courant.len() > 0 {
        let mut m = courant;
        m.push('*');
        let ghost avant = crate::texte::vues(t@);
        t.push(m);
        assert(crate::texte::vues(t@) =~= avant.push(sans_operateurs(decouper_espaces(c@).last()).push('*')));
    }
    let ghost tv = crate::texte::vues(t@);
    assert(tv == termes(decouper_espaces(c@)));
    if t.len() == 0 {
        return None;
    }
    let mut o: Vec<char> = Vec::new();
    let mut k: usize = 0;
    while k < t.len()
        invariant
            k <= t.len(),
            tv == crate::texte::vues(t@),
            o@ == joindre(tv.subrange(0, k as int), " "@),
        decreases t.len() - k,
    {
        assert(tv.subrange(0, k + 1).drop_last() =~= tv.subrange(0, k as int));
        assert(tv[k as int] == t@[k as int]@);
        if k > 0 {
            ajouter(&mut o, " ");
        }
        ajouter_car(&mut o, &t[k]);
        proof {
            reveal_strlit(" ");
            if k == 0 {
                assert(o@ =~= tv.subrange(0, 1)[0]);
            }
        }
        k += 1;
    }
    assert(tv.subrange(0, t@.len() as int) =~= tv);
    Some(chaine_de(&o))
}

// ══════════════════════════════════════════════════════════════════
// Extraits
// ══════════════════════════════════════════════════════════════════

/// Longueur des extraits, en caractères.
pub const EXTRAIT_LEN: usize = 180;

/// Extrait d'un texte rogné : le texte s'il a au plus `n` caractères, sinon
/// ses `n` premiers caractères sans espaces finaux, suivis de `…`.
pub open spec fn extrait_de(s: Seq<char>, n: nat) -> Seq<char> {
    let t = rogner(s);
    if t.len() <= n {
        t
    } else {
        rogner_fin(t.subrange(0, n as int)) + "…"@
    }
}

/// Extrait d'un texte (voir `extrait_de`).
pub fn extrait(s: &str, n: usize) -> (r: String)
    ensures
        r@ == extrait_de(s@, n as nat),
{
    let t = rogne(&caracteres(s));
    if t.len() <= n {
        return chaine_de(&t);
    }
    let mut o = rogne_fin(&tranche(&t, 0, n));
    ajouter(&mut o, "…");
    chaine_de(&o)
}

// ══════════════════════════════════════════════════════════════════
// Applications
// ══════════════════════════════════════════════════════════════════

/// Une application trouvée : titre, adresse, description.
pub struct AppTrouvee {
    pub titre: &'static str,
    pub url: &'static str,
    pub extrait: &'static str,
}

/// Les applications de base : titre, adresse, description courte.
pub open spec fn apps_vex() -> Seq<(&'static str, &'static str, &'static str)> {
    seq![
        ("Accueil", "/login/dashboard", "Tableau de bord VEX"),
        ("Mail", "/mess/", "Messagerie VEX"),
        ("Fichiers", "/fchier/", "Stockage et partage de fichiers"),
        ("Vidéos", "/viso/", "Visioconférence"),
        ("Sitec", "/sitec/", "Éditeur de sites web"),
        ("Compte", "/login/account", "Paramètres du compte et abonnement"),
    ]
}

/// Les applications dont le titre en minuscules contient le motif, dans
/// l'ordre de la liste.
pub open spec fn apps_filtrees(apps: Seq<(&'static str, &'static str, &'static str)>, motif: Seq<char>) -> Seq<
    (&'static str, &'static str, &'static str),
>
    decreases apps.len(),
{
    if apps.len() == 0 {
        Seq::empty()
    } else {
        let r = apps_filtrees(apps.drop_last(), motif);
        if contient_motif(minuscules_unicode(apps.last().0@), motif) {
            r.push(apps.last())
        } else {
            r
        }
    }
}

/// Applications trouvées pour la recherche `q` : aucune si le motif (rogné,
/// en minuscules) est vide.
pub open spec fn apps_trouvees(q: Seq<char>) -> Seq<(&'static str, &'static str, &'static str)> {
    let motif = minuscules_unicode(rogner(q));
    if motif.len() == 0 {
        Seq::empty()
    } else {
        apps_filtrees(apps_vex(), motif)
    }
}

/// Une application figure parmi les applications filtrées exactement si
/// elle figure dans la liste et que son titre en minuscules contient le
/// motif.
proof fn lemme_apps_filtrees(
    apps: Seq<(&'static str, &'static str, &'static str)>,
    motif: Seq<char>,
    a: (&'static str, &'static str, &'static str),
)
    ensures
        apps_filtrees(apps, motif).contains(a) <==> (apps.contains(a) && contient_motif(
            minuscules_unicode(a.0@),
            motif,
        )),
    decreases apps.len(),
{
    if apps.len() > 0 {
        let d = apps.drop_last();
        lemme_apps_filtrees(d, motif, a);
        let r = apps_filtrees(d, motif);
        if apps.contains(a) && !d.contains(a) {
            let i = choose|i: int| 0 <= i < apps.len() && apps[i] == a;
            if i < apps.len() - 1 {
                assert(d[i] == a);
            }
            assert(apps.last() == a);
        }
        if d.contains(a) {
            let i = choose|i: int| 0 <= i < d.len() && d[i] == a;
            assert(apps[i] == a);
        }
        if apps_filtrees(apps, motif).contains(a) && !r.contains(a) {
            let i = choose|i: int| 0 <= i < apps_filtrees(apps, motif).len() && apps_filtrees(apps, motif)[i] == a;
            assert(apps.last() == a);
            assert(apps[apps.len() - 1] == a);
        }
        if r.contains(a) && contient_motif(minuscules_unicode(apps.last().0@), motif) {
            let i = choose|i: int| 0 <= i < r.len() && r[i] == a;
            assert(r.push(apps.last())[i] == a);
        }
        if apps.last() == a && contient_motif(minuscules_unicode(a.0@), motif) {
            assert(r.push(a)[r.len() as int] == a);
        }
    }
}

/// La recherche d'applications porte sur les six applications de base
/// (Accueil, Mail, Fichiers, Vidéos, Sitec, Compte, avec leurs adresses) :
/// pour une recherche non vide une fois rognée, chacune dont le titre en
/// minuscules contient la recherche en minuscules est rendue, et rien
/// d'autre ne l'est.
pub proof fn loi_apps_de_base(q: Seq<char>)
    ensures
        ({
            let motif = minuscules_unicode(rogner(q));
            let base = seq![
                ("Accueil", "/login/dashboard", "Tableau de bord VEX"),
                ("Mail", "/mess/", "Messagerie VEX"),
                ("Fichiers", "/fchier/", "Stockage et partage de fichiers"),
                ("Vidéos", "/viso/", "Visioconférence"),
                ("Sitec", "/sitec/", "Éditeur de sites web"),
                ("Compte", "/login/account", "Paramètres du compte et abonnement"),
            ];
            &&& forall|i: int|
                0 <= i < 6 && motif.len() > 0 && contient_motif(minuscules_unicode(base[i].0@), motif)
                    ==> #[trigger] apps_trouvees(q).contains(base[i])
            &&& forall|a: (&'static str, &'static str, &'static str)|
                #[trigger] apps_trouvees(q).contains(a) ==> motif.len() > 0 && base.contains(a) && contient_motif(
                    minuscules_unicode(a.0@),
                    motif,
                )
        }),
{
    let motif = minuscules_unicode(rogner(q));
    let base = seq![("Accueil", "/login/dashboard", "Tableau de bord VEX"), ("Mail", "/mess/", "Messagerie VEX")]
        + seq![("Fichiers", "/fchier/", "Stockage et partage de fichiers"), ("Vidéos", "/viso/", "Visioconférence")]
        + seq![("Sitec", "/sitec/", "Éditeur de sites web"), ("Compte", "/login/account", "Paramètres du compte et abonnement")];
    assert(base =~= apps_vex());
    assert forall|i: int|
        0 <= i < 6 && motif.len() > 0 && contient_motif(minuscules_unicode(base[i].0@), motif) implies
        #[trigger] apps_trouvees(q).contains(base[i]) by {
        lemme_apps_filtrees(apps_vex(), motif, base[i]);
        assert(apps_vex()[i] == base[i]);
    }
    assert forall|a: (&'static str, &'static str, &'static str)| #[trigger] apps_trouvees(q).contains(a) implies
        motif.len() > 0 && base.contains(a) && contient_motif(minuscules_unicode(a.0@), motif) by {
        if motif.len() > 0 {
            lemme_apps_filtrees(apps_vex(), motif, a);
        }
    }
}

/// Vue des applications trouvées.
pub open spec fn vue_apps(v: Seq<AppTrouvee>) -> Seq<(&'static str, &'static str, &'static str)> {
    v.map_values(|a: AppTrouvee| (a.titre, a.url, a.extrait))
}

/// Applications de base dont le titre contient la recherche (voir
/// `apps_trouvees`).
pub fn apps_rechercher(q: &str) -> (r: Vec<AppTrouvee>)
    ensures
        vue_apps(r@) == apps_trouvees(q@),
{
    let t = chaine_de(&rogne(&caracteres(q)));
    let motif = en_minuscules_unicode(t.as_str());
    let mut r: Vec<AppTrouvee> = Vec::new();
    if motif.as_str().is_empty() {
        assert(vue_apps(r@) =~= Seq::<(&'static str, &'static str, &'static str)>::empty());
        return r;
    }
    let apps: Vec<(&'static str, &'static str, &'static str)> = vec![
        ("Accueil", "/login/dashboard", "Tableau de bord VEX"),
        ("Mail", "/mess/", "Messagerie VEX"),
        ("Fichiers", "/fchier/", "Stockage et partage de fichiers"),
        ("Vidéos", "/viso/", "Visioconférence"),
        ("Sitec", "/sitec/", "Éditeur de sites web"),
        ("Compte", "/login/account", "Paramètres du compte et abonnement"),
    ];
    assert(apps@ =~= apps_vex());
    let mc = caracteres(motif.as_str());
    let mut i: usize = 0;
    assert(apps@.subrange(0, 0) =~= Seq::<(&'static str, &'static str, &'static str)>::empty());
    while i < apps.len()
        invariant
            i <= apps.len(),
            mc@ == motif@,
            vue_apps(r@) == apps_filtrees(apps@.subrange(0, i as int), motif@),
        decreases apps.len() - i,
    {
        assert(apps@.subrange(0, i + 1).drop_last() =~= apps@.subrange(0, i as int));
        let (titre, url, desc) = apps[i];
        let tm = en_minuscules_unicode(titre);
        if crate::texte::contient_texte(&caracteres(tm.as_str()), motif.as_str()) {
            let ghost avant = vue_apps(r@);
            r.push(AppTrouvee { titre, url, extrait: desc });
            assert(vue_apps(r@) =~= avant.push((titre, url, desc)));
        }
        i += 1;
    }
    assert(apps@.subrange(0, apps@.len() as int) =~= apps@);
    r
}

// ══════════════════════════════════════════════════════════════════
// Noms lisibles
// ══════════════════════════════════════════════════════════════════

/// Majuscule(s) Unicode d'un caractère (valeur nommée de
/// `char::to_uppercase`).
pub uninterp spec fn majuscules_car(c: char) -> Seq<char>;

/// `char::to_uppercase` (std) collecté en chaîne. Contrat : le résultat est
/// la valeur nommée `majuscules_car` du caractère.
#[verifier::external_body]
fn en_majuscules(c: char) -> (r: String)
    ensures
        r@ == majuscules_car(c),
{
    c.to_uppercase().collect::<String>()
}

/// Séparateur des mots d'un identifiant.
pub open spec fn separateur(c: char) -> bool {
    c == '_' || c == '-'
}

/// Les morceaux d'un identifiant séparés par `_` ou `-` (vides compris).
pub open spec fn morceaux_id(s: Seq<char>) -> Seq<Seq<char>>
    decreases s.len(),
{
    if s.len() == 0 {
        seq![Seq::empty()]
    } else {
        let d = morceaux_id(s.drop_last());
        if separateur(s.last()) {
            d.push(Seq::empty())
        } else {
            d.drop_last().push(d.last().push(s.last()))
        }
    }
}

/// Mot avec sa première lettre en majuscule(s).
pub open spec fn capitalise(m: Seq<char>) -> Seq<char> {
    if m.len() == 0 {
        m
    } else {
        majuscules_car(m[0]) + m.drop_first()
    }
}

/// Les mots non vides.
pub open spec fn mots_non_vides(ms: Seq<Seq<char>>) -> Seq<Seq<char>>
    decreases ms.len(),
{
    if ms.len() == 0 {
        Seq::empty()
    } else {
        let r = mots_non_vides(ms.drop_last());
        if ms.last().len() == 0 {
            r
        } else {
            r.push(ms.last())
        }
    }
}

/// Nom lisible d'un identifiant d'extension : ses mots séparés par des
/// espaces, le premier avec une majuscule (« mon_extension » donne « Mon
/// extension ») ; l'identifiant lui-même s'il n'a aucun mot.
pub open spec fn nom_lisible_de(id: Seq<char>) -> Seq<char> {
    let m = mots_non_vides(morceaux_id(id));
    if m.len() == 0 {
        id
    } else {
        joindre(m.update(0, capitalise(m[0])), " "@)
    }
}

proof fn lemme_mots_non_vides(ms: Seq<Seq<char>>)
    ensures
        forall|i: int| 0 <= i < mots_non_vides(ms).len() ==> (#[trigger] mots_non_vides(ms)[i]).len() > 0,
    decreases ms.len(),
{
    if ms.len() > 0 {
        lemme_mots_non_vides(ms.drop_last());
        let r = mots_non_vides(ms.drop_last());
        assert forall|i: int| 0 <= i < mots_non_vides(ms).len() implies (#[trigger] mots_non_vides(ms)[i]).len() > 0 by {
            if i < r.len() {
                assert(mots_non_vides(ms)[i] == r[i]);
            }
        }
    }
}

fn capitaliser(m: &Vec<char>) -> (r: Vec<char>)
    requires
        m@.len() > 0,
    ensures
        r@ == capitalise(m@),
{
    let mut o = caracteres(en_majuscules(m[0]).as_str());
    let reste = tranche(m, 1, m.len());
    assert(reste@ =~= m@.drop_first());
    ajouter_car(&mut o, &reste);
    o
}

/// Nom lisible d'un identifiant (voir `nom_lisible_de`).
pub fn nom_lisible(id: &str) -> (r: String)
    ensures
        r@ == nom_lisible_de(id@),
{
    let c = caracteres(id);
    let mut mots: Vec<Vec<char>> = Vec::new();
    let mut courant: Vec<char> = Vec::new();
    let mut i: usize = 0;
    assert(c@.subrange(0, 0) =~= Seq::<char>::empty());
    while i < c.len()
        invariant
            i <= c.len(),
            crate::texte::vues(mots@) == mots_non_vides(morceaux_id(c@.subrange(0, i as int)).drop_last()),
            courant@ == morceaux_id(c@.subrange(0, i as int)).last(),
        decreases c.len() - i,
    {
        let ghost p = c@.subrange(0, i as int);
        let ghost d = morceaux_id(p);
        assert(c@.subrange(0, i + 1).drop_last() =~= p);
        if c[i] == '_' || c[i] == '-' {
            if courant.len() > 0 {
                let ghost avant = crate::texte::vues(mots@);
                mots.push(courant);
                assert(crate::texte::vues(mots@) =~= avant.push(d.last()));
            }
            assert(morceaux_id(c@.subrange(0, i + 1)).drop_last() =~= d);
            courant = Vec::new();
        } else {
            assert(morceaux_id(c@.subrange(0, i + 1)).drop_last() =~= d.drop_last());
            courant.push(c[i]);
        }
        i += 1;
    }
    assert(c@.subrange(0, c@.len() as int) =~= c@);
    if courant.len() > 0 {
        let ghost avant = crate::texte::vues(mots@);
        mots.push(courant);
        assert(crate::texte::vues(mots@) =~= avant.push(morceaux_id(c@).last()));
    }
    let ghost brut = crate::texte::vues(mots@);
    assert(brut == mots_non_vides(morceaux_id(c@)));
    if mots.len() == 0 {
        return chaine_de(&c);
    }
    proof {
        lemme_mots_non_vides(morceaux_id(c@));
    }
    assert(mots@[0]@ == brut[0]);
    let premier = capitaliser(&mots[0]);
    mots.set(0, premier);
    let ghost mv = crate::texte::vues(mots@);
    assert(mv =~= brut.update(0, capitalise(brut[0])));
    let mut o: Vec<char> = Vec::new();
    let mut k: usize = 0;
    while k < mots.len()
        invariant
            k <= mots.len(),
            mv == crate::texte::vues(mots@),
            o@ == joindre(mv.subrange(0, k as int), " "@),
        decreases mots.len() - k,
    {
        assert(mv.subrange(0, k + 1).drop_last() =~= mv.subrange(0, k as int));
        assert(mv[k as int] == mots@[k as int]@);
        if k > 0 {
            ajouter(&mut o, " ");
        }
        ajouter_car(&mut o, &mots[k]);
        proof {
            reveal_strlit(" ");
            if k == 0 {
                assert(o@ =~= mv.subrange(0, 1)[0]);
            }
        }
        k += 1;
    }
    assert(mv.subrange(0, mots@.len() as int) =~= mv);
    chaine_de(&o)
}

// ══════════════════════════════════════════════════════════════════
// Gabarit
// ══════════════════════════════════════════════════════════════════

/// Textes du script de la page, dans l'ordre de leurs clés.
pub struct TextesRecherche {
    pub afficher_moins: String,
    pub afficher_plus_plur: String,
    pub afficher_plus_sing: String,
    pub en_cours: String,
    pub erreur_reseau: String,
    pub invite: String,
    pub telecharger: String,
}

/// Objet JSON des textes, clés dans l'ordre alphabétique.
pub open spec fn objet_textes(t: TextesRecherche) -> Seq<char> {
    "{\"afficherMoins\":"@ + json_chaine(t.afficher_moins@) + ",\"afficherPlusPlur\":"@ + json_chaine(
        t.afficher_plus_plur@,
    ) + ",\"afficherPlusSing\":"@ + json_chaine(t.afficher_plus_sing@) + ",\"enCours\":"@ + json_chaine(
        t.en_cours@,
    ) + ",\"erreurReseau\":"@ + json_chaine(t.erreur_reseau@) + ",\"invite\":"@ + json_chaine(t.invite@)
        + ",\"telecharger\":"@ + json_chaine(t.telecharger@) + "}"@
}

/// Script de la page : les textes, l'identifiant et le privilège du compte.
pub open spec fn script_recherche(t: TextesRecherche, uid: i64, privilege: i64) -> Seq<char> {
    "const I18N = "@ + objet_textes(t) + "; const MON_ID = "@ + decimal_signe(uid as int) + "; const MON_PRIVILEGE = "@
        + decimal_signe(privilege as int) + ";"@
}

/// Page de recherche : barre de navigation, traductions, puis le script à la
/// place de la première marque `{{I18N_JS}}`.
pub open spec fn page_recherche(
    html: Seq<char>,
    nav: Seq<char>,
    tr: Seq<(String, String)>,
    t: TextesRecherche,
    uid: i64,
    privilege: i64,
) -> Seq<char> {
    remplacer_premier(
        traduire(remplacer(html, "__NAV_HTML__"@, nav), tr),
        "{{I18N_JS}}"@,
        script_recherche(t, uid, privilege),
    )
}

/// Remplit le gabarit de la page de recherche (voir `page_recherche`).
pub fn serve_html(
    html: &str,
    nav: &str,
    tr: &[(String, String)],
    t: &TextesRecherche,
    uid: i64,
    privilege: i64,
) -> (r: String)
    ensures
        r@ == page_recherche(html@, nav@, tr@, *t, uid, privilege),
{
    proof {
        reveal_strlit("__NAV_HTML__");
    }
    let mut s = remplace(html, "__NAV_HTML__", nav);
    let ghost base = s@;
    let mut i: usize = 0;
    assert(tr@.subrange(0, 0) =~= Seq::<(String, String)>::empty());
    while i < tr.len()
        invariant
            i <= tr.len(),
            s@ == traduire(base, tr@.subrange(0, i as int)),
        decreases tr.len() - i,
    {
        assert(tr@.subrange(0, i + 1).drop_last() =~= tr@.subrange(0, i as int));
        s = remplace(s.as_str(), tr[i].0.as_str(), tr[i].1.as_str());
        i += 1;
    }
    assert(tr@.subrange(0, tr@.len() as int) =~= tr@);
    let mut js: Vec<char> = Vec::new();
    ajouter(&mut js, "const I18N = {\"afficherMoins\":");
    ajouter(&mut js, chaine_json(t.afficher_moins.as_str()).as_str());
    ajouter(&mut js, ",\"afficherPlusPlur\":");
    ajouter(&mut js, chaine_json(t.afficher_plus_plur.as_str()).as_str());
    ajouter(&mut js, ",\"afficherPlusSing\":");
    ajouter(&mut js, chaine_json(t.afficher_plus_sing.as_str()).as_str());
    ajouter(&mut js, ",\"enCours\":");
    ajouter(&mut js, chaine_json(t.en_cours.as_str()).as_str());
    ajouter(&mut js, ",\"erreurReseau\":");
    ajouter(&mut js, chaine_json(t.erreur_reseau.as_str()).as_str());
    ajouter(&mut js, ",\"invite\":");
    ajouter(&mut js, chaine_json(t.invite.as_str()).as_str());
    ajouter(&mut js, ",\"telecharger\":");
    ajouter(&mut js, chaine_json(t.telecharger.as_str()).as_str());
    ajouter(&mut js, "}; const MON_ID = ");
    ajouter_decimal_signe(&mut js, uid);
    ajouter(&mut js, "; const MON_PRIVILEGE = ");
    ajouter_decimal_signe(&mut js, privilege);
    ajouter(&mut js, ";");
    proof {
        reveal_strlit("{\"afficherMoins\":");
        reveal_strlit("const I18N = {\"afficherMoins\":");
        reveal_strlit("const I18N = ");
        reveal_strlit("}; const MON_ID = ");
        reveal_strlit("}");
        reveal_strlit("; const MON_ID = ");
    }
    assert(js@ =~= script_recherche(*t, uid, privilege));
    let jss = chaine_de(&js);
    crate::compte::remplacer_une_fois(s.as_str(), "{{I18N_JS}}", jss.as_str())
}

// ══════════════════════════════════════════════════════════════════
// Taille d'un fichier
// ══════════════════════════════════════════════════════════════════

/// Taille lisible : en octets sous 1024, sinon en Ko, Mo ou Go (Go au-delà)
/// avec une décimale, arrondi de l'écriture `{:.1}` du quotient flottant.
pub open spec fn taille_fr(o: u64) -> Seq<char> {
    if o >= 1073741824 {
        une_decimale(dixiemes(vers_f64(o as nat), 30)) + " Go"@
    } else if o >= 1048576 {
        une_decimale(dixiemes(vers_f64(o as nat), 20)) + " Mo"@
    } else if o >= 1024 {
        une_decimale(dixiemes(vers_f64(o as nat), 10)) + " Ko"@
    } else {
        decimal(o as nat) + " o"@
    }
}

/// Taille d'un fichier pour les résultats de recherche (voir `taille_fr`).
pub fn formater_taille(o: u64) -> (r: String)
    ensures
        r@ == taille_fr(o),
{
    let mut s: Vec<char> = Vec::new();
    if o < 1024 {
        ajouter_decimal(&mut s, o as u128);
        ajouter(&mut s, " o");
        return chaine_de(&s);
    }
    let x = f64_de(o);
    let (k, unite) = if o >= 1_073_741_824 {
        (30u32, " Go")
    } else if o >= 1_048_576 {
        (20u32, " Mo")
    } else {
        (10u32, " Ko")
    };
    let c = dixiemes_de(x, k);
    ajouter_une_decimale(&mut s, c);
    ajouter(&mut s, unite);
    chaine_de(&s)
}

// ══════════════════════════════════════════════════════════════════
// Catalogue d'extensions
// ══════════════════════════════════════════════════════════════════

/// `s` sans toutes les répétitions finales du motif `p` (`trim_end_matches`).
pub open spec fn sans_suffixes(s: Seq<char>, p: Seq<char>) -> Seq<char>
    decreases s.len(),
{
    if p.len() > 0 && finit_par(s, p) {
        sans_suffixes(s.subrange(0, s.len() - p.len()), p)
    } else {
        s
    }
}

fn retirer_suffixes(s: &[char], p: &str) -> (r: Vec<char>)
    ensures
        r@ == sans_suffixes(s@, p@),
{
    let pc = caracteres(p);
    let mut c: Vec<char> = tranche(s, 0, s.len());
    assert(c@ =~= s@);
    if pc.len() == 0 {
        return c;
    }
    while finit_lit(&c, p)
        invariant
            pc@ == p@,
            pc@.len() > 0,
            sans_suffixes(c@, p@) == sans_suffixes(s@, p@),
        decreases c.len(),
    {
        c = tranche(&c, 0, c.len() - pc.len());
    }
    c
}

/// Fichier publié dans le catalogue d'extensions. `id_marche` est
/// l'identifiant que le catalogue tire du nom du fichier.
pub struct AssetMarche {
    pub nom: String,
    pub id_marche: String,
    pub taille: u64,
    pub url: String,
    pub maj: String,
    pub telechargements: u64,
}

/// Extension trouvée : fichiers de même identifiant regroupés.
pub struct ExtensionTrouvee {
    pub id: String,
    /// Nom lisible tiré de l'identifiant.
    pub nom: String,
    /// Somme des tailles des fichiers.
    pub taille: u64,
    /// Lien et date du manifeste s'il y en a un, sinon du dernier fichier.
    pub url: String,
    pub maj: String,
    /// Plus grand nombre de téléchargements d'un fichier.
    pub telechargements: u64,
    /// Un manifeste `.extension.json` fait partie du groupe.
    pub a_manifeste: bool,
}

/// Le fichier est un manifeste (`.extension.json`, casse ignorée).
pub open spec fn est_manifeste(a: AssetMarche) -> bool {
    finit_par(minuscules_unicode(a.nom@), ".extension.json"@)
}

/// Fichier d'extension : manifeste, source `.rs` ou archive `.zip`.
pub open spec fn asset_retenu(a: AssetMarche) -> bool {
    let b = minuscules_unicode(a.nom@);
    est_manifeste(a) || finit_par(b, ".rs"@) || finit_par(b, ".zip"@)
}

/// Identifiant de l'extension d'un fichier : le nom du manifeste sans son
/// suffixe, en minuscules, ou l'identifiant du catalogue.
pub open spec fn id_asset(a: AssetMarche) -> Seq<char> {
    if est_manifeste(a) {
        minuscules_unicode(sans_suffixes(a.nom@, ".extension.json"@))
    } else {
        a.id_marche@
    }
}

/// Le fichier répond à la recherche `r` (vide : tout répond) par son nom
/// en minuscules ou son identifiant.
pub open spec fn asset_cherche(r: Seq<char>, a: AssetMarche) -> bool {
    r.len() == 0 || contient_motif(minuscules_unicode(a.nom@), r) || contient_motif(id_asset(a), r)
}

/// Vue d'une extension trouvée : identifiant, taille, lien, date,
/// téléchargements, manifeste.
pub open spec fn vue_ext(e: ExtensionTrouvee) -> (Seq<char>, int, Seq<char>, Seq<char>, int, bool) {
    (e.id@, e.taille as int, e.url@, e.maj@, e.telechargements as int, e.a_manifeste)
}

/// Position du groupe d'identifiant `id`, -1 s'il n'y en a pas.
pub open spec fn position_id(g: Seq<(Seq<char>, int, Seq<char>, Seq<char>, int, bool)>, id: Seq<char>) -> int
    decreases g.len(),
{
    if g.len() == 0 {
        -1
    } else if g.last().0 == id && position_id(g.drop_last(), id) < 0 {
        g.len() - 1
    } else {
        position_id(g.drop_last(), id)
    }
}

/// Groupe après l'ajout du fichier `a`.
pub open spec fn fusion_asset(
    e: (Seq<char>, int, Seq<char>, Seq<char>, int, bool),
    a: AssetMarche,
) -> (Seq<char>, int, Seq<char>, Seq<char>, int, bool) {
    let remplace = est_manifeste(a) || !e.5;
    (
        e.0,
        e.1 + a.taille,
        if remplace { a.url@ } else { e.2 },
        if remplace { a.maj@ } else { e.3 },
        if a.telechargements > e.4 { a.telechargements as int } else { e.4 },
        e.5 || est_manifeste(a),
    )
}

/// Groupes des fichiers retenus pour la recherche `r`, dans l'ordre où
/// leurs identifiants apparaissent.
pub open spec fn groupes(r: Seq<char>, s: Seq<AssetMarche>) -> Seq<(Seq<char>, int, Seq<char>, Seq<char>, int, bool)>
    decreases s.len(),
{
    if s.len() == 0 {
        Seq::empty()
    } else {
        let g = groupes(r, s.drop_last());
        let a = s.last();
        if !(asset_retenu(a) && asset_cherche(r, a)) {
            g
        } else {
            let k = position_id(g, id_asset(a));
            if k < 0 {
                g.push(fusion_asset((id_asset(a), 0, a.url@, a.maj@, 0, false), a))
            } else {
                g.update(k, fusion_asset(g[k], a))
            }
        }
    }
}

/// Somme des tailles des fichiers.
pub open spec fn somme_tailles(s: Seq<AssetMarche>) -> int
    decreases s.len(),
{
    if s.len() == 0 { 0 } else { somme_tailles(s.drop_last()) + s.last().taille }
}

proof fn lemme_position(g: Seq<(Seq<char>, int, Seq<char>, Seq<char>, int, bool)>, id: Seq<char>)
    ensures
        -1 <= position_id(g, id) < g.len(),
        position_id(g, id) >= 0 ==> g[position_id(g, id)].0 == id,
        position_id(g, id) < 0 ==> forall|j: int| 0 <= j < g.len() ==> g[j].0 != id,
        position_id(g, id) >= 0 ==> forall|j: int| 0 <= j < position_id(g, id) ==> g[j].0 != id,
    decreases g.len(),
{
    if g.len() > 0 {
        lemme_position(g.drop_last(), id);
        assert forall|j: int| 0 <= j < g.len() - 1 implies g[j] == g.drop_last()[j] by {}
    }
}

proof fn lemme_somme_croissante(s: Seq<AssetMarche>, i: int)
    requires
        0 <= i <= s.len(),
    ensures
        somme_tailles(s.subrange(0, i)) <= somme_tailles(s),
    decreases s.len() - i,
{
    if i < s.len() {
        lemme_somme_croissante(s, i + 1);
        assert(s.subrange(0, i + 1).drop_last() =~= s.subrange(0, i));
    } else {
        assert(s.subrange(0, i) =~= s);
    }
}

proof fn lemme_somme_positive(s: Seq<AssetMarche>)
    ensures
        somme_tailles(s) >= 0,
    decreases s.len(),
{
    if s.len() > 0 {
        lemme_somme_positive(s.drop_last());
    }
}

fn chercher_groupe(g: &Vec<ExtensionTrouvee>, id: &[char]) -> (r: Option<usize>)
    ensures
        match r {
            Some(k) => position_id(g@.map_values(|e: ExtensionTrouvee| vue_ext(e)), id@) == k as int,
            None => position_id(g@.map_values(|e: ExtensionTrouvee| vue_ext(e)), id@) < 0,
        },
{
    let ghost v = g@.map_values(|e: ExtensionTrouvee| vue_ext(e));
    proof {
        lemme_position(v, id@);
    }
    let mut j: usize = 0;
    while j < g.len()
        invariant
            j <= g.len(),
            v == g@.map_values(|e: ExtensionTrouvee| vue_ext(e)),
            -1 <= position_id(v, id@) < v.len(),
            position_id(v, id@) >= 0 ==> v[position_id(v, id@)].0 == id@,
            position_id(v, id@) < 0 ==> forall|k: int| 0 <= k < v.len() ==> v[k].0 != id@,
            position_id(v, id@) >= 0 ==> forall|k: int| 0 <= k < position_id(v, id@) ==> v[k].0 != id@,
            forall|k: int| 0 <= k < j ==> v[k].0 != id@,
        decreases g.len() - j,
    {
        assert(v[j as int] == vue_ext(g@[j as int]));
        if egales(&caracteres(g[j].id.as_str()), id) {
            return Some(j);
        }
        j += 1;
    }
    None
}

/// Recherche `q` dans les fichiers du catalogue d'extensions : fichiers
/// d'extension (voir `asset_retenu`) dont le nom ou l'identifiant contient
/// la recherche rognée et mise en minuscules, regroupés par identifiant
/// (voir `groupes`), chacun avec son nom lisible.
pub fn extensions_rechercher(q: &str, assets: &[AssetMarche]) -> (r: Vec<ExtensionTrouvee>)
    requires
        somme_tailles(assets@) <= u64::MAX,
    ensures
        r@.map_values(|e: ExtensionTrouvee| vue_ext(e)) == groupes(minuscules_unicode(rogner(q@)), assets@),
        forall|k: int| 0 <= k < r@.len() ==> (#[trigger] r@[k]).nom@ == nom_lisible_de(r@[k].id@),
{
    let rech = en_minuscules_unicode(chaine_de(&rogne(&caracteres(q))).as_str());
    let rc = caracteres(rech.as_str());
    let ghost rv = minuscules_unicode(rogner(q@));
    let mut g: Vec<ExtensionTrouvee> = Vec::new();
    let mut i: usize = 0;
    while i < assets.len()
        invariant
            i <= assets.len(),
            rc@ == rv,
            somme_tailles(assets@) <= u64::MAX,
            g@.map_values(|e: ExtensionTrouvee| vue_ext(e)) == groupes(rv, assets@.subrange(0, i as int)),
            forall|k: int| 0 <= k < g@.len() ==> (#[trigger] g@[k]).nom@ == nom_lisible_de(g@[k].id@),
            forall|k: int| 0 <= k < g@.len() ==> (#[trigger] g@[k]).taille <= somme_tailles(assets@.subrange(0, i as int)),
        decreases assets.len() - i,
    {
        let ghost avant = g@;
        let ghost pre = assets@.subrange(0, i as int);
        assert(assets@.subrange(0, i + 1).drop_last() =~= pre);
        assert(assets@.subrange(0, i + 1).last() == assets@[i as int]);
        proof {
            lemme_somme_croissante(assets@, i + 1);
            lemme_somme_positive(pre);
        }
        assert(somme_tailles(assets@.subrange(0, i + 1)) == somme_tailles(pre) + assets@[i as int].taille);
        let a = &assets[i];
        let bas = caracteres(en_minuscules_unicode(a.nom.as_str()).as_str());
        let manif = finit_lit(&bas, ".extension.json");
        if manif || finit_lit(&bas, ".rs") || finit_lit(&bas, ".zip") {
            let id: Vec<char> = if manif {
                let sans = chaine_de(&retirer_suffixes(&caracteres(a.nom.as_str()), ".extension.json"));
                caracteres(en_minuscules_unicode(sans.as_str()).as_str())
            } else {
                caracteres(a.id_marche.as_str())
            };
            if rc.len() == 0 || trouver_motif(&bas, &rc).is_some() || trouver_motif(&id, &rc).is_some() {
                match chercher_groupe(&g, &id) {
                    None => {
                        let idc = chaine_de(&id);
                        let e = ExtensionTrouvee {
                            nom: nom_lisible(idc.as_str()),
                            id: idc,
                            taille: a.taille,
                            url: chaine_de(&caracteres(a.url.as_str())),
                            maj: chaine_de(&caracteres(a.maj.as_str())),
                            telechargements: a.telechargements,
                            a_manifeste: manif,
                        };
                        g.push(e);
                        assert(g@.map_values(|e: ExtensionTrouvee| vue_ext(e)) =~= groupes(rv, pre).push(
                            fusion_asset((id@, 0, a.url@, a.maj@, 0, false), *a)));
                    },
                    Some(k) => {
                        proof {
                            lemme_position(groupes(rv, pre), id@);
                        }
                        assert(g@.map_values(|e: ExtensionTrouvee| vue_ext(e)).len() == g@.len());
                        let ancien = &g[k];
                        assert(vue_ext(*ancien) == groupes(rv, pre)[k as int]);
                        assert(ancien.taille + a.taille <= somme_tailles(assets@.subrange(0, i + 1)));
                        let remplace = manif || !ancien.a_manifeste;
                        let e = ExtensionTrouvee {
                            id: chaine_de(&caracteres(ancien.id.as_str())),
                            nom: chaine_de(&caracteres(ancien.nom.as_str())),
                            taille: ancien.taille + a.taille,
                            url: if remplace { chaine_de(&caracteres(a.url.as_str())) } else { chaine_de(&caracteres(ancien.url.as_str())) },
                            maj: if remplace { chaine_de(&caracteres(a.maj.as_str())) } else { chaine_de(&caracteres(ancien.maj.as_str())) },
                            telechargements: if a.telechargements > ancien.telechargements { a.telechargements } else { ancien.telechargements },
                            a_manifeste: ancien.a_manifeste || manif,
                        };
                        g.set(k, e);
                        assert(g@.map_values(|e: ExtensionTrouvee| vue_ext(e)) =~= groupes(rv, pre).update(
                            k as int, fusion_asset(groupes(rv, pre)[k as int], *a)));
                    },
                }
            }
        }
        i += 1;
    }
    assert(assets@.subrange(0, assets@.len() as int) =~= assets@);
    g
}

// ══════════════════════════════════════════════════════════════════
// Wikipédia
// ══════════════════════════════════════════════════════════════════

/// Adresse de l'API de recherche de Wikipédia en français pour `recherche`
/// (extraits d'introduction en texte brut et miniatures de 200 pixels).
pub open spec fn url_recherche_wikipedia(recherche: Seq<char>) -> Seq<char> {
    "https://fr.wikipedia.org/w/api.php?action=query&format=json&generator=search&gsrlimit=10&gsrsearch="@
        + encode_url(recherche)
        + "&prop=extracts|pageimages&exintro=1&explaintext=1&piprop=thumbnail&pithumbsize=200"@
}

/// Adresse de recherche Wikipédia (voir `url_recherche_wikipedia`).
pub fn url_wikipedia(recherche: &str) -> (r: String)
    ensures
        r@ == url_recherche_wikipedia(recherche@),
{
    let mut o: Vec<char> = Vec::new();
    ajouter(&mut o, "https://fr.wikipedia.org/w/api.php?action=query&format=json&generator=search&gsrlimit=10&gsrsearch=");
    ajouter(&mut o, encoder_url(recherche).as_str());
    ajouter(&mut o, "&prop=extracts|pageimages&exintro=1&explaintext=1&piprop=thumbnail&pithumbsize=200");
    chaine_de(&o)
}

/// Recherche restreinte aux titres, faite en premier : `intitle:<q>`.
pub open spec fn recherche_par_titre(q: Seq<char>) -> Seq<char> {
    "intitle:"@ + q
}

/// Recherche par titre (voir `recherche_par_titre`).
pub fn requete_titre(q: &str) -> (r: String)
    ensures
        r@ == recherche_par_titre(q@),
{
    let mut o: Vec<char> = Vec::new();
    ajouter(&mut o, "intitle:");
    ajouter(&mut o, q);
    chaine_de(&o)
}

/// Page rendue par l'API : rang de pertinence, titre, extrait, miniature.
pub struct PageWiki {
    pub index: Option<i64>,
    pub titre: String,
    pub extrait: String,
    pub image: Option<String>,
}

/// Résultat de recherche Wikipédia prêt à afficher.
pub struct ResultatWiki {
    pub titre: String,
    pub extrait: String,
    pub image: Option<String>,
}

/// Clé de tri d'une page : son rang, les pages sans rang en dernier.
pub open spec fn cle_page(p: PageWiki) -> i64 {
    match p.index {
        Some(i) => i,
        None => i64::MAX,
    }
}

/// `s` (déjà trié par clé) où `p` est inséré après toutes les pages de clé
/// inférieure ou égale : tri stable par insertion.
pub open spec fn inserer_page(s: Seq<PageWiki>, p: PageWiki) -> Seq<PageWiki>
    decreases s.len(),
{
    if s.len() == 0 {
        seq![p]
    } else if cle_page(s.last()) <= cle_page(p) {
        s.push(p)
    } else {
        inserer_page(s.drop_last(), p).push(s.last())
    }
}

/// Pages triées par rang, de façon stable (`sort_by_key`).
pub open spec fn pages_triees(s: Seq<PageWiki>) -> Seq<PageWiki>
    decreases s.len(),
{
    if s.len() == 0 { Seq::empty() } else { inserer_page(pages_triees(s.drop_last()), s.last()) }
}

/// Résultats tirés des pages triées : celles qui ont un titre et un extrait,
/// l'extrait réduit à `EXTRAIT_LEN` caractères.
pub open spec fn resultats_pages(s: Seq<PageWiki>) -> Seq<(Seq<char>, Seq<char>, Option<Seq<char>>)>
    decreases s.len(),
{
    if s.len() == 0 {
        Seq::empty()
    } else {
        let r = resultats_pages(s.drop_last());
        let p = s.last();
        if p.titre@.len() == 0 || p.extrait@.len() == 0 {
            r
        } else {
            r.push((p.titre@, extrait_de(p.extrait@, EXTRAIT_LEN as nat), match p.image {
                Some(x) => Some(x@),
                None => None,
            }))
        }
    }
}

/// Vue d'un résultat.
pub open spec fn vue_resultat(r: ResultatWiki) -> (Seq<char>, Seq<char>, Option<Seq<char>>) {
    (r.titre@, r.extrait@, match r.image {
        Some(x) => Some(x@),
        None => None,
    })
}

fn cle_exec(p: &PageWiki) -> (r: i64)
    ensures
        r == cle_page(*p),
{
    match p.index {
        Some(i) => i,
        None => i64::MAX,
    }
}

fn copie_page(p: &PageWiki) -> (r: PageWiki)
    ensures
        r.index == p.index,
        r.titre@ == p.titre@,
        r.extrait@ == p.extrait@,
        match (r.image, p.image) {
            (Some(a), Some(b)) => a@ == b@,
            (None, None) => true,
            _ => false,
        },
{
    PageWiki {
        index: p.index,
        titre: chaine_de(&caracteres(p.titre.as_str())),
        extrait: chaine_de(&caracteres(p.extrait.as_str())),
        image: match &p.image {
            Some(x) => Some(chaine_de(&caracteres(x.as_str()))),
            None => None,
        },
    }
}

/// Vue d'une page (les chaînes par leurs caractères).
pub open spec fn vue_page(p: PageWiki) -> (Option<i64>, Seq<char>, Seq<char>, Option<Seq<char>>) {
    (p.index, p.titre@, p.extrait@, match p.image {
        Some(x) => Some(x@),
        None => None,
    })
}

/// Vues d'une suite de pages.
pub open spec fn vues_pages(s: Seq<PageWiki>) -> Seq<(Option<i64>, Seq<char>, Seq<char>, Option<Seq<char>>)> {
    s.map_values(|p: PageWiki| vue_page(p))
}

proof fn lemme_inserer_vue(s: Seq<PageWiki>, t: Seq<PageWiki>, p: PageWiki, q: PageWiki)
    requires
        vues_pages(s) == vues_pages(t),
        vue_page(p) == vue_page(q),
    ensures
        vues_pages(inserer_page(s, p)) == vues_pages(inserer_page(t, q)),
    decreases s.len(),
{
    assert(s.len() == t.len()) by {
        assert(vues_pages(s).len() == s.len());
    }
    if s.len() > 0 {
        assert(vue_page(s.last()) == vues_pages(s)[s.len() - 1]);
        assert(vue_page(t.last()) == vues_pages(t)[t.len() - 1]);
        assert(vues_pages(s.drop_last()) =~= vues_pages(s).drop_last());
        assert(vues_pages(t.drop_last()) =~= vues_pages(t).drop_last());
        lemme_inserer_vue(s.drop_last(), t.drop_last(), p, q);
        if cle_page(s.last()) <= cle_page(p) {
            assert(vues_pages(inserer_page(s, p)) =~= vues_pages(s).push(vue_page(p)));
            assert(vues_pages(inserer_page(t, q)) =~= vues_pages(t).push(vue_page(q)));
        } else {
            assert(vues_pages(inserer_page(s, p)) =~= vues_pages(inserer_page(s.drop_last(), p)).push(vue_page(s.last())));
            assert(vues_pages(inserer_page(t, q)) =~= vues_pages(inserer_page(t.drop_last(), q)).push(vue_page(t.last())));
        }
    } else {
        assert(vues_pages(inserer_page(s, p)) =~= seq![vue_page(p)]);
        assert(vues_pages(inserer_page(t, q)) =~= seq![vue_page(q)]);
    }
}

/// Insère une copie de `p` dans `v`, trié, à la place donnée par
/// `inserer_page`.
fn inserer_trie(v: &mut Vec<PageWiki>, p: &PageWiki)
    ensures
        vues_pages(final(v)@) == vues_pages(inserer_page(old(v)@, *p)),
{
    let k = cle_exec(p);
    let mut j: usize = v.len();
    let ghost s = v@;
    // Trouve la position : après le dernier élément de clé <= k.
    while j > 0 && cle_exec(&v[j - 1]) > k
        invariant
            j <= v.len(),
            v@ == s,
            k == cle_page(*p),
            forall|m: int| j <= m < s.len() ==> cle_page(#[trigger] s[m]) > k,
        decreases j,
    {
        j -= 1;
    }
    proof {
        lemme_insertion_position(s, *p, j as int);
    }
    v.insert(j, copie_page(p));
    assert(vues_pages(v@) =~= vues_pages(s.subrange(0, j as int).push(*p) + s.subrange(j as int, s.len() as int)));
}

/// L'insertion place `p` juste après le dernier élément de clé au plus la
/// sienne, les suivants ayant tous une clé supérieure.
proof fn lemme_insertion_position(s: Seq<PageWiki>, p: PageWiki, j: int)
    requires
        0 <= j <= s.len(),
        j == 0 || cle_page(s[j - 1]) <= cle_page(p),
        forall|m: int| j <= m < s.len() ==> cle_page(#[trigger] s[m]) > cle_page(p),
    ensures
        inserer_page(s, p) == s.subrange(0, j).push(p) + s.subrange(j, s.len() as int),
    decreases s.len(),
{
    if s.len() == 0 {
        assert(seq![p] =~= Seq::<PageWiki>::empty().push(p) + Seq::<PageWiki>::empty());
    } else if j == s.len() {
        assert(s.subrange(0, j) =~= s);
        assert(s.subrange(j, s.len() as int) =~= Seq::<PageWiki>::empty());
        assert(s.push(p) =~= s.subrange(0, j).push(p) + s.subrange(j, s.len() as int));
    } else {
        let d = s.drop_last();
        assert forall|m: int| j <= m < d.len() implies cle_page(#[trigger] d[m]) > cle_page(p) by {
            assert(d[m] == s[m]);
        }
        if j > 0 {
            assert(d[j - 1] == s[j - 1]);
        }
        lemme_insertion_position(d, p, j);
        assert(cle_page(s.last()) > cle_page(p));
        assert(d.subrange(0, j) =~= s.subrange(0, j));
        assert(d.subrange(j, d.len() as int).push(s.last()) =~= s.subrange(j, s.len() as int));
        assert(inserer_page(s, p) =~= (s.subrange(0, j).push(p) + d.subrange(j, d.len() as int)).push(s.last()));
    }
}

/// Résultats de recherche Wikipédia tirés des pages rendues par l'API, dans
/// l'ordre de pertinence de l'API (voir `pages_triees` et `resultats_pages`).
pub fn resultats_wikipedia(pages: &[PageWiki]) -> (r: Vec<ResultatWiki>)
    ensures
        r@.map_values(|x: ResultatWiki| vue_resultat(x)) == resultats_pages(pages_triees(pages@)),
{
    let mut triees: Vec<PageWiki> = Vec::new();
    let mut i: usize = 0;
    while i < pages.len()
        invariant
            i <= pages.len(),
            vues_pages(triees@) == vues_pages(pages_triees(pages@.subrange(0, i as int))),
        decreases pages.len() - i,
    {
        let ghost avant = triees@;
        assert(pages@.subrange(0, i + 1).drop_last() =~= pages@.subrange(0, i as int));
        inserer_trie(&mut triees, &pages[i]);
        proof {
            lemme_inserer_vue(avant, pages_triees(pages@.subrange(0, i as int)), pages@[i as int], pages@[i as int]);
        }
        i += 1;
    }
    assert(pages@.subrange(0, pages@.len() as int) =~= pages@);
    let ghost t = pages_triees(pages@);
    proof {
        lemme_resultats_vue(triees@, t);
    }
    let mut r: Vec<ResultatWiki> = Vec::new();
    let mut k: usize = 0;
    while k < triees.len()
        invariant
            k <= triees.len(),
            r@.map_values(|x: ResultatWiki| vue_resultat(x)) == resultats_pages(triees@.subrange(0, k as int)),
        decreases triees.len() - k,
    {
        assert(triees@.subrange(0, k + 1).drop_last() =~= triees@.subrange(0, k as int));
        let p = &triees[k];
        let tc = caracteres(p.titre.as_str());
        let ec = caracteres(p.extrait.as_str());
        if tc.len() > 0 && ec.len() > 0 {
            let ghost avant = r@;
            r.push(ResultatWiki {
                titre: chaine_de(&tc),
                extrait: extrait(p.extrait.as_str(), EXTRAIT_LEN),
                image: match &p.image {
                    Some(x) => Some(chaine_de(&caracteres(x.as_str()))),
                    None => None,
                },
            });
            assert(r@.map_values(|x: ResultatWiki| vue_resultat(x)) =~= avant.map_values(|x: ResultatWiki| vue_resultat(x)).push(vue_resultat(r@.last())));
        }
        k += 1;
    }
    assert(triees@.subrange(0, triees@.len() as int) =~= triees@);
    r
}

/// Mêmes vues, mêmes résultats.
proof fn lemme_resultats_vue(s: Seq<PageWiki>, t: Seq<PageWiki>)
    requires
        vues_pages(s) == vues_pages(t),
    ensures
        resultats_pages(s) == resultats_pages(t),
    decreases s.len(),
{
    assert(s.len() == t.len()) by {
        assert(vues_pages(s).len() == s.len());
    }
    if s.len() > 0 {
        assert(vues_pages(s.drop_last()) =~= vues_pages(s).drop_last());
        assert(vues_pages(t.drop_last()) =~= vues_pages(t).drop_last());
        assert(vue_page(s.last()) == vues_pages(s)[s.len() - 1]);
        assert(vue_page(t.last()) == vues_pages(t)[t.len() - 1]);
        lemme_resultats_vue(s.drop_last(), t.drop_last());
    }
}

// ══════════════════════════════════════════════════════════════════
// Wiki interne
// ══════════════════════════════════════════════════════════════════

/// Refus d'un article ou d'une entrée de FAQ.
#[derive(PartialEq, Eq, Structural, Clone, Copy, Debug)]
pub enum RefusWiki {
    /// Titre (ou question) ou contenu (ou réponse) vide après rognage.
    ChampsObligatoires,
    /// Titre de plus de 255 caractères (question de plus de 500).
    TropLong,
}

impl RefusWiki {
    /// Message d'erreur renvoyé ; `faq` choisit celui de la FAQ.
    pub fn message(&self, faq: bool) -> (r: &'static str)
        ensures
            r@ == match (*self, faq) {
                (RefusWiki::ChampsObligatoires, false) => "Titre et contenu obligatoires"@,
                (RefusWiki::TropLong, false) => "Titre trop long (255 caractères max)"@,
                (RefusWiki::ChampsObligatoires, true) => "Question et réponse obligatoires"@,
                (RefusWiki::TropLong, true) => "Question trop longue (500 caractères max)"@,
            },
    {
        match (self, faq) {
            (RefusWiki::ChampsObligatoires, false) => "Titre et contenu obligatoires",
            (RefusWiki::TropLong, false) => "Titre trop long (255 caractères max)",
            (RefusWiki::ChampsObligatoires, true) => "Question et réponse obligatoires",
            (RefusWiki::TropLong, true) => "Question trop longue (500 caractères max)",
        }
    }
}

/// Texte rogné du paramètre `k` (vide s'il manque).
pub open spec fn param_rogne(p: Map<Seq<char>, Seq<char>>, k: Seq<char>) -> Seq<char> {
    if p.contains_key(k) { rogner(p[k]) } else { Seq::empty() }
}

/// Identifiant du paramètre `id` (`parse::<i64>`), 0 s'il manque ou est
/// illisible ; strictement positif, il désigne l'entrée à modifier.
pub open spec fn param_id(p: Map<Seq<char>, Seq<char>>) -> i64 {
    if p.contains_key("id"@) {
        match crate::texte::i64_ecrit(p["id"@]) {
            Some(n) => n,
            None => 0,
        }
    } else {
        0
    }
}

/// Entrée lue d'un formulaire (article du wiki ou question de la FAQ) :
/// ses deux textes rognés et l'identifiant de l'entrée à modifier (0 pour
/// une création).
pub struct EntreeWiki {
    pub id: i64,
    pub titre: String,
    pub contenu: String,
}

/// Entrée acceptée : champs `a` et `b` non vides une fois rognés, `a` d'au
/// plus `max` caractères.
pub open spec fn entree_acceptee(
    p: Map<Seq<char>, Seq<char>>,
    a: Seq<char>,
    b: Seq<char>,
    max: nat,
) -> Result<(i64, Seq<char>, Seq<char>), RefusWiki> {
    let x = param_rogne(p, a);
    let y = param_rogne(p, b);
    if x.len() == 0 || y.len() == 0 {
        Err(RefusWiki::ChampsObligatoires)
    } else if x.len() > max {
        Err(RefusWiki::TropLong)
    } else {
        Ok((param_id(p), x, y))
    }
}

fn lire_rogne(p: &crate::utils::Parametres, k: &str) -> (r: Vec<char>)
    ensures
        r@ == param_rogne(p@, k@),
{
    match p.get(k) {
        Some(v) => rogne(&caracteres(v.as_str())),
        None => Vec::new(),
    }
}

fn lire_entree(p: &crate::utils::Parametres, a: &str, b: &str, max: usize) -> (r: Result<EntreeWiki, RefusWiki>)
    ensures
        match r {
            Ok(e) => entree_acceptee(p@, a@, b@, max as nat) == Ok::<(i64, Seq<char>, Seq<char>), RefusWiki>((e.id, e.titre@, e.contenu@)),
            Err(x) => entree_acceptee(p@, a@, b@, max as nat) == Err::<(i64, Seq<char>, Seq<char>), RefusWiki>(x),
        },
{
    let x = lire_rogne(p, a);
    let y = lire_rogne(p, b);
    if x.len() == 0 || y.len() == 0 {
        return Err(RefusWiki::ChampsObligatoires);
    }
    if x.len() > max {
        return Err(RefusWiki::TropLong);
    }
    proof {
        reveal_strlit("id");
    }
    let id = match p.get("id") {
        Some(v) => match crate::texte::analyser_i64(&caracteres(v.as_str())) {
            Some(n) => n,
            None => 0,
        },
        None => 0,
    };
    Ok(EntreeWiki { id, titre: chaine_de(&x), contenu: chaine_de(&y) })
}

/// Article du wiki envoyé (voir `entree_acceptee` : `titre` et `contenu`,
/// titre d'au plus 255 caractères).
pub fn controler_article_wiki(body: &crate::utils::Parametres) -> (r: Result<EntreeWiki, RefusWiki>)
    ensures
        match r {
            Ok(e) => entree_acceptee(body@, "titre"@, "contenu"@, 255) == Ok::<(i64, Seq<char>, Seq<char>), RefusWiki>((e.id, e.titre@, e.contenu@)),
            Err(x) => entree_acceptee(body@, "titre"@, "contenu"@, 255) == Err::<(i64, Seq<char>, Seq<char>), RefusWiki>(x),
        },
{
    lire_entree(body, "titre", "contenu", 255)
}

/// Entrée de FAQ envoyée (voir `entree_acceptee` : `question` et `reponse`,
/// question d'au plus 500 caractères).
pub fn controler_faq(body: &crate::utils::Parametres) -> (r: Result<EntreeWiki, RefusWiki>)
    ensures
        match r {
            Ok(e) => entree_acceptee(body@, "question"@, "reponse"@, 500) == Ok::<(i64, Seq<char>, Seq<char>), RefusWiki>((e.id, e.titre@, e.contenu@)),
            Err(x) => entree_acceptee(body@, "question"@, "reponse"@, 500) == Err::<(i64, Seq<char>, Seq<char>), RefusWiki>(x),
        },
{
    lire_entree(body, "question", "reponse", 500)
}

/// L'auteur d'un article, ou un compte de confiance (privilège au plus 6),
/// peut le modifier ou le supprimer.
pub fn peut_editer_article(auteur_id: i64, uid: i64, privilege: i64) -> (r: bool)
    ensures
        r == (auteur_id == uid || privilege <= 6),
{
    !(auteur_id != uid && privilege > 6)
}

/// Motif `LIKE` d'une recherche : `%<recherche rognée>%`.
pub fn motif_like(q: &str) -> (r: String)
    ensures
        r@ == "%"@ + rogner(q@) + "%"@,
{
    let mut o: Vec<char> = Vec::new();
    ajouter(&mut o, "%");
    ajouter_car(&mut o, &rogne(&caracteres(q)));
    ajouter(&mut o, "%");
    chaine_de(&o)
}

} // verus!
