//! Nettoyage des blocs envoyés par l'éditeur Sitec avant enregistrement :
//! type reconnu seulement, champs connus seulement, longueurs bornées,
//! valeurs numériques et énumérées vérifiées.

use vstd::prelude::*;
use crate::json::{
    ajouter_chaine_json, choisir, choix, elements, elements_de, joindre, json_chaine, lemme_joindre_pas, ordre_cles,
    ordre_des_cles, t, texte_champ, vues_str, Json,
};
use crate::texte::decimal_signe;
use crate::sitec::{
    animation_sure, couleurs, entier_champ, genre, genre_de, hauteurs, niveaux, reseaux_partage, safe_animation,
    san_int, GenreBloc,
};
use crate::texte::{caracteres, chaine_de};
use crate::utils::{prendre, tronquer};

verus! {

broadcast use vstd::string::group_string_axioms;

/// Valeur d'un champ de bloc nettoyé.
pub enum Valeur {
    Texte(String),
    Entier(i64),
    /// Sous-éléments : chacun une liste de (clé, texte).
    Objets(Vec<Vec<(String, String)>>),
    /// Liste de textes (réseaux de partage).
    Textes(Vec<String>),
}

/// Un bloc nettoyé : ses champs, dans l'ordre (le type d'abord,
/// l'animation en dernier).
pub struct BlocNet {
    pub champs: Vec<(String, Valeur)>,
}

/// Vue d'une valeur de champ.
pub enum VueValeur {
    Texte(Seq<char>),
    Entier(i64),
    Objets(Seq<Seq<(Seq<char>, Seq<char>)>>),
    Textes(Seq<Seq<char>>),
}

/// Vue d'un sous-élément nettoyé.
pub open spec fn vue_objet(o: Vec<(String, String)>) -> Seq<(Seq<char>, Seq<char>)> {
    o@.map_values(|p: (String, String)| (p.0@, p.1@))
}

/// Vue d'une valeur de champ.
pub open spec fn vue_valeur(v: Valeur) -> VueValeur {
    match v {
        Valeur::Texte(s) => VueValeur::Texte(s@),
        Valeur::Entier(n) => VueValeur::Entier(n),
        Valeur::Objets(o) => VueValeur::Objets(o@.map_values(|x: Vec<(String, String)>| vue_objet(x))),
        Valeur::Textes(l) => VueValeur::Textes(l@.map_values(|s: String| s@)),
    }
}

/// Vue des champs d'un bloc.
pub open spec fn vue_champs(c: Seq<(String, Valeur)>) -> Seq<(Seq<char>, VueValeur)> {
    c.map_values(|p: (String, Valeur)| (p.0@, vue_valeur(p.1)))
}

/// Vue d'une suite de blocs nettoyés.
pub open spec fn vue_blocs(s: Seq<BlocNet>) -> Seq<Seq<(Seq<char>, VueValeur)>> {
    s.map_values(|b: BlocNet| vue_champs(b.champs@))
}

/// Champ texte `k` du bloc, tronqué à `max` caractères.
pub open spec fn tx(b: Json, k: Seq<char>, max: nat) -> (Seq<char>, VueValeur) {
    (k, VueValeur::Texte(prendre(t(b, k), max)))
}

/// Les objets d'une suite, dans l'ordre.
pub open spec fn objets(s: Seq<Json>) -> Seq<Json>
    decreases s.len(),
{
    if s.len() == 0 {
        Seq::empty()
    } else if s.last() is Objet {
        objets(s.drop_last()).push(s.last())
    } else {
        objets(s.drop_last())
    }
}

/// Sous-élément nettoyé : pour chaque champ permis, son texte tronqué.
pub open spec fn objet_net(it: Json, champs: Seq<(Seq<char>, nat)>) -> Seq<(Seq<char>, Seq<char>)> {
    champs.map_values(|c: (Seq<char>, nat)| (c.0, prendre(t(it, c.0), c.1)))
}

/// Les `max` premiers objets du champ `items`, nettoyés.
pub open spec fn items_nets(b: Json, max: nat, champs: Seq<(Seq<char>, nat)>) -> VueValeur {
    VueValeur::Objets(prendre(objets(elements(b, "items"@)), max).map_values(|it: Json| objet_net(it, champs)))
}

/// Champs permis d'un sous-élément, avec leur longueur maximale.
pub open spec fn vues_gabarit(g: Seq<(&str, usize)>) -> Seq<(Seq<char>, nat)> {
    g.map_values(|p: (&str, usize)| (p.0@, p.1 as nat))
}

/// Réseaux de partage permis, dans l'ordre donné.
pub open spec fn reseaux_filtres(s: Seq<Json>) -> Seq<Seq<char>>
    decreases s.len(),
{
    if s.len() == 0 {
        Seq::empty()
    } else {
        let r = reseaux_filtres(s.drop_last());
        match s.last() {
            Json::Texte(x) => if reseaux_partage().contains(x@) { r.push(x@) } else { r },
            _ => r,
        }
    }
}

/// Réseaux de partage gardés : au plus cinq permis de la liste donnée,
/// ou tous les permis s'il n'y a pas de liste.
pub open spec fn reseaux_nets(b: Json) -> Seq<Seq<char>> {
    match crate::json::champ(b, "reseaux"@) {
        Json::Liste(l) => prendre(reseaux_filtres(l@), 5),
        _ => reseaux_partage(),
    }
}

/// Champs nettoyés propres au type `g` (hors type et animation).
pub open spec fn net_champs(g: GenreBloc, b: Json) -> Seq<(Seq<char>, VueValeur)> {
    match g {
        GenreBloc::Titre => seq![
            ("niveau"@, VueValeur::Texte(choix(t(b, "niveau"@), niveaux(), "h2"@))),
            tx(b, "texte"@, 300),
        ],
        GenreBloc::Texte => seq![tx(b, "texte"@, 20000)],
        GenreBloc::Image => seq![tx(b, "url"@, 2000), tx(b, "alt"@, 300), tx(b, "legende"@, 300)],
        GenreBloc::Galerie => seq![
            ("colonnes"@, VueValeur::Entier(entier_champ(b, "colonnes"@, 2, 4, 3))),
            ("items"@, items_nets(b, 24, seq![("url"@, 2000nat), ("alt"@, 300nat)])),
        ],
        GenreBloc::Carousel => seq![("items"@, items_nets(b, 20, seq![("url"@, 2000nat), ("alt"@, 300nat)]))],
        GenreBloc::Video => seq![tx(b, "url"@, 2000)],
        GenreBloc::Audio => seq![tx(b, "url"@, 2000)],
        GenreBloc::Bouton => seq![tx(b, "texte"@, 300), tx(b, "url"@, 2000)],
        GenreBloc::GroupeBoutons => seq![("items"@, items_nets(b, 4, seq![("texte"@, 300nat), ("url"@, 2000nat)]))],
        GenreBloc::Separateur => seq![],
        GenreBloc::Espace => seq![("hauteur"@, VueValeur::Texte(choix(t(b, "hauteur"@), hauteurs(), "m"@)))],
        GenreBloc::Citation => seq![tx(b, "texte"@, 1000), tx(b, "auteur"@, 300)],
        GenreBloc::Liste => seq![
            ("style"@, VueValeur::Texte(choix(t(b, "style"@), seq!["puce"@, "numero"@], "puce"@))),
            ("items"@, items_nets(b, 30, seq![("texte"@, 300nat)])),
        ],
        GenreBloc::IconeTexte => seq![tx(b, "icone"@, 8), tx(b, "titre"@, 300), tx(b, "texte"@, 1000)],
        GenreBloc::Carte => seq![
            tx(b, "url_image"@, 2000),
            tx(b, "titre"@, 300),
            tx(b, "texte"@, 1000),
            tx(b, "bouton_texte"@, 300),
            tx(b, "bouton_url"@, 2000),
        ],
        GenreBloc::CartesGrille => seq![
            ("colonnes"@, VueValeur::Entier(entier_champ(b, "colonnes"@, 2, 4, 3))),
            ("items"@, items_nets(b, 12, seq![("url_image"@, 2000nat), ("titre"@, 300nat), ("texte"@, 1000nat)])),
        ],
        GenreBloc::Accordeon => seq![("items"@, items_nets(b, 20, seq![("question"@, 300nat), ("reponse"@, 1000nat)]))],
        GenreBloc::Onglets => seq![("items"@, items_nets(b, 10, seq![("titre"@, 300nat), ("contenu"@, 1000nat)]))],
        GenreBloc::Temoignage => seq![
            tx(b, "texte"@, 1000),
            tx(b, "nom"@, 300),
            tx(b, "role"@, 300),
            tx(b, "avatar_url"@, 2000),
        ],
        GenreBloc::BarreProgression => seq![
            tx(b, "label"@, 300),
            ("pourcentage"@, VueValeur::Entier(entier_champ(b, "pourcentage"@, 0, 100, 50))),
        ],
        GenreBloc::Compteur => seq![
            ("valeur"@, VueValeur::Entier(entier_champ(b, "valeur"@, 0, 999_999_999, 0))),
            tx(b, "label"@, 300),
            tx(b, "suffixe"@, 10),
        ],
        GenreBloc::StatsGrille => seq![
            ("items"@, items_nets(b, 8, seq![("valeur"@, 12nat), ("label"@, 300nat), ("suffixe"@, 10nat)])),
        ],
        GenreBloc::CompteRebours => seq![tx(b, "date_cible"@, 20), tx(b, "label"@, 300)],
        GenreBloc::AppelAction => seq![
            tx(b, "titre"@, 300),
            tx(b, "texte"@, 1000),
            tx(b, "bouton_texte"@, 300),
            tx(b, "bouton_url"@, 2000),
        ],
        GenreBloc::ReseauxSociaux => seq![
            tx(b, "facebook"@, 2000),
            tx(b, "twitter"@, 2000),
            tx(b, "instagram"@, 2000),
            tx(b, "youtube"@, 2000),
            tx(b, "linkedin"@, 2000),
            tx(b, "github"@, 2000),
            tx(b, "tiktok"@, 2000),
        ],
        GenreBloc::CarteGoogleMaps => seq![tx(b, "adresse"@, 300)],
        GenreBloc::BanniereHero => seq![
            tx(b, "url_image"@, 2000),
            tx(b, "titre"@, 300),
            tx(b, "soustitre"@, 1000),
            tx(b, "bouton_texte"@, 300),
            tx(b, "bouton_url"@, 2000),
        ],
        GenreBloc::Chronologie => seq![
            ("items"@, items_nets(b, 20, seq![("date"@, 300nat), ("titre"@, 300nat), ("texte"@, 1000nat)])),
        ],
        GenreBloc::Tarifs => seq![
            tx(b, "titre"@, 300),
            tx(b, "prix"@, 300),
            tx(b, "periode"@, 300),
            tx(b, "bouton_texte"@, 300),
            tx(b, "bouton_url"@, 2000),
            ("items"@, items_nets(b, 12, seq![("texte"@, 300nat)])),
        ],
        GenreBloc::PartageSocial => seq![("reseaux"@, VueValeur::Textes(reseaux_nets(b)))],
        GenreBloc::MembreEquipe => seq![
            tx(b, "avatar_url"@, 2000),
            tx(b, "nom"@, 300),
            tx(b, "role"@, 300),
            tx(b, "bio"@, 1000),
        ],
        GenreBloc::Logos => seq![("items"@, items_nets(b, 20, seq![("url"@, 2000nat)]))],
        GenreBloc::Badge => seq![
            tx(b, "texte"@, 300),
            ("couleur"@, VueValeur::Texte(choix(t(b, "couleur"@), couleurs(), "vert"@))),
        ],
        GenreBloc::RetourHaut => seq![],
    }
}

/// Bloc nettoyé de type `g` : le type, les champs propres au type, puis
/// l'animation (connue, sinon aucune).
pub open spec fn net_bloc(g: GenreBloc, b: Json) -> Seq<(Seq<char>, VueValeur)> {
    seq![("type"@, VueValeur::Texte(t(b, "type"@)))] + net_champs(g, b) + seq![
        ("animation"@, VueValeur::Texte(animation_sure(t(b, "animation"@)))),
    ]
}

/// Blocs nettoyés d'une suite : ceux de type connu, dans l'ordre.
pub open spec fn nets(s: Seq<Json>) -> Seq<Seq<(Seq<char>, VueValeur)>>
    decreases s.len(),
{
    if s.len() == 0 {
        Seq::empty()
    } else {
        match genre_de(t(s.last(), "type"@)) {
            Some(g) => nets(s.drop_last()).push(net_bloc(g, s.last())),
            None => nets(s.drop_last()),
        }
    }
}

/// Blocs gardés d'un envoi de l'éditeur : parmi ses 200 premiers
/// éléments, ceux de type connu ; rien si l'envoi n'est pas une liste.
pub open spec fn blocs_nets(v: Json) -> Seq<Seq<(Seq<char>, VueValeur)>> {
    match v {
        Json::Liste(l) => nets(prendre(l@, 200)),
        _ => Seq::empty(),
    }
}

fn pousser_texte(c: &mut Vec<(String, Valeur)>, b: &Json, k: &str, max: usize)
    ensures
        vue_champs(final(c)@) == vue_champs(old(c)@).push(tx(*b, k@, max as nat)),
{
    let v = tronquer(&texte_champ(b, k), max);
    let ghost a = vue_champs(c@);
    c.push((chaine_de(&caracteres(k)), Valeur::Texte(chaine_de(&v))));
    assert(vue_champs(c@) =~= a.push(tx(*b, k@, max as nat)));
}

fn pousser(c: &mut Vec<(String, Valeur)>, k: &str, v: Valeur)
    ensures
        vue_champs(final(c)@) == vue_champs(old(c)@).push((k@, vue_valeur(v))),
{
    let ghost a = vue_champs(c@);
    let ghost vv = vue_valeur(v);
    c.push((chaine_de(&caracteres(k)), v));
    assert(vue_champs(c@) =~= a.push((k@, vv)));
}

fn pousser_choix(c: &mut Vec<(String, Valeur)>, b: &Json, k: &str, possibles: &[&str], defaut: &str)
    ensures
        vue_champs(final(c)@) == vue_champs(old(c)@).push(
            (k@, VueValeur::Texte(choix(t(*b, k@), vues_str(possibles@), defaut@))),
        ),
{
    let v = choisir(b, k, possibles, defaut);
    pousser(c, k, Valeur::Texte(chaine_de(&v)));
}

fn objet_nettoye(it: &Json, gabarit: &[(&str, usize)]) -> (r: Vec<(String, String)>)
    ensures
        vue_objet(r) == objet_net(*it, vues_gabarit(gabarit@)),
{
    let mut r: Vec<(String, String)> = Vec::new();
    let mut i: usize = 0;
    while i < gabarit.len()
        invariant
            i <= gabarit.len(),
            vue_objet(r) =~= objet_net(*it, vues_gabarit(gabarit@.subrange(0, i as int))),
        decreases gabarit.len() - i,
    {
        let (k, max) = gabarit[i];
        let v = tronquer(&texte_champ(it, k), max);
        let ghost a = vue_objet(r);
        r.push((chaine_de(&caracteres(k)), chaine_de(&v)));
        assert(vue_objet(r) =~= a.push((k@, prendre(t(*it, k@), max as nat))));
        assert(objet_net(*it, vues_gabarit(gabarit@.subrange(0, i + 1))) =~= objet_net(
            *it,
            vues_gabarit(gabarit@.subrange(0, i as int)),
        ).push((k@, prendre(t(*it, k@), max as nat))));
        i += 1;
    }
    assert(gabarit@.subrange(0, gabarit@.len() as int) =~= gabarit@);
    r
}

proof fn lemme_objets_longueur(s: Seq<Json>)
    ensures
        objets(s).len() <= s.len(),
    decreases s.len(),
{
    if s.len() > 0 {
        lemme_objets_longueur(s.drop_last());
    }
}

fn pousser_items(c: &mut Vec<(String, Valeur)>, b: &Json, max: usize, gabarit: &[(&str, usize)])
    ensures
        vue_champs(final(c)@) == vue_champs(old(c)@).push(("items"@, items_nets(*b, max as nat, vues_gabarit(gabarit@)))),
{
    let l = elements_de(b, "items");
    let ghost champs = vues_gabarit(gabarit@);
    let mut r: Vec<Vec<(String, String)>> = Vec::new();
    let mut i: usize = 0;
    let ghost f = |it: Json| objet_net(it, champs);
    assert(l@.subrange(0, 0) =~= Seq::<Json>::empty());
    while i < l.len() && r.len() < max
        invariant
            i <= l.len(),
            champs == vues_gabarit(gabarit@),
            f == (|it: Json| objet_net(it, champs)),
            r@.len() <= max,
            r@.len() == objets(l@.subrange(0, i as int)).len(),
            r@.map_values(|x: Vec<(String, String)>| vue_objet(x)) =~= objets(l@.subrange(0, i as int)).map_values(f),
        decreases l.len() - i,
    {
        let ghost avant = r@.map_values(|x: Vec<(String, String)>| vue_objet(x));
        assert(l@.subrange(0, i + 1).drop_last() =~= l@.subrange(0, i as int));
        match &l[i] {
            Json::Objet(_) => {
                let o = objet_nettoye(&l[i], gabarit);
                r.push(o);
                assert(r@.map_values(|x: Vec<(String, String)>| vue_objet(x)) =~= avant.push(f(l@[i as int])));
                assert(objets(l@.subrange(0, i + 1)) =~= objets(l@.subrange(0, i as int)).push(l@[i as int]));
            },
            _ => {},
        }
        i += 1;
    }
    proof {
        let tout = objets(l@);
        let deja = objets(l@.subrange(0, i as int));
        // Ce qui est gardé est le début des objets de toute la liste.
        lemme_objets_prefixe(l@, i as int);
        lemme_objets_longueur(l@);
        if i < l.len() {
            assert(r@.len() == max);
        } else {
            assert(l@.subrange(0, i as int) =~= l@);
        }
        assert(prendre(tout, max as nat) =~= deja);
    }
    let ghost vue = r@.map_values(|x: Vec<(String, String)>| vue_objet(x));
    let ghost a = vue_champs(c@);
    c.push((chaine_de(&caracteres("items")), Valeur::Objets(r)));
    assert(vue_champs(c@) =~= a.push(("items"@, VueValeur::Objets(vue))));
}

proof fn lemme_objets_prefixe(s: Seq<Json>, i: int)
    requires
        0 <= i <= s.len(),
    ensures
        objets(s.subrange(0, i)).len() <= objets(s).len(),
        objets(s.subrange(0, i)) == objets(s).subrange(0, objets(s.subrange(0, i)).len() as int),
    decreases s.len() - i,
{
    if i == s.len() {
        assert(s.subrange(0, i) =~= s);
    } else {
        lemme_objets_prefixe(s, i + 1);
        let a = s.subrange(0, i + 1);
        assert(a.drop_last() =~= s.subrange(0, i));
    }
}

fn pousser_entier(c: &mut Vec<(String, Valeur)>, b: &Json, k: &str, min: i64, max: i64, defaut: i64)
    requires
        min <= max,
    ensures
        vue_champs(final(c)@) == vue_champs(old(c)@).push((k@, VueValeur::Entier(entier_champ(*b, k@, min, max, defaut)))),
{
    let n = san_int(b, k, min, max, defaut);
    pousser(c, k, Valeur::Entier(n));
}

fn reseaux_gardes(b: &Json) -> (r: Vec<String>)
    ensures
        r@.map_values(|s: String| s@) == reseaux_nets(*b),
{
    let liste: [&str; 5] = ["facebook", "twitter", "linkedin", "whatsapp", "email"];
    assert(crate::json::vues_str(liste@) =~= reseaux_partage());
    let mut r: Vec<String> = Vec::new();
    match crate::json::valeur_de(b, "reseaux") {
        Some(Json::Liste(l)) => {
            let mut i: usize = 0;
            assert(l@.subrange(0, 0) =~= Seq::<Json>::empty());
            while i < l.len() && r.len() < 5
                invariant
                    i <= l.len(),
                    crate::json::vues_str(liste@) == reseaux_partage(),
                    r@.len() <= 5,
                    r@.map_values(|s: String| s@) =~= reseaux_filtres(l@.subrange(0, i as int)),
                decreases l.len() - i,
            {
                assert(l@.subrange(0, i + 1).drop_last() =~= l@.subrange(0, i as int));
                match &l[i] {
                    Json::Texte(x) => {
                        let xc = caracteres(x.as_str());
                        if crate::json::parmi(&xc, &liste) {
                            let ghost a = r@.map_values(|s: String| s@);
                            r.push(chaine_de(&xc));
                            assert(r@.map_values(|s: String| s@) =~= a.push(x@));
                        }
                    },
                    _ => {},
                }
                i += 1;
            }
            proof {
                lemme_reseaux_prefixe(l@, i as int);
                if i == l.len() {
                    assert(l@.subrange(0, i as int) =~= l@);
                }
            }
            r
        },
        _ => {
            let mut j: usize = 0;
            while j < 5
                invariant
                    j <= 5,
                    crate::json::vues_str(liste@) == reseaux_partage(),
                    r@.map_values(|s: String| s@) =~= reseaux_partage().subrange(0, j as int),
                decreases 5 - j,
            {
                let ghost a = r@.map_values(|s: String| s@);
                r.push(chaine_de(&caracteres(liste[j])));
                assert(crate::json::vues_str(liste@)[j as int] == liste@[j as int]@);
                assert(r@.map_values(|s: String| s@) =~= a.push(reseaux_partage()[j as int]));
                j += 1;
            }
            r
        },
    }
}

proof fn lemme_reseaux_longueur(s: Seq<Json>)
    ensures
        reseaux_filtres(s).len() <= s.len(),
    decreases s.len(),
{
    if s.len() > 0 {
        lemme_reseaux_longueur(s.drop_last());
    }
}

proof fn lemme_reseaux_prefixe(s: Seq<Json>, i: int)
    requires
        0 <= i <= s.len(),
    ensures
        reseaux_filtres(s.subrange(0, i)).len() <= reseaux_filtres(s).len(),
        reseaux_filtres(s.subrange(0, i)) == reseaux_filtres(s).subrange(0, reseaux_filtres(s.subrange(0, i)).len() as int),
    decreases s.len() - i,
{
    if i == s.len() {
        assert(s.subrange(0, i) =~= s);
    } else {
        lemme_reseaux_prefixe(s, i + 1);
        assert(s.subrange(0, i + 1).drop_last() =~= s.subrange(0, i));
    }
}

fn champs_genre(c: &mut Vec<(String, Valeur)>, g: GenreBloc, b: &Json)
    ensures
        vue_champs(final(c)@) == vue_champs(old(c)@) + net_champs(g, *b),
{
    let ghost a = vue_champs(c@);
    let url_alt: [(&str, usize); 2] = [("url", 2000), ("alt", 300)];
    assert(vues_gabarit(url_alt@) =~= seq![("url"@, 2000nat), ("alt"@, 300nat)]);
    match g {
        GenreBloc::Titre => {
            let niv: [&str; 4] = ["h1", "h2", "h3", "h4"];
            assert(vues_str(niv@) =~= niveaux());
            pousser_choix(c, b, "niveau", &niv, "h2");
            pousser_texte(c, b, "texte", 300);
        },
        GenreBloc::Texte => {
            pousser_texte(c, b, "texte", 20000);
        },
        GenreBloc::Image => {
            pousser_texte(c, b, "url", 2000);
            pousser_texte(c, b, "alt", 300);
            pousser_texte(c, b, "legende", 300);
        },
        GenreBloc::Galerie => {
            pousser_entier(c, b, "colonnes", 2, 4, 3);
            pousser_items(c, b, 24, &url_alt);
        },
        GenreBloc::Carousel => {
            pousser_items(c, b, 20, &url_alt);
        },
        GenreBloc::Video | GenreBloc::Audio => {
            pousser_texte(c, b, "url", 2000);
        },
        GenreBloc::Bouton => {
            pousser_texte(c, b, "texte", 300);
            pousser_texte(c, b, "url", 2000);
        },
        GenreBloc::GroupeBoutons => {
            let gb: [(&str, usize); 2] = [("texte", 300), ("url", 2000)];
            assert(vues_gabarit(gb@) =~= seq![("texte"@, 300nat), ("url"@, 2000nat)]);
            pousser_items(c, b, 4, &gb);
        },
        GenreBloc::Separateur | GenreBloc::RetourHaut => {},
        GenreBloc::Espace => {
            let hs: [&str; 4] = ["s", "m", "l", "xl"];
            assert(vues_str(hs@) =~= hauteurs());
            pousser_choix(c, b, "hauteur", &hs, "m");
        },
        GenreBloc::Citation => {
            pousser_texte(c, b, "texte", 1000);
            pousser_texte(c, b, "auteur", 300);
        },
        GenreBloc::Liste => {
            let st: [&str; 2] = ["puce", "numero"];
            assert(vues_str(st@) =~= seq!["puce"@, "numero"@]);
            pousser_choix(c, b, "style", &st, "puce");
            let gl: [(&str, usize); 1] = [("texte", 300)];
            assert(vues_gabarit(gl@) =~= seq![("texte"@, 300nat)]);
            pousser_items(c, b, 30, &gl);
        },
        GenreBloc::IconeTexte => {
            pousser_texte(c, b, "icone", 8);
            pousser_texte(c, b, "titre", 300);
            pousser_texte(c, b, "texte", 1000);
        },
        GenreBloc::Carte => {
            pousser_texte(c, b, "url_image", 2000);
            pousser_texte(c, b, "titre", 300);
            pousser_texte(c, b, "texte", 1000);
            pousser_texte(c, b, "bouton_texte", 300);
            pousser_texte(c, b, "bouton_url", 2000);
        },
        GenreBloc::CartesGrille => {
            pousser_entier(c, b, "colonnes", 2, 4, 3);
            let gc: [(&str, usize); 3] = [("url_image", 2000), ("titre", 300), ("texte", 1000)];
            assert(vues_gabarit(gc@) =~= seq![("url_image"@, 2000nat), ("titre"@, 300nat), ("texte"@, 1000nat)]);
            pousser_items(c, b, 12, &gc);
        },
        GenreBloc::Accordeon => {
            let ga: [(&str, usize); 2] = [("question", 300), ("reponse", 1000)];
            assert(vues_gabarit(ga@) =~= seq![("question"@, 300nat), ("reponse"@, 1000nat)]);
            pousser_items(c, b, 20, &ga);
        },
        GenreBloc::Onglets => {
            let go: [(&str, usize); 2] = [("titre", 300), ("contenu", 1000)];
            assert(vues_gabarit(go@) =~= seq![("titre"@, 300nat), ("contenu"@, 1000nat)]);
            pousser_items(c, b, 10, &go);
        },
        GenreBloc::Temoignage => {
            pousser_texte(c, b, "texte", 1000);
            pousser_texte(c, b, "nom", 300);
            pousser_texte(c, b, "role", 300);
            pousser_texte(c, b, "avatar_url", 2000);
        },
        GenreBloc::BarreProgression => {
            pousser_texte(c, b, "label", 300);
            pousser_entier(c, b, "pourcentage", 0, 100, 50);
        },
        GenreBloc::Compteur => {
            pousser_entier(c, b, "valeur", 0, 999_999_999, 0);
            pousser_texte(c, b, "label", 300);
            pousser_texte(c, b, "suffixe", 10);
        },
        GenreBloc::StatsGrille => {
            let gs: [(&str, usize); 3] = [("valeur", 12), ("label", 300), ("suffixe", 10)];
            assert(vues_gabarit(gs@) =~= seq![("valeur"@, 12nat), ("label"@, 300nat), ("suffixe"@, 10nat)]);
            pousser_items(c, b, 8, &gs);
        },
        GenreBloc::CompteRebours => {
            pousser_texte(c, b, "date_cible", 20);
            pousser_texte(c, b, "label", 300);
        },
        GenreBloc::AppelAction => {
            pousser_texte(c, b, "titre", 300);
            pousser_texte(c, b, "texte", 1000);
            pousser_texte(c, b, "bouton_texte", 300);
            pousser_texte(c, b, "bouton_url", 2000);
        },
        GenreBloc::ReseauxSociaux => {
            pousser_texte(c, b, "facebook", 2000);
            pousser_texte(c, b, "twitter", 2000);
            pousser_texte(c, b, "instagram", 2000);
            pousser_texte(c, b, "youtube", 2000);
            pousser_texte(c, b, "linkedin", 2000);
            pousser_texte(c, b, "github", 2000);
            pousser_texte(c, b, "tiktok", 2000);
        },
        GenreBloc::CarteGoogleMaps => {
            pousser_texte(c, b, "adresse", 300);
        },
        GenreBloc::BanniereHero => {
            pousser_texte(c, b, "url_image", 2000);
            pousser_texte(c, b, "titre", 300);
            pousser_texte(c, b, "soustitre", 1000);
            pousser_texte(c, b, "bouton_texte", 300);
            pousser_texte(c, b, "bouton_url", 2000);
        },
        GenreBloc::Chronologie => {
            let gc: [(&str, usize); 3] = [("date", 300), ("titre", 300), ("texte", 1000)];
            assert(vues_gabarit(gc@) =~= seq![("date"@, 300nat), ("titre"@, 300nat), ("texte"@, 1000nat)]);
            pousser_items(c, b, 20, &gc);
        },
        GenreBloc::Tarifs => {
            pousser_texte(c, b, "titre", 300);
            pousser_texte(c, b, "prix", 300);
            pousser_texte(c, b, "periode", 300);
            pousser_texte(c, b, "bouton_texte", 300);
            pousser_texte(c, b, "bouton_url", 2000);
            let gl: [(&str, usize); 1] = [("texte", 300)];
            assert(vues_gabarit(gl@) =~= seq![("texte"@, 300nat)]);
            pousser_items(c, b, 12, &gl);
        },
        GenreBloc::PartageSocial => {
            let r = reseaux_gardes(b);
            pousser(c, "reseaux", Valeur::Textes(r));
        },
        GenreBloc::MembreEquipe => {
            pousser_texte(c, b, "avatar_url", 2000);
            pousser_texte(c, b, "nom", 300);
            pousser_texte(c, b, "role", 300);
            pousser_texte(c, b, "bio", 1000);
        },
        GenreBloc::Logos => {
            let gl: [(&str, usize); 1] = [("url", 2000)];
            assert(vues_gabarit(gl@) =~= seq![("url"@, 2000nat)]);
            pousser_items(c, b, 20, &gl);
        },
        GenreBloc::Badge => {
            pousser_texte(c, b, "texte", 300);
            let cs: [&str; 6] = ["vert", "bleu", "rouge", "jaune", "gris", "violet"];
            assert(vues_str(cs@) =~= couleurs());
            pousser_choix(c, b, "couleur", &cs, "vert");
        },
    }
    assert(vue_champs(c@) =~= a + net_champs(g, *b));
}

/// Bloc nettoyé de type `g`.
pub fn nettoyer_bloc(g: GenreBloc, b: &Json) -> (r: BlocNet)
    ensures
        vue_champs(r.champs@) == net_bloc(g, *b),
{
    let mut c: Vec<(String, Valeur)> = Vec::new();
    let k = texte_champ(b, "type");
    pousser(&mut c, "type", Valeur::Texte(chaine_de(&k)));
    champs_genre(&mut c, g, b);
    let anim = safe_animation(&texte_champ(b, "animation"));
    pousser(&mut c, "animation", Valeur::Texte(chaine_de(&anim)));
    assert(vue_champs(c@) =~= net_bloc(g, *b));
    BlocNet { champs: c }
}

/// Nettoie l'envoi de l'éditeur avant stockage : parmi les 200 premiers
/// éléments de la liste, les blocs de type connu, réduits à leurs champs
/// permis ; toute entrée invalide est ignorée sans faire échouer le reste.
pub fn sanitiser_blocs(v: &Json) -> (r: Vec<BlocNet>)
    ensures
        vue_blocs(r@) == blocs_nets(*v),
{
    let mut r: Vec<BlocNet> = Vec::new();
    match v {
        Json::Liste(l) => {
            let n: usize = if l.len() < 200 { l.len() } else { 200 };
            let ghost p = prendre(l@, 200);
            assert(p =~= l@.subrange(0, n as int));
            let mut i: usize = 0;
            assert(p.subrange(0, 0) =~= Seq::<Json>::empty());
            while i < n
                invariant
                    i <= n <= l.len(),
                    p == l@.subrange(0, n as int),
                    vue_blocs(r@) =~= nets(p.subrange(0, i as int)),
                decreases n - i,
            {
                assert(p.subrange(0, i + 1).drop_last() =~= p.subrange(0, i as int));
                assert(p[i as int] == l@[i as int]);
                let b = &l[i];
                let k = texte_champ(b, "type");
                match genre(&k) {
                    Some(g) => {
                        let ghost a = vue_blocs(r@);
                        let bn = nettoyer_bloc(g, b);
                        r.push(bn);
                        assert(vue_blocs(r@) =~= a.push(net_bloc(g, *b)));
                    },
                    None => {},
                }
                i += 1;
            }
            assert(p.subrange(0, n as int) =~= p);
            r
        },
        _ => r,
    }
}


// ══════════════════════════════════════════════════════════════════
// Écriture JSON des blocs nettoyés
// ══════════════════════════════════════════════════════════════════

/// `"clé":valeur` d'un objet JSON.
pub open spec fn paire_json(k: Seq<char>, v: Seq<char>) -> Seq<char> {
    json_chaine(k) + seq![':'] + v
}

/// Clés d'une suite de paires.
pub open spec fn cles_de<V>(c: Seq<(Seq<char>, V)>) -> Seq<Seq<char>> {
    Seq::new(c.len(), |i: int| c[i].0)
}

/// Sous-élément nettoyé écrit en objet JSON, champs dans l'ordre des clés
/// (comme la table triée de `serde_json`).
pub open spec fn objet_json(o: Seq<(Seq<char>, Seq<char>)>) -> Seq<char> {
    let ord = ordre_cles(cles_de(o), o.len());
    seq!['{'] + joindre(Seq::new(o.len(), |i: int| paire_json(o[ord[i] as int].0, json_chaine(o[ord[i] as int].1))))
        + seq!['}']
}

/// Valeur d'un champ écrite en JSON : chaîne, entier, liste d'objets ou
/// liste de chaînes.
pub open spec fn valeur_json(v: VueValeur) -> Seq<char> {
    match v {
        VueValeur::Texte(s) => json_chaine(s),
        VueValeur::Entier(n) => decimal_signe(n as int),
        VueValeur::Objets(os) => seq!['['] + joindre(Seq::new(os.len(), |i: int| objet_json(os[i]))) + seq![']'],
        VueValeur::Textes(l) => seq!['['] + joindre(Seq::new(l.len(), |i: int| json_chaine(l[i]))) + seq![']'],
    }
}

/// Bloc nettoyé écrit en objet JSON, champs dans l'ordre des clés (comme
/// la table triée de `serde_json`).
pub open spec fn bloc_json(c: Seq<(Seq<char>, VueValeur)>) -> Seq<char> {
    let ord = ordre_cles(cles_de(c), c.len());
    seq!['{'] + joindre(Seq::new(c.len(), |i: int| paire_json(c[ord[i] as int].0, valeur_json(c[ord[i] as int].1))))
        + seq!['}']
}

/// Liste JSON des blocs nettoyés, telle qu'elle est stockée.
pub open spec fn blocs_json(b: Seq<Seq<(Seq<char>, VueValeur)>>) -> Seq<char> {
    seq!['['] + joindre(Seq::new(b.len(), |i: int| bloc_json(b[i]))) + seq![']']
}

fn ecrire_objet(out: &mut Vec<char>, o: &Vec<(String, String)>)
    ensures
        final(out)@ == old(out)@ + objet_json(vue_objet(*o)),
{
    let ghost debut = out@;
    let ghost v = vue_objet(*o);
    let mut cles: Vec<Vec<char>> = Vec::new();
    let mut k: usize = 0;
    while k < o.len()
        invariant
            k <= o.len(),
            v == vue_objet(*o),
            cles@.len() == k,
            forall|m: int| 0 <= m < k ==> (#[trigger] cles@[m])@ == cles_de(v)[m],
        decreases o.len() - k,
    {
        let c = caracteres(o[k].0.as_str());
        assert(c@ == cles_de(v)[k as int]);
        cles.push(c);
        k += 1;
    }
    assert(cles@.map_values(|c: Vec<char>| c@) =~= cles_de(v));
    let ord = ordre_des_cles(&cles);
    let ghost f = |i: int| paire_json(v[ord@[i] as int].0, json_chaine(v[ord@[i] as int].1));
    out.push('{');
    let mut i: usize = 0;
    while i < ord.len()
        invariant
            i <= ord.len(),
            ord@.len() == o@.len(),
            forall|m: int| 0 <= m < ord@.len() ==> #[trigger] ord@[m] < o@.len(),
            v == vue_objet(*o),
            f == (|i: int| paire_json(v[ord@[i] as int].0, json_chaine(v[ord@[i] as int].1))),
            out@ == debut + seq!['{'] + joindre(Seq::new(i as nat, f)),
        decreases ord.len() - i,
    {
        proof { lemme_joindre_pas(f, i as nat); }
        if i > 0 {
            out.push(',');
        }
        let x = ord[i];
        assert(x < o@.len());
        ajouter_chaine_json(out, o[x].0.as_str());
        out.push(':');
        ajouter_chaine_json(out, o[x].1.as_str());
        assert(v[x as int] == (o@[x as int].0@, o@[x as int].1@));
        i += 1;
        assert(out@ =~= debut + seq!['{'] + joindre(Seq::new(i as nat, f)));
    }
    out.push('}');
    assert(Seq::new(o@.len(), f) =~= Seq::new(
        v.len(),
        |i: int| paire_json(v[ordre_cles(cles_de(v), v.len())[i] as int].0, json_chaine(v[ordre_cles(cles_de(v), v.len())[i] as int].1)),
    ));
    assert(out@ =~= old(out)@ + objet_json(v));
}

fn ecrire_valeur(out: &mut Vec<char>, x: &Valeur)
    ensures
        final(out)@ == old(out)@ + valeur_json(vue_valeur(*x)),
{
    let ghost debut = out@;
    match x {
        Valeur::Texte(s) => ajouter_chaine_json(out, s.as_str()),
        Valeur::Entier(n) => crate::texte::ajouter_decimal_signe(out, *n),
        Valeur::Objets(os) => {
            let ghost vs = os@.map_values(|x: Vec<(String, String)>| vue_objet(x));
            let ghost f = |i: int| objet_json(vs[i]);
            out.push('[');
            let mut i: usize = 0;
            while i < os.len()
                invariant
                    i <= os.len(),
                    vs == os@.map_values(|x: Vec<(String, String)>| vue_objet(x)),
                    f == (|i: int| objet_json(vs[i])),
                    out@ == debut + seq!['['] + joindre(Seq::new(i as nat, f)),
                decreases os.len() - i,
            {
                proof { lemme_joindre_pas(f, i as nat); }
                if i > 0 {
                    out.push(',');
                }
                ecrire_objet(out, &os[i]);
                i += 1;
                assert(out@ =~= debut + seq!['['] + joindre(Seq::new(i as nat, f)));
            }
            out.push(']');
            assert(Seq::new(os@.len(), f) =~= Seq::new(vs.len(), |i: int| objet_json(vs[i])));
            assert(out@ =~= debut + valeur_json(vue_valeur(*x)));
        },
        Valeur::Textes(l) => {
            let ghost vs = l@.map_values(|s: String| s@);
            let ghost f = |i: int| json_chaine(vs[i]);
            out.push('[');
            let mut i: usize = 0;
            while i < l.len()
                invariant
                    i <= l.len(),
                    vs == l@.map_values(|s: String| s@),
                    f == (|i: int| json_chaine(vs[i])),
                    out@ == debut + seq!['['] + joindre(Seq::new(i as nat, f)),
                decreases l.len() - i,
            {
                proof { lemme_joindre_pas(f, i as nat); }
                if i > 0 {
                    out.push(',');
                }
                ajouter_chaine_json(out, l[i].as_str());
                i += 1;
                assert(out@ =~= debut + seq!['['] + joindre(Seq::new(i as nat, f)));
            }
            out.push(']');
            assert(Seq::new(l@.len(), f) =~= Seq::new(vs.len(), |i: int| json_chaine(vs[i])));
            assert(out@ =~= debut + valeur_json(vue_valeur(*x)));
        },
    }
}

fn ecrire_bloc(out: &mut Vec<char>, b: &BlocNet)
    ensures
        final(out)@ == old(out)@ + bloc_json(vue_champs(b.champs@)),
{
    let ghost debut = out@;
    let ghost v = vue_champs(b.champs@);
    let mut cles: Vec<Vec<char>> = Vec::new();
    let mut k: usize = 0;
    while k < b.champs.len()
        invariant
            k <= b.champs.len(),
            v == vue_champs(b.champs@),
            cles@.len() == k,
            forall|m: int| 0 <= m < k ==> (#[trigger] cles@[m])@ == cles_de(v)[m],
        decreases b.champs.len() - k,
    {
        let c = caracteres(b.champs[k].0.as_str());
        assert(c@ == cles_de(v)[k as int]);
        cles.push(c);
        k += 1;
    }
    assert(cles@.map_values(|c: Vec<char>| c@) =~= cles_de(v));
    let ord = ordre_des_cles(&cles);
    let ghost f = |i: int| paire_json(v[ord@[i] as int].0, valeur_json(v[ord@[i] as int].1));
    out.push('{');
    let mut i: usize = 0;
    while i < ord.len()
        invariant
            i <= ord.len(),
            ord@.len() == b.champs@.len(),
            forall|m: int| 0 <= m < ord@.len() ==> #[trigger] ord@[m] < b.champs@.len(),
            v == vue_champs(b.champs@),
            f == (|i: int| paire_json(v[ord@[i] as int].0, valeur_json(v[ord@[i] as int].1))),
            out@ == debut + seq!['{'] + joindre(Seq::new(i as nat, f)),
        decreases ord.len() - i,
    {
        proof { lemme_joindre_pas(f, i as nat); }
        if i > 0 {
            out.push(',');
        }
        let x = ord[i];
        assert(x < b.champs@.len());
        ajouter_chaine_json(out, b.champs[x].0.as_str());
        out.push(':');
        ecrire_valeur(out, &b.champs[x].1);
        i += 1;
        assert(out@ =~= debut + seq!['{'] + joindre(Seq::new(i as nat, f)));
    }
    out.push('}');
    assert(Seq::new(b.champs@.len(), f) =~= Seq::new(
        v.len(),
        |i: int| paire_json(v[ordre_cles(cles_de(v), v.len())[i] as int].0, valeur_json(v[ordre_cles(cles_de(v), v.len())[i] as int].1)),
    ));
    assert(out@ =~= debut + bloc_json(v));
}

/// Texte JSON des blocs nettoyés, tel qu'il est enregistré (voir
/// `blocs_json`) ; relu par `serde_json`, il redonne les mêmes champs.
pub fn blocs_en_json(blocs: &[BlocNet]) -> (r: String)
    ensures
        r@ == blocs_json(vue_blocs(blocs@)),
{
    let mut out: Vec<char> = Vec::new();
    let ghost v = vue_blocs(blocs@);
    let ghost f = |i: int| bloc_json(v[i]);
    out.push('[');
    let mut i: usize = 0;
    while i < blocs.len()
        invariant
            i <= blocs.len(),
            v == vue_blocs(blocs@),
            f == (|i: int| bloc_json(v[i])),
            out@ == seq!['['] + joindre(Seq::new(i as nat, f)),
        decreases blocs.len() - i,
    {
        proof { lemme_joindre_pas(f, i as nat); }
        if i > 0 {
            out.push(',');
        }
        ecrire_bloc(&mut out, &blocs[i]);
        i += 1;
        assert(out@ =~= seq!['['] + joindre(Seq::new(i as nat, f)));
    }
    out.push(']');
    assert(Seq::new(blocs@.len(), f) =~= Seq::new(v.len(), |i: int| bloc_json(v[i])));
    assert(out@ =~= blocs_json(v));
    chaine_de(&out)
}

} // verus!
