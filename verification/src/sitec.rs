//! Pages Sitec en mode « blocs » : rendu HTML d'un tableau de blocs JSON,
//! URLs sûres, vidéos intégrées, partage d'une page entre utilisateurs.

use vstd::prelude::*;
use crate::json::{
    ajouter_h, ajouter_ht, ajouter_vec, choisir, choix, elements, elements_de, h, ht, parmi, t, texte_champ,
    texte_ref, valeur_de, vues_str, Json,
};
use crate::texte::{
    ajouter, ajouter_decimal, ajouter_decimal_signe, avant_parmi, caracteres, chaine_de, commence_par,
    commence_lit, egale_lit, contient_motif, contient_texte, decimal, decimal_signe, en_minuscules, encode_url,
    encoder_url, i64_ecrit, analyser_i64, minuscules, premier_parmi, prefixe_avant, que_des_chiffres,
    rogne, rogner, segment_apres, segment_suivant, lemme_premier_parmi,
};
use crate::utils::{prendre, tronquer};

verus! {

broadcast use vstd::string::group_string_axioms;

// ══════════════════════════════════════════════════════════════════
// Valeurs sûres
// ══════════════════════════════════════════════════════════════════

/// URL gardée : sans espaces autour, commençant (casse ignorée) par
/// `http://` ou `https://`, tronquée à 2000 caractères ; vide sinon.
pub open spec fn url_sure(u: Seq<char>) -> Seq<char> {
    let v = rogner(u);
    if commence_par(minuscules(v), "http://"@) || commence_par(minuscules(v), "https://"@) {
        prendre(v, 2000)
    } else {
        Seq::empty()
    }
}

/// N'autorise que http(s) : bloque `javascript:`, `data:`… dans les URLs
/// saisies avant qu'elles n'atterrissent dans un attribut.
pub fn safe_url(u: &[char]) -> (r: Vec<char>)
    ensures
        r@ == url_sure(u@),
{
    let v = rogne(u);
    let m = en_minuscules(&v);
    if commence_lit(&m, "http://") || commence_lit(&m, "https://") {
        tronquer(&v, 2000)
    } else {
        Vec::new()
    }
}

/// Effets d'entrée proposés par l'éditeur.
pub open spec fn animations() -> Seq<Seq<char>> {
    seq![
        ""@, "fade"@, "fade-down"@, "slide-up"@, "slide-down"@, "slide-left"@, "slide-right"@, "zoom-in"@,
        "zoom-out"@, "bounce"@, "rotate"@, "rotate-in"@, "flip-x"@, "flip-y"@, "roll-in"@, "blur-in"@,
        "pulse"@, "shake"@, "swing"@, "tada"@, "jello"@, "flash"@, "rubber-band"@, "wobble"@, "heartbeat"@,
    ]
}

/// L'animation si elle est connue, sinon aucune (texte vide).
pub open spec fn animation_sure(a: Seq<char>) -> Seq<char> {
    choix(a, animations(), ""@)
}

/// L'animation si elle est connue, sinon aucune.
pub fn safe_animation(a: &[char]) -> (r: Vec<char>)
    ensures
        r@ == animation_sure(a@),
{
    let liste: [&str; 25] = [
        "", "fade", "fade-down", "slide-up", "slide-down", "slide-left", "slide-right", "zoom-in", "zoom-out",
        "bounce", "rotate", "rotate-in", "flip-x", "flip-y", "roll-in", "blur-in", "pulse", "shake", "swing",
        "tada", "jello", "flash", "rubber-band", "wobble", "heartbeat",
    ];
    assert(vues_str(liste@) =~= animations());
    if parmi(a, &liste) {
        crate::texte::tranche(a, 0, a.len())
    } else {
        proof {
            reveal_strlit("");
        }
        Vec::new()
    }
}

/// `n` ramené dans `[min, max]`.
pub open spec fn borne(n: i64, min: i64, max: i64) -> i64 {
    if n < min {
        min
    } else if n > max {
        max
    } else {
        n
    }
}

/// `san_int` : le champ `k` comme entier (nombre JSON, tronqué vers zéro
/// s'il n'est pas entier et ramené aux bornes d'un `i64`, ou chaîne qui
/// écrit un entier, espaces autour ignorés) ramené dans `[min, max]`,
/// `defaut` s'il n'en est pas un.
pub open spec fn entier_champ(v: Json, k: Seq<char>, min: i64, max: i64, defaut: i64) -> i64 {
    match crate::json::champ(v, k) {
        Json::Nombre(n) => borne(n, min, max),
        Json::Decimal(t) => match crate::json::tronque_decimal(t@) {
            Some(n) => borne(n, min, max),
            None => defaut,
        },
        Json::Grand(_) => borne(i64::MAX, min, max),
        Json::Texte(s) => match i64_ecrit(rogner(s@)) {
            Some(n) => borne(n, min, max),
            None => defaut,
        },
        _ => defaut,
    }
}

/// Le champ `k` comme entier borné (voir `entier_champ`).
pub fn san_int(v: &Json, k: &str, min: i64, max: i64, defaut: i64) -> (r: i64)
    requires
        min <= max,
    ensures
        r == entier_champ(*v, k@, min, max, defaut),
{
    let n = match valeur_de(v, k) {
        Some(Json::Nombre(n)) => Some(*n),
        Some(Json::Decimal(t)) => crate::json::tronquer_decimal(t.as_str()),
        Some(Json::Grand(_)) => Some(i64::MAX),
        Some(Json::Texte(s)) => {
            let c = caracteres(s.as_str());
            let r = rogne(&c);
            analyser_i64(&r)
        },
        _ => None,
    };
    match n {
        Some(n) => if n < min {
            min
        } else if n > max {
            max
        } else {
            n
        },
        None => defaut,
    }
}

/// Le texte avec chaque saut de ligne remplacé par `<br>`.
pub open spec fn sauts(s: Seq<char>) -> Seq<char>
    decreases s.len(),
{
    if s.len() == 0 {
        Seq::empty()
    } else {
        sauts(s.drop_last()) + if s.last() == '\n' { "<br>"@ } else { seq![s.last()] }
    }
}

fn ajouter_sauts(out: &mut Vec<char>, s: &[char])
    ensures
        final(out)@ == old(out)@ + sauts(s@),
{
    let ghost debut = out@;
    let mut i: usize = 0;
    assert(s@.subrange(0, 0) =~= Seq::<char>::empty());
    assert(out@ =~= debut + sauts(s@.subrange(0, 0)));
    while i < s.len()
        invariant
            i <= s.len(),
            out@ == debut + sauts(s@.subrange(0, i as int)),
        decreases s.len() - i,
    {
        assert(s@.subrange(0, i + 1).drop_last() =~= s@.subrange(0, i as int));
        let ghost avant = out@;
        if s[i] == '\n' {
            ajouter(out, "<br>");
        } else {
            out.push(s[i]);
        }
        assert(out@ =~= debut + sauts(s@.subrange(0, i + 1)));
        i += 1;
    }
    assert(s@.subrange(0, s@.len() as int) =~= s@);
}

// ══════════════════════════════════════════════════════════════════
// Vidéos intégrées
// ══════════════════════════════════════════════════════════════════

/// Séparateurs d'un identifiant de vidéo.
pub open spec fn seps_id() -> Seq<char> {
    seq!['?', '&', '/']
}

/// Séparateurs de paramètres d'une URL.
pub open spec fn seps_param() -> Seq<char> {
    seq!['?', '&']
}

/// Le premier morceau (coupé à `?` et `&`) qui commence par `v=`, sans ce
/// préfixe.
pub open spec fn param_v(s: Seq<char>) -> Option<Seq<char>>
    decreases s.len(),
{
    let i = premier_parmi(s, seps_param());
    let morceau = if i < 0 { s } else { s.subrange(0, i) };
    if commence_par(morceau, "v="@) {
        Some(morceau.subrange(2, morceau.len() as int))
    } else if i < 0 {
        None
    } else {
        proof {
            lemme_premier_parmi(s, seps_param());
        }
        param_v(s.subrange(i + 1, s.len() as int))
    }
}

fn chercher_param_v(s: &[char]) -> (r: Option<Vec<char>>)
    ensures
        match r {
            Some(v) => param_v(s@) == Some(v@),
            None => param_v(s@) is None,
        },
    decreases s.len(),
{
    let seps = ['?', '&'];
    assert(seps@ =~= seps_param());
    let morceau = prefixe_avant(s, &seps);
    proof {
        lemme_premier_parmi(s@, seps_param());
    }
    if commence_lit(&morceau, "v=") {
        proof {
            reveal_strlit("v=");
        }
        return Some(crate::texte::tranche(&morceau, 2, morceau.len()));
    }
    if morceau.len() == s.len() {
        proof {
            if premier_parmi(s@, seps_param()) >= 0 {
                assert(morceau@.len() < s@.len());
            }
        }
        return None;
    }
    let i = morceau.len();
    let reste = crate::texte::tranche(s, i + 1, s.len());
    chercher_param_v(&reste)
}

/// Identifiant YouTube d'une URL (`youtu.be/…`, `youtube.com/watch?v=…`,
/// `youtube.com/embed/…`).
pub open spec fn youtube(url: Seq<char>) -> Option<Seq<char>> {
    match segment_apres(url, "youtu.be/"@) {
        Some(rest) => Some(avant_parmi(rest, seps_id())),
        None => if contient_motif(avant_parmi(url, seps_param()), "youtube.com/watch"@) && param_v(url) is Some {
            param_v(url)
        } else {
            match segment_apres(url, "youtube.com/embed/"@) {
                Some(rest) => Some(avant_parmi(rest, seps_id())),
                None => None,
            }
        },
    }
}

/// Identifiant YouTube d'une URL.
pub fn youtube_id(url: &[char]) -> (r: Option<Vec<char>>)
    ensures
        match r {
            Some(v) => youtube(url@) == Some(v@),
            None => youtube(url@) is None,
        },
{
    let seps3 = ['?', '&', '/'];
    assert(seps3@ =~= seps_id());
    let seps2 = ['?', '&'];
    assert(seps2@ =~= seps_param());
    if let Some(rest) = segment_suivant(url, "youtu.be/") {
        return Some(prefixe_avant(&rest, &seps3));
    }
    let u = prefixe_avant(url, &seps2);
    if contient_texte(&u, "youtube.com/watch") {
        if let Some(id) = chercher_param_v(url) {
            return Some(id);
        }
    }
    if let Some(rest) = segment_suivant(url, "youtube.com/embed/") {
        return Some(prefixe_avant(&rest, &seps3));
    }
    None
}

fn chiffres_seuls(s: &[char]) -> (r: bool)
    ensures
        r == forall|j: int| 0 <= j < s@.len() ==> '0' <= #[trigger] s@[j] <= '9',
{
    let mut i: usize = 0;
    while i < s.len()
        invariant
            i <= s.len(),
            forall|j: int| 0 <= j < i ==> '0' <= #[trigger] s@[j] <= '9',
        decreases s.len() - i,
    {
        if !('0' <= s[i] && s[i] <= '9') {
            return false;
        }
        i += 1;
    }
    true
}

/// Identifiant Vimeo (chiffres) d'une URL.
pub open spec fn vimeo(url: Seq<char>) -> Option<Seq<char>> {
    match segment_apres(url, "vimeo.com/"@) {
        Some(rest) => {
            let id = avant_parmi(rest, seps_id());
            if que_des_chiffres(id) { Some(id) } else { None }
        },
        None => None,
    }
}

/// Identifiant Vimeo d'une URL.
pub fn vimeo_id(url: &[char]) -> (r: Option<Vec<char>>)
    ensures
        match r {
            Some(v) => vimeo(url@) == Some(v@),
            None => vimeo(url@) is None,
        },
{
    let seps3 = ['?', '&', '/'];
    assert(seps3@ =~= seps_id());
    let rest = match segment_suivant(url, "vimeo.com/") {
        Some(r) => r,
        None => return None,
    };
    let id = prefixe_avant(&rest, &seps3);
    if id.len() == 0 || !chiffres_seuls(&id) {
        return None;
    }
    Some(id)
}

/// Lecteur d'une vidéo : iframe YouTube ou Vimeo, sinon balise `<video>`.
pub open spec fn video_html(url: Seq<char>) -> Seq<char> {
    match youtube(url) {
        Some(id) => "<iframe src=\"https://www.youtube-nocookie.com/embed/"@ + h(id)
            + "\" allow=\"accelerometer; autoplay; clipboard-write; encrypted-media; gyroscope; picture-in-picture\" allowfullscreen></iframe>"@,
        None => match vimeo(url) {
            Some(id) => "<iframe src=\"https://player.vimeo.com/video/"@ + h(id)
                + "\" allow=\"autoplay; fullscreen; picture-in-picture\" allowfullscreen></iframe>"@,
            None => "<video controls src=\""@ + h(url) + "\"></video>"@,
        },
    }
}

/// Lecteur d'une vidéo : iframe YouTube ou Vimeo, sinon balise `<video>`.
pub fn video_embed_html(url: &[char]) -> (r: Vec<char>)
    ensures
        r@ == video_html(url@),
{
    let mut o: Vec<char> = Vec::new();
    match youtube_id(url) {
        Some(id) => {
            ajouter(&mut o, "<iframe src=\"https://www.youtube-nocookie.com/embed/");
            ajouter_h(&mut o, &id);
            ajouter(
                &mut o,
                "\" allow=\"accelerometer; autoplay; clipboard-write; encrypted-media; gyroscope; picture-in-picture\" allowfullscreen></iframe>",
            );
        },
        None => match vimeo_id(url) {
            Some(id) => {
                ajouter(&mut o, "<iframe src=\"https://player.vimeo.com/video/");
                ajouter_h(&mut o, &id);
                ajouter(&mut o, "\" allow=\"autoplay; fullscreen; picture-in-picture\" allowfullscreen></iframe>");
            },
            None => {
                ajouter(&mut o, "<video controls src=\"");
                ajouter_h(&mut o, url);
                ajouter(&mut o, "\"></video>");
            },
        },
    }
    assert(o@ =~= video_html(url@));
    o
}

// ══════════════════════════════════════════════════════════════════
// Rendu des sous-éléments (galerie, liste, accordéon…)
// ══════════════════════════════════════════════════════════════════

/// Genre d'un sous-élément de bloc, qui décide de son rendu.
#[derive(PartialEq, Eq, Structural, Clone, Copy, Debug)]
pub enum GenreItem {
    /// Image avec texte alternatif (galerie, carrousel).
    Image,
    /// Lien-bouton (groupe de boutons).
    Bouton,
    /// Puce de liste (liste, tarifs).
    Puce,
    /// Carte avec image, titre et texte (grille de cartes).
    Carte,
    /// Question et réponse (accordéon).
    Question,
    /// Chiffre clé (grille de statistiques).
    Stat,
    /// Étape datée (chronologie).
    Etape,
    /// Logo (image sans texte).
    Logo,
    /// Réseau de partage (chaîne de la liste blanche).
    Partage,
}

/// Image sans texte alternatif, si l'URL est sûre.
pub open spec fn image_vide(url: Seq<char>) -> Seq<char> {
    if url.len() == 0 {
        Seq::empty()
    } else {
        "<img src=\""@ + h(url) + "\" alt=\"\" loading=\"lazy\">"@
    }
}

/// Réseaux proposés au partage.
pub open spec fn reseaux_partage() -> Seq<Seq<char>> {
    seq!["facebook"@, "twitter"@, "linkedin"@, "whatsapp"@, "email"@]
}

/// Rendu d'un sous-élément ; vide quand il est ignoré.
pub open spec fn rendu_item(g: GenreItem, it: Json) -> Seq<char> {
    match g {
        GenreItem::Image => {
            let u = url_sure(t(it, "url"@));
            if u.len() == 0 {
                Seq::empty()
            } else {
                "<img src=\""@ + h(u) + "\" alt=\""@ + ht(it, "alt"@) + "\" loading=\"lazy\">"@
            }
        },
        GenreItem::Bouton => {
            let u = url_sure(t(it, "url"@));
            if u.len() == 0 {
                Seq::empty()
            } else {
                "<a href=\""@ + h(u) + "\" target=\"_blank\" rel=\"noopener noreferrer nofollow\">"@ + ht(it, "texte"@)
                    + "</a>"@
            }
        },
        GenreItem::Puce => "<li>"@ + ht(it, "texte"@) + "</li>"@,
        GenreItem::Carte => "<div class=\"sitec-carte-item\">"@ + image_vide(url_sure(t(it, "url_image"@)))
            + "<div class=\"sitec-carte-corps\"><h4>"@ + ht(it, "titre"@) + "</h4><p>"@ + ht(it, "texte"@)
            + "</p></div></div>"@,
        GenreItem::Question => "<details class=\"sitec-accordeon-item\"><summary>"@ + ht(it, "question"@)
            + "</summary><div>"@ + ht(it, "reponse"@) + "</div></details>"@,
        GenreItem::Stat => {
            let valeur: i64 = match i64_ecrit(t(it, "valeur"@)) {
                Some(n) => n,
                None => 0,
            };
            "<div class=\"sitec-compteur\" data-cible=\""@ + decimal_signe(valeur as int)
                + "\"><span class=\"sitec-compteur-val\">0</span><span class=\"sitec-compteur-suffixe\">"@
                + ht(it, "suffixe"@) + "</span><div class=\"sitec-compteur-label\">"@ + ht(it, "label"@)
                + "</div></div>"@
        },
        GenreItem::Etape => "<div class=\"sitec-chrono-item\"><div class=\"sitec-chrono-date\">"@ + ht(it, "date"@)
            + "</div><div class=\"sitec-chrono-corps\"><h4>"@ + ht(it, "titre"@) + "</h4><p>"@ + ht(it, "texte"@)
            + "</p></div></div>"@,
        GenreItem::Logo => image_vide(url_sure(t(it, "url"@))),
        GenreItem::Partage => match it {
            Json::Texte(r) => if reseaux_partage().contains(r@) {
                "<button type=\"button\" class=\"sitec-partage-btn\" data-reseau=\""@ + h(r@)
                    + "\"><i class=\"fas fa-share-nodes\"></i> "@ + h(r@) + "</button>"@
            } else {
                Seq::empty()
            },
            _ => Seq::empty(),
        },
    }
}

/// Rendus des sous-éléments mis bout à bout.
pub open spec fn rendu_items(g: GenreItem, s: Seq<Json>) -> Seq<char>
    decreases s.len(),
{
    if s.len() == 0 {
        Seq::empty()
    } else {
        rendu_items(g, s.drop_last()) + rendu_item(g, s.last())
    }
}

fn ajouter_image_vide(o: &mut Vec<char>, url: &Vec<char>)
    ensures
        final(o)@ == old(o)@ + image_vide(url@),
{
    if url.len() > 0 {
        let ghost a = o@;
        ajouter(o, "<img src=\"");
        ajouter_h(o, url);
        ajouter(o, "\" alt=\"\" loading=\"lazy\">");
        assert(o@ =~= a + image_vide(url@));
    } else {
        assert(o@ =~= old(o)@ + image_vide(url@));
    }
}

fn rendre_item(o: &mut Vec<char>, g: GenreItem, it: &Json)
    ensures
        final(o)@ == old(o)@ + rendu_item(g, *it),
{
    let ghost a = o@;
    match g {
        GenreItem::Image => {
            let u = safe_url(&texte_champ(it, "url"));
            if u.len() > 0 {
                ajouter(o, "<img src=\"");
                ajouter_h(o, &u);
                ajouter(o, "\" alt=\"");
                ajouter_ht(o, it, "alt");
                ajouter(o, "\" loading=\"lazy\">");
            }
        },
        GenreItem::Bouton => {
            let u = safe_url(&texte_champ(it, "url"));
            if u.len() > 0 {
                ajouter(o, "<a href=\"");
                ajouter_h(o, &u);
                ajouter(o, "\" target=\"_blank\" rel=\"noopener noreferrer nofollow\">");
                ajouter_ht(o, it, "texte");
                ajouter(o, "</a>");
            }
        },
        GenreItem::Puce => {
            ajouter(o, "<li>");
            ajouter_ht(o, it, "texte");
            ajouter(o, "</li>");
        },
        GenreItem::Carte => {
            ajouter(o, "<div class=\"sitec-carte-item\">");
            let u = safe_url(&texte_champ(it, "url_image"));
            ajouter_image_vide(o, &u);
            ajouter(o, "<div class=\"sitec-carte-corps\"><h4>");
            ajouter_ht(o, it, "titre");
            ajouter(o, "</h4><p>");
            ajouter_ht(o, it, "texte");
            ajouter(o, "</p></div></div>");
        },
        GenreItem::Question => {
            ajouter(o, "<details class=\"sitec-accordeon-item\"><summary>");
            ajouter_ht(o, it, "question");
            ajouter(o, "</summary><div>");
            ajouter_ht(o, it, "reponse");
            ajouter(o, "</div></details>");
        },
        GenreItem::Stat => {
            let v = texte_champ(it, "valeur");
            let valeur: i64 = match analyser_i64(&v) {
                Some(n) => n,
                None => 0,
            };
            ajouter(o, "<div class=\"sitec-compteur\" data-cible=\"");
            ajouter_decimal_signe(o, valeur);
            ajouter(o, "\"><span class=\"sitec-compteur-val\">0</span><span class=\"sitec-compteur-suffixe\">");
            ajouter_ht(o, it, "suffixe");
            ajouter(o, "</span><div class=\"sitec-compteur-label\">");
            ajouter_ht(o, it, "label");
            ajouter(o, "</div></div>");
        },
        GenreItem::Etape => {
            ajouter(o, "<div class=\"sitec-chrono-item\"><div class=\"sitec-chrono-date\">");
            ajouter_ht(o, it, "date");
            ajouter(o, "</div><div class=\"sitec-chrono-corps\"><h4>");
            ajouter_ht(o, it, "titre");
            ajouter(o, "</h4><p>");
            ajouter_ht(o, it, "texte");
            ajouter(o, "</p></div></div>");
        },
        GenreItem::Logo => {
            let u = safe_url(&texte_champ(it, "url"));
            ajouter_image_vide(o, &u);
        },
        GenreItem::Partage => {
            match it {
                Json::Texte(r) => {
                    let rc = caracteres(r.as_str());
                    let liste: [&str; 5] = ["facebook", "twitter", "linkedin", "whatsapp", "email"];
                    assert(vues_str(liste@) =~= reseaux_partage());
                    if parmi(&rc, &liste) {
                        ajouter(o, "<button type=\"button\" class=\"sitec-partage-btn\" data-reseau=\"");
                        ajouter_h(o, &rc);
                        ajouter(o, "\"><i class=\"fas fa-share-nodes\"></i> ");
                        ajouter_h(o, &rc);
                        ajouter(o, "</button>");
                    }
                },
                _ => {},
            }
        },
    }
    assert(o@ =~= a + rendu_item(g, *it));
}

/// Rendus des sous-éléments `s`, bout à bout.
pub fn rendre_items(g: GenreItem, s: &[Json]) -> (r: Vec<char>)
    ensures
        r@ == rendu_items(g, s@),
{
    let mut o: Vec<char> = Vec::new();
    let mut i: usize = 0;
    assert(s@.subrange(0, 0) =~= Seq::<Json>::empty());
    while i < s.len()
        invariant
            i <= s.len(),
            o@ == rendu_items(g, s@.subrange(0, i as int)),
        decreases s.len() - i,
    {
        assert(s@.subrange(0, i + 1).drop_last() =~= s@.subrange(0, i as int));
        rendre_item(&mut o, g, &s[i]);
        i += 1;
    }
    assert(s@.subrange(0, s@.len() as int) =~= s@);
    o
}

/// Classe `active` du premier onglet.
pub open spec fn actif(i: int) -> Seq<char> {
    if i == 0 { " active"@ } else { Seq::empty() }
}

/// Boutons des onglets, numérotés à partir de 0.
pub open spec fn onglets_boutons(s: Seq<Json>) -> Seq<char>
    decreases s.len(),
{
    if s.len() == 0 {
        Seq::empty()
    } else {
        onglets_boutons(s.drop_last()) + "<button type=\"button\" class=\"sitec-tab-btn"@ + actif(s.len() - 1)
            + "\" data-tab-idx=\""@ + decimal((s.len() - 1) as nat) + "\">"@ + ht(s.last(), "titre"@) + "</button>"@
    }
}

/// Panneaux des onglets, numérotés à partir de 0.
pub open spec fn onglets_panneaux(s: Seq<Json>) -> Seq<char>
    decreases s.len(),
{
    if s.len() == 0 {
        Seq::empty()
    } else {
        onglets_panneaux(s.drop_last()) + "<div class=\"sitec-tab-panel"@ + actif(s.len() - 1)
            + "\" data-tab-idx=\""@ + decimal((s.len() - 1) as nat) + "\">"@ + ht(s.last(), "contenu"@) + "</div>"@
    }
}

fn rendre_onglets_parties(s: &[Json]) -> (r: (Vec<char>, Vec<char>))
    ensures
        r.0@ == onglets_boutons(s@),
        r.1@ == onglets_panneaux(s@),
{
    let mut b: Vec<char> = Vec::new();
    let mut p: Vec<char> = Vec::new();
    let mut i: usize = 0;
    assert(s@.subrange(0, 0) =~= Seq::<Json>::empty());
    while i < s.len()
        invariant
            i <= s.len(),
            b@ == onglets_boutons(s@.subrange(0, i as int)),
            p@ == onglets_panneaux(s@.subrange(0, i as int)),
        decreases s.len() - i,
    {
        let ghost sb = s@.subrange(0, i + 1);
        assert(sb.drop_last() =~= s@.subrange(0, i as int));
        assert(sb.last() == s@[i as int]);
        let ghost ab = b@;
        let ghost ap = p@;
        ajouter(&mut b, "<button type=\"button\" class=\"sitec-tab-btn");
        ajouter(&mut p, "<div class=\"sitec-tab-panel");
        if i == 0 {
            ajouter(&mut b, " active");
            ajouter(&mut p, " active");
        } else {
            proof {
                reveal_strlit("");
            }
        }
        ajouter(&mut b, "\" data-tab-idx=\"");
        ajouter_decimal(&mut b, i as u128);
        ajouter(&mut b, "\">");
        ajouter_ht(&mut b, &s[i], "titre");
        ajouter(&mut b, "</button>");
        ajouter(&mut p, "\" data-tab-idx=\"");
        ajouter_decimal(&mut p, i as u128);
        ajouter(&mut p, "\">");
        ajouter_ht(&mut p, &s[i], "contenu");
        ajouter(&mut p, "</div>");
        assert(b@ =~= onglets_boutons(sb));
        assert(p@ =~= onglets_panneaux(sb));
        i += 1;
    }
    assert(s@.subrange(0, s@.len() as int) =~= s@);
    (b, p)
}

/// Bouton facultatif (carte, bannière, appel à l'action, tarif) : rendu
/// seulement si son texte et son URL sûre sont non vides.
pub open spec fn bouton_opt(b: Json, classe: Seq<char>) -> Seq<char> {
    let url = url_sure(t(b, "bouton_url"@));
    let texte = ht(b, "bouton_texte"@);
    if url.len() == 0 || texte.len() == 0 {
        Seq::empty()
    } else {
        "<a class=\""@ + classe + "\" href=\""@ + h(url) + "\" target=\"_blank\" rel=\"noopener noreferrer nofollow\">"@
            + texte + "</a>"@
    }
}

/// Bouton facultatif partagé par plusieurs types de blocs.
pub fn bouton_optionnel(o: &mut Vec<char>, b: &Json, classe: &str)
    ensures
        final(o)@ == old(o)@ + bouton_opt(*b, classe@),
{
    let url = safe_url(&texte_champ(b, "bouton_url"));
    let mut texte: Vec<char> = Vec::new();
    ajouter_ht(&mut texte, b, "bouton_texte");
    assert(texte@ =~= ht(*b, "bouton_texte"@));
    if url.len() == 0 || texte.len() == 0 {
        assert(o@ =~= old(o)@ + bouton_opt(*b, classe@));
        return;
    }
    let ghost a = o@;
    ajouter(o, "<a class=\"");
    ajouter(o, classe);
    ajouter(o, "\" href=\"");
    ajouter_h(o, &url);
    ajouter(o, "\" target=\"_blank\" rel=\"noopener noreferrer nofollow\">");
    ajouter_vec(o, &texte);
    ajouter(o, "</a>");
    assert(o@ =~= a + bouton_opt(*b, classe@));
}

// ══════════════════════════════════════════════════════════════════
// Rendu des blocs
// ══════════════════════════════════════════════════════════════════

/// Niveaux de titre permis.
pub open spec fn niveaux() -> Seq<Seq<char>> {
    seq!["h1"@, "h2"@, "h3"@, "h4"@]
}

/// Hauteurs d'espace permises.
pub open spec fn hauteurs() -> Seq<Seq<char>> {
    seq!["s"@, "m"@, "l"@, "xl"@]
}

/// Couleurs de badge permises.
pub open spec fn couleurs() -> Seq<Seq<char>> {
    seq!["vert"@, "bleu"@, "rouge"@, "jaune"@, "gris"@, "violet"@]
}

/// Lien vers un réseau social du bloc, si son URL est sûre.
pub open spec fn lien_reseau(b: Json, cle: Seq<char>, sigle: Seq<char>) -> Seq<char> {
    let u = url_sure(t(b, cle));
    if u.len() == 0 {
        Seq::empty()
    } else {
        "<a href=\""@ + h(u) + "\" target=\"_blank\" rel=\"noopener noreferrer nofollow\" aria-label=\""@ + cle
            + "\">"@ + sigle + "</a>"@
    }
}

/// Liens des sept réseaux, dans l'ordre : Facebook, X, Instagram, YouTube,
/// LinkedIn, GitHub, TikTok.
pub open spec fn liens_reseaux(b: Json) -> Seq<char> {
    lien_reseau(b, "facebook"@, "FB"@) + lien_reseau(b, "twitter"@, "X"@) + lien_reseau(b, "instagram"@, "IG"@)
        + lien_reseau(b, "youtube"@, "YT"@) + lien_reseau(b, "linkedin"@, "in"@) + lien_reseau(b, "github"@, "GH"@)
        + lien_reseau(b, "tiktok"@, "TT"@)
}

/// Contenu non vide, ou bloc ignoré.
pub open spec fn si_non_vide(c: Seq<char>, avant: Seq<char>, apres: Seq<char>) -> Option<Seq<char>> {
    if c.len() == 0 { None } else { Some(avant + c + apres) }
}

/// Type d'un bloc.
#[derive(PartialEq, Eq, Structural, Clone, Copy, Debug)]
pub enum GenreBloc {
    Titre,
    Texte,
    Image,
    Galerie,
    Carousel,
    Video,
    Audio,
    Bouton,
    GroupeBoutons,
    Separateur,
    Espace,
    Citation,
    Liste,
    IconeTexte,
    Carte,
    CartesGrille,
    Accordeon,
    Onglets,
    Temoignage,
    BarreProgression,
    Compteur,
    StatsGrille,
    CompteRebours,
    AppelAction,
    ReseauxSociaux,
    CarteGoogleMaps,
    BanniereHero,
    Chronologie,
    Tarifs,
    PartageSocial,
    MembreEquipe,
    Logos,
    Badge,
    RetourHaut,
}

/// Type d'un bloc d'après son champ `type`, `None` s'il est inconnu.
pub open spec fn genre_de(k: Seq<char>) -> Option<GenreBloc> {
    if k == "titre"@ {
        Some(GenreBloc::Titre)
    } else if k == "texte"@ {
        Some(GenreBloc::Texte)
    } else if k == "image"@ {
        Some(GenreBloc::Image)
    } else if k == "galerie"@ {
        Some(GenreBloc::Galerie)
    } else if k == "carousel"@ {
        Some(GenreBloc::Carousel)
    } else if k == "video"@ {
        Some(GenreBloc::Video)
    } else if k == "audio"@ {
        Some(GenreBloc::Audio)
    } else if k == "bouton"@ {
        Some(GenreBloc::Bouton)
    } else if k == "groupe_boutons"@ {
        Some(GenreBloc::GroupeBoutons)
    } else if k == "separateur"@ {
        Some(GenreBloc::Separateur)
    } else if k == "espace"@ {
        Some(GenreBloc::Espace)
    } else if k == "citation"@ {
        Some(GenreBloc::Citation)
    } else if k == "liste"@ {
        Some(GenreBloc::Liste)
    } else if k == "icone_texte"@ {
        Some(GenreBloc::IconeTexte)
    } else if k == "carte"@ {
        Some(GenreBloc::Carte)
    } else if k == "cartes_grille"@ {
        Some(GenreBloc::CartesGrille)
    } else if k == "accordeon"@ {
        Some(GenreBloc::Accordeon)
    } else if k == "onglets"@ {
        Some(GenreBloc::Onglets)
    } else if k == "temoignage"@ {
        Some(GenreBloc::Temoignage)
    } else if k == "barre_progression"@ {
        Some(GenreBloc::BarreProgression)
    } else if k == "compteur"@ {
        Some(GenreBloc::Compteur)
    } else if k == "stats_grille"@ {
        Some(GenreBloc::StatsGrille)
    } else if k == "compte_rebours"@ {
        Some(GenreBloc::CompteRebours)
    } else if k == "appel_action"@ {
        Some(GenreBloc::AppelAction)
    } else if k == "reseaux_sociaux"@ {
        Some(GenreBloc::ReseauxSociaux)
    } else if k == "carte_google_maps"@ {
        Some(GenreBloc::CarteGoogleMaps)
    } else if k == "banniere_hero"@ {
        Some(GenreBloc::BanniereHero)
    } else if k == "chronologie"@ {
        Some(GenreBloc::Chronologie)
    } else if k == "tarifs"@ {
        Some(GenreBloc::Tarifs)
    } else if k == "partage_social"@ {
        Some(GenreBloc::PartageSocial)
    } else if k == "membre_equipe"@ {
        Some(GenreBloc::MembreEquipe)
    } else if k == "logos"@ {
        Some(GenreBloc::Logos)
    } else if k == "badge"@ {
        Some(GenreBloc::Badge)
    } else if k == "retour_haut"@ {
        Some(GenreBloc::RetourHaut)
    } else {
        None
    }
}

/// Type d'un bloc d'après son champ `type`.
pub fn genre(k: &[char]) -> (r: Option<GenreBloc>)
    ensures
        r == genre_de(k@),
{
    if egale_lit(k, "titre") {
        Some(GenreBloc::Titre)
    } else if egale_lit(k, "texte") {
        Some(GenreBloc::Texte)
    } else if egale_lit(k, "image") {
        Some(GenreBloc::Image)
    } else if egale_lit(k, "galerie") {
        Some(GenreBloc::Galerie)
    } else if egale_lit(k, "carousel") {
        Some(GenreBloc::Carousel)
    } else if egale_lit(k, "video") {
        Some(GenreBloc::Video)
    } else if egale_lit(k, "audio") {
        Some(GenreBloc::Audio)
    } else if egale_lit(k, "bouton") {
        Some(GenreBloc::Bouton)
    } else if egale_lit(k, "groupe_boutons") {
        Some(GenreBloc::GroupeBoutons)
    } else if egale_lit(k, "separateur") {
        Some(GenreBloc::Separateur)
    } else if egale_lit(k, "espace") {
        Some(GenreBloc::Espace)
    } else if egale_lit(k, "citation") {
        Some(GenreBloc::Citation)
    } else if egale_lit(k, "liste") {
        Some(GenreBloc::Liste)
    } else if egale_lit(k, "icone_texte") {
        Some(GenreBloc::IconeTexte)
    } else if egale_lit(k, "carte") {
        Some(GenreBloc::Carte)
    } else if egale_lit(k, "cartes_grille") {
        Some(GenreBloc::CartesGrille)
    } else if egale_lit(k, "accordeon") {
        Some(GenreBloc::Accordeon)
    } else if egale_lit(k, "onglets") {
        Some(GenreBloc::Onglets)
    } else if egale_lit(k, "temoignage") {
        Some(GenreBloc::Temoignage)
    } else if egale_lit(k, "barre_progression") {
        Some(GenreBloc::BarreProgression)
    } else if egale_lit(k, "compteur") {
        Some(GenreBloc::Compteur)
    } else if egale_lit(k, "stats_grille") {
        Some(GenreBloc::StatsGrille)
    } else if egale_lit(k, "compte_rebours") {
        Some(GenreBloc::CompteRebours)
    } else if egale_lit(k, "appel_action") {
        Some(GenreBloc::AppelAction)
    } else if egale_lit(k, "reseaux_sociaux") {
        Some(GenreBloc::ReseauxSociaux)
    } else if egale_lit(k, "carte_google_maps") {
        Some(GenreBloc::CarteGoogleMaps)
    } else if egale_lit(k, "banniere_hero") {
        Some(GenreBloc::BanniereHero)
    } else if egale_lit(k, "chronologie") {
        Some(GenreBloc::Chronologie)
    } else if egale_lit(k, "tarifs") {
        Some(GenreBloc::Tarifs)
    } else if egale_lit(k, "partage_social") {
        Some(GenreBloc::PartageSocial)
    } else if egale_lit(k, "membre_equipe") {
        Some(GenreBloc::MembreEquipe)
    } else if egale_lit(k, "logos") {
        Some(GenreBloc::Logos)
    } else if egale_lit(k, "badge") {
        Some(GenreBloc::Badge)
    } else if egale_lit(k, "retour_haut") {
        Some(GenreBloc::RetourHaut)
    } else {
        None
    }
}

/// Rendu HTML d'un bloc de type `g`, `None` s'il est ignoré (URL non sûre,
/// liste vide…).
pub open spec fn rendu_genre(g: GenreBloc, b: Json) -> Option<Seq<char>> {
    match g {
        GenreBloc::Titre => {
            let n = choix(t(b, "niveau"@), niveaux(), "h2"@);
            Some("<"@ + n + " class=\"sitec-bloc sitec-bloc-titre\">"@ + ht(b, "texte"@) + "</"@ + n + ">"@)
        },
        GenreBloc::Texte => {
            Some("<div class=\"sitec-bloc sitec-bloc-texte\">"@ + sauts(ht(b, "texte"@)) + "</div>"@)
        },
        GenreBloc::Image => {
            let u = url_sure(t(b, "url"@));
            let leg = t(b, "legende"@);
            if u.len() == 0 {
                None
            } else {
                Some("<div class=\"sitec-bloc sitec-bloc-image\"><img src=\""@ + h(u) + "\" alt=\""@ + ht(b, "alt"@)
                    + "\" loading=\"lazy\">"@ + (if leg.len() == 0 { Seq::empty() } else {
                    "<div class=\"sitec-bloc-image-legende\">"@ + h(leg) + "</div>"@
                }) + "</div>"@)
            }
        },
        GenreBloc::Galerie => {
            si_non_vide(
                rendu_items(GenreItem::Image, elements(b, "items"@)),
                "<div class=\"sitec-bloc sitec-bloc-galerie sitec-cols-"@ + decimal_signe(
                    entier_champ(b, "colonnes"@, 2, 4, 3) as int,
                ) + "\">"@,
                "</div>"@,
            )
        },
        GenreBloc::Carousel => {
            si_non_vide(
                rendu_items(GenreItem::Image, elements(b, "items"@)),
                "<div class=\"sitec-bloc sitec-bloc-carousel\"><div class=\"sitec-carousel-track\">"@,
                "</div></div>"@,
            )
        },
        GenreBloc::Video => {
            let u = url_sure(t(b, "url"@));
            if u.len() == 0 { None } else { Some("<div class=\"sitec-bloc sitec-bloc-video\">"@ + video_html(u) + "</div>"@) }
        },
        GenreBloc::Audio => {
            let u = url_sure(t(b, "url"@));
            if u.len() == 0 {
                None
            } else {
                Some("<div class=\"sitec-bloc sitec-bloc-audio\"><audio controls src=\""@ + h(u) + "\"></audio></div>"@)
            }
        },
        GenreBloc::Bouton => {
            let u = url_sure(t(b, "url"@));
            if u.len() == 0 {
                None
            } else {
                Some("<div class=\"sitec-bloc sitec-bloc-bouton\"><a href=\""@ + h(u)
                    + "\" target=\"_blank\" rel=\"noopener noreferrer nofollow\">"@ + ht(b, "texte"@) + "</a></div>"@)
            }
        },
        GenreBloc::GroupeBoutons => {
            si_non_vide(
                rendu_items(GenreItem::Bouton, elements(b, "items"@)),
                "<div class=\"sitec-bloc sitec-bloc-groupe-boutons\">"@,
                "</div>"@,
            )
        },
        GenreBloc::Separateur => {
            Some("<hr class=\"sitec-bloc sitec-bloc-separateur\">"@)
        },
        GenreBloc::Espace => {
            Some("<div class=\"sitec-bloc sitec-bloc-espace sitec-espace-"@ + choix(t(b, "hauteur"@), hauteurs(), "m"@)
                + "\"></div>"@)
        },
        GenreBloc::Citation => {
            let auteur = t(b, "auteur"@);
            Some("<blockquote class=\"sitec-bloc sitec-bloc-citation\"><p>"@ + ht(b, "texte"@) + "</p>"@ + (if auteur.len()
                == 0 { Seq::empty() } else { "<cite>— "@ + h(auteur) + "</cite>"@ }) + "</blockquote>"@)
        },
        GenreBloc::Liste => {
            let tag = if t(b, "style"@) == "numero"@ { "ol"@ } else { "ul"@ };
            Some("<"@ + tag + " class=\"sitec-bloc sitec-bloc-liste\">"@ + rendu_items(GenreItem::Puce, elements(b, "items"@))
                + "</"@ + tag + ">"@)
        },
        GenreBloc::IconeTexte => {
            Some("<div class=\"sitec-bloc sitec-bloc-icone-texte\"><div class=\"sitec-icone\">"@ + ht(b, "icone"@)
                + "</div><div><h4>"@ + ht(b, "titre"@) + "</h4><p>"@ + ht(b, "texte"@) + "</p></div></div>"@)
        },
        GenreBloc::Carte => {
            Some("<div class=\"sitec-bloc sitec-bloc-carte\">"@ + image_vide(url_sure(t(b, "url_image"@)))
                + "<div class=\"sitec-carte-corps\"><h4>"@ + ht(b, "titre"@) + "</h4><p>"@ + ht(b, "texte"@) + "</p>"@
                + bouton_opt(b, "sitec-carte-btn"@) + "</div></div>"@)
        },
        GenreBloc::CartesGrille => {
            si_non_vide(
                rendu_items(GenreItem::Carte, elements(b, "items"@)),
                "<div class=\"sitec-bloc sitec-bloc-cartes-grille sitec-cols-"@ + decimal_signe(
                    entier_champ(b, "colonnes"@, 2, 4, 3) as int,
                ) + "\">"@,
                "</div>"@,
            )
        },
        GenreBloc::Accordeon => {
            si_non_vide(
                rendu_items(GenreItem::Question, elements(b, "items"@)),
                "<div class=\"sitec-bloc sitec-bloc-accordeon\">"@,
                "</div>"@,
            )
        },
        GenreBloc::Onglets => {
            let items = elements(b, "items"@);
            if items.len() == 0 {
                None
            } else {
                Some("<div class=\"sitec-bloc sitec-bloc-onglets\" data-tabs><div class=\"sitec-tab-btns\">"@
                    + onglets_boutons(items) + "</div><div class=\"sitec-tab-panels\">"@ + onglets_panneaux(items)
                    + "</div></div>"@)
            }
        },
        GenreBloc::Temoignage => {
            let av = url_sure(t(b, "avatar_url"@));
            Some("<div class=\"sitec-bloc sitec-bloc-temoignage\">"@ + (if av.len() == 0 { Seq::empty() } else {
                "<img class=\"sitec-avatar\" src=\""@ + h(av) + "\" alt=\"\" loading=\"lazy\">"@
            }) + "<p class=\"sitec-temoignage-texte\">« "@ + ht(b, "texte"@)
                + " »</p><div class=\"sitec-temoignage-auteur\"><strong>"@ + ht(b, "nom"@) + "</strong><span>"@ + ht(
                b,
                "role"@,
            ) + "</span></div></div>"@)
        },
        GenreBloc::BarreProgression => {
            let pct = decimal_signe(entier_champ(b, "pourcentage"@, 0, 100, 50) as int);
            Some("<div class=\"sitec-bloc sitec-bloc-barre\"><div class=\"sitec-barre-label\">"@ + ht(b, "label"@) + " — "@
                + pct + "%</div><div class=\"sitec-barre-fond\"><div class=\"sitec-barre-remplie\" style=\"width:"@ + pct
                + "%\"></div></div></div>"@)
        },
        GenreBloc::Compteur => {
            Some("<div class=\"sitec-bloc sitec-compteur\" data-cible=\""@ + decimal_signe(
                entier_champ(b, "valeur"@, 0, 999_999_999, 0) as int,
            ) + "\"><span class=\"sitec-compteur-val\">0</span><span class=\"sitec-compteur-suffixe\">"@ + ht(b, "suffixe"@)
                + "</span><div class=\"sitec-compteur-label\">"@ + ht(b, "label"@) + "</div></div>"@)
        },
        GenreBloc::StatsGrille => {
            si_non_vide(
                rendu_items(GenreItem::Stat, elements(b, "items"@)),
                "<div class=\"sitec-bloc sitec-bloc-stats-grille\">"@,
                "</div>"@,
            )
        },
        GenreBloc::CompteRebours => {
            let date = t(b, "date_cible"@);
            if date.len() == 0 {
                None
            } else {
                Some("<div class=\"sitec-bloc sitec-countdown\" data-cible=\""@ + h(date)
                    + "\"><div class=\"sitec-countdown-label\">"@ + ht(b, "label"@)
                    + "</div><div class=\"sitec-countdown-chiffres\"></div></div>"@)
            }
        },
        GenreBloc::AppelAction => {
            Some("<div class=\"sitec-bloc sitec-bloc-cta\"><h3>"@ + ht(b, "titre"@) + "</h3><p>"@ + ht(b, "texte"@) + "</p>"@
                + bouton_opt(b, "sitec-cta-btn"@) + "</div>"@)
        },
        GenreBloc::ReseauxSociaux => {
            si_non_vide(liens_reseaux(b), "<div class=\"sitec-bloc sitec-bloc-reseaux\">"@, "</div>"@)
        },
        GenreBloc::CarteGoogleMaps => {
            let adresse = t(b, "adresse"@);
            if adresse.len() == 0 {
                None
            } else {
                Some("<div class=\"sitec-bloc sitec-bloc-maps\"><iframe src=\"https://www.google.com/maps?q="@ + encode_url(
                    adresse,
                ) + "&output=embed\" loading=\"lazy\" referrerpolicy=\"no-referrer-when-downgrade\"></iframe></div>"@)
            }
        },
        GenreBloc::BanniereHero => {
            let img = url_sure(t(b, "url_image"@));
            Some("<div class=\"sitec-bloc sitec-bloc-hero\""@ + (if img.len() == 0 { Seq::empty() } else {
                " style=\"background-image:url('"@ + h(img) + "')\""@
            }) + "><div class=\"sitec-hero-overlay\"><h1>"@ + ht(b, "titre"@) + "</h1><p>"@ + ht(b, "soustitre"@) + "</p>"@
                + bouton_opt(b, "sitec-hero-btn"@) + "</div></div>"@)
        },
        GenreBloc::Chronologie => {
            si_non_vide(
                rendu_items(GenreItem::Etape, elements(b, "items"@)),
                "<div class=\"sitec-bloc sitec-bloc-chronologie\">"@,
                "</div>"@,
            )
        },
        GenreBloc::Tarifs => {
            Some("<div class=\"sitec-bloc sitec-bloc-tarif\"><h4>"@ + ht(b, "titre"@) + "</h4><div class=\"sitec-tarif-prix\">"@
                + ht(b, "prix"@) + "<span>"@ + ht(b, "periode"@) + "</span></div><ul>"@ + rendu_items(
                GenreItem::Puce,
                elements(b, "items"@),
            ) + "</ul>"@ + bouton_opt(b, "sitec-tarif-btn"@) + "</div>"@)
        },
        GenreBloc::PartageSocial => {
            si_non_vide(
                rendu_items(GenreItem::Partage, elements(b, "reseaux"@)),
                "<div class=\"sitec-bloc sitec-bloc-partage\">"@,
                "</div>"@,
            )
        },
        GenreBloc::MembreEquipe => {
            let av = url_sure(t(b, "avatar_url"@));
            Some("<div class=\"sitec-bloc sitec-bloc-membre\">"@ + (if av.len() == 0 { Seq::empty() } else {
                "<img class=\"sitec-avatar\" src=\""@ + h(av) + "\" alt=\"\" loading=\"lazy\">"@
            }) + "<h4>"@ + ht(b, "nom"@) + "</h4><div class=\"sitec-membre-role\">"@ + ht(b, "role"@) + "</div><p>"@ + ht(
                b,
                "bio"@,
            ) + "</p></div>"@)
        },
        GenreBloc::Logos => {
            si_non_vide(
                rendu_items(GenreItem::Logo, elements(b, "items"@)),
                "<div class=\"sitec-bloc sitec-bloc-logos\">"@,
                "</div>"@,
            )
        },
        GenreBloc::Badge => {
            Some("<div class=\"sitec-bloc\"><span class=\"sitec-badge sitec-badge-"@ + choix(t(b, "couleur"@), couleurs(), "vert"@)
                + "\">"@ + ht(b, "texte"@) + "</span></div>"@)
        },
        GenreBloc::RetourHaut => {
            Some(
                "<div class=\"sitec-bloc\"><button type=\"button\" class=\"sitec-retour-haut\" onclick=\"window.scrollTo({top:0,behavior:'smooth'})\">&uarr;</button></div>"@,
            )
        },
    }
}

/// Rendu HTML d'un bloc selon son type, `None` pour un bloc ignoré (type
/// inconnu, URL non sûre, liste vide…).
pub open spec fn rendu_interieur(b: Json) -> Option<Seq<char>> {
    match genre_de(t(b, "type"@)) {
        Some(g) => rendu_genre(g, b),
        None => None,
    }
}

/// Rendu d'un bloc dans son enveloppe d'animation, vide s'il est ignoré.
pub open spec fn rendu_bloc(b: Json) -> Seq<char> {
    match rendu_interieur(b) {
        Some(inner) => "<div class=\"sitec-anim\" data-anim=\""@ + h(animation_sure(t(b, "animation"@))) + "\">"@ + inner
            + "</div>"@,
        None => Seq::empty(),
    }
}

/// Rendu d'une suite de blocs, bout à bout.
pub open spec fn rendu_blocs(s: Seq<Json>) -> Seq<char>
    decreases s.len(),
{
    if s.len() == 0 {
        Seq::empty()
    } else {
        rendu_blocs(s.drop_last()) + rendu_bloc(s.last())
    }
}

/// Le rendu calculé `r` est celui attendu `s`.
pub open spec fn egal_rendu(r: Option<Vec<char>>, s: Option<Seq<char>>) -> bool {
    match r {
        Some(v) => s is Some && v@ =~= s->0,
        None => s is None,
    }
}

fn envelopper(o: Vec<char>, avant: &Vec<char>, apres: &str) -> (r: Option<Vec<char>>)
    ensures
        egal_rendu(r, si_non_vide(o@, avant@, apres@)),
{
    if o.len() == 0 {
        None
    } else {
        let mut v: Vec<char> = Vec::new();
        ajouter_vec(&mut v, avant);
        ajouter_vec(&mut v, &o);
        ajouter(&mut v, apres);
        Some(v)
    }
}

fn lit(s: &str) -> (v: Vec<char>)
    ensures
        v@ == s@,
{
    caracteres(s)
}

fn ajouter_avatar(o: &mut Vec<char>, b: &Json)
    ensures
        final(o)@ == old(o)@ + {
            let av = url_sure(t(*b, "avatar_url"@));
            if av.len() == 0 { Seq::empty() } else { "<img class=\"sitec-avatar\" src=\""@ + h(av) + "\" alt=\"\" loading=\"lazy\">"@ }
        },
{
    let ghost a = o@;
    let av = safe_url(&texte_champ(b, "avatar_url"));
    if av.len() > 0 {
        ajouter(o, "<img class=\"sitec-avatar\" src=\"");
        ajouter_h(o, &av);
        ajouter(o, "\" alt=\"\" loading=\"lazy\">");
    }
    assert(o@ =~= a + {
        let av = url_sure(t(*b, "avatar_url"@));
        if av.len() == 0 { Seq::empty() } else { "<img class=\"sitec-avatar\" src=\""@ + h(av) + "\" alt=\"\" loading=\"lazy\">"@ }
    });
}

fn ajouter_lien_reseau(o: &mut Vec<char>, b: &Json, cle: &str, sigle: &str)
    ensures
        final(o)@ == old(o)@ + lien_reseau(*b, cle@, sigle@),
{
    let ghost a = o@;
    let u = safe_url(&texte_champ(b, cle));
    if u.len() > 0 {
        ajouter(o, "<a href=\"");
        ajouter_h(o, &u);
        ajouter(o, "\" target=\"_blank\" rel=\"noopener noreferrer nofollow\" aria-label=\"");
        ajouter(o, cle);
        ajouter(o, "\">");
        ajouter(o, sigle);
        ajouter(o, "</a>");
    }
    assert(o@ =~= a + lien_reseau(*b, cle@, sigle@));
}

/// Rendu HTML d'un bloc de type `g`, `None` s'il est ignoré.
pub fn rendre_genre(g: GenreBloc, b: &Json) -> (r: Option<Vec<char>>)
    ensures
        egal_rendu(r, rendu_genre(g, *b)),
{
    let mut o: Vec<char> = Vec::new();
    match g {
        GenreBloc::Titre => {
            let niv: [&str; 4] = ["h1", "h2", "h3", "h4"];
            assert(vues_str(niv@) =~= niveaux());
            let n = choisir(b, "niveau", &niv, "h2");
            ajouter(&mut o, "<");
            ajouter_vec(&mut o, &n);
            ajouter(&mut o, " class=\"sitec-bloc sitec-bloc-titre\">");
            ajouter_ht(&mut o, b, "texte");
            ajouter(&mut o, "</");
            ajouter_vec(&mut o, &n);
            ajouter(&mut o, ">");
            Some(o)
        },
        GenreBloc::Texte => {
            ajouter(&mut o, "<div class=\"sitec-bloc sitec-bloc-texte\">");
            let mut e: Vec<char> = Vec::new();
            ajouter_ht(&mut e, b, "texte");
            assert(e@ =~= ht(*b, "texte"@));
            ajouter_sauts(&mut o, &e);
            ajouter(&mut o, "</div>");
            Some(o)
        },
        GenreBloc::Image => {
            let u = safe_url(&texte_champ(b, "url"));
            if u.len() == 0 {
                return None;
            }
            let leg = texte_champ(b, "legende");
            ajouter(&mut o, "<div class=\"sitec-bloc sitec-bloc-image\"><img src=\"");
            ajouter_h(&mut o, &u);
            ajouter(&mut o, "\" alt=\"");
            ajouter_ht(&mut o, b, "alt");
            ajouter(&mut o, "\" loading=\"lazy\">");
            if leg.len() > 0 {
                ajouter(&mut o, "<div class=\"sitec-bloc-image-legende\">");
                ajouter_h(&mut o, &leg);
                ajouter(&mut o, "</div>");
            }
            ajouter(&mut o, "</div>");
            Some(o)
        },
        GenreBloc::Galerie | GenreBloc::CartesGrille => {
            let genre_item = if g == GenreBloc::Galerie { GenreItem::Image } else { GenreItem::Carte };
            let c = rendre_items(genre_item, elements_de(b, "items"));
            let cols = san_int(b, "colonnes", 2, 4, 3);
            let mut avant: Vec<char> = Vec::new();
            if g == GenreBloc::Galerie {
                ajouter(&mut avant, "<div class=\"sitec-bloc sitec-bloc-galerie sitec-cols-");
            } else {
                ajouter(&mut avant, "<div class=\"sitec-bloc sitec-bloc-cartes-grille sitec-cols-");
            }
            ajouter_decimal_signe(&mut avant, cols);
            ajouter(&mut avant, "\">");
            envelopper(c, &avant, "</div>")
        },
        GenreBloc::Carousel => {
            let c = rendre_items(GenreItem::Image, elements_de(b, "items"));
            envelopper(
                c,
                &lit("<div class=\"sitec-bloc sitec-bloc-carousel\"><div class=\"sitec-carousel-track\">"),
                "</div></div>",
            )
        },
        GenreBloc::Video => {
            let u = safe_url(&texte_champ(b, "url"));
            if u.len() == 0 {
                return None;
            }
            ajouter(&mut o, "<div class=\"sitec-bloc sitec-bloc-video\">");
            let v = video_embed_html(&u);
            ajouter_vec(&mut o, &v);
            ajouter(&mut o, "</div>");
            Some(o)
        },
        GenreBloc::Audio => {
            let u = safe_url(&texte_champ(b, "url"));
            if u.len() == 0 {
                return None;
            }
            ajouter(&mut o, "<div class=\"sitec-bloc sitec-bloc-audio\"><audio controls src=\"");
            ajouter_h(&mut o, &u);
            ajouter(&mut o, "\"></audio></div>");
            Some(o)
        },
        GenreBloc::Bouton => {
            let u = safe_url(&texte_champ(b, "url"));
            if u.len() == 0 {
                return None;
            }
            ajouter(&mut o, "<div class=\"sitec-bloc sitec-bloc-bouton\"><a href=\"");
            ajouter_h(&mut o, &u);
            ajouter(&mut o, "\" target=\"_blank\" rel=\"noopener noreferrer nofollow\">");
            ajouter_ht(&mut o, b, "texte");
            ajouter(&mut o, "</a></div>");
            Some(o)
        },
        GenreBloc::GroupeBoutons => {
            let c = rendre_items(GenreItem::Bouton, elements_de(b, "items"));
            envelopper(c, &lit("<div class=\"sitec-bloc sitec-bloc-groupe-boutons\">"), "</div>")
        },
        GenreBloc::Separateur => {
            ajouter(&mut o, "<hr class=\"sitec-bloc sitec-bloc-separateur\">");
            Some(o)
        },
        GenreBloc::Espace => {
            let hs: [&str; 4] = ["s", "m", "l", "xl"];
            assert(vues_str(hs@) =~= hauteurs());
            let n = choisir(b, "hauteur", &hs, "m");
            ajouter(&mut o, "<div class=\"sitec-bloc sitec-bloc-espace sitec-espace-");
            ajouter_vec(&mut o, &n);
            ajouter(&mut o, "\"></div>");
            Some(o)
        },
        GenreBloc::Citation => {
            let auteur = texte_champ(b, "auteur");
            ajouter(&mut o, "<blockquote class=\"sitec-bloc sitec-bloc-citation\"><p>");
            ajouter_ht(&mut o, b, "texte");
            ajouter(&mut o, "</p>");
            if auteur.len() > 0 {
                ajouter(&mut o, "<cite>— ");
                ajouter_h(&mut o, &auteur);
                ajouter(&mut o, "</cite>");
            }
            ajouter(&mut o, "</blockquote>");
            Some(o)
        },
        GenreBloc::Liste => {
            let style = texte_champ(b, "style");
            let tag = if egale_lit(&style, "numero") { lit("ol") } else { lit("ul") };
            ajouter(&mut o, "<");
            ajouter_vec(&mut o, &tag);
            ajouter(&mut o, " class=\"sitec-bloc sitec-bloc-liste\">");
            let c = rendre_items(GenreItem::Puce, elements_de(b, "items"));
            ajouter_vec(&mut o, &c);
            ajouter(&mut o, "</");
            ajouter_vec(&mut o, &tag);
            ajouter(&mut o, ">");
            Some(o)
        },
        GenreBloc::IconeTexte => {
            ajouter(&mut o, "<div class=\"sitec-bloc sitec-bloc-icone-texte\"><div class=\"sitec-icone\">");
            ajouter_ht(&mut o, b, "icone");
            ajouter(&mut o, "</div><div><h4>");
            ajouter_ht(&mut o, b, "titre");
            ajouter(&mut o, "</h4><p>");
            ajouter_ht(&mut o, b, "texte");
            ajouter(&mut o, "</p></div></div>");
            Some(o)
        },
        GenreBloc::Carte => {
            ajouter(&mut o, "<div class=\"sitec-bloc sitec-bloc-carte\">");
            let img = safe_url(&texte_champ(b, "url_image"));
            ajouter_image_vide(&mut o, &img);
            ajouter(&mut o, "<div class=\"sitec-carte-corps\"><h4>");
            ajouter_ht(&mut o, b, "titre");
            ajouter(&mut o, "</h4><p>");
            ajouter_ht(&mut o, b, "texte");
            ajouter(&mut o, "</p>");
            bouton_optionnel(&mut o, b, "sitec-carte-btn");
            ajouter(&mut o, "</div></div>");
            Some(o)
        },
        GenreBloc::Accordeon => {
            let c = rendre_items(GenreItem::Question, elements_de(b, "items"));
            envelopper(c, &lit("<div class=\"sitec-bloc sitec-bloc-accordeon\">"), "</div>")
        },
        GenreBloc::Onglets => {
            let items = elements_de(b, "items");
            if items.len() == 0 {
                return None;
            }
            let (btns, panneaux) = rendre_onglets_parties(items);
            ajouter(&mut o, "<div class=\"sitec-bloc sitec-bloc-onglets\" data-tabs><div class=\"sitec-tab-btns\">");
            ajouter_vec(&mut o, &btns);
            ajouter(&mut o, "</div><div class=\"sitec-tab-panels\">");
            ajouter_vec(&mut o, &panneaux);
            ajouter(&mut o, "</div></div>");
            Some(o)
        },
        GenreBloc::Temoignage => {
            ajouter(&mut o, "<div class=\"sitec-bloc sitec-bloc-temoignage\">");
            ajouter_avatar(&mut o, b);
            ajouter(&mut o, "<p class=\"sitec-temoignage-texte\">« ");
            ajouter_ht(&mut o, b, "texte");
            ajouter(&mut o, " »</p><div class=\"sitec-temoignage-auteur\"><strong>");
            ajouter_ht(&mut o, b, "nom");
            ajouter(&mut o, "</strong><span>");
            ajouter_ht(&mut o, b, "role");
            ajouter(&mut o, "</span></div></div>");
            Some(o)
        },
        GenreBloc::BarreProgression => {
            let pct = san_int(b, "pourcentage", 0, 100, 50);
            ajouter(&mut o, "<div class=\"sitec-bloc sitec-bloc-barre\"><div class=\"sitec-barre-label\">");
            ajouter_ht(&mut o, b, "label");
            ajouter(&mut o, " — ");
            ajouter_decimal_signe(&mut o, pct);
            ajouter(&mut o, "%</div><div class=\"sitec-barre-fond\"><div class=\"sitec-barre-remplie\" style=\"width:");
            ajouter_decimal_signe(&mut o, pct);
            ajouter(&mut o, "%\"></div></div></div>");
            Some(o)
        },
        GenreBloc::Compteur => {
            let v = san_int(b, "valeur", 0, 999_999_999, 0);
            ajouter(&mut o, "<div class=\"sitec-bloc sitec-compteur\" data-cible=\"");
            ajouter_decimal_signe(&mut o, v);
            ajouter(&mut o, "\"><span class=\"sitec-compteur-val\">0</span><span class=\"sitec-compteur-suffixe\">");
            ajouter_ht(&mut o, b, "suffixe");
            ajouter(&mut o, "</span><div class=\"sitec-compteur-label\">");
            ajouter_ht(&mut o, b, "label");
            ajouter(&mut o, "</div></div>");
            Some(o)
        },
        GenreBloc::StatsGrille => {
            let c = rendre_items(GenreItem::Stat, elements_de(b, "items"));
            envelopper(c, &lit("<div class=\"sitec-bloc sitec-bloc-stats-grille\">"), "</div>")
        },
        GenreBloc::CompteRebours => {
            let date = texte_champ(b, "date_cible");
            if date.len() == 0 {
                return None;
            }
            ajouter(&mut o, "<div class=\"sitec-bloc sitec-countdown\" data-cible=\"");
            ajouter_h(&mut o, &date);
            ajouter(&mut o, "\"><div class=\"sitec-countdown-label\">");
            ajouter_ht(&mut o, b, "label");
            ajouter(&mut o, "</div><div class=\"sitec-countdown-chiffres\"></div></div>");
            Some(o)
        },
        GenreBloc::AppelAction => {
            ajouter(&mut o, "<div class=\"sitec-bloc sitec-bloc-cta\"><h3>");
            ajouter_ht(&mut o, b, "titre");
            ajouter(&mut o, "</h3><p>");
            ajouter_ht(&mut o, b, "texte");
            ajouter(&mut o, "</p>");
            bouton_optionnel(&mut o, b, "sitec-cta-btn");
            ajouter(&mut o, "</div>");
            Some(o)
        },
        GenreBloc::ReseauxSociaux => {
            let mut l: Vec<char> = Vec::new();
            ajouter_lien_reseau(&mut l, b, "facebook", "FB");
            ajouter_lien_reseau(&mut l, b, "twitter", "X");
            ajouter_lien_reseau(&mut l, b, "instagram", "IG");
            ajouter_lien_reseau(&mut l, b, "youtube", "YT");
            ajouter_lien_reseau(&mut l, b, "linkedin", "in");
            ajouter_lien_reseau(&mut l, b, "github", "GH");
            ajouter_lien_reseau(&mut l, b, "tiktok", "TT");
            assert(l@ =~= liens_reseaux(*b));
            envelopper(l, &lit("<div class=\"sitec-bloc sitec-bloc-reseaux\">"), "</div>")
        },
        GenreBloc::CarteGoogleMaps => {
            let adresse = texte_ref(b, "adresse");
            let ac = caracteres(adresse);
            if ac.len() == 0 {
                return None;
            }
            ajouter(&mut o, "<div class=\"sitec-bloc sitec-bloc-maps\"><iframe src=\"https://www.google.com/maps?q=");
            let e = encoder_url(adresse);
            ajouter(&mut o, e.as_str());
            ajouter(&mut o, "&output=embed\" loading=\"lazy\" referrerpolicy=\"no-referrer-when-downgrade\"></iframe></div>");
            Some(o)
        },
        GenreBloc::BanniereHero => {
            let img = safe_url(&texte_champ(b, "url_image"));
            ajouter(&mut o, "<div class=\"sitec-bloc sitec-bloc-hero\"");
            if img.len() > 0 {
                ajouter(&mut o, " style=\"background-image:url('");
                ajouter_h(&mut o, &img);
                ajouter(&mut o, "')\"");
            }
            ajouter(&mut o, "><div class=\"sitec-hero-overlay\"><h1>");
            ajouter_ht(&mut o, b, "titre");
            ajouter(&mut o, "</h1><p>");
            ajouter_ht(&mut o, b, "soustitre");
            ajouter(&mut o, "</p>");
            bouton_optionnel(&mut o, b, "sitec-hero-btn");
            ajouter(&mut o, "</div></div>");
            Some(o)
        },
        GenreBloc::Chronologie => {
            let c = rendre_items(GenreItem::Etape, elements_de(b, "items"));
            envelopper(c, &lit("<div class=\"sitec-bloc sitec-bloc-chronologie\">"), "</div>")
        },
        GenreBloc::Tarifs => {
            ajouter(&mut o, "<div class=\"sitec-bloc sitec-bloc-tarif\"><h4>");
            ajouter_ht(&mut o, b, "titre");
            ajouter(&mut o, "</h4><div class=\"sitec-tarif-prix\">");
            ajouter_ht(&mut o, b, "prix");
            ajouter(&mut o, "<span>");
            ajouter_ht(&mut o, b, "periode");
            ajouter(&mut o, "</span></div><ul>");
            let c = rendre_items(GenreItem::Puce, elements_de(b, "items"));
            ajouter_vec(&mut o, &c);
            ajouter(&mut o, "</ul>");
            bouton_optionnel(&mut o, b, "sitec-tarif-btn");
            ajouter(&mut o, "</div>");
            Some(o)
        },
        GenreBloc::PartageSocial => {
            let c = rendre_items(GenreItem::Partage, elements_de(b, "reseaux"));
            envelopper(c, &lit("<div class=\"sitec-bloc sitec-bloc-partage\">"), "</div>")
        },
        GenreBloc::MembreEquipe => {
            ajouter(&mut o, "<div class=\"sitec-bloc sitec-bloc-membre\">");
            ajouter_avatar(&mut o, b);
            ajouter(&mut o, "<h4>");
            ajouter_ht(&mut o, b, "nom");
            ajouter(&mut o, "</h4><div class=\"sitec-membre-role\">");
            ajouter_ht(&mut o, b, "role");
            ajouter(&mut o, "</div><p>");
            ajouter_ht(&mut o, b, "bio");
            ajouter(&mut o, "</p></div>");
            Some(o)
        },
        GenreBloc::Logos => {
            let c = rendre_items(GenreItem::Logo, elements_de(b, "items"));
            envelopper(c, &lit("<div class=\"sitec-bloc sitec-bloc-logos\">"), "</div>")
        },
        GenreBloc::Badge => {
            let cs: [&str; 6] = ["vert", "bleu", "rouge", "jaune", "gris", "violet"];
            assert(vues_str(cs@) =~= couleurs());
            let c = choisir(b, "couleur", &cs, "vert");
            ajouter(&mut o, "<div class=\"sitec-bloc\"><span class=\"sitec-badge sitec-badge-");
            ajouter_vec(&mut o, &c);
            ajouter(&mut o, "\">");
            ajouter_ht(&mut o, b, "texte");
            ajouter(&mut o, "</span></div>");
            Some(o)
        },
        GenreBloc::RetourHaut => {
            ajouter(
                &mut o,
                "<div class=\"sitec-bloc\"><button type=\"button\" class=\"sitec-retour-haut\" onclick=\"window.scrollTo({top:0,behavior:'smooth'})\">&uarr;</button></div>",
            );
            Some(o)
        },
    }
}

/// Rendu d'un bloc dans son enveloppe d'animation (rien s'il est ignoré).
pub fn rendre_bloc(out: &mut Vec<char>, b: &Json)
    ensures
        final(out)@ == old(out)@ + rendu_bloc(*b),
{
    let k = texte_champ(b, "type");
    let g = match genre(&k) {
        Some(g) => g,
        None => {
            assert(out@ =~= old(out)@ + rendu_bloc(*b));
            return;
        },
    };
    match rendre_genre(g, b) {
        Some(inner) => {
            let ghost a = out@;
            let anim = safe_animation(&texte_champ(b, "animation"));
            ajouter(out, "<div class=\"sitec-anim\" data-anim=\"");
            ajouter_h(out, &anim);
            ajouter(out, "\">");
            ajouter_vec(out, &inner);
            ajouter(out, "</div>");
            assert(out@ =~= a + rendu_bloc(*b));
        },
        None => {
            assert(out@ =~= old(out)@ + rendu_bloc(*b));
        },
    }
}

/// Rend en HTML le tableau de blocs d'une page en mode « blocs » : chaque
/// bloc de type connu, dans son enveloppe d'animation, tout texte échappé
/// et toute URL limitée à http(s).
pub fn rendre_blocs(blocs: &[Json]) -> (r: String)
    ensures
        r@ == rendu_blocs(blocs@),
{
    let mut out: Vec<char> = Vec::new();
    let mut i: usize = 0;
    assert(blocs@.subrange(0, 0) =~= Seq::<Json>::empty());
    while i < blocs.len()
        invariant
            i <= blocs.len(),
            out@ == rendu_blocs(blocs@.subrange(0, i as int)),
        decreases blocs.len() - i,
    {
        assert(blocs@.subrange(0, i + 1).drop_last() =~= blocs@.subrange(0, i as int));
        rendre_bloc(&mut out, &blocs[i]);
        i += 1;
    }
    assert(blocs@.subrange(0, blocs@.len() as int) =~= blocs@);
    chaine_de(&out)
}

/// Blocs d'une page : la liste que `serde_json` lit dans son texte, aucun
/// si le texte n'est pas une liste JSON.
pub open spec fn blocs_lus(contenu: Seq<char>) -> Seq<Json> {
    match crate::json::json_lu(contenu) {
        Some(Json::Liste(l)) => l@,
        _ => Seq::empty(),
    }
}

/// HTML des blocs d'une page, lus dans le texte JSON stocké.
pub fn render_blocs_html(contenu: &str) -> (r: String)
    ensures
        r@ == rendu_blocs(blocs_lus(contenu@)),
{
    match crate::json::lire_json(contenu) {
        Some(Json::Liste(l)) => rendre_blocs(&l),
        _ => chaine_de(&Vec::new()),
    }
}

// ══════════════════════════════════════════════════════════════════
// Partage d'une page : liste CSV « uid:5,uid:12 »
// ══════════════════════════════════════════════════════════════════

/// L'entrée de partage d'un utilisateur : `uid:<id>`.
pub open spec fn entree_uid(uid: i64) -> Seq<char> {
    "uid:"@ + decimal_signe(uid as int)
}

/// Les entrées de la liste de partage (morceaux séparés par des virgules).
pub open spec fn entrees(p: Seq<char>) -> Seq<Seq<char>> {
    crate::texte::decouper(p, ',')
}

/// La liste de partage contient l'utilisateur (une entrée, espaces
/// autour ignorés, vaut `uid:<id>`).
pub open spec fn partage_contient(p: Seq<char>, uid: i64) -> bool {
    exists|i: int| 0 <= i < entrees(p).len() && rogner(#[trigger] entrees(p)[i]) == entree_uid(uid)
}

fn entree(uid: i64) -> (r: Vec<char>)
    ensures
        r@ == entree_uid(uid),
{
    let mut r: Vec<char> = Vec::new();
    ajouter(&mut r, "uid:");
    ajouter_decimal_signe(&mut r, uid);
    r
}

/// La liste de partage contient-elle l'utilisateur ?
pub fn partage_contains(partage: &str, uid: i64) -> (r: bool)
    ensures
        r == partage_contient(partage@, uid),
{
    let needle = entree(uid);
    let c = caracteres(partage);
    let m = crate::texte::decoupe(&c, ',');
    let ghost vm = crate::texte::vues(m@);
    let mut i: usize = 0;
    while i < m.len()
        invariant
            i <= m.len(),
            vm == crate::texte::vues(m@),
            vm == entrees(partage@),
            needle@ == entree_uid(uid),
            forall|j: int| 0 <= j < i ==> rogner(#[trigger] vm[j]) != entree_uid(uid),
        decreases m.len() - i,
    {
        let e = rogne(&m[i]);
        assert(vm[i as int] == m@[i as int]@);
        if crate::texte::egales(&e, &needle) {
            return true;
        }
        i += 1;
    }
    false
}

/// `s` sans ses virgules finales (`trim_end_matches(',')`).
pub open spec fn sans_virgules_fin(s: Seq<char>) -> Seq<char>
    decreases s.len(),
{
    if s.len() > 0 && s.last() == ',' { sans_virgules_fin(s.drop_last()) } else { s }
}

/// Liste de partage après ajout de l'utilisateur (inchangée s'il y est
/// déjà).
pub open spec fn partage_ajoute(p: Seq<char>, uid: i64) -> Seq<char> {
    if partage_contient(p, uid) {
        p
    } else if rogner(p).len() == 0 {
        entree_uid(uid)
    } else {
        sans_virgules_fin(p) + ","@ + entree_uid(uid)
    }
}

/// Ajoute l'utilisateur à la liste de partage.
pub fn partage_add(partage: &str, uid: i64) -> (r: String)
    ensures
        r@ == partage_ajoute(partage@, uid),
{
    if partage_contains(partage, uid) {
        return chaine_de(&caracteres(partage));
    }
    let e = entree(uid);
    let c = caracteres(partage);
    if rogne(&c).len() == 0 {
        return chaine_de(&e);
    }
    let mut n = c.len();
    assert(c@.subrange(0, n as int) =~= c@);
    while n > 0 && c[n - 1] == ','
        invariant
            n <= c.len(),
            sans_virgules_fin(c@) == sans_virgules_fin(c@.subrange(0, n as int)),
        decreases n,
    {
        assert(c@.subrange(0, n as int).drop_last() =~= c@.subrange(0, n - 1));
        n -= 1;
    }
    let mut r = crate::texte::tranche(&c, 0, n);
    assert(sans_virgules_fin(c@.subrange(0, n as int)) == c@.subrange(0, n as int));
    ajouter(&mut r, ",");
    ajouter_vec(&mut r, &e);
    chaine_de(&r)
}

/// Entrées gardées au retrait de `needle` : rognées, non vides, différentes.
pub open spec fn entrees_gardees(m: Seq<Seq<char>>, needle: Seq<char>) -> Seq<Seq<char>>
    decreases m.len(),
{
    if m.len() == 0 {
        Seq::empty()
    } else {
        let r = entrees_gardees(m.drop_last(), needle);
        let e = rogner(m.last());
        if e.len() > 0 && e != needle { r.push(e) } else { r }
    }
}

/// Textes joints par des virgules.
pub open spec fn joindre(m: Seq<Seq<char>>) -> Seq<char>
    decreases m.len(),
{
    if m.len() == 0 {
        Seq::empty()
    } else if m.len() == 1 {
        m[0]
    } else {
        joindre(m.drop_last()) + ","@ + m.last()
    }
}

/// Liste de partage après retrait de l'utilisateur (entrées rognées, vides
/// écartées).
pub open spec fn partage_retire(p: Seq<char>, uid: i64) -> Seq<char> {
    joindre(entrees_gardees(entrees(p), entree_uid(uid)))
}

/// Retire l'utilisateur de la liste de partage.
pub fn partage_remove(partage: &str, uid: i64) -> (r: String)
    ensures
        r@ == partage_retire(partage@, uid),
{
    let needle = entree(uid);
    let c = caracteres(partage);
    let m = crate::texte::decoupe(&c, ',');
    let ghost vm = crate::texte::vues(m@);
    let mut r: Vec<char> = Vec::new();
    let mut nb: usize = 0;
    let mut i: usize = 0;
    assert(vm.subrange(0, 0) =~= Seq::<Seq<char>>::empty());
    while i < m.len()
        invariant
            i <= m.len(),
            vm == crate::texte::vues(m@),
            needle@ == entree_uid(uid),
            nb == entrees_gardees(vm.subrange(0, i as int), needle@).len(),
            r@ == joindre(entrees_gardees(vm.subrange(0, i as int), needle@)),
            nb <= i,
        decreases m.len() - i,
    {
        assert(vm.subrange(0, i + 1).drop_last() =~= vm.subrange(0, i as int));
        assert(vm[i as int] == m@[i as int]@);
        let e = rogne(&m[i]);
        if e.len() > 0 && !crate::texte::egales(&e, &needle) {
            let ghost g = entrees_gardees(vm.subrange(0, i as int), needle@);
            if nb > 0 {
                ajouter(&mut r, ",");
            }
            ajouter_vec(&mut r, &e);
            proof {
                let g2 = g.push(e@);
                assert(g2.drop_last() =~= g);
                if g.len() == 0 {
                    assert(joindre(g2) == g2[0]);
                }
                assert(r@ =~= joindre(g2));
            }
            nb += 1;
        }
        i += 1;
    }
    assert(vm.subrange(0, m.len() as int) =~= vm);
    chaine_de(&r)
}

proof fn lemme_entree_propre(uid: i64)
    ensures
        !entree_uid(uid).contains(','),
        rogner(entree_uid(uid)) == entree_uid(uid),
{
    reveal_strlit("uid:");
    let e = entree_uid(uid);
    let d = decimal_signe(uid as int);
    let m: nat = if uid < 0 { (-uid) as nat } else { uid as nat };
    crate::texte::lemme_decimal_chiffres(m);
    assert forall|i: int| 0 <= i < d.len() implies d[i] == '-' || ('0' <= d[i] <= '9') by {
        if uid < 0 {
            if i > 0 {
                assert(d[i] == crate::texte::decimal(m)[i - 1]);
            }
        }
    }
    assert(!e.contains(',')) by {
        if e.contains(',') {
            let j = choose|j: int| 0 <= j < e.len() && e[j] == ',';
            if j >= 4 {
                assert(e[j] == d[j - 4]);
            }
        }
    }
    assert(e.len() > 4);
    assert(!crate::texte::est_espace(e[0]));
    assert(e.last() == d[d.len() - 1]);
    assert(!crate::texte::est_espace(e.last()));
    assert(crate::texte::espaces_tete(e) == 0);
    assert(e.subrange(0, e.len() as int) =~= e);
    assert(crate::texte::espaces_queue(e) == 0);
}

/// Après l'ajout d'un utilisateur à une liste de partage, quelle qu'elle
/// soit, la liste le contient.
pub proof fn loi_partage_ajout(p: Seq<char>, uid: i64)
    ensures
        partage_contient(partage_ajoute(p, uid), uid),
{
    let e = entree_uid(uid);
    lemme_entree_propre(uid);
    if partage_contient(p, uid) {
    } else if rogner(p).len() == 0 {
        crate::texte::lemme_decouper_sans(e, ',');
        assert(entrees(e)[0] == e);
    } else {
        reveal_strlit(",");
        let x = sans_virgules_fin(p) + ","@ + e;
        assert(x =~= sans_virgules_fin(p) + seq![','] + e);
        crate::texte::lemme_decouper_dernier(sans_virgules_fin(p), e, ',');
        let n = entrees(x).len();
        assert(entrees(x)[n - 1] == e);
    }
}

/// Les entrées gardées sont rognées, non vides, sans virgule et différentes
/// de `needle` ; un texte y figure si et seulement si c'est le rognage non
/// vide, différent de `needle`, d'une entrée de départ.
proof fn lemme_gardees(m: Seq<Seq<char>>, needle: Seq<char>)
    requires
        forall|i: int| 0 <= i < m.len() ==> !(#[trigger] m[i]).contains(','),
    ensures
        forall|i: int|
            0 <= i < entrees_gardees(m, needle).len() ==> {
                let y = #[trigger] entrees_gardees(m, needle)[i];
                &&& y.len() > 0
                &&& y != needle
                &&& rogner(y) == y
                &&& !y.contains(',')
            },
        forall|y: Seq<char>|
            #![trigger entrees_gardees(m, needle).contains(y)]
            entrees_gardees(m, needle).contains(y) <==> (y.len() > 0 && y != needle && exists|j: int|
                0 <= j < m.len() && rogner(#[trigger] m[j]) == y),
    decreases m.len(),
{
    if m.len() > 0 {
        let d = m.drop_last();
        assert forall|i: int| 0 <= i < d.len() implies !(#[trigger] d[i]).contains(',') by {
            assert(d[i] == m[i]);
        }
        lemme_gardees(d, needle);
        crate::texte::lemme_rogner_stable(m.last());
        let r = entrees_gardees(d, needle);
        let e = rogner(m.last());
        let g = entrees_gardees(m, needle);
        assert forall|y: Seq<char>| g.contains(y) <==> (y.len() > 0 && y != needle && exists|j: int|
            0 <= j < m.len() && rogner(#[trigger] m[j]) == y) by {
            if g.contains(y) {
                let k = choose|k: int| 0 <= k < g.len() && g[k] == y;
                if k < r.len() {
                    assert(r.contains(y));
                    let j = choose|j: int| 0 <= j < d.len() && rogner(#[trigger] d[j]) == y;
                    assert(m[j] == d[j]);
                } else {
                    assert(rogner(m[m.len() - 1]) == y);
                }
            }
            if y.len() > 0 && y != needle && exists|j: int| 0 <= j < m.len() && rogner(#[trigger] m[j]) == y {
                let j = choose|j: int| 0 <= j < m.len() && rogner(#[trigger] m[j]) == y;
                if j < m.len() - 1 {
                    assert(d[j] == m[j]);
                    assert(r.contains(y));
                    let k = choose|k: int| 0 <= k < r.len() && r[k] == y;
                    assert(g[k] == y);
                } else {
                    assert(g[g.len() - 1] == y);
                }
            }
        }
    }
}

/// Découper sur les virgules des textes joints redonne ces textes, s'il y
/// en a au moins un et qu'aucun ne contient de virgule.
proof fn lemme_joindre_decouper(g: Seq<Seq<char>>)
    requires
        g.len() > 0,
        forall|i: int| 0 <= i < g.len() ==> !(#[trigger] g[i]).contains(','),
    ensures
        entrees(joindre(g)) == g,
    decreases g.len(),
{
    if g.len() == 1 {
        crate::texte::lemme_decouper_sans(g[0], ',');
        assert(seq![g[0]] =~= g);
    } else {
        let d = g.drop_last();
        assert forall|i: int| 0 <= i < d.len() implies !(#[trigger] d[i]).contains(',') by {
            assert(d[i] == g[i]);
        }
        lemme_joindre_decouper(d);
        reveal_strlit(",");
        assert(joindre(g) =~= joindre(d) + seq![','] + g.last());
        crate::texte::lemme_decouper_ajout(joindre(d), g.last(), ',');
        assert(d.push(g.last()) =~= g);
    }
}

/// Deux entrées `uid:<id>` égales ont le même identifiant.
proof fn lemme_entree_injective(a: i64, b: i64)
    requires
        entree_uid(a) == entree_uid(b),
    ensures
        a == b,
{
    reveal_strlit("uid:");
    let da = decimal_signe(a as int);
    let db = decimal_signe(b as int);
    assert(da =~= entree_uid(a).subrange(4, entree_uid(a).len() as int));
    assert(db =~= entree_uid(b).subrange(4, entree_uid(b).len() as int));
    crate::texte::loi_relire_entier(a);
    crate::texte::loi_relire_entier(b);
}

/// Après retrait d'un utilisateur, la liste de partage ne le contient plus,
/// et contient chacun des autres utilisateurs si et seulement si elle le
/// contenait avant.
pub proof fn loi_partage_retrait(p: Seq<char>, uid: i64, autre: i64)
    requires
        autre != uid,
    ensures
        !partage_contient(partage_retire(p, uid), uid),
        partage_contient(partage_retire(p, uid), autre) <==> partage_contient(p, autre),
{
    let e = entree_uid(uid);
    let ea = entree_uid(autre);
    let m = entrees(p);
    crate::texte::lemme_decouper_morceaux(p, ',');
    lemme_gardees(m, e);
    lemme_entree_propre(uid);
    lemme_entree_propre(autre);
    reveal_strlit("uid:");
    assert(e.len() >= 4 && ea.len() >= 4);
    assert(ea != e) by {
        if ea == e {
            lemme_entree_injective(autre, uid);
        }
    }
    let g = entrees_gardees(m, e);
    let x = joindre(g);
    if g.len() == 0 {
        crate::texte::lemme_decouper_sans(x, ',');
        assert(entrees(x) == seq![x]);
        assert(rogner(x) =~= x);
        if partage_contient(p, autre) {
            let j = choose|j: int| 0 <= j < m.len() && rogner(#[trigger] m[j]) == ea;
            assert(g.contains(ea));
        }
    } else {
        lemme_joindre_decouper(g);
        if partage_contient(x, uid) {
            let i = choose|i: int| 0 <= i < entrees(x).len() && rogner(#[trigger] entrees(x)[i]) == e;
            assert(g[i] != e);
        }
        if partage_contient(x, autre) {
            let i = choose|i: int| 0 <= i < entrees(x).len() && rogner(#[trigger] entrees(x)[i]) == ea;
            assert(g[i] == ea);
            assert(g.contains(ea));
        }
        if partage_contient(p, autre) {
            let j = choose|j: int| 0 <= j < m.len() && rogner(#[trigger] m[j]) == ea;
            assert(g.contains(ea));
            let i = choose|i: int| 0 <= i < g.len() && g[i] == ea;
            assert(rogner(entrees(x)[i]) == ea);
        }
    }
}

/// Identifiants des utilisateurs de la liste de partage, dans l'ordre :
/// entrées rognées de la forme `uid:<entier>`.
pub open spec fn ids_partage(m: Seq<Seq<char>>) -> Seq<i64>
    decreases m.len(),
{
    if m.len() == 0 {
        Seq::empty()
    } else {
        let r = ids_partage(m.drop_last());
        let e = rogner(m.last());
        if commence_par(e, "uid:"@) {
            match i64_ecrit(e.subrange(4, e.len() as int)) {
                Some(n) => r.push(n),
                None => r,
            }
        } else {
            r
        }
    }
}

/// Une entrée qui vaut `uid:<id>` une fois rognée donne `id` parmi les
/// identifiants.
proof fn lemme_ids_contient(m: Seq<Seq<char>>, i: int, uid: i64)
    requires
        0 <= i < m.len(),
        rogner(m[i]) == entree_uid(uid),
    ensures
        ids_partage(m).contains(uid),
    decreases m.len(),
{
    let r = ids_partage(m.drop_last());
    if i < m.len() - 1 {
        assert(m.drop_last()[i] == m[i]);
        lemme_ids_contient(m.drop_last(), i, uid);
        let k = choose|k: int| 0 <= k < r.len() && r[k] == uid;
        let e = rogner(m.last());
        if commence_par(e, "uid:"@) {
            match i64_ecrit(e.subrange(4, e.len() as int)) {
                Some(n) => assert(r.push(n)[k] == uid),
                None => {},
            }
        }
    } else {
        let e = rogner(m.last());
        reveal_strlit("uid:");
        assert(e.subrange(0, 4) =~= "uid:"@);
        assert(e.subrange(4, e.len() as int) =~= decimal_signe(uid as int));
        crate::texte::loi_relire_entier(uid);
        assert(r.push(uid)[r.len() as int] == uid);
    }
}

/// Après l'ajout d'un utilisateur à une liste de partage, quelle qu'elle
/// soit, son identifiant figure parmi ceux que la liste donne.
pub proof fn loi_partage_ajout_ids(p: Seq<char>, uid: i64)
    ensures
        ids_partage(entrees(partage_ajoute(p, uid))).contains(uid),
{
    loi_partage_ajout(p, uid);
    let q = partage_ajoute(p, uid);
    let i = choose|i: int| 0 <= i < entrees(q).len() && rogner(#[trigger] entrees(q)[i]) == entree_uid(uid);
    lemme_ids_contient(entrees(q), i, uid);
}

/// Identifiants des utilisateurs avec qui la page est partagée.
pub fn partage_user_ids(partage: &str) -> (r: Vec<i64>)
    ensures
        r@ == ids_partage(entrees(partage@)),
{
    let c = caracteres(partage);
    let m = crate::texte::decoupe(&c, ',');
    let ghost vm = crate::texte::vues(m@);
    let mut r: Vec<i64> = Vec::new();
    let mut i: usize = 0;
    assert(vm.subrange(0, 0) =~= Seq::<Seq<char>>::empty());
    while i < m.len()
        invariant
            i <= m.len(),
            vm == crate::texte::vues(m@),
            vm == entrees(partage@),
            r@ == ids_partage(vm.subrange(0, i as int)),
        decreases m.len() - i,
    {
        assert(vm.subrange(0, i + 1).drop_last() =~= vm.subrange(0, i as int));
        assert(vm[i as int] == m@[i as int]@);
        let e = rogne(&m[i]);
        if commence_lit(&e, "uid:") {
            proof {
                reveal_strlit("uid:");
            }
            let reste = crate::texte::tranche(&e, 4, e.len());
            match analyser_i64(&reste) {
                Some(n) => r.push(n),
                None => {},
            }
        }
        i += 1;
    }
    assert(vm.subrange(0, m.len() as int) =~= vm);
    r
}

// ══════════════════════════════════════════════════════════════════
// Identifiant de page
// ══════════════════════════════════════════════════════════════════

/// Longueur d'un identifiant de page.
pub const ID_LEN: usize = 20;

/// Alphabet des identifiants de page : lettres et chiffres ASCII.
pub open spec fn alphabet_id() -> Seq<char> {
    "abcdefghijklmnopqrstuvwxyzABCDEFGHIJKLMNOPQRSTUVWXYZ0123456789"@
}

/// Un pas du générateur xorshift 64 bits (13, 7, 17).
pub open spec fn xorshift(x: u64) -> u64 {
    let a = x ^ ((x << 13u64) as u64);
    let b = a ^ (a >> 7u64);
    b ^ ((b << 17u64) as u64)
}

/// État du générateur après `n` pas.
pub open spec fn etat_apres(x: u64, n: nat) -> u64
    decreases n,
{
    if n == 0 { x } else { xorshift(etat_apres(x, (n - 1) as nat)) }
}

/// Identifiant tiré de la graine : à chaque pas, le caractère d'indice
/// `état mod 62` de l'alphabet.
pub open spec fn id_de_graine(graine: u64, n: nat) -> Seq<char>
    decreases n,
{
    if n == 0 {
        Seq::empty()
    } else {
        id_de_graine(graine, (n - 1) as nat).push(alphabet_id()[(etat_apres(graine, n) % 62) as int])
    }
}

/// Identifiant de page de 20 caractères tiré d'une graine (nanosecondes de
/// l'horloge et numéro de processus mêlés au départ) par xorshift. Non
/// cryptographique : l'unicité est vérifiée en base par l'appelant.
pub fn random_id(nanos: u32, pid: u32) -> (r: String)
    ensures
        r@.len() == ID_LEN,
        r@ == id_de_graine((nanos as u64) ^ 0x9e3779b97f4a7c15u64 ^ (pid as u64), ID_LEN as nat),
{
    let alphabet = caracteres("abcdefghijklmnopqrstuvwxyzABCDEFGHIJKLMNOPQRSTUVWXYZ0123456789");
    proof {
        reveal_strlit("abcdefghijklmnopqrstuvwxyzABCDEFGHIJKLMNOPQRSTUVWXYZ0123456789");
    }
    let graine: u64 = (nanos as u64) ^ 0x9e3779b97f4a7c15u64 ^ (pid as u64);
    let mut etat = graine;
    let mut out: Vec<char> = Vec::new();
    let mut i: usize = 0;
    while i < ID_LEN
        invariant
            i <= ID_LEN,
            alphabet@ == alphabet_id(),
            alphabet@.len() == 62,
            etat == etat_apres(graine, i as nat),
            out@ == id_de_graine(graine, i as nat),
            out@.len() == i,
        decreases ID_LEN - i,
    {
        etat ^= etat << 13u64;
        etat ^= etat >> 7u64;
        etat ^= etat << 17u64;
        assert(etat == etat_apres(graine, (i + 1) as nat));
        out.push(alphabet[(etat % 62) as usize]);
        i += 1;
    }
    chaine_de(&out)
}

// ══════════════════════════════════════════════════════════════════
// Accès aux pages et menu d'un site
// ══════════════════════════════════════════════════════════════════

/// Une page d'un site telle que lue en base.
pub struct LignePage {
    pub id: Option<String>,
    pub titre: String,
    pub public: i64,
    pub owner_id: i64,
    pub partage: String,
}

/// Le visiteur voit la page : elle est publique, ou il est connecté et en
/// est le propriétaire ou un destinataire du partage.
pub open spec fn visible(public: i64, owner_id: i64, partage: Seq<char>, connecte: bool, user_id: i64) -> bool {
    public == 1 || (connecte && user_id == owner_id) || (connecte && partage_contient(partage, user_id))
}

/// Un visiteur connecté voit toute page dont la liste de partage contient
/// une entrée `uid:<son id>`, quels que soient le drapeau public et le
/// propriétaire ; il voit donc toute page après qu'on la lui a partagée.
/// Hors ce cas, seules la page publique et la page de son propriétaire
/// connecté sont visibles.
pub proof fn loi_page_partagee_visible(public: i64, owner_id: i64, partage: Seq<char>, user_id: i64, autre: i64)
    ensures
        partage_contient(partage, user_id) ==> visible(public, owner_id, partage, true, user_id),
        visible(public, owner_id, partage_ajoute(partage, user_id), true, user_id),
        public == 1 ==> visible(public, owner_id, partage, false, autre),
        visible(public, owner_id, partage, true, owner_id),
        visible(public, owner_id, partage, false, autre) ==> public == 1,
        visible(public, owner_id, partage, true, autre) ==> public == 1 || autre == owner_id || partage_contient(
            partage,
            autre,
        ),
{
    loi_partage_ajout(partage, user_id);
}

/// Le visiteur peut-il voir la page ?
pub fn peut_voir(public: i64, owner_id: i64, partage: &str, connecte: bool, user_id: i64) -> (r: bool)
    ensures
        r == visible(public, owner_id, partage@, connecte, user_id),
{
    public == 1 || (connecte && user_id == owner_id) || (connecte && partage_contains(partage, user_id))
}

/// Pages visibles du site, (id, titre), dans l'ordre.
pub open spec fn pages_visibles(l: Seq<LignePage>, connecte: bool, user_id: i64) -> Seq<(Seq<char>, Seq<char>)>
    decreases l.len(),
{
    if l.len() == 0 {
        Seq::empty()
    } else {
        let r = pages_visibles(l.drop_last(), connecte, user_id);
        let p = l.last();
        match p.id {
            Some(id) => if visible(p.public, p.owner_id, p.partage@, connecte, user_id) {
                r.push((id@, p.titre@))
            } else {
                r
            },
            None => r,
        }
    }
}

/// Liens du menu, la page courante marquée active.
pub open spec fn liens_menu(v: Seq<(Seq<char>, Seq<char>)>, courante: Seq<char>) -> Seq<char>
    decreases v.len(),
{
    if v.len() == 0 {
        Seq::empty()
    } else {
        liens_menu(v.drop_last(), courante) + "<a href=\"/page/"@ + h(v.last().0) + "\""@ + (if v.last().0 == courante {
            " class=\"active\""@
        } else {
            Seq::empty()
        }) + ">"@ + h(v.last().1) + "</a>"@
    }
}

/// Menu commun aux pages d'un site : seulement si le visiteur en voit au
/// moins deux.
pub open spec fn menu_site(l: Seq<LignePage>, courante: Seq<char>, connecte: bool, user_id: i64) -> Seq<char> {
    let v = pages_visibles(l, connecte, user_id);
    if v.len() < 2 {
        Seq::empty()
    } else {
        "<nav class=\"sitec-site-nav\">"@ + liens_menu(v, courante) + "</nav>"@
    }
}

/// Menu de navigation partagé entre les pages d'un même site.
pub fn build_site_nav_html(pages: &[LignePage], courante: &str, connecte: bool, user_id: i64) -> (r: String)
    ensures
        r@ == menu_site(pages@, courante@, connecte, user_id),
{
    let cc = caracteres(courante);
    let mut liens: Vec<char> = Vec::new();
    let mut nb: usize = 0;
    let mut i: usize = 0;
    assert(pages@.subrange(0, 0) =~= Seq::<LignePage>::empty());
    while i < pages.len()
        invariant
            i <= pages.len(),
            cc@ == courante@,
            nb == pages_visibles(pages@.subrange(0, i as int), connecte, user_id).len(),
            nb <= i,
            liens@ == liens_menu(pages_visibles(pages@.subrange(0, i as int), connecte, user_id), courante@),
        decreases pages.len() - i,
    {
        assert(pages@.subrange(0, i + 1).drop_last() =~= pages@.subrange(0, i as int));
        let p = &pages[i];
        match &p.id {
            Some(id) => {
                if peut_voir(p.public, p.owner_id, p.partage.as_str(), connecte, user_id) {
                    let ghost v = pages_visibles(pages@.subrange(0, i as int), connecte, user_id);
                    let ghost a = liens@;
                    let idc = caracteres(id.as_str());
                    ajouter(&mut liens, "<a href=\"/page/");
                    ajouter_h(&mut liens, &idc);
                    ajouter(&mut liens, "\"");
                    if crate::texte::egales(&idc, &cc) {
                        ajouter(&mut liens, " class=\"active\"");
                    }
                    ajouter(&mut liens, ">");
                    ajouter_h(&mut liens, &caracteres(p.titre.as_str()));
                    ajouter(&mut liens, "</a>");
                    proof {
                        let v2 = v.push((id@, p.titre@));
                        assert(v2.drop_last() =~= v);
                        assert(liens@ =~= liens_menu(v2, courante@));
                    }
                    nb += 1;
                }
            },
            None => {},
        }
        i += 1;
    }
    assert(pages@.subrange(0, pages@.len() as int) =~= pages@);
    if nb < 2 {
        proof {
            reveal_strlit("");
        }
        return chaine_de(&Vec::new());
    }
    let mut r: Vec<char> = Vec::new();
    ajouter(&mut r, "<nav class=\"sitec-site-nav\">");
    ajouter_vec(&mut r, &liens);
    ajouter(&mut r, "</nav>");
    chaine_de(&r)
}

/// Corps d'une page selon son mode : HTML brut, blocs rendus, ou titre et
/// texte simples échappés.
pub open spec fn corps_page(mode: Seq<char>, html: Seq<char>, blocs: Seq<char>, titre: Seq<char>, corps: Seq<char>) -> Seq<char> {
    if mode == "brut"@ {
        html
    } else if mode == "blocs"@ {
        rendu_blocs(blocs_lus(blocs))
    } else {
        "<div class=\"sitec-view-wrap\"><h1>"@ + h(titre) + "</h1><div class=\"sitec-view-corps\">"@ + sauts(h(corps))
            + "</div></div>"@
    }
}

/// Corps HTML d'une page selon son mode.
pub fn corps_de_page(mode: &str, html: &str, blocs: &str, titre: &str, corps: &str) -> (r: String)
    ensures
        r@ == corps_page(mode@, html@, blocs@, titre@, corps@),
{
    let m = caracteres(mode);
    if egale_lit(&m, "brut") {
        chaine_de(&caracteres(html))
    } else if egale_lit(&m, "blocs") {
        render_blocs_html(blocs)
    } else {
        let mut o: Vec<char> = Vec::new();
        ajouter(&mut o, "<div class=\"sitec-view-wrap\"><h1>");
        ajouter_h(&mut o, &caracteres(titre));
        ajouter(&mut o, "</h1><div class=\"sitec-view-corps\">");
        let mut e: Vec<char> = Vec::new();
        ajouter_h(&mut e, &caracteres(corps));
        assert(e@ =~= h(corps@));
        ajouter_sauts(&mut o, &e);
        ajouter(&mut o, "</div></div>");
        chaine_de(&o)
    }
}

/// Page d'erreur minimale de Sitec, message échappé.
pub fn error_page_html(msg: &str, langue: &str) -> (r: String)
    ensures
        r@ == "<!DOCTYPE html><html lang=\""@ + langue@
            + "\"><head><meta charset=\"UTF-8\"><title>Sitec</title><style>body{font-family:sans-serif;display:flex;align-items:center;justify-content:center;height:100vh;margin:0;background:#f0f2f5;color:#65676b;}</style></head><body><p>"@
            + h(msg@) + "</p></body></html>"@,
{
    let mut o: Vec<char> = Vec::new();
    ajouter(&mut o, "<!DOCTYPE html><html lang=\"");
    ajouter(&mut o, langue);
    ajouter(
        &mut o,
        "\"><head><meta charset=\"UTF-8\"><title>Sitec</title><style>body{font-family:sans-serif;display:flex;align-items:center;justify-content:center;height:100vh;margin:0;background:#f0f2f5;color:#65676b;}</style></head><body><p>",
    );
    ajouter_h(&mut o, &caracteres(msg));
    ajouter(&mut o, "</p></body></html>");
    chaine_de(&o)
}

/// Échappement d'un texte placé entre apostrophes JavaScript : `\` et `'`.
pub fn esc(s: &str) -> (r: String)
    ensures
        r@ == crate::texte::echappe(crate::texte::Echappement::Js, s@),
{
    crate::texte::echapper_js(s)
}

} // verus!
