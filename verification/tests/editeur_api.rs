use vex::editeur::{
    appliquer_partage, controler_media, lire_action_partage, lire_enregistrement, peut_modifier,
    placement_nouvelle_page, reordonner_site, ActionPartage, ModePage, PageSite, RefusMedia,
};
use vex::json::Json;

fn objet(champs: Vec<(&str, Json)>) -> Json {
    Json::Objet(champs.into_iter().map(|(k, v)| (k.to_string(), v)).collect())
}

#[test]
fn droits_de_modification() {
    assert!(peut_modifier(4, 4, 10));
    assert!(peut_modifier(4, 5, 6));
    assert!(!peut_modifier(4, 5, 7));
}

#[test]
fn enregistrement_lu() {
    let d = objet(vec![
        ("mode", Json::Texte("blocs".into())),
        ("contenu_html", Json::Texte("<b>x</b>".into())),
        ("public", Json::Booleen(true)),
        ("contenu_blocs", Json::Liste(vec![])),
    ]);
    let p = lire_enregistrement(&d, "Sans titre");
    assert_eq!(p.titre, "Sans titre");
    assert_eq!(p.mode, ModePage::Blocs);
    assert_eq!(p.mode.nom(), "blocs");
    assert_eq!(p.contenu_html, "<b>x</b>");
    assert_eq!(p.contenu_titre, "");
    assert!(p.contenu_blocs.is_empty());
    assert_eq!(p.public, 1);
    let d = objet(vec![("titre", Json::Texte("Accueil".into())), ("mode", Json::Texte("autre".into())), ("public", Json::Nombre(1))]);
    let p = lire_enregistrement(&d, "Sans titre");
    assert_eq!(p.titre, "Accueil");
    assert_eq!(p.mode, ModePage::Simple);
    assert_eq!(p.public, 0);
}

#[test]
fn placement_des_pages_creees() {
    assert_eq!(placement_nouvelle_page("abc", "  site1 ", Some(4)), ("site1".to_string(), 5));
    assert_eq!(placement_nouvelle_page("abc", "site1", None), ("abc".to_string(), 0));
    assert_eq!(placement_nouvelle_page("abc", "   ", Some(4)), ("abc".to_string(), 0));
}

#[test]
fn partage_par_action() {
    let ajout = objet(vec![]);
    let retrait = objet(vec![("action", Json::Texte("remove".into()))]);
    assert_eq!(lire_action_partage(&ajout), ActionPartage::Ajouter);
    assert_eq!(lire_action_partage(&retrait), ActionPartage::Retirer);
    assert_eq!(appliquer_partage(ActionPartage::Ajouter, "uid:1", 2), "uid:1,uid:2");
    assert_eq!(appliquer_partage(ActionPartage::Retirer, "uid:1,uid:2", 1), "uid:2");
}

#[test]
fn medias_controles() {
    let (b, e) = controler_media("IMAGE/PNG", "aGVsbG8=").unwrap();
    assert_eq!(b, b"hello");
    assert_eq!(e, "png");
    assert_eq!(controler_media("image/jpg", "aGVsbG8=").unwrap().1, "jpg");
    assert_eq!(controler_media("text/html", "aGVsbG8=").unwrap_err(), RefusMedia::TypeInvalide);
    assert_eq!(controler_media("image/gif", "pas*du*base64").unwrap_err(), RefusMedia::Illisible);
    assert_eq!(controler_media("image/gif", "").unwrap_err(), RefusMedia::TropGros);
}

#[test]
fn reordonnancement() {
    let p = |o: i64, s: &str| Some(PageSite { owner_id: o, site_id: s.into() });
    let premiere = PageSite { owner_id: 1, site_id: "s".into() };
    assert_eq!(reordonner_site(&premiere, &[p(1, "s"), None, p(1, "s")]), (vec![0, 2], false));
    assert_eq!(reordonner_site(&premiere, &[p(1, "s"), p(2, "s"), p(1, "s")]), (vec![0], true));
    assert_eq!(reordonner_site(&premiere, &[p(1, "t")]), (vec![], true));
}
