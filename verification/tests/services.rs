use vex::appareil::{
    bundle_cloudsync, code_expire, controler_approbation, controler_revocation, decision_oui, disposition,
    etat_page_autorisation, retour_connexion, router_appareil, script_installation, EtatPage, LigneAppareil,
    RefusApprobation, RefusRevocation, RouteAppareil,
};
use vex::editeur::{remplir_page_editeur, router_sitec, ApiSitec, RouteSitec};
use vex::messagerie::{decoder_car, esc, router_mess, RouteMess};
use vex::notice::contenu;
use vex::recherche::{
    apps_rechercher, compte_de_confiance, extrait, nom_lisible, requete_fulltext, router_recherche, RouteRecherche,
};
use vex::sso_pages::{corps_attente, page, page_rechargement};
use vex::visio::{
    controler_entree, controler_signal, generer_code_salle, hash_simple, lire_action_visio, lire_max_participants,
    render_page, router_visio, titre_de_salle, ActionVisio, RefusEntree, RefusSignal, RouteVisio, SalleLue,
};

fn ligne(statut: &str, cree: Option<&str>, user: Option<i64>) -> LigneAppareil {
    LigneAppareil {
        statut: Some(statut.to_string()),
        jeton_brut: None,
        user_id: user,
        nom_appareil: None,
        created_at: cree.map(|c| c.to_string()),
    }
}

#[test]
fn flux_d_autorisation() {
    assert_eq!(router_appareil("POST", "/api/appareil/demander"), RouteAppareil::Demander);
    assert_eq!(router_appareil("HEAD", "/api/appareil/telecharger?zip=1"), RouteAppareil::Telecharger);
    assert_eq!(router_appareil("GET", "/install.ps1"), RouteAppareil::Installation);
    assert_eq!(router_appareil("DELETE", "/api/appareil/liste"), RouteAppareil::Inconnue);
    let t0 = 1_704_103_200; // 2024-01-01 10:00:00 UTC
    let l = ligne("en_attente", Some("2024-01-01T10:00:00"), None);
    assert!(!code_expire(&l, t0 + 600));
    assert!(code_expire(&l, t0 + 601));
    assert!(code_expire(&ligne("en_attente", Some("hier"), None), t0));
    assert!(code_expire(&ligne("en_attente", None, None), t0));
    assert_eq!(etat_page_autorisation(None, t0), EtatPage::CodeInvalide);
    assert_eq!(etat_page_autorisation(Some(&l), t0), EtatPage::AAutoriser);
    assert_eq!(etat_page_autorisation(Some(&ligne("refuse", Some("2024-01-01 10:00:00"), None)), t0), EtatPage::DejaTraite);
    assert_eq!(controler_approbation(Some(&l), t0 + 700), Err(RefusApprobation::Expire));
    assert_eq!(RefusApprobation::Expire.statut_http(), 410);
    assert_eq!(controler_revocation(Some(&ligne("approuve", None, Some(3))), 4), Err(RefusRevocation::NonAutorise));
    assert_eq!(controler_revocation(Some(&ligne("approuve", None, Some(3))), 3), Ok(()));
    assert!(decision_oui("oui"));
    assert!(!decision_oui("Oui"));
    assert_eq!(retour_connexion("AB 1"), "/login/login?retour=%2Fautoriser-appareil%3Fcode%3DAB%201");
    assert_eq!(disposition("a.zip"), "attachment; filename=\"a.zip\"");
    let s = script_installation("vex.exemple.fr");
    assert!(s.contains("$base = 'https://vex.exemple.fr'"));
    assert!(!s.contains("__BASE_URL__"));
}

#[test]
fn archive_de_l_application() {
    let z = bundle_cloudsync(b"MZ-exe", None, "de").unwrap();
    assert_eq!(&z[0..2], b"PK");
    assert!(z.windows(10).any(|w| w == b"readme.txt"));
    assert!(z.windows(10).any(|w| w == b"langue.txt"));
    let z2 = bundle_cloudsync(b"MZ-exe", Some(b"un"), "xx").unwrap();
    assert!(z2.windows(13).any(|w| w == b"lisez-moi.txt"));
    assert!(z2.windows(16).any(|w| w == b"desinstaller.exe"));
    assert_eq!(contenu("ja").0, "readme.txt");
    assert!(contenu("fr").1.starts_with("VEX Cloud Sync — Comment l'utiliser"));
    assert!(contenu("en").1.starts_with("VEX Cloud Sync — How to use"));
}

#[test]
fn aiguillage_de_l_editeur() {
    match router_sitec("/page/abc//?x=1") {
        RouteSitec::Page(id) => assert_eq!(id, "abc"),
        _ => panic!(),
    }
    assert!(matches!(router_sitec("/sitec/"), RouteSitec::Editeur));
    assert!(matches!(router_sitec("/api/sitec/save"), RouteSitec::Api(ApiSitec::Enregistrer)));
    assert!(matches!(router_sitec("/api/sitec/nope"), RouteSitec::Api(ApiSitec::Inconnue)));
    let t = vec![("{{T_A}}".to_string(), "a".to_string())];
    assert_eq!(
        remplir_page_editeur("<html lang=\"fr\">{{T_A}}{{I18N_JS}}{{I18N_JS}}", "de", &t, "J"),
        "<html lang=\"de\">aJ{{I18N_JS}}"
    );
}

#[test]
fn messagerie() {
    assert!(matches!(router_mess("/mess", false), RouteMess::Page));
    assert!(matches!(router_mess("/api/mess/pubkey", true), RouteMess::MaCle));
    assert!(matches!(router_mess("/api/mess/pubkey/", false), RouteMess::PoserCle));
    match router_mess("/api/mess/pubkey/jo%40ex.com", true) {
        RouteMess::CleDe(e) => assert_eq!(e, "jo@ex.com"),
        _ => panic!(),
    }
    let d: String = decoder_car(&"a+b%2x%4".chars().collect::<Vec<_>>()).into_iter().collect();
    assert_eq!(d, "a b%2x@");
    assert_eq!(esc("l'a\\b"), "l\\'a\\\\b");
}

#[test]
fn recherche() {
    assert_eq!(router_recherche("/recherche", false), RouteRecherche::Page);
    assert_eq!(router_recherche("/api/recherche/wiki/save", false), RouteRecherche::Inconnue);
    assert_eq!(router_recherche("/api/recherche/wiki/save", true), RouteRecherche::WikiEnregistrer);
    assert_eq!(router_recherche("/api/recherche/faq/x", true), RouteRecherche::FaqRetiree);
    assert!(compte_de_confiance(6));
    assert!(!compte_de_confiance(7));
    assert_eq!(requete_fulltext("  wik  +pedia* (x) "), Some("wik* pedia* x*".to_string()));
    assert_eq!(requete_fulltext(" +-* "), None);
    assert_eq!(extrait("  court  ", 10), "court");
    assert_eq!(extrait("un deux trois", 7), "un deux…");
    assert_eq!(extrait("un deux trois", 3), "un…");
    assert_eq!(nom_lisible("mon_extension-cool"), "Mon extension cool");
    assert_eq!(nom_lisible("mon_extension"), "Mon extension");
    assert_eq!(nom_lisible("qseal"), "Qseal");
    assert_eq!(nom_lisible("__"), "__");
    assert_eq!(nom_lisible("ßa"), "SSa");
    let a = apps_rechercher(" VID ");
    assert_eq!(a.len(), 1);
    assert_eq!(a[0].url, "/viso/");
    assert!(apps_rechercher("   ").is_empty());
}

#[test]
fn visioconference() {
    assert_eq!(lire_action_visio("heartbeat"), ActionVisio::Heartbeat);
    assert_eq!(router_visio("/api/viso/x", false), RouteVisio::MethodeRefusee);
    assert_eq!(router_visio("/api/viso", true), RouteVisio::Api);
    assert_eq!(router_visio("/viso/", true), RouteVisio::Page);
    assert_eq!(titre_de_salle("  "), "Appel VEX");
    assert_eq!(titre_de_salle(&"é".repeat(300)).chars().count(), 255);
    assert_eq!(lire_max_participants(Some("100")), 32);
    assert_eq!(lire_max_participants(Some("x")), 8);
    assert_eq!(lire_max_participants(Some("-3")), 2);
    let code = generer_code_salle(123, 456);
    assert_eq!(code.len(), 11);
    assert_eq!(&code[3..4], "-");
    assert_eq!(code, generer_code_salle(123, 456));
    let h = hash_simple("mdp");
    assert_eq!(h.len(), 44);
    let salle = SalleLue { require_password: Some(1), password_hash: Some(h.clone()), max_participants: Some(2) };
    let sid = "0123456789abcdef";
    assert_eq!(controler_entree(sid, "k", Some("mdp"), &salle, 1), Ok(()));
    assert_eq!(controler_entree(sid, "k", Some("x"), &salle, 1), Err(RefusEntree::MotDePasseIncorrect));
    assert_eq!(controler_entree(sid, "k", None, &salle, 1), Err(RefusEntree::MotDePasseIncorrect));
    assert_eq!(controler_entree(sid, "k", Some("mdp"), &salle, 2), Err(RefusEntree::SallePleine));
    assert_eq!(controler_entree("court", "k", None, &salle, 0), Err(RefusEntree::SessionIdInvalide));
    assert_eq!(controler_entree(sid, "", None, &salle, 0), Err(RefusEntree::CleInvalide));
    assert_eq!(controler_signal("offer", "abc", "n"), Ok(()));
    assert_eq!(controler_signal("hack", "abc", "n"), Err(RefusSignal::TypeNonAutorise));
    assert_eq!(controler_signal("ice", &"a".repeat(20_001), "n"), Err(RefusSignal::ChiffreInvalide));
    assert_eq!(controler_signal("bye", "a", &"n".repeat(33)), Err(RefusSignal::NonceInvalide));
    assert_eq!(render_page("{{NAV_HTML}}/*{{NAV_HTML}}*/{{THEME}}{{THEME}}", "N", "dark"), "N/*{{NAV_HTML}}*/darkdark");
}

#[test]
fn pages_de_connexion_des_services() {
    let p = page("A&B", "<p>x</p>", "dark");
    assert!(p.contains("data-theme=\"dark\""));
    assert!(p.contains("<title>A&amp;B — VEX</title>"));
    assert!(p.contains("<p>x</p>"));
    assert!(corps_attente("<Jeu>").contains("<b>&lt;Jeu&gt;</b> veut vérifier"));
    let r = page_rechargement("/p2p/sso?a=1&r=1");
    assert!(r.contains("url=/p2p/sso?a=1&amp;r=1"));
    assert!(r.contains("location.replace(\"/p2p/sso?a=1&r=1\")"));
}
