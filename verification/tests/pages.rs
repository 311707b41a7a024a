use vex::compte::{
    autoriser_lien, champs_mdp_acceptes, lien_de_paiement, lire_pseudo, lire_theme, remplir_page_compte,
    router_compte, url_paiement, DemandePseudo, RefusLien, RefusPaiement, RouteCompte,
};
use vex::autologin::ConfigAutologin;
use vex::texte::remplace;

#[test]
fn remplacement_de_toutes_les_occurrences() {
    assert_eq!(remplace("a{{X}}b{{X}}", "{{X}}", "1"), "a1b1");
    assert_eq!(remplace("aaa", "aa", "b"), "ba");
    assert_eq!(remplace("", "x", "y"), "");
}

#[test]
fn routes_du_compte() {
    assert_eq!(router_compte("GET", "/login/account?x=1"), RouteCompte::Page);
    assert_eq!(router_compte("GET", "/api/account/data"), RouteCompte::Donnees);
    assert_eq!(router_compte("POST", "/api/account/autologin/create"), RouteCompte::AutologinCreer);
    assert_eq!(router_compte("GET", "/api/account/theme"), RouteCompte::Inconnue);
}

#[test]
fn pseudo_demande() {
    assert!(matches!(lire_pseudo("   "), DemandePseudo::Effacer));
    assert!(matches!(lire_pseudo("a@b"), DemandePseudo::Invalide));
    assert!(matches!(lire_pseudo("jean paul"), DemandePseudo::Invalide));
    assert!(matches!(lire_pseudo(&"é".repeat(33)), DemandePseudo::Invalide));
    match lire_pseudo("  Zorro ") {
        DemandePseudo::Retenir(p) => assert_eq!(p, "Zorro"),
        _ => panic!(),
    }
}

#[test]
fn theme_demande() {
    assert_eq!(lire_theme(Some("1")), 1);
    assert_eq!(lire_theme(Some("x")), 0);
    assert_eq!(lire_theme(None), 0);
}

#[test]
fn champs_du_mot_de_passe() {
    let a = "ab12";
    let m1 = "0".repeat(64);
    let t = "f".repeat(48);
    let s = "A".repeat(32);
    assert!(champs_mdp_acceptes(a, &m1, &t, &s, "abc", "x"));
    assert!(!champs_mdp_acceptes("", &m1, &t, &s, "abc", "x"));
    assert!(!champs_mdp_acceptes(a, &m1, &t, &s, "abz", "x"));
    assert!(!champs_mdp_acceptes(a, &m1[1..], &t, &s, "abc", "x"));
    assert!(!champs_mdp_acceptes(a, &m1, &t, &s, "abc", ""));
}

fn cfg(secret: &str) -> ConfigAutologin {
    ConfigAutologin {
        enabled: true,
        token_length: 32,
        max_tokens_per_user: 2,
        plans_autorises: vec!["vip".to_string()],
        privilege_min: 5,
        domaine: String::new(),
        server_secret: secret.to_string(),
    }
}

#[test]
fn creation_de_lien() {
    assert_eq!(autoriser_lien(&cfg("s3cret"), 1, 3, 0), Ok(()));
    assert_eq!(autoriser_lien(&cfg("s3cret"), 0, 3, 0), Err(RefusLien::NonDisponible));
    assert_eq!(autoriser_lien(&cfg("s3cret"), 1, 6, 0), Err(RefusLien::NonDisponible));
    assert_eq!(autoriser_lien(&cfg("s3cret"), 1, 3, 2), Err(RefusLien::MaxLiens));
    assert_eq!(autoriser_lien(&cfg(" vex_changeme_secret "), 1, 3, 0), Err(RefusLien::SecretInvalide));
}

#[test]
fn lien_de_paiement_signe() {
    assert_eq!(
        url_paiement("https://pay.ex/p?a=1", 7, 100, "ab", "plan 1", "mois"),
        "https://pay.ex/p?a=1&uid=7&exp=100&sig=ab&plan=plan%201&periode=mois"
    );
    assert_eq!(lien_de_paiement("", None, "x", "y", 1, 0), Err(RefusPaiement::PlanManquant));
    assert_eq!(lien_de_paiement("p", None, " ", "y", 1, 0), Err(RefusPaiement::NonConfigure));
    let u = lien_de_paiement("p", None, "https://pay.ex/", "cle", 3, 1000).unwrap();
    assert!(u.starts_with("https://pay.ex/?uid=3&exp=1600&sig="));
    assert!(u.ends_with("&plan=p&periode=mois"));
    // signature HMAC-SHA256 hexadécimale (64 chiffres), pas le secret recopié
    let sig = u.split("&sig=").nth(1).unwrap().split('&').next().unwrap();
    assert_eq!(sig.len(), 64);
    assert_ne!(sig, "cle");
}

#[test]
fn page_du_compte() {
    let t = vec![("{{T_A}}".to_string(), "Alpha".to_string())];
    let r = remplir_page_compte(
        "<nav>__NAV_HTML__</nav>{{THEME}} {{T_A}} {{I18N_JS}} {{I18N_JS}}",
        "N",
        "dark",
        &t,
        "{}",
    );
    assert_eq!(r, "<nav>N</nav>dark Alpha {} {{I18N_JS}}");
}

#[test]
fn donnees_du_compte() {
    let ligne = vex::compte::LigneCompte {
        nom: Some("Léa".into()),
        email: Some("l@x".into()),
        pseudo: None,
        privilege: Some(3),
        vip: Some(1),
    };
    let d = vex::compte::build_account_data(4, &ligne, &cfg("s"), &[Some(7), Some(1)]);
    assert_eq!((d.id, d.nom.as_str(), d.email.as_str(), d.pseudo.as_str()), (4, "Léa", "l@x", ""));
    assert!(d.autologin_allowed);
    assert!(d.has_token);
    assert_eq!(d.utilisations, 7);
    assert_eq!(d.max_tokens, 2);
    let libre = vex::compte::LigneCompte { nom: None, email: None, pseudo: None, privilege: None, vip: None };
    let d = vex::compte::build_account_data(5, &libre, &cfg("s"), &[]);
    assert_eq!((d.privilege, d.vip), (10, 0));
    assert!(!d.autologin_allowed);
    assert!(!d.has_token);
    assert_eq!(d.utilisations, 0);
}
