use vex::inscription::{
    code_valide, controler_envoi_code, controler_inscription, fake_recovery_info, filtrer_ip, lire_action,
    nettoyer_identite, preuve_acceptee, referer_accepte, remplir_page_connexion, ActionConnexion,
    RefusInscription, RefusIp,
};
use vex::premier::{controler_premier_compte, deconnexion, jerr, page_premier_compte, RefusPremierCompte, ReponseDeconnexion};

#[test]
fn actions_du_formulaire() {
    assert_eq!(lire_action("srp_step1"), ActionConnexion::SrpEtape1);
    assert_eq!(lire_action("signup"), ActionConnexion::Inscription);
    assert_eq!(lire_action("SIGNUP"), ActionConnexion::Inconnue);
}

#[test]
fn referer_de_la_configuration() {
    assert!(referer_accepte("", "vex.fr"));
    assert!(referer_accepte("https://vex.fr/login", "vex.fr"));
    assert!(!referer_accepte("https://evil.com/", "vex.fr"));
}

#[test]
fn listes_d_adresses() {
    let noire = vec!["1.2.3.4".to_string()];
    let blanche = vec!["5.6.7.8".to_string()];
    assert_eq!(filtrer_ip(true, &noire, false, &blanche, "1.2.3.4"), Err(RefusIp::Bloquee));
    assert_eq!(filtrer_ip(true, &noire, true, &blanche, "9.9.9.9"), Err(RefusIp::NonAutorisee));
    assert_eq!(filtrer_ip(true, &noire, true, &vec![], "9.9.9.9"), Ok(()));
    assert_eq!(filtrer_ip(false, &noire, true, &blanche, "5.6.7.8"), Ok(()));
}

#[test]
fn inscription_refusee_ou_acceptee() {
    let sel = "0123456789abcdef0123456789ABCDEF";
    assert_eq!(controler_inscription("closed", false, "", "", true, 0, 10, sel, "ab"), Err(RefusInscription::Fermees));
    assert_eq!(
        controler_inscription("invitation", true, "K", "k", true, 0, 10, sel, "ab"),
        Err(RefusInscription::CleActivationInvalide)
    );
    assert_eq!(
        controler_inscription("open", false, "", "", false, 0, 10, sel, "ab"),
        Err(RefusInscription::PolitiqueNonAcceptee)
    );
    assert_eq!(controler_inscription("open", false, "", "", true, 10, 10, sel, "ab"), Err(RefusInscription::MaxUtilisateurs));
    assert_eq!(controler_inscription("open", false, "", "", true, 0, 10, "abc", "ab"), Err(RefusInscription::SelInvalide));
    assert_eq!(
        controler_inscription("open", false, "", "", true, 0, 10, sel, &"a".repeat(513)),
        Err(RefusInscription::VerificateurInvalide)
    );
    assert_eq!(controler_inscription("invitation", true, "K", "K", true, 0, 10, sel, "ab"), Ok(()));
    assert_eq!(nettoyer_identite("  <Jo's> "), "&lt;Jo&#39;s&gt;");
}

#[test]
fn code_de_recuperation() {
    assert!(code_valide("ABCD-1234-efgh-5678-IJKL"));
    assert!(!code_valide("ABCD-1234-efgh-5678-IJK"));
    assert!(!code_valide("ABCD-1234-efgh-5678_IJKL"));
    assert!(!code_valide("ABCD-1234-éfgh-5678-IJK"));
    let p = "a".repeat(64);
    assert!(controler_envoi_code("x@y.z", "ABCD-1234-efgh-5678-IJKL", &p));
    assert!(!controler_envoi_code("", "ABCD-1234-efgh-5678-IJKL", &p));
    assert!(preuve_acceptee("abc", "abc"));
    assert!(!preuve_acceptee("", ""));
    assert!(!preuve_acceptee("abc", "abd"));
}

#[test]
fn recuperation_factice_stable() {
    let (s1, b1) = fake_recovery_info("Jean@Ex.com");
    let (s2, b2) = fake_recovery_info("jean@ex.com");
    assert_eq!(s1, s2);
    assert_eq!(b1, b2);
    assert_eq!(s1.len(), 64);
    assert_eq!(b1.len(), 80);
    assert_ne!(fake_recovery_info("autre@ex.com").0, s1);
}

#[test]
fn page_de_connexion() {
    let t = vec![("{{T_X}}".to_string(), "X!".to_string())];
    assert_eq!(remplir_page_connexion("{{THEME}}{{T_X}}{{I18N_JS}}{{I18N_JS}}", &t, "j"), "lightX!jj");
}

#[test]
fn premier_compte() {
    let sel = "0123456789abcdef0123456789ABCDEF";
    assert_eq!(controler_premier_compte(false, "a", "a@b.c", "", sel, "ab", 0).err(), Some(RefusPremierCompte::RequeteInvalide));
    assert_eq!(controler_premier_compte(true, " ", "a@b.c", "", sel, "ab", 0).err(), Some(RefusPremierCompte::ChampsObligatoires));
    assert_eq!(controler_premier_compte(true, "a", "ab.c", "", sel, "ab", 0).err(), Some(RefusPremierCompte::EmailInvalide));
    assert_eq!(controler_premier_compte(true, "a", "a@b.c", "x y", sel, "ab", 0).err(), Some(RefusPremierCompte::PseudoInvalide));
    assert_eq!(controler_premier_compte(true, "a", "a@b.c", "", sel, "ab", 1).err(), Some(RefusPremierCompte::CompteExisteDeja));
    let c = controler_premier_compte(true, " <Ann> ", "a@b.c", " zz ", sel, "ab", 0).ok().unwrap();
    assert_eq!(c.nom, "&lt;Ann&gt;");
    assert_eq!(c.pseudo, Some("zz".to_string()));
    assert_eq!(jerr("a\"b"), "{\"success\":false,\"error\":\"a\\\"b\"}");
    assert_eq!(page_premier_compte("min=__PASS_MIN_LEN__", 12), "min=12");
}

#[test]
fn deconnexion_sans_fuite() {
    assert_eq!(deconnexion("", true, true), (false, ReponseDeconnexion::JsonSansCookie));
    assert_eq!(deconnexion("", false, true), (false, ReponseDeconnexion::RedirectionSansCookie));
    assert_eq!(deconnexion("abc", false, false), (false, ReponseDeconnexion::PageDeconnexion));
    assert_eq!(deconnexion("abc", true, true), (true, ReponseDeconnexion::JsonDeconnecte));
}
