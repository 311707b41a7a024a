use vex::autologin::{
    api_generer, debut_generation, garde_secret, verifier_mot_de_passe, ActionGeneration, AutologinConfig, ConfigAutologin,
    EtapeGeneration, EvenementGeneration, InfoSession,
};
use vex::connexion::{handle_srp_step2, reponse_etape2, CompteSrp, RefusEtape2, SessionSrp};
use vex::compte::lien_de_paiement;
use vex::json::{chaine_json, lire_json, tronquer_decimal, Json};
use vex::p2p::{
    apres_envoi, controler_morceau, debut_envoi, demande_init, demande_morceau, morceau, preparer_morceau,
    ActionEnvoi, NodeState, P2pConfig,
};
use vex::sitec::{partage_add, partage_user_ids, render_blocs_html};
use vex::sitec_nettoyage::{blocs_en_json, sanitiser_blocs, BlocNet, Valeur};
use vex::srp::{hex_decode, hex_encode};
use vex::texte::encoder_url;
use vex::utils::masquer_secrets_chemin;

const M1: &str = "00112233445566778899aabbccddeeff00112233445566778899aabbccddeeff";
const JETON: &str = "0123456789abcdef0123456789abcdef0123456789abcdef";
// 2024-01-01 00:00:00 (UTC)
const CREE: i64 = 1704067200;

fn session(b_hex: &str) -> Option<SessionSrp> {
    Some(SessionSrp { b_hex: b_hex.to_string(), created_at: "2024-01-01 00:00:00".to_string() })
}

fn compte(verifier: &str, salt: &str) -> Option<CompteSrp> {
    Some(CompteSrp {
        email: "a@b.c".to_string(),
        verifier: verifier.to_string(),
        salt: salt.to_string(),
        file_key_wrapped_pwd: None,
    })
}

#[test]
fn etape2_refus_de_forme() {
    let (suppr, r) = handle_srp_step2("", M1, JETON, "a@b.c", &session("03"), &compte("05", ""), CREE);
    assert!(!suppr);
    let e = r.err().unwrap();
    assert!(matches!(e, RefusEtape2::ValeurA));
    assert_eq!(e.statut(), 400);
    assert_eq!(
        e.corps("x", "y"),
        "{\"error\":\"Valeur d'authentification invalide.\",\"success\":false}"
    );
    let (suppr, r) = handle_srp_step2("ab", "12", JETON, "a@b.c", &None, &None, CREE);
    assert!(!suppr);
    assert!(matches!(r, Err(RefusEtape2::PreuveM1)));
    let (_, r) = handle_srp_step2("ab", M1, "zz", "a@b.c", &None, &None, CREE);
    let e = r.err().unwrap();
    assert!(matches!(e, RefusEtape2::Jeton));
    assert_eq!(e.message("x", "y"), "Session d'authentification invalide.");
}

#[test]
fn etape2_session_et_compte() {
    // Pas de session : rien à supprimer, session expirée (200, message traduit).
    let (suppr, r) = handle_srp_step2("02", M1, JETON, "a@b.c", &None, &compte("05", ""), CREE);
    assert!(!suppr);
    let e = r.err().unwrap();
    assert!(matches!(e, RefusEtape2::SessionExpiree));
    assert_eq!(e.statut(), 200);
    assert_eq!(e.corps("Session expiree", "y"), "{\"error\":\"Session expiree\",\"success\":false}");
    // Session trop ancienne : supprimée, expirée.
    let (suppr, r) = handle_srp_step2("02", M1, JETON, "a@b.c", &session("03"), &compte("05", ""), CREE + 301);
    assert!(suppr);
    assert!(matches!(r, Err(RefusEtape2::SessionExpiree)));
    // Session au plus de 300 s, compte inconnu : même réponse qu'un mauvais mot de passe.
    let (suppr, r) = handle_srp_step2("02", M1, JETON, "a@b.c", &session("03"), &None, CREE + 300);
    assert!(suppr);
    let e = r.err().unwrap();
    assert!(matches!(e, RefusEtape2::Identifiants));
    assert_eq!(e.statut(), 200);
    assert_eq!(e.message("x", "Identifiants incorrects"), "Identifiants incorrects");
    // Date illisible : expirée.
    let illisible = Some(SessionSrp { b_hex: "03".to_string(), created_at: "hier".to_string() });
    let (suppr, r) = handle_srp_step2("02", M1, JETON, "a@b.c", &illisible, &compte("05", ""), CREE);
    assert!(suppr);
    assert!(matches!(r, Err(RefusEtape2::SessionExpiree)));
}

#[test]
fn etape2_preuve() {
    // Vérificateur illisible : 400.
    let (suppr, r) = handle_srp_step2("02", M1, JETON, "a@b.c", &session("03"), &compte("zz", ""), CREE);
    assert!(suppr);
    let e = r.err().unwrap();
    assert!(matches!(e, RefusEtape2::Format));
    assert_eq!(e.statut(), 400);
    // Sel illisible : 500.
    let (_, r) = handle_srp_step2("02", M1, JETON, "a@b.c", &session("03"), &compte("05", "zz"), CREE);
    let e = r.err().unwrap();
    assert!(matches!(e, RefusEtape2::Sel));
    assert_eq!(e.statut(), 500);
    assert_eq!(e.corps("x", "y"), "{\"error\":\"Erreur interne (salt).\",\"success\":false}");
    // A nul : valeur refusée.
    let (_, r) = handle_srp_step2("00", M1, JETON, "a@b.c", &session("03"), &compte("05", ""), CREE);
    assert!(matches!(r, Err(RefusEtape2::ValeurA)));
    // A nul ou illisible : même réponse, que le compte existe ou non.
    let (_, r) = handle_srp_step2("00", M1, JETON, "a@b.c", &session("03"), &None, CREE);
    assert!(matches!(r, Err(RefusEtape2::ValeurA)));
    let (_, r) = handle_srp_step2("abc", M1, JETON, "a@b.c", &session("03"), &compte("05", ""), CREE);
    assert!(matches!(r, Err(RefusEtape2::Format)));
    let (_, r) = handle_srp_step2("abc", M1, JETON, "a@b.c", &session("03"), &None, CREE);
    assert!(matches!(r, Err(RefusEtape2::Format)));
    // Preuve qui ne correspond pas : identifiants.
    let (_, r) = handle_srp_step2("02", M1, JETON, "a@b.c", &session("03"), &compte("05", "00"), CREE);
    assert!(matches!(r, Err(RefusEtape2::Identifiants)));
}

#[test]
fn etape2_reponse_reussie() {
    let c = compte("05", "").unwrap();
    let (corps, cookie) = reponse_etape2(&[0xab, 0x01], &c, "tok", "Mon, 01 Jan 2024 00:00:00 GMT");
    assert_eq!(
        corps,
        "{\"M2\":\"ab01\",\"email\":\"a@b.c\",\"file_key_wrapped_pwd\":null,\"needs_recovery_setup\":true,\"redirect\":\"/login/dashboard\",\"success\":true}"
    );
    assert_eq!(cookie, "connexion_cookie=tok; Path=/; HttpOnly; SameSite=Strict; Expires=Mon, 01 Jan 2024 00:00:00 GMT");
    let mut avec = c;
    avec.file_key_wrapped_pwd = Some("k\"1".to_string());
    let (corps, _) = reponse_etape2(&[], &avec, "tok", "x");
    assert_eq!(
        corps,
        "{\"M2\":\"\",\"email\":\"a@b.c\",\"file_key_wrapped_pwd\":\"k\\\"1\",\"needs_recovery_setup\":false,\"redirect\":\"/login/dashboard\",\"success\":true}"
    );
}

#[test]
fn autologin_secret_par_defaut() {
    let attendu = "{\"erreur\":\"Autologin désactivé : changez server_secret dans config.json.\",\"ok\":false}";
    assert_eq!(garde_secret(""), Some((503, attendu.to_string())));
    assert_eq!(garde_secret("vex_changeme_secret"), Some((503, attendu.to_string())));
    assert_eq!(garde_secret("un vrai secret"), None);
}

fn config_autologin(enabled: bool) -> AutologinConfig {
    AutologinConfig::depuis_config(&ConfigAutologin {
        enabled,
        token_length: 32,
        max_tokens_per_user: 1,
        plans_autorises: vec![],
        privilege_min: 1,
        domaine: String::new(),
        server_secret: "s3cret".to_string(),
    })
}

fn session_autologin() -> EvenementGeneration {
    EvenementGeneration::Session(Some(InfoSession {
        id: Some(7),
        privilege: Some(0),
        vip: Some(0),
        email: Some("a@b.c".to_string()),
    }))
}

fn reponse(a: ActionGeneration) -> (u16, String) {
    match a {
        ActionGeneration::Repondre { statut, corps } => (statut, corps),
        _ => panic!("réponse attendue"),
    }
}

fn objet(paires: &[(&str, serde_json::Value)]) -> String {
    let mut m = serde_json::Map::new();
    for (k, v) in paires {
        m.insert(k.to_string(), v.clone());
    }
    serde_json::Value::Object(m).to_string()
}

// MD5 hexadécimal de "secret".
const MD5_SECRET: &str = "5ebe2294ecd0e0f08eab7690d2a6ee69";

#[test]
fn generation_d_un_lien_pas_a_pas() {
    let cfg = config_autologin(true);
    let params = vex::utils::parse_query("/x?password=secret");
    let (e, a) = debut_generation(&cfg);
    assert!(matches!(e, EtapeGeneration::Session));
    assert!(matches!(a, ActionGeneration::LireSession));
    let (e, a) = api_generer(&cfg, &params, e, session_autologin());
    assert!(matches!(&a, ActionGeneration::LireHachage { email } if email == "a@b.c"));
    let (e, a) = api_generer(&cfg, &params, e, EvenementGeneration::Hachage(Some(MD5_SECRET.to_string())));
    assert!(matches!(a, ActionGeneration::CompterJetons { id: 7 }));
    let (e, a) = api_generer(&cfg, &params, e, EvenementGeneration::Nombre(0));
    assert!(matches!(a, ActionGeneration::TirerOctets { nombre: 32 }));
    // Octets tous rejetés (≥ 248) : nouveau tirage.
    let (e, a) = api_generer(&cfg, &params, e, EvenementGeneration::Octets(Some(vec![255; 32])));
    assert!(matches!(a, ActionGeneration::TirerOctets { nombre: 32 }));
    let octets: Vec<u8> = (0u8..32).collect();
    let (e, a) = api_generer(&cfg, &params, e, EvenementGeneration::Octets(Some(octets)));
    let jeton = "0123456789abcdefghijklmnopqrstuv";
    match &a {
        ActionGeneration::Ecrire { compteid, nombre_hash } => {
            assert_eq!(*compteid, 7);
            assert_eq!(nombre_hash, &vex::autologin::hasher_token(jeton, "s3cret"));
            assert_ne!(nombre_hash, jeton);
        },
        _ => panic!("écriture attendue"),
    }
    let (e, a) = api_generer(&cfg, &params, e, EvenementGeneration::Ecriture(true));
    assert!(matches!(e, EtapeGeneration::Terminee));
    let (statut, corps) = reponse(a);
    assert_eq!(statut, 200);
    assert_eq!(
        corps,
        objet(&[
            ("ok", true.into()),
            (
                "message",
                "Lien généré. Copiez-le maintenant — il ne sera jamais réaffiché.".into()
            ),
            ("url", format!("/autologin/connecter?uid=7&token={}", jeton).into()),
            ("token_length", 32.into()),
            (
                "avertissement",
                "Ce lien connecte directement votre compte sans mot de passe. Gardez-le confidentiel et ne le partagez jamais."
                    .into()
            ),
        ])
    );
}

#[test]
fn generation_refusee() {
    let cfg = config_autologin(true);
    let params = vex::utils::parse_query("/x?password=secret");
    let (statut, corps) = reponse(debut_generation(&config_autologin(false)).1);
    assert_eq!(statut, 403);
    assert_eq!(corps, objet(&[("ok", false.into()), ("erreur", "Autologin désactivé sur ce serveur.".into())]));
    let (_, a) = api_generer(&cfg, &params, EtapeGeneration::Session, EvenementGeneration::Session(None));
    assert_eq!(reponse(a), (401, objet(&[("ok", false.into()), ("erreur", "Non authentifié.".into())])));
    let (_, a) = api_generer(&cfg, &vex::utils::parse_query("/x"), EtapeGeneration::Session, session_autologin());
    assert_eq!(reponse(a), (400, objet(&[("ok", false.into()), ("erreur", "Mot de passe requis.".into())])));
    let e = EtapeGeneration::Hachage { id: 7, mdp: MD5_SECRET.to_string() };
    let (_, a) = api_generer(&cfg, &params, e, EvenementGeneration::Hachage(Some(MD5_SECRET.to_string())));
    assert_eq!(reponse(a), (403, objet(&[("ok", false.into()), ("erreur", "Mot de passe incorrect.".into())])));
    let e = EtapeGeneration::Hachage { id: 7, mdp: "secret".to_string() };
    let (_, a) = api_generer(&cfg, &params, e, EvenementGeneration::Hachage(None));
    assert_eq!(reponse(a), (404, objet(&[("ok", false.into()), ("erreur", "Utilisateur introuvable.".into())])));
    let (_, a) = api_generer(&cfg, &params, EtapeGeneration::Nombre { id: 7 }, EvenementGeneration::Nombre(1));
    assert_eq!(
        reponse(a),
        (
            409,
            objet(&[
                ("ok", false.into()),
                (
                    "erreur",
                    "Vous avez déjà 1 lien(s) autologin (maximum : 1). Révoquez-le avant d'en créer un nouveau.".into()
                ),
                ("deja_existant", true.into()),
            ])
        )
    );
    let e = EtapeGeneration::Octets { id: 7, octets: vec![] };
    let (_, a) = api_generer(&cfg, &params, e, EvenementGeneration::Octets(None));
    assert_eq!(reponse(a), (500, objet(&[("ok", false.into()), ("erreur", "Erreur interne de génération.".into())])));
    let e = EtapeGeneration::Ecriture { id: 7, token: "t".to_string() };
    let (_, a) = api_generer(&cfg, &params, e, EvenementGeneration::Ecriture(false));
    assert_eq!(reponse(a), (500, objet(&[("ok", false.into()), ("erreur", "Erreur base de données.".into())])));
    let (_, a) = api_generer(&cfg, &params, EtapeGeneration::Session, EvenementGeneration::Nombre(0));
    assert_eq!(reponse(a).0, 500);
}

#[test]
fn mot_de_passe_contre_le_hachage() {
    let h = bcrypt::hash("secret", 4).unwrap();
    assert!(verifier_mot_de_passe("secret", &h));
    assert!(!verifier_mot_de_passe(&h, &h));
    assert!(!verifier_mot_de_passe("autre", &h));
    assert!(verifier_mot_de_passe("secret", MD5_SECRET));
    assert!(!verifier_mot_de_passe(MD5_SECRET, MD5_SECRET));
    assert!(!verifier_mot_de_passe("x", "x"));
}

fn noeud() -> NodeState {
    NodeState::init("https://a.example", P2pConfig::from_vex_config(&Json::Nul), None).unwrap().0
}

#[test]
fn envoi_des_morceaux() {
    let (e, a) = debut_envoi(0, 10);
    assert_eq!(e.total, 0);
    assert!(matches!(a, ActionEnvoi::Termine));
    let (e, a) = debut_envoi(25, 10);
    assert_eq!(e.total, 3);
    assert!(matches!(a, ActionEnvoi::Envoyer { idx: 0 }));
    let (e, a) = apres_envoi(&e, true);
    assert!(matches!(a, ActionEnvoi::Envoyer { idx: 1 }));
    let (e, a) = apres_envoi(&e, false);
    assert!(matches!(a, ActionEnvoi::Reessayer { idx: 1, secondes: 2 }));
    let (e2, a) = apres_envoi(&e, true);
    assert!(matches!(a, ActionEnvoi::Envoyer { idx: 2 }));
    let (e3, a) = apres_envoi(&e2, true);
    assert_eq!(e3.idx, 3);
    assert!(matches!(a, ActionEnvoi::Termine));
    let (e, a) = apres_envoi(&e, false);
    assert!(matches!(a, ActionEnvoi::Reessayer { idx: 1, secondes: 2 }));
    let (_, a) = apres_envoi(&e, false);
    assert!(matches!(a, ActionEnvoi::Abandon { idx: 1 }));
    let d = b"0123456789abcdefghijklmno";
    assert_eq!(morceau(d, 10, 2), b"klmno".to_vec());
}

#[test]
fn corps_des_demandes_d_envoi() {
    let n = noeud();
    let init = demande_init(&n, "t 1", 7, "a b.txt", 25, 10, 3);
    let sig = n.signer(b"t 1");
    assert_eq!(
        init,
        format!(
            "transfer_id=t%201&from_node={}&to_user=7&file_name=a%20b.txt&file_size=25&chunk_size=10&chunks_total=3&sig={}",
            encoder_url(&n.node_id),
            encoder_url(&sig)
        )
    );
    let m = preparer_morceau(&n, "t1", 3, b"hello");
    assert_eq!(m.data_b64, "aGVsbG8=");
    assert_eq!(m.hash, "2cf24dba5fb0a30e26e83b2ac5b9e29e1b161e5c1fa7425e73043362938b9824");
    let cle = n.pub_key_b64();
    assert_eq!(controler_morceau("t1", 3, &m.data_b64, &m.hash, &m.sig, Some(&cle)).unwrap(), b"hello".to_vec());
    let corps = demande_morceau(&n, "t1", 3, b"hello");
    assert_eq!(
        corps,
        format!(
            "transfer_id=t1&chunk_idx=3&data=aGVsbG8%3D&hash=2cf24dba5fb0a30e26e83b2ac5b9e29e1b161e5c1fa7425e73043362938b9824&sig={}",
            encoder_url(&m.sig)
        )
    );
}

#[test]
fn signature_du_noeud_acceptee() {
    let n = noeud();
    for msg in [&b""[..], &b"bonjour"[..], &[0u8, 255, 7][..]] {
        let sig = n.signer(msg);
        assert!(NodeState::verifier_signature(&n.pub_key_b64(), msg, &sig));
    }
}

#[test]
fn hex_aller_retour() {
    for b in [&b""[..], &[0u8, 1, 15, 16, 255][..], &b"vex"[..]] {
        let h = hex_encode(b);
        assert_eq!(h.len(), 2 * b.len());
        assert_eq!(hex_decode(&h), Some(b.to_vec()));
    }
    assert_eq!(hex_encode(&[0xab, 0x01]), "ab01");
}

#[test]
fn partage_ajout_donne_l_identifiant() {
    let p = partage_add("uid:3, uid:x,", 9);
    assert_eq!(p, "uid:3, uid:x,uid:9");
    assert_eq!(partage_user_ids(&p), vec![3, 9]);
    assert_eq!(partage_user_ids(&partage_add("", -4)), vec![-4]);
}

#[test]
fn masque_des_jetons() {
    for p in ["/autologin/", "/login/autologin/", "/autoriser-appareil/", "/partage/", "/api/partage/"] {
        let a = masquer_secrets_chemin(&format!("{}abc", p));
        let b = masquer_secrets_chemin(&format!("{}Z", p));
        assert_eq!(a, format!("{}***", p));
        assert_eq!(a, b);
    }
    assert_eq!(masquer_secrets_chemin("/partage/"), "/partage/");
}

#[test]
fn nombres_decimaux_tronques() {
    assert_eq!(tronquer_decimal("1.5"), Some(1));
    assert_eq!(tronquer_decimal("-2.7"), Some(-2));
    assert_eq!(tronquer_decimal("1e3"), Some(1000));
    assert_eq!(tronquer_decimal("1.5e1"), Some(15));
    assert_eq!(tronquer_decimal("12.34e-1"), Some(1));
    assert_eq!(tronquer_decimal("0.001"), Some(0));
    assert_eq!(tronquer_decimal("1e300"), Some(i64::MAX));
    assert_eq!(tronquer_decimal("-1e300"), Some(i64::MIN));
    assert_eq!(tronquer_decimal("9.3e18"), Some(i64::MAX));
    assert_eq!(tronquer_decimal("abc"), None);
    assert_eq!(tronquer_decimal("1."), None);
    assert_eq!(tronquer_decimal("1e12345"), None);
    for f in [1.5f64, -2.75, 1234.5678, 0.25, -0.5, 3.0e10, 2.5e-3] {
        let t = serde_json::Number::from_f64(f).unwrap().to_string();
        assert_eq!(tronquer_decimal(&t), Some(f as i64), "{}", t);
    }
}

#[test]
fn lecture_d_un_texte_json() {
    let v = lire_json("[1, 2.5, \"a\", null, true, {\"k\": []}, 18446744073709551615]").unwrap();
    match v {
        Json::Liste(l) => {
            assert_eq!(l.len(), 7);
            assert!(matches!(l[0], Json::Nombre(1)));
            assert!(matches!(&l[1], Json::Decimal(t) if t == "2.5"));
            assert!(matches!(&l[2], Json::Texte(t) if t == "a"));
            assert!(matches!(l[3], Json::Nul));
            assert!(matches!(l[4], Json::Booleen(true)));
            assert!(matches!(&l[5], Json::Objet(o) if o.len() == 1 && o[0].0 == "k" && matches!(&o[0].1, Json::Liste(x) if x.is_empty())));
            assert!(matches!(l[6], Json::Grand(u64::MAX)));
        },
        _ => panic!("liste attendue"),
    }
    assert!(lire_json("[1,").is_none());
}

#[test]
fn blocs_lus_dans_le_texte() {
    assert_eq!(
        render_blocs_html("[{\"type\":\"titre\",\"texte\":\"Salut\"}]"),
        "<div class=\"sitec-anim\" data-anim=\"\"><h2 class=\"sitec-bloc sitec-bloc-titre\">Salut</h2></div>"
    );
    assert_eq!(render_blocs_html("{\"type\":\"titre\"}"), "");
    assert_eq!(render_blocs_html("pas du json"), "");
}

#[test]
fn blocs_nettoyes_en_json() {
    let b = BlocNet {
        champs: vec![
            ("type".to_string(), Valeur::Texte("galerie".to_string())),
            ("colonnes".to_string(), Valeur::Entier(-3)),
            (
                "items".to_string(),
                Valeur::Objets(vec![vec![("url".to_string(), "u\"1".to_string())], vec![]]),
            ),
            ("reseaux".to_string(), Valeur::Textes(vec!["x".to_string(), "y".to_string()])),
        ],
    };
    let t = blocs_en_json(&[b, BlocNet { champs: vec![] }]);
    assert_eq!(
        t,
        "[{\"colonnes\":-3,\"items\":[{\"url\":\"u\\\"1\"},{}],\"reseaux\":[\"x\",\"y\"],\"type\":\"galerie\"},{}]"
    );
    let v: serde_json::Value = serde_json::from_str(&t).unwrap();
    assert_eq!(v[0]["items"][0]["url"], "u\"1");
    assert_eq!(serde_json::to_string(&v).unwrap(), t);
    let envoi = lire_json(
        "[{\"type\":\"carte\",\"titre\":\"T\",\"bouton_url\":\"/x\",\"animation\":\"fade\"},{\"type\":\"inconnu\"}]",
    )
    .unwrap();
    let nets = sanitiser_blocs(&envoi);
    let texte = blocs_en_json(&nets);
    let relu: serde_json::Value = serde_json::from_str(&texte).unwrap();
    assert_eq!(serde_json::to_string(&relu).unwrap(), texte);
    assert_eq!(relu[0]["type"], "carte");
    assert_eq!(relu[0]["animation"], "fade");
    assert_eq!(relu[0]["bouton_url"], "/x");
    assert_eq!(relu.as_array().unwrap().len(), 1);
    assert_eq!(blocs_en_json(&[]), "[]");
}

#[test]
fn hmac_du_lien_de_paiement() {
    let u = lien_de_paiement("p", None, "https://pay.ex/", "cle", 3, 1000).unwrap();
    assert_eq!(
        u,
        "https://pay.ex/?uid=3&exp=1600&sig=95056fdaca36cfa6bba820a0d7e92fc26fa9dfe374c0295d4a543d643077816f&plan=p&periode=mois"
    );
    let longue = "k".repeat(100);
    let u = lien_de_paiement("p", None, "https://pay.ex/", &longue, 3, 1000).unwrap();
    assert_eq!(
        u,
        "https://pay.ex/?uid=3&exp=1600&sig=78db63d86d3bfb32eb8b46dd0153579f765d917818bff8455746ba84d4a8e887&plan=p&periode=mois"
    );
}

#[test]
fn chaines_json_comme_serde() {
    for s in ["", "abc", "a\"b\\c", "\u{8}\t\n\u{c}\r", "\u{0}\u{1f}\u{7f}", "é€😀", "</script>"] {
        assert_eq!(chaine_json(s), serde_json::to_string(s).unwrap());
    }
    assert_eq!(chaine_json("\u{1}"), "\"\\u0001\"");
}

#[test]
fn identifiant_de_transfert_uuid_v4() {
    let i = vex::p2p::lire_init_transfert(&vex::utils::Parametres::new()).unwrap();
    let t: Vec<char> = i.transfer_id.chars().collect();
    assert_eq!(t.len(), 36);
    for (k, c) in t.iter().enumerate() {
        if [8, 13, 18, 23].contains(&k) {
            assert_eq!(*c, '-');
        } else {
            assert!(c.is_ascii_hexdigit() && !c.is_ascii_uppercase());
        }
    }
    assert_eq!(t[14], '4');
    assert!("89ab".contains(t[19]));
}

#[test]
fn morceaux_recousus() {
    let d: Vec<u8> = (0u8..25).collect();
    let (e, _) = debut_envoi(d.len(), 10);
    let mut tout = Vec::new();
    for i in 0..e.total {
        tout.extend(morceau(&d, 10, i));
    }
    assert_eq!(tout, d);
}
