use vex::appareil::{apres_releve, approuver, revoquer, statut_appareil, LigneAppareil, ReponseStatut};
use vex::autologin::{lire_lien, url_autologin};
use vex::p2p::{fusionner_annuaire, generer_annuaire, MajAnnuaire, PairAnnuaire, SorteAnnuaire, UtilisateurAnnuaire};
use vex::sitec::{partage_add, partage_contains, partage_remove};
use vex::texte::{analyser_i64, encoder_url, entier_en_chaine};
use vex::utils::url_decode;
use vex::utils::LigneAcces;

fn car(s: &str) -> Vec<char> {
    s.chars().collect()
}

#[test]
fn relire_un_entier_ecrit() {
    for n in [0i64, 7, -1, 42, -9_000, i64::MAX, i64::MIN] {
        let s = entier_en_chaine(n);
        assert_eq!(analyser_i64(&car(&s)), Some(n));
    }
}

#[test]
fn ligne_du_journal_sans_saut_de_ligne() {
    let l = LigneAcces {
        ip: "10.0.0.1".into(),
        via: None,
        methode: "POST".into(),
        chemin: "/a\r\nb\u{85}c".into(),
        statut: None,
        duree_ms: 12,
        user_agent: "agent\u{7}\nX".into(),
        referer: "ref\tY".into(),
    };
    let s = l.formater();
    assert!(!s.chars().any(|c| c.is_control()));
    assert!(s.contains("statut=-"));
    assert!(s.contains("12ms"));
}

#[test]
fn lien_autologin_relu() {
    let jeton = "abcdefghijklmnopqrstuvwxyzABCDEF0123";
    let url = url_autologin(42, jeton);
    assert_eq!(url, format!("/autologin/connecter?uid=42&token={}", jeton));
    assert_eq!(lire_lien(true, &url), Ok((42, jeton.to_string())));
}

#[test]
fn partage_ajout_puis_contient() {
    for p in ["", "uid:1", "uid:1,,", " uid:5 ", "uid:2, uid:3", "   "] {
        let q = partage_add(p, 5);
        assert!(partage_contains(&q, 5), "{:?} -> {:?}", p, q);
        assert!(!partage_contains(&partage_remove(&q, 5), 5));
    }
    assert_eq!(partage_add("uid:1,,", 5), "uid:1,uid:5");
    assert_eq!(partage_add("", -3), "uid:-3");
}

#[test]
fn partage_retrait_garde_les_autres() {
    for p in ["", "uid:1", " uid:5 ,uid:2,,uid:5", "uid:2, uid:3 ,x", ",,"] {
        let q = partage_remove(p, 5);
        assert!(!partage_contains(&q, 5), "{:?} -> {:?}", p, q);
        for autre in [1i64, 2, 3, -5, 55] {
            assert_eq!(partage_contains(&q, autre), partage_contains(p, autre), "{:?} {}", p, autre);
        }
    }
    assert_eq!(partage_remove(" uid:5 ,uid:2,,uid:5", 5), "uid:2");
}

fn ligne(statut: &str, jeton: Option<&str>) -> LigneAppareil {
    LigneAppareil {
        statut: Some(statut.to_string()),
        jeton_brut: jeton.map(|j| j.to_string()),
        user_id: Some(9),
        nom_appareil: Some("PC".to_string()),
        created_at: Some("2024-01-01 10:00:00".to_string()),
    }
}

#[test]
fn jeton_d_appareil_livre_une_seule_fois() {
    let base = ligne("en_attente", None);
    let a = approuver(base, 9, "JETON123".to_string());
    match statut_appareil(Some(&a), 1_704_103_300) {
        ReponseStatut::Approuve(j) => assert_eq!(j, "JETON123"),
        _ => panic!("jeton non livré"),
    }
    let b = apres_releve(a);
    assert!(matches!(statut_appareil(Some(&b), 1_704_103_300), ReponseStatut::DejaRecupere));
    assert!(matches!(statut_appareil(Some(&b), i64::MAX), ReponseStatut::DejaRecupere));
}

#[test]
fn appareil_revoque_sans_jeton() {
    let r = revoquer(ligne("approuve", Some("J")));
    assert!(matches!(statut_appareil(Some(&r), 0), ReponseStatut::EnAttente));
    assert!(r.jeton_brut.is_none());
}

fn pair(id: &str, tor: Option<&str>, status: &str) -> PairAnnuaire {
    PairAnnuaire {
        node_id: Some(id.into()),
        vex_url: Some(format!("https://{}.example", id)),
        tor_addr: tor.map(|t| t.into()),
        pub_key: Some(format!("cle-{}", id)),
        status: Some(status.into()),
        last_seen: Some("2025-01-02 03:04:05".into()),
        version: Some("1.2".into()),
    }
}

#[test]
fn annuaire_relu_par_un_pair() {
    let pairs = vec![pair("a1", Some("abc.onion"), "online"), pair("b2", None, "offline"), pair("c3", None, "online")];
    let users = vec![UtilisateurAnnuaire {
        user_id: Some(7),
        node_id: Some("a1".into()),
        nom: Some("alice".into()),
        pub_key: Some("K7".into()),
        updated_at: Some("2025-01-02".into()),
    }];
    let cle = [3u8; 32];
    for sorte in [SorteAnnuaire::Complet, SorteAnnuaire::Nouveautes] {
        let texte = generer_annuaire(sorte, "2025-01-02 03:04:05", &pairs, &users, "a1", &cle);
        let majs = fusionner_annuaire(&texte);
        assert_eq!(majs.len(), 3);
        match &majs[0] {
            MajAnnuaire::Pair { node_id, vex_url, tor, pub_key, version } => {
                assert_eq!(node_id, "a1");
                assert_eq!(vex_url, "https://a1.example");
                assert_eq!(tor.as_deref(), Some("abc.onion"));
                assert_eq!(pub_key, "cle-a1");
                assert_eq!(version, "1.2");
            }
            _ => panic!("pair attendu"),
        }
        match &majs[1] {
            MajAnnuaire::Pair { node_id, tor, .. } => {
                assert_eq!(node_id, "c3");
                assert!(tor.is_none());
            }
            _ => panic!("pair attendu"),
        }
        match &majs[2] {
            MajAnnuaire::Utilisateur { user_id, node_id, nom, pub_key } => {
                assert_eq!(*user_id, 7);
                assert_eq!(node_id, "a1");
                assert_eq!(nom, "alice");
                assert_eq!(pub_key, "K7");
            }
            _ => panic!("utilisateur attendu"),
        }
    }
}

#[test]
fn url_encodee_puis_decodee() {
    for t in ["", "a b+c", "100% sûr & =?", "/autoriser-appareil?code=AB-12", "日本語 ✓", "~._-"] {
        let e = encoder_url(t);
        assert!(e.chars().all(|c| c.is_ascii_alphanumeric() || "%-._~".contains(c)), "{:?}", e);
        assert_eq!(url_decode(&e), t);
    }
    assert_eq!(encoder_url("a b+c"), "a%20b%2Bc");
}
