use vex::utils::{
    compresser_reponse, masquer_secrets_chemin, proxy_de_confiance, strip_port, AdresseIp, LigneAcces, Reponse,
};

#[test]
fn strip_port_ipv4_ipv6() {
    assert_eq!(strip_port("127.0.0.1:8080"), "127.0.0.1");
    assert_eq!(strip_port("[::1]:8080"), "::1");
    assert_eq!(strip_port("::1"), "::1");
}

#[test]
fn proxy_confiance() {
    assert!(proxy_de_confiance(&AdresseIp::V4([127, 0, 0, 1])));
    assert!(proxy_de_confiance(&AdresseIp::V4([192, 168, 1, 10])));
    assert!(proxy_de_confiance(&AdresseIp::V6([0xfd00, 0, 0, 0, 0, 0, 0, 1])));
    assert!(!proxy_de_confiance(&AdresseIp::V4([109, 222, 185, 182])));
    assert!(!proxy_de_confiance(&AdresseIp::V6([0x2a01, 0x0e0a, 0, 0, 0, 0, 0, 1])));
}

#[test]
fn masque_autologin() {
    assert_eq!(masquer_secrets_chemin("/autologin/abcdef"), "/autologin/***");
    assert_eq!(masquer_secrets_chemin("/autologin/"), "/autologin/");
    assert_eq!(masquer_secrets_chemin("/admin"), "/admin");
}

#[test]
fn ligne_acces_sans_injection() {
    let l = LigneAcces {
        ip: "1.2.3.4".into(),
        via: Some("127.0.0.1".into()),
        methode: "GET".into(),
        chemin: "/x\n[FAUX] log".into(),
        statut: Some(404),
        duree_ms: 3,
        user_agent: "UA\"x".into(),
        referer: String::new(),
    };
    let s = l.formater();
    assert!(!s.contains('\n'));
    assert!(s.contains("ip=1.2.3.4 (via 127.0.0.1)"));
    assert!(s.contains("statut=404"));
    assert!(s.contains("ua=\"UA'x\""));
}

fn a_entete(r: &Reponse, nom: &str) -> bool {
    r.entetes.iter().any(|(k, _)| k.eq_ignore_ascii_case(nom))
}

#[test]
fn compresse_html_et_decompresse() {
    let html = "<p>bonjour</p>".repeat(500);
    let resp = Reponse {
        statut: 200,
        entetes: vec![("Content-Type".to_string(), "text/html; charset=utf-8".to_string())],
        corps: html.clone().into_bytes(),
    };
    let r = compresser_reponse(resp, true);
    assert!(a_entete(&r, "Content-Encoding"));
    let gz = r.corps;
    assert!(gz.len() < html.len() / 5);
    let mut out = String::new();
    std::io::Read::read_to_string(&mut flate2::read::GzDecoder::new(&gz[..]), &mut out).unwrap();
    assert_eq!(out, html);
}

#[test]
fn ne_compresse_pas_binaire_ni_petit() {
    let bin = Reponse {
        statut: 200,
        entetes: vec![("Content-Type".to_string(), "image/png".to_string())],
        corps: vec![0u8; 5000],
    };
    assert!(!a_entete(&compresser_reponse(bin, true), "Content-Encoding"));
    let petit = Reponse {
        statut: 200,
        entetes: vec![("Content-Type".to_string(), "text/plain".to_string())],
        corps: b"ok".to_vec(),
    };
    assert!(!a_entete(&compresser_reponse(petit, true), "Content-Encoding"));
}
