use vex::routage::{audit_privilege_1, demande_elevation_fondateur, ligne_audit, verifier_signature_extension, RefusElevation};

#[test]
fn audit_des_fondateurs() {
    assert_eq!(audit_privilege_1(&[Some(1), Some(7), None, Some(1), Some(9)], 1), vec![7, 0, 9]);
    assert!(audit_privilege_1(&[Some(3)], 3).is_empty());
    assert_eq!(
        ligne_audit(7, "bob", "b@x"),
        "PRIVILEGE ILLÉGITIME détecté — id=7 nom='bob' email='b@x' avait privilege=1 → forcé à 10"
    );
}

#[test]
fn jetons_aleatoires() {
    assert_eq!(vex::connexion::generate_session_token(0).as_deref(), Some(""));
    let t = vex::connexion::generate_session_token(32).unwrap();
    assert_eq!(t.len(), 64);
    assert!(t.chars().all(|c| c.is_ascii_hexdigit()));
    assert_eq!(vex::autologin::jeton_alphanumerique(0).as_deref(), Some(""));
    let j = vex::autologin::jeton_alphanumerique(40).unwrap();
    assert_eq!(j.len(), 40);
    assert!(j.chars().all(|c| c.is_ascii_alphanumeric()));
    assert_eq!(vex::routage::RefusElevation::PayloadMalForme.message(), "Payload mal formé.");
}

#[test]
fn empreinte_fnv1a() {
    assert_eq!(vex::routage::fnv64(b""), 0xcbf29ce484222325);
    assert_eq!(vex::routage::fnv64(b"a"), 0xaf63dc4c8601ec8c);
}

#[test]
fn elevation_signee_ed25519() {
    let (n, _) = vex::p2p::NodeState::init("https://f.example", vex::p2p::P2pConfig::from_vex_config(&vex::json::Json::Nul), None).unwrap();
    let cle = n.pub_key_b64();
    let charge = "fondateur:5:1700000000";
    let sig = n.signer(charge.as_bytes());
    assert!(verifier_signature_extension(charge, &sig, &cle));
    assert_eq!(demande_elevation_fondateur(Some(&cle), charge, &sig), Ok(5));
    let autre = n.signer(b"fondateur:6:1700000000");
    assert_eq!(demande_elevation_fondateur(Some(&cle), charge, &autre), Err(RefusElevation::SignatureInvalide));
    assert_eq!(demande_elevation_fondateur(None, charge, &sig), Err(RefusElevation::ClePubliqueAbsente));
}

#[test]
fn jeton_et_exposant_depuis_octets() {
    assert_eq!(vex::autologin::jeton_depuis_octets(&[0, 61, 62, 248, 255, 10], 4).as_deref(), Some("0Z0a"));
    assert_eq!(vex::autologin::jeton_depuis_octets(&[0, 250], 2), None);
    assert_eq!(vex::autologin::jeton_depuis_octets(&[], 0).as_deref(), Some(""));
    assert!(vex::srp::b_depuis_octets(&[0; 32]).is_none());
    assert!(!vex::srp::b_depuis_octets(&[0, 0, 1]).unwrap().is_zero());
}

#[test]
fn remplacement_a_motif_vide() {
    for (s, p, r) in [("abc", "", "X"), ("", "", "X"), ("aXa", "a", "bb"), ("", "a", "b")] {
        assert_eq!(vex::texte::remplace(s, p, r), s.replace(p, r));
    }
}
