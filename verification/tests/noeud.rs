use vex::json::Json;
use vex::p2p::{
    admin_handle_api, controler_enregistrement, controler_morceau, lire_init_transfert, pairs_en_ligne, route_p2p,
    transfert_complet, verifier_init_transfert, ActionAdminP2p, NodeState, P2pConfig, RefusP2p, RouteP2p,
};
use vex::texte::encoder_url;
use vex::utils::{parse_query, Parametres};

fn config() -> P2pConfig {
    P2pConfig::from_vex_config(&Json::Nul)
}

#[test]
fn cle_generee_puis_relue() {
    let (a, texte) = NodeState::init("https://vex.example", config(), None).unwrap();
    let texte = texte.expect("une cle neuve est a ecrire");
    assert_eq!(a.node_id.len(), 32);
    assert!(a.node_id.chars().all(|c| c.is_ascii_hexdigit()));
    let lu = format!("  {}\n", texte);
    let (b, rien) = NodeState::init("https://vex.example", config(), Some(&lu)).unwrap();
    assert!(rien.is_none());
    assert_eq!(a.signing_key, b.signing_key);
    assert_eq!(a.verifying_key, b.verifying_key);
    assert_eq!(a.node_id, b.node_id);
    assert_eq!(a.pub_key_b64(), b.pub_key_b64());
    let (c, _) = NodeState::init("https://autre.example", config(), Some(&lu)).unwrap();
    assert_ne!(a.node_id, c.node_id);
}

#[test]
fn cle_illisible_remplacee() {
    let (a, texte) = NodeState::init("u", config(), Some("pas du base64 !")).unwrap();
    assert!(texte.is_some());
    let (_, texte2) = NodeState::init("u", config(), Some("AAAA")).unwrap();
    assert!(texte2.is_some());
    let msg = b"bonjour";
    let sig = a.signer(msg);
    assert!(NodeState::verifier_signature(&a.pub_key_b64(), msg, &sig));
    assert!(!NodeState::verifier_signature(&a.pub_key_b64(), b"bonsoir", &sig));
}

#[test]
fn api_admin_p2p() {
    let vide = Parametres::new();
    assert_eq!(admin_handle_api("/p2p", &vide), ActionAdminP2p::Tableau);
    assert_eq!(admin_handle_api("/p2p/peers", &vide), ActionAdminP2p::Pairs);
    assert_eq!(admin_handle_api("/p2p/users", &vide), ActionAdminP2p::Utilisateurs);
    assert_eq!(admin_handle_api("/p2p/annuaire", &vide), ActionAdminP2p::Annuaire);
    assert_eq!(admin_handle_api("/p2p/sync_now", &vide), ActionAdminP2p::SyncMaintenant);
    assert_eq!(admin_handle_api("/p2p/kick", &parse_query("/x?peer_id=%2B12")), ActionAdminP2p::Exclure { peer_id: 12 });
    assert_eq!(admin_handle_api("/p2p/kick", &parse_query("/x?peer_id=abc")), ActionAdminP2p::Exclure { peer_id: 0 });
    assert_eq!(admin_handle_api("/p2p/transfers", &parse_query("/x?user_id=7")), ActionAdminP2p::Transferts { user_id: Some(7) });
    assert_eq!(admin_handle_api("/p2p/transfers", &parse_query("/x?user_id=-7")), ActionAdminP2p::Transferts { user_id: None });
    assert_eq!(admin_handle_api("/p2p/autre", &vide), ActionAdminP2p::Inconnue);
    let s = vec![Some("online".to_string()), None, Some("offline".to_string()), Some("online".to_string())];
    assert_eq!(pairs_en_ligne(&s), 2);
}

#[test]
fn routes_p2p() {
    assert_eq!(route_p2p("/p2p/ping?x=1"), RouteP2p::Ping);
    assert_eq!(route_p2p("/neut/annuaire"), RouteP2p::Annuaire);
    assert_eq!(route_p2p("/neut/nouveautes"), RouteP2p::Nouveautes);
    assert_eq!(route_p2p("/p2p/register"), RouteP2p::Enregistrer);
    assert_eq!(route_p2p("/neut/sync"), RouteP2p::Sync);
    assert_eq!(route_p2p("/p2p/transfer/init"), RouteP2p::InitTransfert);
    assert_eq!(route_p2p("/p2p/transfer/chunk"), RouteP2p::Morceau);
    assert_eq!(route_p2p("/p2p/transfer/status?transfer_id=a"), RouteP2p::EtatTransfert);
    assert_eq!(route_p2p("/p2p/autre"), RouteP2p::Inconnue);
}

fn formulaire(paires: &[(&str, &str)]) -> Parametres {
    let mut p = Parametres::new();
    for (k, v) in paires {
        p.inserer(k.to_string(), v.to_string());
    }
    p
}

#[test]
fn enregistrement_d_un_pair() {
    let (n, _) = NodeState::init("https://a.example", config(), None).unwrap();
    let sig = n.signer(n.node_id.as_bytes());
    let cle = n.pub_key_b64();
    let ok = controler_enregistrement(&formulaire(&[
        ("node_id", &n.node_id),
        ("pub_key", &cle),
        ("sig", &sig),
        ("vex_url", "https://a.example"),
        ("port", "+8080"),
    ]))
    .unwrap_or_else(|e| panic!("{}", e.message()));
    assert_eq!(ok.port, 8080);
    assert!(ok.tor_addr.is_none());
    assert_eq!(ok.vex_url, "https://a.example");
    let defaut = controler_enregistrement(&formulaire(&[("node_id", &n.node_id), ("pub_key", &cle), ("sig", &sig), ("port", "70000"), ("tor_addr", "x.onion")])).ok().unwrap();
    assert_eq!(defaut.port, 7700);
    assert_eq!(defaut.tor_addr.as_deref(), Some("x.onion"));
    assert_eq!(controler_enregistrement(&formulaire(&[("node_id", "z"), ("pub_key", &cle), ("sig", &sig)])).err(), Some(RefusP2p::SignatureInvalide));
    assert_eq!(controler_enregistrement(&formulaire(&[("pub_key", &cle)])).err().unwrap().message(), "Champs manquants");
}

#[test]
fn morceaux_controles() {
    let (n, _) = NodeState::init("https://a.example", config(), None).unwrap();
    let cle = n.pub_key_b64();
    let sig = n.signer(b"t1:3");
    let donnees = "aGVsbG8=";
    let hash = "2cf24dba5fb0a30e26e83b2ac5b9e29e1b161e5c1fa7425e73043362938b9824";
    assert_eq!(controler_morceau("t1", 3, donnees, hash, &sig, Some(&cle)).unwrap(), b"hello".to_vec());
    assert_eq!(controler_morceau("t1", 4, donnees, hash, &sig, Some(&cle)).err(), Some(RefusP2p::SignatureMorceauInvalide));
    assert_eq!(controler_morceau("t1", 4, donnees, hash, "", None).unwrap(), b"hello".to_vec());
    assert_eq!(controler_morceau("t1", 3, "%%", hash, &sig, Some(&cle)).err(), Some(RefusP2p::DonneesInvalides));
    assert_eq!(controler_morceau("t1", 3, donnees, "00", &sig, Some(&cle)).err(), Some(RefusP2p::HashInvalide));
    assert_eq!(controler_morceau("", 3, donnees, hash, &sig, Some(&cle)).err(), Some(RefusP2p::TransfertManquant));
    assert!(transfert_complet(3, 3));
    assert!(!transfert_complet(2, 3));
}

#[test]
fn ouverture_de_transfert() {
    let (n, _) = NodeState::init("https://a.example", config(), None).unwrap();
    let cle = n.pub_key_b64();
    let sig = n.signer(b"tid-9");
    let corps = format!("transfer_id=tid-9&from_node=n1&to_user=4&file_name=a.txt&file_size=x&chunks_total=3000000000&sig={}", encoder_url(&sig));
    let p = vex::utils::lire_formulaire(vex::utils::Decodage::Utf8, &corps.chars().collect::<Vec<char>>());
    let i = lire_init_transfert(&p).unwrap();
    assert_eq!(i.transfer_id, "tid-9");
    assert_eq!(i.to_user, 4);
    assert_eq!(i.file_size, 0);
    assert_eq!(i.chunk_size, 1_048_576);
    assert_eq!(i.chunks_total, 1);
    assert_eq!(verifier_init_transfert(&i, Some(&cle)), Ok(()));
    assert_eq!(verifier_init_transfert(&i, None), Err(RefusP2p::NoeudInconnu));
    let sans = lire_init_transfert(&formulaire(&[])).unwrap();
    assert_eq!(sans.transfer_id.len(), 36);
}

#[test]
fn nombre_de_morceaux() {
    assert_eq!(vex::p2p::nombre_chunks(0, 0), 1);
    assert_eq!(vex::p2p::nombre_chunks(0, 5), 1);
    assert_eq!(vex::p2p::nombre_chunks(11, 5), 3);
    assert_eq!(vex::p2p::nombre_chunks(usize::MAX - 9, 10), (usize::MAX - 9) / 10 + 1);
}
