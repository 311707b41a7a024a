use vex::utils::parse_query;
use vex::visio::{creer_salle, hash_simple};

#[test]
fn salle_demandee() {
    let s = creer_salle(&parse_query("/v?title=R%C3%A9union&is_public=1&password=abc&max_participants=100"));
    assert_eq!(s.titre, "Réunion");
    assert!(s.is_public);
    assert_eq!(s.password_hash.as_deref(), Some(hash_simple("abc").as_str()));
    assert_eq!(s.max_participants, 32);
    let d = creer_salle(&parse_query("/v?title=+++&is_public=oui&password="));
    assert_eq!(d.titre, "Appel VEX");
    assert!(!d.is_public);
    assert!(d.password_hash.is_none());
    assert_eq!(d.max_participants, 8);
    let n = creer_salle(&parse_query("/v?max_participants=-4"));
    assert_eq!(n.titre, "Appel VEX");
    assert_eq!(n.max_participants, 2);
}
