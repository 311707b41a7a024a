use base64::Engine;
use vex::sso::{cookie_accords, emettre};

fn decoder(s: &str) -> String {
    String::from_utf8(base64::engine::general_purpose::URL_SAFE_NO_PAD.decode(s).unwrap()).unwrap()
}

#[test]
fn charge_du_jeton_comme_serde() {
    let cle = [7u8; 32];
    let url = emettre(&cle, "n\"1", -3, "Zoé\n", true, "https://s.example/cb", "e&t", 1000);
    let jeton = url.split("&jeton=").nth(1).unwrap().split("&sig=").next().unwrap();
    let mut m = serde_json::Map::new();
    m.insert("v".into(), serde_json::Value::from(1));
    m.insert("node_id".into(), serde_json::Value::from("n\"1"));
    m.insert("user_id".into(), serde_json::Value::from(-3i64));
    m.insert("nom".into(), serde_json::Value::from("Zoé\n"));
    m.insert("sombre".into(), serde_json::Value::from(true));
    m.insert("retour".into(), serde_json::Value::from("https://s.example/cb"));
    m.insert("etat".into(), serde_json::Value::from("e&t"));
    m.insert("iat".into(), serde_json::Value::from(1000i64));
    m.insert("exp".into(), serde_json::Value::from(1300i64));
    assert_eq!(decoder(jeton), serde_json::Value::Object(m).to_string());
}

#[test]
fn charge_du_cookie_comme_serde() {
    let cle = [7u8; 32];
    for d in [vec![], vec!["a.example".to_string()], vec!["a".to_string(), "b\\c".to_string()]] {
        let c = cookie_accords(&cle, 42, &d);
        let charge = c.strip_prefix("vex_sso_ok=").unwrap().split('.').next().unwrap();
        let mut m = serde_json::Map::new();
        m.insert("u".into(), serde_json::Value::from(42i64));
        m.insert("d".into(), serde_json::Value::from(d.clone()));
        assert_eq!(decoder(charge), serde_json::Value::Object(m).to_string());
    }
}
