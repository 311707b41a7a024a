use vex::json::Json;
use vex::messagerie::{
    dossier_de, lire_envoi, lire_id_message, sql_envoi, sql_lecture, sql_liste, sql_suppression, sql_utilisateurs,
    Dossier,
};

fn esc(s: &str) -> String {
    s.replace('\\', "\\\\").replace('\'', "\\'")
}

fn objet(champs: Vec<(&str, Json)>) -> Json {
    Json::Objet(champs.into_iter().map(|(k, v)| (k.to_string(), v)).collect())
}

#[test]
fn requetes_des_dossiers() {
    let email = "o'brien\\x@ex.fr";
    let e = esc(email);
    for (folder, d) in [(Some("sent"), Dossier::Envoyes), (Some("trash"), Dossier::Corbeille), (Some("inbox"), Dossier::Recus), (None, Dossier::Recus)] {
        assert_eq!(dossier_de(folder), d);
        let where_clause = match folder.unwrap_or("inbox") {
            "sent" => format!("message_type='mess' AND JSON_UNQUOTE(JSON_EXTRACT(metadata,'$.from'))='{}' AND status!='delivered'", e),
            "trash" => format!("message_type='mess' AND status='delivered' AND (JSON_UNQUOTE(JSON_EXTRACT(metadata,'$.from'))='{0}' OR JSON_UNQUOTE(JSON_EXTRACT(metadata,'$.to'))='{0}')", e),
            _ => format!("message_type='mess' AND JSON_UNQUOTE(JSON_EXTRACT(metadata,'$.to'))='{}' AND status!='delivered'", e),
        };
        let sql = format!(
            "SELECT id,metadata,content,UNIX_TIMESTAMP(created_at),status \
             FROM p2p_messages WHERE {} ORDER BY created_at DESC LIMIT 200",
            where_clause
        );
        assert_eq!(sql_liste(d, email), sql);
    }
}

#[test]
fn requetes_lecture_suppression_utilisateurs() {
    let email = "a'b@c";
    assert_eq!(
        sql_lecture(-7, email),
        format!("UPDATE p2p_messages SET status='read' WHERE id={} AND message_type='mess' AND JSON_UNQUOTE(JSON_EXTRACT(metadata,'$.to'))='{}'", -7, esc(email))
    );
    assert_eq!(
        sql_suppression(12, email),
        format!(
            "UPDATE p2p_messages SET status='delivered' \
             WHERE id={} AND message_type='mess' AND (JSON_UNQUOTE(JSON_EXTRACT(metadata,'$.to'))='{}' OR JSON_UNQUOTE(JSON_EXTRACT(metadata,'$.from'))='{}')",
            12, esc(email), esc(email)
        )
    );
    assert_eq!(sql_utilisateurs(email), format!("SELECT nom,email FROM login WHERE email!='{}' ORDER BY nom LIMIT 100", esc(email)));
}

#[test]
fn identifiant_de_message() {
    assert_eq!(lire_id_message(&objet(vec![("id", Json::Nombre(5))])), Some(5));
    assert_eq!(lire_id_message(&objet(vec![("id", Json::Nombre(0))])), None);
    assert_eq!(lire_id_message(&objet(vec![("id", Json::Texte("5".into()))])), None);
}

#[test]
fn envoi_d_un_message() {
    let d = objet(vec![
        ("to_email", Json::Texte("  b@x.fr ".into())),
        ("subj_enc", Json::Texte("S\"1".into())),
        ("body_enc", Json::Texte("c'orps".into())),
    ]);
    let e = lire_envoi(&d).expect("envoi complet");
    assert_eq!(e.to_email, "b@x.fr");
    let mut m = serde_json::Map::new();
    m.insert("from".to_string(), serde_json::Value::String("a@x.fr".to_string()));
    m.insert("to".to_string(), serde_json::Value::String(e.to_email.clone()));
    m.insert("subj_enc".to_string(), serde_json::Value::String(e.subj_enc.clone()));
    let meta = serde_json::Value::Object(m).to_string();
    assert_eq!(
        sql_envoi("a@x.fr", &e),
        format!(
            "INSERT INTO p2p_messages (id,from_user_id,to_user_id,message_type,metadata,content,status) \
             VALUES (NULL,0,0,'mess','{}','{}','sent')",
            esc(&meta),
            esc(&e.body_enc)
        )
    );
    assert!(lire_envoi(&objet(vec![("to_email", Json::Texte(" ".into())), ("subj_enc", Json::Texte("s".into())), ("body_enc", Json::Texte("b".into()))])).is_none());
}
