use vex::appareil::{page_autorisation, LigneAppareil, TextesAutorisation};

fn textes() -> TextesAutorisation {
    TextesAutorisation {
        titre_page: "Autoriser".into(),
        code_invalide_titre: "Code invalide".into(),
        code_invalide_texte: "Ce code n'existe pas.".into(),
        code_expire_titre: "Code expiré".into(),
        code_expire_texte: "Demandez un nouveau code.".into(),
        deja_traite_titre: "Déjà traité".into(),
        deja_traite_texte: "Cette demande a déjà reçu une réponse.".into(),
        autoriser_titre: "Autoriser cet appareil ?".into(),
        demande_acces: "L'appareil {nom} demande l'accès.".into(),
        code_affiche_label: "Code affiché :".into(),
        verifie_correspond: "vérifiez qu'il correspond".into(),
        avertissement: "N'autorisez que vos appareils".into(),
        bouton_autoriser: "Autoriser".into(),
        bouton_refuser: "Refuser".into(),
        resultat_autorise: "C'est fait".into(),
        resultat_refuse: "Refusé".into(),
        erreur_generique: "Erreur".into(),
    }
}

fn attendu(t: &TextesAutorisation, titre: &str, corps: &str, code: &str) -> String {
    let enc: String = code
        .bytes()
        .map(|b| match b {
            b'A'..=b'Z' | b'a'..=b'z' | b'0'..=b'9' | b'-' | b'_' | b'.' | b'~' => (b as char).to_string(),
            _ => format!("%{:02X}", b),
        })
        .collect();
    format!(
        r#"<!DOCTYPE html><html lang="{langue}" data-theme="{theme}"><head><meta charset="UTF-8">
<title>{titre_page}</title>
<link rel="stylesheet" href="/static/css/theme.css">
<style>
body {{ font-family:-apple-system,sans-serif; background:var(--bg); color:var(--text); display:flex;
       justify-content:center; padding:60px 16px; margin:0; }}
.carte {{ max-width:440px; background:var(--panel); border:1px solid var(--panel-border); border-radius:14px; padding:28px; }}
h1 {{ font-size:1.1rem; margin:0 0 14px; }}
p {{ font-size:.9rem; line-height:1.6; color:var(--text-dim); }}
</style></head><body>
<div class="carte"><h1>{titre}</h1>{corps}</div>
<script>
function repondre(decision) {{
  fetch('/api/appareil/approuver', {{
    method:'POST', headers:{{'Content-Type':'application/x-www-form-urlencoded'}}, credentials:'include',
    body:'code={code_enc}&decision=' + decision,
  }}).then(r => r.json()).then(d => {{
    document.getElementById('resultat').textContent = d.success
      ? (decision === 'oui' ? '{resultat_autorise}' : '{resultat_refuse}')
      : (d.error || '{erreur_generique}');
  }});
}}
</script>
</body></html>"#,
        langue = "fr",
        theme = "sombre",
        titre_page = t.titre_page,
        titre = titre,
        corps = corps,
        code_enc = enc,
        resultat_autorise = t.resultat_autorise.replace('\'', "\\'"),
        resultat_refuse = t.resultat_refuse.replace('\'', "\\'"),
        erreur_generique = t.erreur_generique.replace('\'', "\\'"),
    )
}

fn esc(s: &str) -> String {
    s.replace('&', "&amp;").replace('<', "&lt;").replace('>', "&gt;").replace('"', "&quot;")
}

fn ligne(statut: &str, nom: Option<&str>, cree: &str) -> LigneAppareil {
    LigneAppareil {
        statut: Some(statut.into()),
        jeton_brut: None,
        user_id: Some(3),
        nom_appareil: nom.map(|n| n.into()),
        created_at: Some(cree.into()),
    }
}

#[test]
fn page_code_inconnu() {
    let t = textes();
    let p = page_autorisation(None, 1_700_000_000, "AB 12", "fr", "sombre", &t);
    assert_eq!(p, attendu(&t, "Code invalide", "Ce code n'existe pas.", "AB 12"));
}

#[test]
fn page_demande_a_autoriser() {
    let t = textes();
    let l = ligne("en_attente", Some("PC <de> Léa"), "2024-01-01 10:00:00");
    let maintenant = vex::temps::ts_de_date("2024-01-01 10:01:00");
    let code = "X&Y\"1";
    let p = page_autorisation(Some(&l), maintenant, code, "fr", "sombre", &t);
    let demande = t.demande_acces.replace("{nom}", &format!("<strong>{}</strong>", esc("PC <de> Léa")));
    let corps = format!(
        "<p>{demande}</p>\
         <p style=\"background:var(--surface2);border:1px solid var(--border);border-radius:8px;padding:10px 14px;\
         font-size:.8rem;color:var(--text-dim)\">{label} \
         <strong style=\"color:var(--text);letter-spacing:1px\">{code}</strong> — {verifie}</p>\
         <p style=\"color:var(--orange);font-size:.8rem\">⚠ {avertissement}</p>\
         <div style=\"display:flex;gap:10px;margin-top:20px\">\
         <button onclick=\"repondre('oui')\" style=\"flex:1;padding:12px;background:var(--accent);color:#fff;border:none;border-radius:8px;font-weight:700;cursor:pointer\">{bouton_autoriser}</button>\
         <button onclick=\"repondre('non')\" style=\"flex:1;padding:12px;background:var(--surface2);color:var(--text);border:1px solid var(--border);border-radius:8px;font-weight:700;cursor:pointer\">{bouton_refuser}</button>\
         </div>\
         <p id=\"resultat\" style=\"margin-top:16px;font-size:.85rem;color:var(--text)\"></p>",
        demande = demande,
        label = t.code_affiche_label,
        code = esc(code),
        verifie = t.verifie_correspond,
        avertissement = t.avertissement,
        bouton_autoriser = t.bouton_autoriser,
        bouton_refuser = t.bouton_refuser,
    );
    assert_eq!(p, attendu(&t, &t.autoriser_titre, &corps, code));
}

#[test]
fn page_demande_traitee_ou_expiree() {
    let t = textes();
    let maintenant = vex::temps::ts_de_date("2024-01-01 10:01:00");
    let l = ligne("approuve", None, "2024-01-01 10:00:00");
    let p = page_autorisation(Some(&l), maintenant, "C", "fr", "sombre", &t);
    assert_eq!(p, attendu(&t, "Déjà traité", "Cette demande a déjà reçu une réponse.", "C"));
    let vieux = ligne("en_attente", None, "2023-12-31 10:00:00");
    let p = page_autorisation(Some(&vieux), maintenant, "C", "fr", "sombre", &t);
    assert_eq!(p, attendu(&t, "Code expiré", "Demandez un nouveau code.", "C"));
}
