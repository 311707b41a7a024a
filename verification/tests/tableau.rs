use vex::tableau::{
    a_completer, build_Fichiers_files, build_Fichiers_stats, build_mail_messages, build_sitec_stats,
    build_welcome_name, completer, file_icon, format_size, icone_pour_extension, remplir_tableau, tuiles_style,
    FichierListe, MessageListe, MorceauxTableau,
};
use vex::json::Json;

fn texte(v: Vec<char>) -> String {
    v.into_iter().collect()
}

fn reference(bytes: u64) -> String {
    if bytes >= 1_073_741_824 {
        format!("{:.2} GB", bytes as f64 / 1_073_741_824.0)
    } else if bytes >= 1_048_576 {
        format!("{:.2} MB", bytes as f64 / 1_048_576.0)
    } else if bytes >= 1_024 {
        format!("{:.2} KB", bytes as f64 / 1_024.0)
    } else {
        format!("{} octets", bytes)
    }
}

#[test]
fn taille_lisible_comme_le_flottant() {
    for b in [0u64, 1, 1023, 1024, 1152, 1535, 1536, 10_240, 1_048_575, 1_048_576, 5_767_168, 1_073_741_824,
        1_610_612_736, 123_456_789_012, u64::MAX]
    {
        assert_eq!(texte(format_size(b)), reference(b), "{}", b);
    }
    assert_eq!(texte(format_size(1536)), "1.50 KB");
}

#[test]
fn icones_de_fichier() {
    assert_eq!(file_icon("photo.JPG"), "fa-file-image");
    assert_eq!(file_icon("a.tar.zip"), "fa-file-zipper");
    assert_eq!(file_icon("README"), "fa-file");
    assert_eq!(file_icon("script.js"), "fa-file-code");
    assert_eq!(icone_pour_extension("pdf"), "fa-file-pdf");
}

#[test]
fn compteurs() {
    assert_eq!(build_sitec_stats(1), "1 site");
    assert_eq!(build_sitec_stats(3), "3 sites");
    assert_eq!(build_Fichiers_stats(2, &[1024, 512]), "2 fichiers — 1.50 KB");
    assert_eq!(build_Fichiers_stats(0, &[]), "0 fichier — 0 octets");
    assert_eq!(a_completer(2), 3);
    assert_eq!(a_completer(7), 0);
    assert_eq!(completer(vec![1, 2], vec![3, 4, 5, 6]), vec![1, 2, 3, 4, 5]);
    assert_eq!(completer(vec![1, 2, 3, 4, 5, 6], vec![7]), vec![1, 2, 3, 4, 5, 6]);
}

#[test]
fn nom_de_bienvenue() {
    assert_eq!(build_welcome_name("A<b", "fona"), "<div class=\"welcome-name fona\">A&lt;b</div>");
    assert_eq!(
        build_welcome_name("Zoé", "#ff0000"),
        "<div class=\"welcome-name\" style=\"color:#ff0000;\">Zoé</div>"
    );
}

#[test]
fn listes_vides_et_pleines() {
    assert!(build_Fichiers_files(&[], 0).contains("Aucun fichier"));
    let f = FichierListe { id: 4, nom: "x.pdf".into(), taille: 2048, date: "2024-01-01 00:00:00".into() };
    let h = build_Fichiers_files(&[f], 1_704_067_230);
    assert!(h.contains("/tel/?id=4"));
    assert!(h.contains("fa-file-pdf"));
    assert!(h.contains("2.00 KB"));
    assert!(h.contains("à l'instant"));
    let m = MessageListe { de: "a@b".into(), objet: "   ".into(), date: "".into() };
    assert!(build_mail_messages(&[m], 0).contains("(Sans objet)"));
}

#[test]
fn style_des_tuiles_masquees() {
    let t = Json::Objet(vec![
        ("admin".to_string(), Json::Nombre(0)),
        ("vid\"eos".to_string(), Json::Nombre(0)),
        ("sitec".to_string(), Json::Nombre(1)),
    ]);
    assert_eq!(
        tuiles_style(&t),
        "<style>[data-tuile=\"admin\"],[data-tuile=\"videos\"]{display:none!important}</style>"
    );
    assert_eq!(tuiles_style(&Json::Objet(vec![])), "");
}

#[test]
fn gabarit_du_tableau() {
    let m = MorceauxTableau {
        nav_html: "NAV".into(),
        theme: "dark".into(),
        bienvenue: "B".into(),
        tuiles_style: "".into(),
        ext_tiles: "E".into(),
        admin_card: "".into(),
        fichiers_stats: "FS".into(),
        fichiers_files: "FF".into(),
        mail_unread: "3".into(),
        mail_messages: "MM".into(),
        sitec_stats: "SS".into(),
        sitec_sites: "SI".into(),
    };
    assert_eq!(
        remplir_tableau("__NAV_HTML__|{{THEME}}|{{MAIL_UNREAD}}|{{THEME}}", &m),
        "NAV|dark|3|dark"
    );
}

fn reference_fr(o: u64) -> String {
    if o < 1024 {
        return format!("{} o", o);
    }
    let unites = ["Ko", "Mo", "Go"];
    let mut n = o as f64;
    let mut i = -1i32;
    loop {
        n /= 1024.0;
        i += 1;
        if !(n >= 1024.0 && (i as usize) < unites.len() - 1) {
            break;
        }
    }
    format!("{:.1} {}", n, unites[i.max(0) as usize])
}

#[test]
fn taille_recherche_comme_le_flottant() {
    let mut cas = vec![0u64, 1, 1023, 1024, 1075, 1076, 1280, 1792, 1_048_575, 1_048_576, 1_153_433, 1_073_741_823,
        1_073_741_824, 1_181_116_006, 1_288_490_188, 1_099_511_627_776 * 3, u64::MAX];
    let mut x: u64 = 12345;
    for _ in 0..2000 {
        x = x.wrapping_mul(6364136223846793005).wrapping_add(1442695040888963407);
        cas.push(x >> (x % 50));
    }
    for o in (0..40).map(|k| 256u64 * (2 * k + 1)) {
        cas.push(o);
    }
    for o in cas {
        assert_eq!(vex::recherche::formater_taille(o), reference_fr(o), "{}", o);
    }
    assert_eq!(vex::recherche::formater_taille(1280), "1.2 Ko");
    assert_eq!(vex::recherche::formater_taille(512), "512 o");
}
