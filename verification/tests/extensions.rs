use vex::recherche::{controler_article_wiki, controler_faq, motif_like, peut_editer_article, RefusWiki, extensions_rechercher, requete_titre, resultats_wikipedia, url_wikipedia, AssetMarche, PageWiki};

fn asset(nom: &str, id: &str, taille: u64, dl: u64) -> AssetMarche {
    AssetMarche {
        nom: nom.into(),
        id_marche: id.into(),
        taille,
        url: format!("https://d/{}", nom),
        maj: format!("maj-{}", nom),
        telechargements: dl,
    }
}

#[test]
fn extensions_regroupees() {
    let assets = vec![
        asset("mon_ext.zip", "mon_ext", 100, 5),
        asset("README.md", "readme", 7, 50),
        asset("Mon_Ext.extension.json", "ignore", 3, 2),
        asset("autre.rs", "autre", 10, 1),
        asset("mon_ext.rs", "mon_ext", 20, 9),
    ];
    let r = extensions_rechercher("", &assets);
    assert_eq!(r.len(), 2);
    assert_eq!(r[0].id, "mon_ext");
    assert_eq!(r[0].nom, "Mon ext");
    assert_eq!(r[0].taille, 123);
    assert_eq!(r[0].telechargements, 9);
    assert!(r[0].a_manifeste);
    assert_eq!(r[0].url, "https://d/Mon_Ext.extension.json");
    assert_eq!(r[0].maj, "maj-Mon_Ext.extension.json");
    assert_eq!(r[1].id, "autre");
    assert_eq!(r[1].nom, "Autre");
    let r = extensions_rechercher("  AUT ", &assets);
    assert_eq!(r.len(), 1);
    assert_eq!(r[0].id, "autre");
    let r = extensions_rechercher("zz", &[asset("a.extension.json.extension.json", "z", 1, 0)]);
    assert!(r.is_empty());
    let r = extensions_rechercher("", &[asset("A.extension.json.extension.json", "z", 1, 0)]);
    assert_eq!(r[0].id, "a");
}

#[test]
fn resultats_wikipedia_ordonnes() {
    let p = |i: Option<i64>, t: &str, e: &str| PageWiki { index: i, titre: t.into(), extrait: e.into(), image: None };
    let pages = vec![p(Some(3), "C", "ec"), p(None, "Z", "ez"), p(Some(1), "A", "ea"), p(Some(3), "C2", "ec2"), p(Some(2), "", "vide"), p(Some(0), "B", "  ")];
    let r = resultats_wikipedia(&pages);
    let titres: Vec<&str> = r.iter().map(|x| x.titre.as_str()).collect();
    assert_eq!(titres, vec!["B", "A", "C", "C2", "Z"]);
    assert_eq!(r[0].extrait, "");
    let long = "x".repeat(200);
    let r = resultats_wikipedia(&[p(Some(1), "L", &long)]);
    assert_eq!(r[0].extrait, format!("{}…", "x".repeat(180)));
    assert_eq!(requete_titre("chat"), "intitle:chat");
    assert_eq!(
        url_wikipedia("é t"),
        "https://fr.wikipedia.org/w/api.php?action=query&format=json&generator=search&gsrlimit=10&gsrsearch=%C3%A9%20t&prop=extracts|pageimages&exintro=1&explaintext=1&piprop=thumbnail&pithumbsize=200"
    );
}

#[test]
fn articles_du_wiki_controles() {
    let ok = controler_article_wiki(&vex::utils::parse_query("/w?titre=+Chat+&contenu=Miaou&id=12")).unwrap();
    assert_eq!((ok.id, ok.titre.as_str(), ok.contenu.as_str()), (12, "Chat", "Miaou"));
    let neuf = controler_article_wiki(&vex::utils::parse_query("/w?titre=Chat&contenu=Miaou&id=x")).unwrap();
    assert_eq!(neuf.id, 0);
    let e = controler_article_wiki(&vex::utils::parse_query("/w?titre=+&contenu=Miaou")).err().unwrap();
    assert_eq!(e, RefusWiki::ChampsObligatoires);
    assert_eq!(e.message(false), "Titre et contenu obligatoires");
    let long = format!("/w?titre={}&contenu=c", "é".repeat(256));
    assert_eq!(controler_article_wiki(&vex::utils::parse_query(&long)).err().unwrap(), RefusWiki::TropLong);
    let juste = format!("/w?titre={}&contenu=c", "é".repeat(255));
    assert!(controler_article_wiki(&vex::utils::parse_query(&juste)).is_ok());
    assert_eq!(controler_faq(&vex::utils::parse_query("/f?question=Q&reponse=")).err().unwrap().message(true), "Question et réponse obligatoires");
    assert!(peut_editer_article(3, 3, 10));
    assert!(peut_editer_article(3, 4, 6));
    assert!(!peut_editer_article(3, 4, 7));
    assert_eq!(motif_like("  chat "), "%chat%");
}
