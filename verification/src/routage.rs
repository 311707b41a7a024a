//! Routage global des requêtes HTTP, fichiers statiques, commandes du
//! terminal et contrôles de démarrage.

use vstd::prelude::*;
use crate::texte::{
    analyser_i64, caracteres, chaine_de, commence_lit, commence_par, contient_motif, contient_texte,
    decimal, decimal_signe, egale_lit, finit_lit, finit_par, i64_ecrit, hex_min, ajouter, ajouter_car,
    ajouter_decimal_signe,
};
use crate::crypto::{base64_standard, decoder_base64_standard, ed25519_valide, verifier_ed25519};

verus! {

broadcast use vstd::string::group_string_axioms;

// ══════════════════════════════════════════════════════════════════
// Table de routage
// ══════════════════════════════════════════════════════════════════

/// Le module qui traite une requête, d'après son chemin.
#[derive(PartialEq, Eq, Structural, Clone, Copy, Debug)]
pub enum Route {
    Connexion,
    PremierReglage,
    ConfigConnexion,
    Compte,
    Deconnexion,
    Autologin,
    Appareil,
    TableauDeBord,
    Admin,
    Extension,
    AttenteFichiers,
    PartagePublic,
    Fichiers,
    Messagerie,
    Sso,
    P2p,
    Visio,
    Sitec { public: bool },
    Recherche,
    ApiDb,
    Statique,
    Sante,
    Introuvable,
}

/// Chemin d'un fichier statique : sous `/static/`, ou image, icône, script,
/// feuille de style, SVG, police woff2.
pub open spec fn statique(p: Seq<char>) -> bool {
    commence_par(p, "/static/"@) || finit_par(p, ".png"@) || finit_par(p, ".ico"@) || finit_par(p, ".js"@)
        || finit_par(p, ".css"@) || finit_par(p, ".svg"@) || finit_par(p, ".woff2"@)
}

/// La route d'un chemin, première règle qui s'applique dans l'ordre.
pub open spec fn route_de(p: Seq<char>) -> Route {
    if p == "/"@ || p == "/login"@ || p == "/login/"@ || p == "/login/login"@ || p == "/login/login.php"@ {
        Route::Connexion
    } else if p == "/login/first_setup"@ {
        Route::PremierReglage
    } else if p == "/api/login/config"@ {
        Route::ConfigConnexion
    } else if p == "/login/account"@ || p == "/login/account/"@ || commence_par(p, "/api/account"@) {
        Route::Compte
    } else if p == "/logout"@ || p == "/logout/"@ || p == "/login/logout"@ || p == "/login/logout/"@ {
        Route::Deconnexion
    } else if p == "/autologin"@ || p == "/autologin/"@ || commence_par(p, "/autologin/"@) || p
        == "/login/autologin"@ || p == "/login/autologin/"@ {
        Route::Autologin
    } else if commence_par(p, "/api/appareil"@) || p == "/autoriser-appareil"@ || p == "/autoriser-appareil/"@
        || p == "/install.ps1"@ {
        Route::Appareil
    } else if commence_par(p, "/api/dashboard"@) || p == "/dashboard"@ || p == "/dashboard/"@ || p
        == "/login/dashboard"@ || p == "/login/dashboard/"@ {
        Route::TableauDeBord
    } else if commence_par(p, "/admin"@) || commence_par(p, "/api/admin"@) {
        Route::Admin
    } else if commence_par(p, "/ext/"@) || commence_par(p, "/api/ext/"@) {
        Route::Extension
    } else if p == "/api/fchier/attendre"@ {
        Route::AttenteFichiers
    } else if commence_par(p, "/partage/"@) || commence_par(p, "/api/partage/"@) {
        Route::PartagePublic
    } else if commence_par(p, "/fchier"@) || commence_par(p, "/api/fchier"@) {
        Route::Fichiers
    } else if commence_par(p, "/mess"@) || commence_par(p, "/api/mess"@) {
        Route::Messagerie
    } else if p == "/p2p/sso"@ || p == "/p2p/sso/etat"@ {
        Route::Sso
    } else if commence_par(p, "/p2p/"@) || commence_par(p, "/neut/"@) {
        Route::P2p
    } else if commence_par(p, "/viso"@) || commence_par(p, "/api/viso"@) {
        Route::Visio
    } else if commence_par(p, "/sitec"@) || commence_par(p, "/api/sitec"@) || commence_par(p, "/page/"@) {
        Route::Sitec { public: commence_par(p, "/page/"@) }
    } else if commence_par(p, "/recherche"@) || commence_par(p, "/api/recherche"@) {
        Route::Recherche
    } else if p == "/api/db"@ {
        Route::ApiDb
    } else if statique(p) {
        Route::Statique
    } else if p == "/health"@ {
        Route::Sante
    } else {
        Route::Introuvable
    }
}

/// Longueurs des chemins et suffixes de la table des routes.
proof fn lemme_longueurs_routes()
    ensures
        ".css"@.len() == 4,
        ".ico"@.len() == 4,
        ".js"@.len() == 3,
        ".png"@.len() == 4,
        ".svg"@.len() == 4,
        ".woff2"@.len() == 6,
        "/"@.len() == 1,
        "/admin"@.len() == 6,
        "/api/account"@.len() == 12,
        "/api/admin"@.len() == 10,
        "/api/appareil"@.len() == 13,
        "/api/dashboard"@.len() == 14,
        "/api/db"@.len() == 7,
        "/api/ext/"@.len() == 9,
        "/api/fchier"@.len() == 11,
        "/api/fchier/attendre"@.len() == 20,
        "/api/login/config"@.len() == 17,
        "/api/mess"@.len() == 9,
        "/api/partage/"@.len() == 13,
        "/api/recherche"@.len() == 14,
        "/api/sitec"@.len() == 10,
        "/api/viso"@.len() == 9,
        "/autologin"@.len() == 10,
        "/autologin/"@.len() == 11,
        "/autoriser-appareil"@.len() == 19,
        "/autoriser-appareil/"@.len() == 20,
        "/dashboard"@.len() == 10,
        "/dashboard/"@.len() == 11,
        "/ext/"@.len() == 5,
        "/fchier"@.len() == 7,
        "/health"@.len() == 7,
        "/install.ps1"@.len() == 12,
        "/login"@.len() == 6,
        "/login/"@.len() == 7,
        "/login/account"@.len() == 14,
        "/login/account/"@.len() == 15,
        "/login/autologin"@.len() == 16,
        "/login/autologin/"@.len() == 17,
        "/login/dashboard"@.len() == 16,
        "/login/dashboard/"@.len() == 17,
        "/login/first_setup"@.len() == 18,
        "/login/login"@.len() == 12,
        "/login/login.php"@.len() == 16,
        "/login/logout"@.len() == 13,
        "/login/logout/"@.len() == 14,
        "/logout"@.len() == 7,
        "/logout/"@.len() == 8,
        "/mess"@.len() == 5,
        "/neut/"@.len() == 6,
        "/p2p/"@.len() == 5,
        "/p2p/sso"@.len() == 8,
        "/p2p/sso/etat"@.len() == 13,
        "/page/"@.len() == 6,
        "/partage/"@.len() == 9,
        "/recherche"@.len() == 10,
        "/sitec"@.len() == 6,
        "/static/"@.len() == 8,
        "/viso"@.len() == 5,
{
    reveal_strlit(".css");
    reveal_strlit(".ico");
    reveal_strlit(".js");
    reveal_strlit(".png");
    reveal_strlit(".svg");
    reveal_strlit(".woff2");
    reveal_strlit("/");
    reveal_strlit("/admin");
    reveal_strlit("/api/account");
    reveal_strlit("/api/admin");
    reveal_strlit("/api/appareil");
    reveal_strlit("/api/dashboard");
    reveal_strlit("/api/db");
    reveal_strlit("/api/ext/");
    reveal_strlit("/api/fchier");
    reveal_strlit("/api/fchier/attendre");
    reveal_strlit("/api/login/config");
    reveal_strlit("/api/mess");
    reveal_strlit("/api/partage/");
    reveal_strlit("/api/recherche");
    reveal_strlit("/api/sitec");
    reveal_strlit("/api/viso");
    reveal_strlit("/autologin");
    reveal_strlit("/autologin/");
    reveal_strlit("/autoriser-appareil");
    reveal_strlit("/autoriser-appareil/");
    reveal_strlit("/dashboard");
    reveal_strlit("/dashboard/");
    reveal_strlit("/ext/");
    reveal_strlit("/fchier");
    reveal_strlit("/health");
    reveal_strlit("/install.ps1");
    reveal_strlit("/login");
    reveal_strlit("/login/");
    reveal_strlit("/login/account");
    reveal_strlit("/login/account/");
    reveal_strlit("/login/autologin");
    reveal_strlit("/login/autologin/");
    reveal_strlit("/login/dashboard");
    reveal_strlit("/login/dashboard/");
    reveal_strlit("/login/first_setup");
    reveal_strlit("/login/login");
    reveal_strlit("/login/login.php");
    reveal_strlit("/login/logout");
    reveal_strlit("/login/logout/");
    reveal_strlit("/logout");
    reveal_strlit("/logout/");
    reveal_strlit("/mess");
    reveal_strlit("/neut/");
    reveal_strlit("/p2p/");
    reveal_strlit("/p2p/sso");
    reveal_strlit("/p2p/sso/etat");
    reveal_strlit("/page/");
    reveal_strlit("/partage/");
    reveal_strlit("/recherche");
    reveal_strlit("/sitec");
    reveal_strlit("/static/");
    reveal_strlit("/viso");
}

/// Table des routes du serveur : chaque chemin qu'elle nomme va à son
/// module, en particulier les quatre chemins de déconnexion (`/logout`,
/// `/logout/`, `/login/logout`, `/login/logout/`).
pub proof fn loi_table_des_routes()
    ensures
        route_de("/"@) == Route::Connexion,
        route_de("/login"@) == Route::Connexion,
        route_de("/login/"@) == Route::Connexion,
        route_de("/login/login"@) == Route::Connexion,
        route_de("/login/login.php"@) == Route::Connexion,
        route_de("/login/first_setup"@) == Route::PremierReglage,
        route_de("/api/login/config"@) == Route::ConfigConnexion,
        route_de("/login/account"@) == Route::Compte,
        route_de("/login/account/"@) == Route::Compte,
        route_de("/logout"@) == Route::Deconnexion,
        route_de("/logout/"@) == Route::Deconnexion,
        route_de("/login/logout"@) == Route::Deconnexion,
        route_de("/login/logout/"@) == Route::Deconnexion,
        route_de("/autologin"@) == Route::Autologin,
        route_de("/autologin/"@) == Route::Autologin,
        route_de("/login/autologin"@) == Route::Autologin,
        route_de("/login/autologin/"@) == Route::Autologin,
        route_de("/autoriser-appareil"@) == Route::Appareil,
        route_de("/autoriser-appareil/"@) == Route::Appareil,
        route_de("/install.ps1"@) == Route::Appareil,
        route_de("/dashboard"@) == Route::TableauDeBord,
        route_de("/dashboard/"@) == Route::TableauDeBord,
        route_de("/login/dashboard"@) == Route::TableauDeBord,
        route_de("/login/dashboard/"@) == Route::TableauDeBord,
        route_de("/api/fchier/attendre"@) == Route::AttenteFichiers,
        route_de("/p2p/sso"@) == Route::Sso,
        route_de("/p2p/sso/etat"@) == Route::Sso,
        route_de("/api/db"@) == Route::ApiDb,
        route_de("/health"@) == Route::Sante,
{
    lemme_route_0();
    lemme_route_1();
    lemme_route_2();
    lemme_route_3();
    lemme_route_4();
    lemme_route_5();
    lemme_route_6();
    lemme_route_7();
    lemme_route_8();
    lemme_route_9();
    lemme_route_10();
    lemme_route_11();
    lemme_route_12();
    lemme_route_13();
    lemme_route_14();
    lemme_route_15();
    lemme_route_16();
    lemme_route_17();
    lemme_route_18();
    lemme_route_19();
    lemme_route_20();
    lemme_route_21();
    lemme_route_22();
    lemme_route_23();
    lemme_route_24();
    lemme_route_25();
    lemme_route_26();
    lemme_route_27();
    lemme_route_28();
}

proof fn lemme_route_0()
    ensures
        route_de("/"@) == Route::Connexion,
{
    lemme_longueurs_routes();
    reveal_strlit("/");
}

proof fn lemme_route_1()
    ensures
        route_de("/login"@) == Route::Connexion,
{
    lemme_longueurs_routes();
    reveal_strlit("/login");
}

proof fn lemme_route_2()
    ensures
        route_de("/login/"@) == Route::Connexion,
{
    lemme_longueurs_routes();
    reveal_strlit("/login/");
}

proof fn lemme_route_3()
    ensures
        route_de("/login/login"@) == Route::Connexion,
{
    lemme_longueurs_routes();
    reveal_strlit("/login/login");
}

proof fn lemme_route_4()
    ensures
        route_de("/login/login.php"@) == Route::Connexion,
{
    lemme_longueurs_routes();
    reveal_strlit("/login/login.php");
}

proof fn lemme_route_5()
    ensures
        route_de("/login/first_setup"@) == Route::PremierReglage,
{
    lemme_longueurs_routes();
    reveal_strlit("/login/first_setup");
}

proof fn lemme_route_6()
    ensures
        route_de("/api/login/config"@) == Route::ConfigConnexion,
{
    lemme_longueurs_routes();
    reveal_strlit("/api/login/config");
}

proof fn lemme_route_7()
    ensures
        route_de("/login/account"@) == Route::Compte,
{
    lemme_longueurs_routes();
    reveal_strlit("/login/account");
}

proof fn lemme_route_8()
    ensures
        route_de("/login/account/"@) == Route::Compte,
{
    lemme_longueurs_routes();
    reveal_strlit("/login/account/");
}

proof fn lemme_route_9()
    ensures
        route_de("/logout"@) == Route::Deconnexion,
{
    lemme_longueurs_routes();
    reveal_strlit("/logout");
    reveal_strlit("/login/");
    assert("/logout"@[4] != "/login/"@[4]);
}

proof fn lemme_route_10()
    ensures
        route_de("/logout/"@) == Route::Deconnexion,
{
    lemme_longueurs_routes();
    reveal_strlit("/logout/");
}

proof fn lemme_route_11()
    ensures
        route_de("/login/logout"@) == Route::Deconnexion,
{
    lemme_longueurs_routes();
    reveal_strlit("/login/logout");
    reveal_strlit("/api/account");
    assert("/login/logout"@.subrange(0, 12)[1] != "/api/account"@[1]);
}

proof fn lemme_route_12()
    ensures
        route_de("/login/logout/"@) == Route::Deconnexion,
{
    lemme_longueurs_routes();
    reveal_strlit("/login/logout/");
    reveal_strlit("/login/account");
    assert("/login/logout/"@[7] != "/login/account"@[7]);
    reveal_strlit("/api/account");
    assert("/login/logout/"@.subrange(0, 12)[1] != "/api/account"@[1]);
}

proof fn lemme_route_13()
    ensures
        route_de("/autologin"@) == Route::Autologin,
{
    lemme_longueurs_routes();
    reveal_strlit("/autologin");
}

proof fn lemme_route_14()
    ensures
        route_de("/autologin/"@) == Route::Autologin,
{
    lemme_longueurs_routes();
    reveal_strlit("/autologin/");
}

proof fn lemme_route_15()
    ensures
        route_de("/login/autologin"@) == Route::Autologin,
{
    lemme_longueurs_routes();
    reveal_strlit("/login/autologin");
    reveal_strlit("/login/login.php");
    assert("/login/autologin"@[7] != "/login/login.php"@[7]);
    reveal_strlit("/api/account");
    assert("/login/autologin"@.subrange(0, 12)[1] != "/api/account"@[1]);
    reveal_strlit("/autologin/");
    assert("/login/autologin"@.subrange(0, 11)[1] != "/autologin/"@[1]);
}

proof fn lemme_route_16()
    ensures
        route_de("/login/autologin/"@) == Route::Autologin,
{
    lemme_longueurs_routes();
    reveal_strlit("/login/autologin/");
    reveal_strlit("/api/login/config");
    assert("/login/autologin/"@[1] != "/api/login/config"@[1]);
    reveal_strlit("/api/account");
    assert("/login/autologin/"@.subrange(0, 12)[1] != "/api/account"@[1]);
    reveal_strlit("/autologin/");
    assert("/login/autologin/"@.subrange(0, 11)[1] != "/autologin/"@[1]);
}

proof fn lemme_route_17()
    ensures
        route_de("/autoriser-appareil"@) == Route::Appareil,
{
    lemme_longueurs_routes();
    reveal_strlit("/autoriser-appareil");
    reveal_strlit("/api/account");
    assert("/autoriser-appareil"@.subrange(0, 12)[2] != "/api/account"@[2]);
    reveal_strlit("/autologin/");
    assert("/autoriser-appareil"@.subrange(0, 11)[5] != "/autologin/"@[5]);
    reveal_strlit("/api/appareil");
    assert("/autoriser-appareil"@.subrange(0, 13)[2] != "/api/appareil"@[2]);
}

proof fn lemme_route_18()
    ensures
        route_de("/autoriser-appareil/"@) == Route::Appareil,
{
    lemme_longueurs_routes();
    reveal_strlit("/autoriser-appareil/");
    reveal_strlit("/api/account");
    assert("/autoriser-appareil/"@.subrange(0, 12)[2] != "/api/account"@[2]);
    reveal_strlit("/autologin/");
    assert("/autoriser-appareil/"@.subrange(0, 11)[5] != "/autologin/"@[5]);
    reveal_strlit("/api/appareil");
    assert("/autoriser-appareil/"@.subrange(0, 13)[2] != "/api/appareil"@[2]);
}

proof fn lemme_route_19()
    ensures
        route_de("/install.ps1"@) == Route::Appareil,
{
    lemme_longueurs_routes();
    reveal_strlit("/install.ps1");
    reveal_strlit("/login/login");
    assert("/install.ps1"@[1] != "/login/login"@[1]);
    reveal_strlit("/api/account");
    assert("/install.ps1"@.subrange(0, 12)[1] != "/api/account"@[1]);
    reveal_strlit("/autologin/");
    assert("/install.ps1"@.subrange(0, 11)[1] != "/autologin/"@[1]);
}

proof fn lemme_route_20()
    ensures
        route_de("/dashboard"@) == Route::TableauDeBord,
{
    lemme_longueurs_routes();
    reveal_strlit("/dashboard");
    reveal_strlit("/autologin");
    assert("/dashboard"@[1] != "/autologin"@[1]);
}

proof fn lemme_route_21()
    ensures
        route_de("/dashboard/"@) == Route::TableauDeBord,
{
    lemme_longueurs_routes();
    reveal_strlit("/dashboard/");
    reveal_strlit("/autologin/");
    assert("/dashboard/"@[1] != "/autologin/"@[1]);
    reveal_strlit("/autologin/");
    assert("/dashboard/"@.subrange(0, 11)[1] != "/autologin/"@[1]);
}

proof fn lemme_route_22()
    ensures
        route_de("/login/dashboard"@) == Route::TableauDeBord,
{
    lemme_longueurs_routes();
    reveal_strlit("/login/dashboard");
    reveal_strlit("/login/login.php");
    assert("/login/dashboard"@[7] != "/login/login.php"@[7]);
    reveal_strlit("/api/account");
    assert("/login/dashboard"@.subrange(0, 12)[1] != "/api/account"@[1]);
    reveal_strlit("/autologin/");
    assert("/login/dashboard"@.subrange(0, 11)[1] != "/autologin/"@[1]);
    reveal_strlit("/login/autologin");
    assert("/login/dashboard"@[7] != "/login/autologin"@[7]);
    reveal_strlit("/api/appareil");
    assert("/login/dashboard"@.subrange(0, 13)[1] != "/api/appareil"@[1]);
    reveal_strlit("/api/dashboard");
    assert("/login/dashboard"@.subrange(0, 14)[1] != "/api/dashboard"@[1]);
}

proof fn lemme_route_23()
    ensures
        route_de("/login/dashboard/"@) == Route::TableauDeBord,
{
    lemme_longueurs_routes();
    reveal_strlit("/login/dashboard/");
    reveal_strlit("/api/login/config");
    assert("/login/dashboard/"@[1] != "/api/login/config"@[1]);
    reveal_strlit("/api/account");
    assert("/login/dashboard/"@.subrange(0, 12)[1] != "/api/account"@[1]);
    reveal_strlit("/autologin/");
    assert("/login/dashboard/"@.subrange(0, 11)[1] != "/autologin/"@[1]);
    reveal_strlit("/login/autologin/");
    assert("/login/dashboard/"@[7] != "/login/autologin/"@[7]);
    reveal_strlit("/api/appareil");
    assert("/login/dashboard/"@.subrange(0, 13)[1] != "/api/appareil"@[1]);
    reveal_strlit("/api/dashboard");
    assert("/login/dashboard/"@.subrange(0, 14)[1] != "/api/dashboard"@[1]);
}

proof fn lemme_route_24()
    ensures
        route_de("/api/fchier/attendre"@) == Route::AttenteFichiers,
{
    lemme_longueurs_routes();
    reveal_strlit("/api/fchier/attendre");
    reveal_strlit("/api/account");
    assert("/api/fchier/attendre"@.subrange(0, 12)[5] != "/api/account"@[5]);
    reveal_strlit("/autologin/");
    assert("/api/fchier/attendre"@.subrange(0, 11)[2] != "/autologin/"@[2]);
    reveal_strlit("/api/appareil");
    assert("/api/fchier/attendre"@.subrange(0, 13)[5] != "/api/appareil"@[5]);
    reveal_strlit("/autoriser-appareil/");
    assert("/api/fchier/attendre"@[2] != "/autoriser-appareil/"@[2]);
    reveal_strlit("/api/dashboard");
    assert("/api/fchier/attendre"@.subrange(0, 14)[5] != "/api/dashboard"@[5]);
    reveal_strlit("/admin");
    assert("/api/fchier/attendre"@.subrange(0, 6)[2] != "/admin"@[2]);
    reveal_strlit("/api/admin");
    assert("/api/fchier/attendre"@.subrange(0, 10)[5] != "/api/admin"@[5]);
    reveal_strlit("/ext/");
    assert("/api/fchier/attendre"@.subrange(0, 5)[1] != "/ext/"@[1]);
    reveal_strlit("/api/ext/");
    assert("/api/fchier/attendre"@.subrange(0, 9)[5] != "/api/ext/"@[5]);
}

proof fn lemme_route_25()
    ensures
        route_de("/p2p/sso"@) == Route::Sso,
{
    lemme_longueurs_routes();
    reveal_strlit("/p2p/sso");
    reveal_strlit("/logout/");
    assert("/p2p/sso"@[1] != "/logout/"@[1]);
    reveal_strlit("/admin");
    assert("/p2p/sso"@.subrange(0, 6)[1] != "/admin"@[1]);
    reveal_strlit("/ext/");
    assert("/p2p/sso"@.subrange(0, 5)[1] != "/ext/"@[1]);
    reveal_strlit("/fchier");
    assert("/p2p/sso"@.subrange(0, 7)[1] != "/fchier"@[1]);
    reveal_strlit("/mess");
    assert("/p2p/sso"@.subrange(0, 5)[1] != "/mess"@[1]);
}

proof fn lemme_route_26()
    ensures
        route_de("/p2p/sso/etat"@) == Route::Sso,
{
    lemme_longueurs_routes();
    reveal_strlit("/p2p/sso/etat");
    reveal_strlit("/api/account");
    assert("/p2p/sso/etat"@.subrange(0, 12)[1] != "/api/account"@[1]);
    reveal_strlit("/login/logout");
    assert("/p2p/sso/etat"@[1] != "/login/logout"@[1]);
    reveal_strlit("/autologin/");
    assert("/p2p/sso/etat"@.subrange(0, 11)[1] != "/autologin/"@[1]);
    reveal_strlit("/api/appareil");
    assert("/p2p/sso/etat"@.subrange(0, 13)[1] != "/api/appareil"@[1]);
    reveal_strlit("/admin");
    assert("/p2p/sso/etat"@.subrange(0, 6)[1] != "/admin"@[1]);
    reveal_strlit("/api/admin");
    assert("/p2p/sso/etat"@.subrange(0, 10)[1] != "/api/admin"@[1]);
    reveal_strlit("/ext/");
    assert("/p2p/sso/etat"@.subrange(0, 5)[1] != "/ext/"@[1]);
    reveal_strlit("/api/ext/");
    assert("/p2p/sso/etat"@.subrange(0, 9)[1] != "/api/ext/"@[1]);
    reveal_strlit("/partage/");
    assert("/p2p/sso/etat"@.subrange(0, 9)[2] != "/partage/"@[2]);
    reveal_strlit("/api/partage/");
    assert("/p2p/sso/etat"@.subrange(0, 13)[1] != "/api/partage/"@[1]);
    reveal_strlit("/fchier");
    assert("/p2p/sso/etat"@.subrange(0, 7)[1] != "/fchier"@[1]);
    reveal_strlit("/api/fchier");
    assert("/p2p/sso/etat"@.subrange(0, 11)[1] != "/api/fchier"@[1]);
    reveal_strlit("/mess");
    assert("/p2p/sso/etat"@.subrange(0, 5)[1] != "/mess"@[1]);
    reveal_strlit("/api/mess");
    assert("/p2p/sso/etat"@.subrange(0, 9)[1] != "/api/mess"@[1]);
}

proof fn lemme_route_27()
    ensures
        route_de("/api/db"@) == Route::ApiDb,
{
    lemme_longueurs_routes();
    reveal_strlit("/api/db");
    reveal_strlit("/login/");
    assert("/api/db"@[1] != "/login/"@[1]);
    reveal_strlit("/logout");
    assert("/api/db"@[1] != "/logout"@[1]);
    reveal_strlit("/admin");
    assert("/api/db"@.subrange(0, 6)[2] != "/admin"@[2]);
    reveal_strlit("/ext/");
    assert("/api/db"@.subrange(0, 5)[1] != "/ext/"@[1]);
    reveal_strlit("/fchier");
    assert("/api/db"@.subrange(0, 7)[1] != "/fchier"@[1]);
    reveal_strlit("/mess");
    assert("/api/db"@.subrange(0, 5)[1] != "/mess"@[1]);
    reveal_strlit("/p2p/");
    assert("/api/db"@.subrange(0, 5)[1] != "/p2p/"@[1]);
    reveal_strlit("/neut/");
    assert("/api/db"@.subrange(0, 6)[1] != "/neut/"@[1]);
    reveal_strlit("/viso");
    assert("/api/db"@.subrange(0, 5)[1] != "/viso"@[1]);
    reveal_strlit("/sitec");
    assert("/api/db"@.subrange(0, 6)[1] != "/sitec"@[1]);
    reveal_strlit("/page/");
    assert("/api/db"@.subrange(0, 6)[1] != "/page/"@[1]);
}

proof fn lemme_route_28()
    ensures
        route_de("/health"@) == Route::Sante,
{
    lemme_longueurs_routes();
    reveal_strlit("/health");
    reveal_strlit("/login/");
    assert("/health"@[1] != "/login/"@[1]);
    reveal_strlit("/logout");
    assert("/health"@[1] != "/logout"@[1]);
    reveal_strlit("/admin");
    assert("/health"@.subrange(0, 6)[1] != "/admin"@[1]);
    reveal_strlit("/ext/");
    assert("/health"@.subrange(0, 5)[1] != "/ext/"@[1]);
    reveal_strlit("/fchier");
    assert("/health"@.subrange(0, 7)[1] != "/fchier"@[1]);
    reveal_strlit("/mess");
    assert("/health"@.subrange(0, 5)[1] != "/mess"@[1]);
    reveal_strlit("/p2p/");
    assert("/health"@.subrange(0, 5)[1] != "/p2p/"@[1]);
    reveal_strlit("/neut/");
    assert("/health"@.subrange(0, 6)[1] != "/neut/"@[1]);
    reveal_strlit("/viso");
    assert("/health"@.subrange(0, 5)[1] != "/viso"@[1]);
    reveal_strlit("/sitec");
    assert("/health"@.subrange(0, 6)[1] != "/sitec"@[1]);
    reveal_strlit("/page/");
    assert("/health"@.subrange(0, 6)[1] != "/page/"@[1]);
    reveal_strlit("/api/db");
    assert("/health"@[1] != "/api/db"@[1]);
    reveal_strlit(".png");
    assert("/health"@.subrange(3, 7)[0] != ".png"@[0]);
    reveal_strlit(".ico");
    assert("/health"@.subrange(3, 7)[0] != ".ico"@[0]);
    reveal_strlit(".js");
    assert("/health"@.subrange(4, 7)[0] != ".js"@[0]);
    reveal_strlit(".css");
    assert("/health"@.subrange(3, 7)[0] != ".css"@[0]);
    reveal_strlit(".svg");
    assert("/health"@.subrange(3, 7)[0] != ".svg"@[0]);
    reveal_strlit(".woff2");
    assert("/health"@.subrange(1, 7)[0] != ".woff2"@[0]);
}

/// Les préfixes de la table des routes : tout chemin qui commence par l'un
/// d'eux va à son module, hors les chemins exacts que la table envoie
/// ailleurs avant lui.
pub proof fn loi_prefixes_des_routes(p: Seq<char>)
    ensures
        commence_par(p, "/api/account"@) ==> route_de(p) == Route::Compte,
        commence_par(p, "/autologin/"@) && p != "/autologin/"@ ==> route_de(p) == Route::Autologin,
        commence_par(p, "/api/appareil"@) ==> route_de(p) == Route::Appareil,
        commence_par(p, "/api/dashboard"@) ==> route_de(p) == Route::TableauDeBord,
        commence_par(p, "/admin"@) ==> route_de(p) == Route::Admin,
        commence_par(p, "/api/admin"@) ==> route_de(p) == Route::Admin,
        commence_par(p, "/ext/"@) ==> route_de(p) == Route::Extension,
        commence_par(p, "/api/ext/"@) ==> route_de(p) == Route::Extension,
        commence_par(p, "/partage/"@) ==> route_de(p) == Route::PartagePublic,
        commence_par(p, "/api/partage/"@) ==> route_de(p) == Route::PartagePublic,
        commence_par(p, "/fchier"@) ==> route_de(p) == Route::Fichiers,
        commence_par(p, "/api/fchier"@) && p != "/api/fchier/attendre"@ ==> route_de(p) == Route::Fichiers,
        commence_par(p, "/mess"@) ==> route_de(p) == Route::Messagerie,
        commence_par(p, "/api/mess"@) ==> route_de(p) == Route::Messagerie,
        commence_par(p, "/p2p/"@) && p != "/p2p/sso"@ && p != "/p2p/sso/etat"@ ==> route_de(p) == Route::P2p,
        commence_par(p, "/neut/"@) ==> route_de(p) == Route::P2p,
        commence_par(p, "/viso"@) ==> route_de(p) == Route::Visio,
        commence_par(p, "/api/viso"@) ==> route_de(p) == Route::Visio,
        commence_par(p, "/sitec"@) ==> (route_de(p) == Route::Sitec { public: commence_par(p, "/page/"@) }),
        commence_par(p, "/api/sitec"@) ==> (route_de(p) == Route::Sitec { public: commence_par(p, "/page/"@) }),
        commence_par(p, "/page/"@) ==> (route_de(p) == Route::Sitec { public: commence_par(p, "/page/"@) }),
        commence_par(p, "/recherche"@) ==> route_de(p) == Route::Recherche,
        commence_par(p, "/api/recherche"@) ==> route_de(p) == Route::Recherche,
{
    if commence_par(p, "/api/account"@) {
        lemme_prefixe_0(p);
    }
    if commence_par(p, "/autologin/"@) && p != "/autologin/"@ {
        lemme_prefixe_1(p);
    }
    if commence_par(p, "/api/appareil"@) {
        lemme_prefixe_2(p);
    }
    if commence_par(p, "/api/dashboard"@) {
        lemme_prefixe_3(p);
    }
    if commence_par(p, "/admin"@) {
        lemme_prefixe_4(p);
    }
    if commence_par(p, "/api/admin"@) {
        lemme_prefixe_5(p);
    }
    if commence_par(p, "/ext/"@) {
        lemme_prefixe_6(p);
    }
    if commence_par(p, "/api/ext/"@) {
        lemme_prefixe_7(p);
    }
    if commence_par(p, "/partage/"@) {
        lemme_prefixe_8(p);
    }
    if commence_par(p, "/api/partage/"@) {
        lemme_prefixe_9(p);
    }
    if commence_par(p, "/fchier"@) {
        lemme_prefixe_10(p);
    }
    if commence_par(p, "/api/fchier"@) && p != "/api/fchier/attendre"@ {
        lemme_prefixe_11(p);
    }
    if commence_par(p, "/mess"@) {
        lemme_prefixe_12(p);
    }
    if commence_par(p, "/api/mess"@) {
        lemme_prefixe_13(p);
    }
    if commence_par(p, "/p2p/"@) && p != "/p2p/sso"@ && p != "/p2p/sso/etat"@ {
        lemme_prefixe_14(p);
    }
    if commence_par(p, "/neut/"@) {
        lemme_prefixe_15(p);
    }
    if commence_par(p, "/viso"@) {
        lemme_prefixe_16(p);
    }
    if commence_par(p, "/api/viso"@) {
        lemme_prefixe_17(p);
    }
    if commence_par(p, "/sitec"@) {
        lemme_prefixe_18(p);
    }
    if commence_par(p, "/api/sitec"@) {
        lemme_prefixe_19(p);
    }
    if commence_par(p, "/page/"@) {
        lemme_prefixe_20(p);
    }
    if commence_par(p, "/recherche"@) {
        lemme_prefixe_21(p);
    }
    if commence_par(p, "/api/recherche"@) {
        lemme_prefixe_22(p);
    }
}

proof fn lemme_prefixe_0(p: Seq<char>)
    requires
        commence_par(p, "/api/account"@),
    ensures
        route_de(p) == Route::Compte,
{
    lemme_longueurs_routes();
    reveal_strlit("/api/account");
    assert(p.subrange(0, 12) == "/api/account"@);
    reveal_strlit("/login/login");
    assert(p[1] == p.subrange(0, 12)[1] && "/login/login"@[1] != "/api/account"@[1]);
    reveal_strlit("/login/login.php");
    assert(p[1] == p.subrange(0, 12)[1] && "/login/login.php"@[1] != "/api/account"@[1]);
    reveal_strlit("/login/first_setup");
    assert(p[1] == p.subrange(0, 12)[1] && "/login/first_setup"@[1] != "/api/account"@[1]);
    reveal_strlit("/api/login/config");
    assert(p[5] == p.subrange(0, 12)[5] && "/api/login/config"@[5] != "/api/account"@[5]);
    reveal_strlit("/login/account");
    assert(p[1] == p.subrange(0, 12)[1] && "/login/account"@[1] != "/api/account"@[1]);
    reveal_strlit("/login/account/");
    assert(p[1] == p.subrange(0, 12)[1] && "/login/account/"@[1] != "/api/account"@[1]);
}

proof fn lemme_prefixe_1(p: Seq<char>)
    requires
        commence_par(p, "/autologin/"@),
        p != "/autologin/"@,
    ensures
        route_de(p) == Route::Autologin,
{
    lemme_longueurs_routes();
    reveal_strlit("/autologin/");
    assert(p.subrange(0, 11) == "/autologin/"@);
    reveal_strlit("/login/login");
    assert(p[1] == p.subrange(0, 11)[1] && "/login/login"@[1] != "/autologin/"@[1]);
    reveal_strlit("/login/login.php");
    assert(p[1] == p.subrange(0, 11)[1] && "/login/login.php"@[1] != "/autologin/"@[1]);
    reveal_strlit("/login/first_setup");
    assert(p[1] == p.subrange(0, 11)[1] && "/login/first_setup"@[1] != "/autologin/"@[1]);
    reveal_strlit("/api/login/config");
    assert(p[2] == p.subrange(0, 11)[2] && "/api/login/config"@[2] != "/autologin/"@[2]);
    reveal_strlit("/login/account");
    assert(p[1] == p.subrange(0, 11)[1] && "/login/account"@[1] != "/autologin/"@[1]);
    reveal_strlit("/login/account/");
    assert(p[1] == p.subrange(0, 11)[1] && "/login/account/"@[1] != "/autologin/"@[1]);
    reveal_strlit("/api/account");
    assert(p[2] == p.subrange(0, 11)[2] && "/api/account"@[2] != "/autologin/"@[2]);
    if p.len() >= 12 {
        assert(p.subrange(0, 12)[2] == p[2]);
    }
    reveal_strlit("/login/logout");
    assert(p[1] == p.subrange(0, 11)[1] && "/login/logout"@[1] != "/autologin/"@[1]);
    reveal_strlit("/login/logout/");
    assert(p[1] == p.subrange(0, 11)[1] && "/login/logout/"@[1] != "/autologin/"@[1]);
}

proof fn lemme_prefixe_2(p: Seq<char>)
    requires
        commence_par(p, "/api/appareil"@),
    ensures
        route_de(p) == Route::Appareil,
{
    lemme_longueurs_routes();
    reveal_strlit("/api/appareil");
    assert(p.subrange(0, 13) == "/api/appareil"@);
    reveal_strlit("/login/login.php");
    assert(p[1] == p.subrange(0, 13)[1] && "/login/login.php"@[1] != "/api/appareil"@[1]);
    reveal_strlit("/login/first_setup");
    assert(p[1] == p.subrange(0, 13)[1] && "/login/first_setup"@[1] != "/api/appareil"@[1]);
    reveal_strlit("/api/login/config");
    assert(p[5] == p.subrange(0, 13)[5] && "/api/login/config"@[5] != "/api/appareil"@[5]);
    reveal_strlit("/login/account");
    assert(p[1] == p.subrange(0, 13)[1] && "/login/account"@[1] != "/api/appareil"@[1]);
    reveal_strlit("/login/account/");
    assert(p[1] == p.subrange(0, 13)[1] && "/login/account/"@[1] != "/api/appareil"@[1]);
    reveal_strlit("/api/account");
    assert(p[6] == p.subrange(0, 13)[6] && "/api/account"@[6] != "/api/appareil"@[6]);
    if p.len() >= 12 {
        assert(p.subrange(0, 12)[6] == p[6]);
    }
    reveal_strlit("/login/logout");
    assert(p[1] == p.subrange(0, 13)[1] && "/login/logout"@[1] != "/api/appareil"@[1]);
    reveal_strlit("/login/logout/");
    assert(p[1] == p.subrange(0, 13)[1] && "/login/logout/"@[1] != "/api/appareil"@[1]);
    reveal_strlit("/autologin/");
    assert(p[2] == p.subrange(0, 13)[2] && "/autologin/"@[2] != "/api/appareil"@[2]);
    if p.len() >= 11 {
        assert(p.subrange(0, 11)[2] == p[2]);
    }
    reveal_strlit("/login/autologin");
    assert(p[1] == p.subrange(0, 13)[1] && "/login/autologin"@[1] != "/api/appareil"@[1]);
    reveal_strlit("/login/autologin/");
    assert(p[1] == p.subrange(0, 13)[1] && "/login/autologin/"@[1] != "/api/appareil"@[1]);
}

proof fn lemme_prefixe_3(p: Seq<char>)
    requires
        commence_par(p, "/api/dashboard"@),
    ensures
        route_de(p) == Route::TableauDeBord,
{
    lemme_longueurs_routes();
    reveal_strlit("/api/dashboard");
    assert(p.subrange(0, 14) == "/api/dashboard"@);
    reveal_strlit("/login/login.php");
    assert(p[1] == p.subrange(0, 14)[1] && "/login/login.php"@[1] != "/api/dashboard"@[1]);
    reveal_strlit("/login/first_setup");
    assert(p[1] == p.subrange(0, 14)[1] && "/login/first_setup"@[1] != "/api/dashboard"@[1]);
    reveal_strlit("/api/login/config");
    assert(p[5] == p.subrange(0, 14)[5] && "/api/login/config"@[5] != "/api/dashboard"@[5]);
    reveal_strlit("/login/account");
    assert(p[1] == p.subrange(0, 14)[1] && "/login/account"@[1] != "/api/dashboard"@[1]);
    reveal_strlit("/login/account/");
    assert(p[1] == p.subrange(0, 14)[1] && "/login/account/"@[1] != "/api/dashboard"@[1]);
    reveal_strlit("/api/account");
    assert(p[5] == p.subrange(0, 14)[5] && "/api/account"@[5] != "/api/dashboard"@[5]);
    if p.len() >= 12 {
        assert(p.subrange(0, 12)[5] == p[5]);
    }
    reveal_strlit("/login/logout/");
    assert(p[1] == p.subrange(0, 14)[1] && "/login/logout/"@[1] != "/api/dashboard"@[1]);
    reveal_strlit("/autologin/");
    assert(p[2] == p.subrange(0, 14)[2] && "/autologin/"@[2] != "/api/dashboard"@[2]);
    if p.len() >= 11 {
        assert(p.subrange(0, 11)[2] == p[2]);
    }
    reveal_strlit("/login/autologin");
    assert(p[1] == p.subrange(0, 14)[1] && "/login/autologin"@[1] != "/api/dashboard"@[1]);
    reveal_strlit("/login/autologin/");
    assert(p[1] == p.subrange(0, 14)[1] && "/login/autologin/"@[1] != "/api/dashboard"@[1]);
    reveal_strlit("/api/appareil");
    assert(p[5] == p.subrange(0, 14)[5] && "/api/appareil"@[5] != "/api/dashboard"@[5]);
    if p.len() >= 13 {
        assert(p.subrange(0, 13)[5] == p[5]);
    }
    reveal_strlit("/autoriser-appareil");
    assert(p[2] == p.subrange(0, 14)[2] && "/autoriser-appareil"@[2] != "/api/dashboard"@[2]);
    reveal_strlit("/autoriser-appareil/");
    assert(p[2] == p.subrange(0, 14)[2] && "/autoriser-appareil/"@[2] != "/api/dashboard"@[2]);
}

proof fn lemme_prefixe_4(p: Seq<char>)
    requires
        commence_par(p, "/admin"@),
    ensures
        route_de(p) == Route::Admin,
{
    lemme_longueurs_routes();
    reveal_strlit("/admin");
    assert(p.subrange(0, 6) == "/admin"@);
    reveal_strlit("/login");
    assert(p[1] == p.subrange(0, 6)[1] && "/login"@[1] != "/admin"@[1]);
    reveal_strlit("/login/");
    assert(p[1] == p.subrange(0, 6)[1] && "/login/"@[1] != "/admin"@[1]);
    reveal_strlit("/login/login");
    assert(p[1] == p.subrange(0, 6)[1] && "/login/login"@[1] != "/admin"@[1]);
    reveal_strlit("/login/login.php");
    assert(p[1] == p.subrange(0, 6)[1] && "/login/login.php"@[1] != "/admin"@[1]);
    reveal_strlit("/login/first_setup");
    assert(p[1] == p.subrange(0, 6)[1] && "/login/first_setup"@[1] != "/admin"@[1]);
    reveal_strlit("/api/login/config");
    assert(p[2] == p.subrange(0, 6)[2] && "/api/login/config"@[2] != "/admin"@[2]);
    reveal_strlit("/login/account");
    assert(p[1] == p.subrange(0, 6)[1] && "/login/account"@[1] != "/admin"@[1]);
    reveal_strlit("/login/account/");
    assert(p[1] == p.subrange(0, 6)[1] && "/login/account/"@[1] != "/admin"@[1]);
    reveal_strlit("/api/account");
    assert(p[2] == p.subrange(0, 6)[2] && "/api/account"@[2] != "/admin"@[2]);
    if p.len() >= 12 {
        assert(p.subrange(0, 12)[2] == p[2]);
    }
    reveal_strlit("/logout");
    assert(p[1] == p.subrange(0, 6)[1] && "/logout"@[1] != "/admin"@[1]);
    reveal_strlit("/logout/");
    assert(p[1] == p.subrange(0, 6)[1] && "/logout/"@[1] != "/admin"@[1]);
    reveal_strlit("/login/logout");
    assert(p[1] == p.subrange(0, 6)[1] && "/login/logout"@[1] != "/admin"@[1]);
    reveal_strlit("/login/logout/");
    assert(p[1] == p.subrange(0, 6)[1] && "/login/logout/"@[1] != "/admin"@[1]);
    reveal_strlit("/autologin");
    assert(p[2] == p.subrange(0, 6)[2] && "/autologin"@[2] != "/admin"@[2]);
    reveal_strlit("/autologin/");
    assert(p[2] == p.subrange(0, 6)[2] && "/autologin/"@[2] != "/admin"@[2]);
    reveal_strlit("/autologin/");
    assert(p[2] == p.subrange(0, 6)[2] && "/autologin/"@[2] != "/admin"@[2]);
    if p.len() >= 11 {
        assert(p.subrange(0, 11)[2] == p[2]);
    }
    reveal_strlit("/login/autologin");
    assert(p[1] == p.subrange(0, 6)[1] && "/login/autologin"@[1] != "/admin"@[1]);
    reveal_strlit("/login/autologin/");
    assert(p[1] == p.subrange(0, 6)[1] && "/login/autologin/"@[1] != "/admin"@[1]);
    reveal_strlit("/api/appareil");
    assert(p[2] == p.subrange(0, 6)[2] && "/api/appareil"@[2] != "/admin"@[2]);
    if p.len() >= 13 {
        assert(p.subrange(0, 13)[2] == p[2]);
    }
    reveal_strlit("/autoriser-appareil");
    assert(p[2] == p.subrange(0, 6)[2] && "/autoriser-appareil"@[2] != "/admin"@[2]);
    reveal_strlit("/autoriser-appareil/");
    assert(p[2] == p.subrange(0, 6)[2] && "/autoriser-appareil/"@[2] != "/admin"@[2]);
    reveal_strlit("/install.ps1");
    assert(p[1] == p.subrange(0, 6)[1] && "/install.ps1"@[1] != "/admin"@[1]);
    reveal_strlit("/api/dashboard");
    assert(p[2] == p.subrange(0, 6)[2] && "/api/dashboard"@[2] != "/admin"@[2]);
    if p.len() >= 14 {
        assert(p.subrange(0, 14)[2] == p[2]);
    }
    reveal_strlit("/dashboard");
    assert(p[1] == p.subrange(0, 6)[1] && "/dashboard"@[1] != "/admin"@[1]);
    reveal_strlit("/dashboard/");
    assert(p[1] == p.subrange(0, 6)[1] && "/dashboard/"@[1] != "/admin"@[1]);
    reveal_strlit("/login/dashboard");
    assert(p[1] == p.subrange(0, 6)[1] && "/login/dashboard"@[1] != "/admin"@[1]);
    reveal_strlit("/login/dashboard/");
    assert(p[1] == p.subrange(0, 6)[1] && "/login/dashboard/"@[1] != "/admin"@[1]);
}

proof fn lemme_prefixe_5(p: Seq<char>)
    requires
        commence_par(p, "/api/admin"@),
    ensures
        route_de(p) == Route::Admin,
{
    lemme_longueurs_routes();
    reveal_strlit("/api/admin");
    assert(p.subrange(0, 10) == "/api/admin"@);
    reveal_strlit("/login/login");
    assert(p[1] == p.subrange(0, 10)[1] && "/login/login"@[1] != "/api/admin"@[1]);
    reveal_strlit("/login/login.php");
    assert(p[1] == p.subrange(0, 10)[1] && "/login/login.php"@[1] != "/api/admin"@[1]);
    reveal_strlit("/login/first_setup");
    assert(p[1] == p.subrange(0, 10)[1] && "/login/first_setup"@[1] != "/api/admin"@[1]);
    reveal_strlit("/api/login/config");
    assert(p[5] == p.subrange(0, 10)[5] && "/api/login/config"@[5] != "/api/admin"@[5]);
    reveal_strlit("/login/account");
    assert(p[1] == p.subrange(0, 10)[1] && "/login/account"@[1] != "/api/admin"@[1]);
    reveal_strlit("/login/account/");
    assert(p[1] == p.subrange(0, 10)[1] && "/login/account/"@[1] != "/api/admin"@[1]);
    reveal_strlit("/api/account");
    assert(p[6] == p.subrange(0, 10)[6] && "/api/account"@[6] != "/api/admin"@[6]);
    if p.len() >= 12 {
        assert(p.subrange(0, 12)[6] == p[6]);
    }
    reveal_strlit("/login/logout");
    assert(p[1] == p.subrange(0, 10)[1] && "/login/logout"@[1] != "/api/admin"@[1]);
    reveal_strlit("/login/logout/");
    assert(p[1] == p.subrange(0, 10)[1] && "/login/logout/"@[1] != "/api/admin"@[1]);
    reveal_strlit("/autologin");
    assert(p[2] == p.subrange(0, 10)[2] && "/autologin"@[2] != "/api/admin"@[2]);
    reveal_strlit("/autologin/");
    assert(p[2] == p.subrange(0, 10)[2] && "/autologin/"@[2] != "/api/admin"@[2]);
    reveal_strlit("/autologin/");
    assert(p[2] == p.subrange(0, 10)[2] && "/autologin/"@[2] != "/api/admin"@[2]);
    if p.len() >= 11 {
        assert(p.subrange(0, 11)[2] == p[2]);
    }
    reveal_strlit("/login/autologin");
    assert(p[1] == p.subrange(0, 10)[1] && "/login/autologin"@[1] != "/api/admin"@[1]);
    reveal_strlit("/login/autologin/");
    assert(p[1] == p.subrange(0, 10)[1] && "/login/autologin/"@[1] != "/api/admin"@[1]);
    reveal_strlit("/api/appareil");
    assert(p[6] == p.subrange(0, 10)[6] && "/api/appareil"@[6] != "/api/admin"@[6]);
    if p.len() >= 13 {
        assert(p.subrange(0, 13)[6] == p[6]);
    }
    reveal_strlit("/autoriser-appareil");
    assert(p[2] == p.subrange(0, 10)[2] && "/autoriser-appareil"@[2] != "/api/admin"@[2]);
    reveal_strlit("/autoriser-appareil/");
    assert(p[2] == p.subrange(0, 10)[2] && "/autoriser-appareil/"@[2] != "/api/admin"@[2]);
    reveal_strlit("/install.ps1");
    assert(p[1] == p.subrange(0, 10)[1] && "/install.ps1"@[1] != "/api/admin"@[1]);
    reveal_strlit("/api/dashboard");
    assert(p[5] == p.subrange(0, 10)[5] && "/api/dashboard"@[5] != "/api/admin"@[5]);
    if p.len() >= 14 {
        assert(p.subrange(0, 14)[5] == p[5]);
    }
    reveal_strlit("/dashboard");
    assert(p[1] == p.subrange(0, 10)[1] && "/dashboard"@[1] != "/api/admin"@[1]);
    reveal_strlit("/dashboard/");
    assert(p[1] == p.subrange(0, 10)[1] && "/dashboard/"@[1] != "/api/admin"@[1]);
    reveal_strlit("/login/dashboard");
    assert(p[1] == p.subrange(0, 10)[1] && "/login/dashboard"@[1] != "/api/admin"@[1]);
    reveal_strlit("/login/dashboard/");
    assert(p[1] == p.subrange(0, 10)[1] && "/login/dashboard/"@[1] != "/api/admin"@[1]);
    reveal_strlit("/admin");
    assert(p[2] == p.subrange(0, 10)[2] && "/admin"@[2] != "/api/admin"@[2]);
    if p.len() >= 6 {
        assert(p.subrange(0, 6)[2] == p[2]);
    }
}

proof fn lemme_prefixe_6(p: Seq<char>)
    requires
        commence_par(p, "/ext/"@),
    ensures
        route_de(p) == Route::Extension,
{
    lemme_longueurs_routes();
    reveal_strlit("/ext/");
    assert(p.subrange(0, 5) == "/ext/"@);
    reveal_strlit("/login");
    assert(p[1] == p.subrange(0, 5)[1] && "/login"@[1] != "/ext/"@[1]);
    reveal_strlit("/login/");
    assert(p[1] == p.subrange(0, 5)[1] && "/login/"@[1] != "/ext/"@[1]);
    reveal_strlit("/login/login");
    assert(p[1] == p.subrange(0, 5)[1] && "/login/login"@[1] != "/ext/"@[1]);
    reveal_strlit("/login/login.php");
    assert(p[1] == p.subrange(0, 5)[1] && "/login/login.php"@[1] != "/ext/"@[1]);
    reveal_strlit("/login/first_setup");
    assert(p[1] == p.subrange(0, 5)[1] && "/login/first_setup"@[1] != "/ext/"@[1]);
    reveal_strlit("/api/login/config");
    assert(p[1] == p.subrange(0, 5)[1] && "/api/login/config"@[1] != "/ext/"@[1]);
    reveal_strlit("/login/account");
    assert(p[1] == p.subrange(0, 5)[1] && "/login/account"@[1] != "/ext/"@[1]);
    reveal_strlit("/login/account/");
    assert(p[1] == p.subrange(0, 5)[1] && "/login/account/"@[1] != "/ext/"@[1]);
    reveal_strlit("/api/account");
    assert(p[1] == p.subrange(0, 5)[1] && "/api/account"@[1] != "/ext/"@[1]);
    if p.len() >= 12 {
        assert(p.subrange(0, 12)[1] == p[1]);
    }
    reveal_strlit("/logout");
    assert(p[1] == p.subrange(0, 5)[1] && "/logout"@[1] != "/ext/"@[1]);
    reveal_strlit("/logout/");
    assert(p[1] == p.subrange(0, 5)[1] && "/logout/"@[1] != "/ext/"@[1]);
    reveal_strlit("/login/logout");
    assert(p[1] == p.subrange(0, 5)[1] && "/login/logout"@[1] != "/ext/"@[1]);
    reveal_strlit("/login/logout/");
    assert(p[1] == p.subrange(0, 5)[1] && "/login/logout/"@[1] != "/ext/"@[1]);
    reveal_strlit("/autologin");
    assert(p[1] == p.subrange(0, 5)[1] && "/autologin"@[1] != "/ext/"@[1]);
    reveal_strlit("/autologin/");
    assert(p[1] == p.subrange(0, 5)[1] && "/autologin/"@[1] != "/ext/"@[1]);
    reveal_strlit("/autologin/");
    assert(p[1] == p.subrange(0, 5)[1] && "/autologin/"@[1] != "/ext/"@[1]);
    if p.len() >= 11 {
        assert(p.subrange(0, 11)[1] == p[1]);
    }
    reveal_strlit("/login/autologin");
    assert(p[1] == p.subrange(0, 5)[1] && "/login/autologin"@[1] != "/ext/"@[1]);
    reveal_strlit("/login/autologin/");
    assert(p[1] == p.subrange(0, 5)[1] && "/login/autologin/"@[1] != "/ext/"@[1]);
    reveal_strlit("/api/appareil");
    assert(p[1] == p.subrange(0, 5)[1] && "/api/appareil"@[1] != "/ext/"@[1]);
    if p.len() >= 13 {
        assert(p.subrange(0, 13)[1] == p[1]);
    }
    reveal_strlit("/autoriser-appareil");
    assert(p[1] == p.subrange(0, 5)[1] && "/autoriser-appareil"@[1] != "/ext/"@[1]);
    reveal_strlit("/autoriser-appareil/");
    assert(p[1] == p.subrange(0, 5)[1] && "/autoriser-appareil/"@[1] != "/ext/"@[1]);
    reveal_strlit("/install.ps1");
    assert(p[1] == p.subrange(0, 5)[1] && "/install.ps1"@[1] != "/ext/"@[1]);
    reveal_strlit("/api/dashboard");
    assert(p[1] == p.subrange(0, 5)[1] && "/api/dashboard"@[1] != "/ext/"@[1]);
    if p.len() >= 14 {
        assert(p.subrange(0, 14)[1] == p[1]);
    }
    reveal_strlit("/dashboard");
    assert(p[1] == p.subrange(0, 5)[1] && "/dashboard"@[1] != "/ext/"@[1]);
    reveal_strlit("/dashboard/");
    assert(p[1] == p.subrange(0, 5)[1] && "/dashboard/"@[1] != "/ext/"@[1]);
    reveal_strlit("/login/dashboard");
    assert(p[1] == p.subrange(0, 5)[1] && "/login/dashboard"@[1] != "/ext/"@[1]);
    reveal_strlit("/login/dashboard/");
    assert(p[1] == p.subrange(0, 5)[1] && "/login/dashboard/"@[1] != "/ext/"@[1]);
    reveal_strlit("/admin");
    assert(p[1] == p.subrange(0, 5)[1] && "/admin"@[1] != "/ext/"@[1]);
    if p.len() >= 6 {
        assert(p.subrange(0, 6)[1] == p[1]);
    }
    reveal_strlit("/api/admin");
    assert(p[1] == p.subrange(0, 5)[1] && "/api/admin"@[1] != "/ext/"@[1]);
    if p.len() >= 10 {
        assert(p.subrange(0, 10)[1] == p[1]);
    }
}

proof fn lemme_prefixe_7(p: Seq<char>)
    requires
        commence_par(p, "/api/ext/"@),
    ensures
        route_de(p) == Route::Extension,
{
    lemme_longueurs_routes();
    reveal_strlit("/api/ext/");
    assert(p.subrange(0, 9) == "/api/ext/"@);
    reveal_strlit("/login/login");
    assert(p[1] == p.subrange(0, 9)[1] && "/login/login"@[1] != "/api/ext/"@[1]);
    reveal_strlit("/login/login.php");
    assert(p[1] == p.subrange(0, 9)[1] && "/login/login.php"@[1] != "/api/ext/"@[1]);
    reveal_strlit("/login/first_setup");
    assert(p[1] == p.subrange(0, 9)[1] && "/login/first_setup"@[1] != "/api/ext/"@[1]);
    reveal_strlit("/api/login/config");
    assert(p[5] == p.subrange(0, 9)[5] && "/api/login/config"@[5] != "/api/ext/"@[5]);
    reveal_strlit("/login/account");
    assert(p[1] == p.subrange(0, 9)[1] && "/login/account"@[1] != "/api/ext/"@[1]);
    reveal_strlit("/login/account/");
    assert(p[1] == p.subrange(0, 9)[1] && "/login/account/"@[1] != "/api/ext/"@[1]);
    reveal_strlit("/api/account");
    assert(p[5] == p.subrange(0, 9)[5] && "/api/account"@[5] != "/api/ext/"@[5]);
    if p.len() >= 12 {
        assert(p.subrange(0, 12)[5] == p[5]);
    }
    reveal_strlit("/login/logout");
    assert(p[1] == p.subrange(0, 9)[1] && "/login/logout"@[1] != "/api/ext/"@[1]);
    reveal_strlit("/login/logout/");
    assert(p[1] == p.subrange(0, 9)[1] && "/login/logout/"@[1] != "/api/ext/"@[1]);
    reveal_strlit("/autologin");
    assert(p[2] == p.subrange(0, 9)[2] && "/autologin"@[2] != "/api/ext/"@[2]);
    reveal_strlit("/autologin/");
    assert(p[2] == p.subrange(0, 9)[2] && "/autologin/"@[2] != "/api/ext/"@[2]);
    reveal_strlit("/autologin/");
    assert(p[2] == p.subrange(0, 9)[2] && "/autologin/"@[2] != "/api/ext/"@[2]);
    if p.len() >= 11 {
        assert(p.subrange(0, 11)[2] == p[2]);
    }
    reveal_strlit("/login/autologin");
    assert(p[1] == p.subrange(0, 9)[1] && "/login/autologin"@[1] != "/api/ext/"@[1]);
    reveal_strlit("/login/autologin/");
    assert(p[1] == p.subrange(0, 9)[1] && "/login/autologin/"@[1] != "/api/ext/"@[1]);
    reveal_strlit("/api/appareil");
    assert(p[5] == p.subrange(0, 9)[5] && "/api/appareil"@[5] != "/api/ext/"@[5]);
    if p.len() >= 13 {
        assert(p.subrange(0, 13)[5] == p[5]);
    }
    reveal_strlit("/autoriser-appareil");
    assert(p[2] == p.subrange(0, 9)[2] && "/autoriser-appareil"@[2] != "/api/ext/"@[2]);
    reveal_strlit("/autoriser-appareil/");
    assert(p[2] == p.subrange(0, 9)[2] && "/autoriser-appareil/"@[2] != "/api/ext/"@[2]);
    reveal_strlit("/install.ps1");
    assert(p[1] == p.subrange(0, 9)[1] && "/install.ps1"@[1] != "/api/ext/"@[1]);
    reveal_strlit("/api/dashboard");
    assert(p[5] == p.subrange(0, 9)[5] && "/api/dashboard"@[5] != "/api/ext/"@[5]);
    if p.len() >= 14 {
        assert(p.subrange(0, 14)[5] == p[5]);
    }
    reveal_strlit("/dashboard");
    assert(p[1] == p.subrange(0, 9)[1] && "/dashboard"@[1] != "/api/ext/"@[1]);
    reveal_strlit("/dashboard/");
    assert(p[1] == p.subrange(0, 9)[1] && "/dashboard/"@[1] != "/api/ext/"@[1]);
    reveal_strlit("/login/dashboard");
    assert(p[1] == p.subrange(0, 9)[1] && "/login/dashboard"@[1] != "/api/ext/"@[1]);
    reveal_strlit("/login/dashboard/");
    assert(p[1] == p.subrange(0, 9)[1] && "/login/dashboard/"@[1] != "/api/ext/"@[1]);
    reveal_strlit("/admin");
    assert(p[2] == p.subrange(0, 9)[2] && "/admin"@[2] != "/api/ext/"@[2]);
    if p.len() >= 6 {
        assert(p.subrange(0, 6)[2] == p[2]);
    }
    reveal_strlit("/api/admin");
    assert(p[5] == p.subrange(0, 9)[5] && "/api/admin"@[5] != "/api/ext/"@[5]);
    if p.len() >= 10 {
        assert(p.subrange(0, 10)[5] == p[5]);
    }
    reveal_strlit("/ext/");
    assert(p[1] == p.subrange(0, 9)[1] && "/ext/"@[1] != "/api/ext/"@[1]);
    if p.len() >= 5 {
        assert(p.subrange(0, 5)[1] == p[1]);
    }
}

proof fn lemme_prefixe_8(p: Seq<char>)
    requires
        commence_par(p, "/partage/"@),
    ensures
        route_de(p) == Route::PartagePublic,
{
    lemme_longueurs_routes();
    reveal_strlit("/partage/");
    assert(p.subrange(0, 9) == "/partage/"@);
    reveal_strlit("/login/login");
    assert(p[1] == p.subrange(0, 9)[1] && "/login/login"@[1] != "/partage/"@[1]);
    reveal_strlit("/login/login.php");
    assert(p[1] == p.subrange(0, 9)[1] && "/login/login.php"@[1] != "/partage/"@[1]);
    reveal_strlit("/login/first_setup");
    assert(p[1] == p.subrange(0, 9)[1] && "/login/first_setup"@[1] != "/partage/"@[1]);
    reveal_strlit("/api/login/config");
    assert(p[1] == p.subrange(0, 9)[1] && "/api/login/config"@[1] != "/partage/"@[1]);
    reveal_strlit("/login/account");
    assert(p[1] == p.subrange(0, 9)[1] && "/login/account"@[1] != "/partage/"@[1]);
    reveal_strlit("/login/account/");
    assert(p[1] == p.subrange(0, 9)[1] && "/login/account/"@[1] != "/partage/"@[1]);
    reveal_strlit("/api/account");
    assert(p[1] == p.subrange(0, 9)[1] && "/api/account"@[1] != "/partage/"@[1]);
    if p.len() >= 12 {
        assert(p.subrange(0, 12)[1] == p[1]);
    }
    reveal_strlit("/login/logout");
    assert(p[1] == p.subrange(0, 9)[1] && "/login/logout"@[1] != "/partage/"@[1]);
    reveal_strlit("/login/logout/");
    assert(p[1] == p.subrange(0, 9)[1] && "/login/logout/"@[1] != "/partage/"@[1]);
    reveal_strlit("/autologin");
    assert(p[1] == p.subrange(0, 9)[1] && "/autologin"@[1] != "/partage/"@[1]);
    reveal_strlit("/autologin/");
    assert(p[1] == p.subrange(0, 9)[1] && "/autologin/"@[1] != "/partage/"@[1]);
    reveal_strlit("/autologin/");
    assert(p[1] == p.subrange(0, 9)[1] && "/autologin/"@[1] != "/partage/"@[1]);
    if p.len() >= 11 {
        assert(p.subrange(0, 11)[1] == p[1]);
    }
    reveal_strlit("/login/autologin");
    assert(p[1] == p.subrange(0, 9)[1] && "/login/autologin"@[1] != "/partage/"@[1]);
    reveal_strlit("/login/autologin/");
    assert(p[1] == p.subrange(0, 9)[1] && "/login/autologin/"@[1] != "/partage/"@[1]);
    reveal_strlit("/api/appareil");
    assert(p[1] == p.subrange(0, 9)[1] && "/api/appareil"@[1] != "/partage/"@[1]);
    if p.len() >= 13 {
        assert(p.subrange(0, 13)[1] == p[1]);
    }
    reveal_strlit("/autoriser-appareil");
    assert(p[1] == p.subrange(0, 9)[1] && "/autoriser-appareil"@[1] != "/partage/"@[1]);
    reveal_strlit("/autoriser-appareil/");
    assert(p[1] == p.subrange(0, 9)[1] && "/autoriser-appareil/"@[1] != "/partage/"@[1]);
    reveal_strlit("/install.ps1");
    assert(p[1] == p.subrange(0, 9)[1] && "/install.ps1"@[1] != "/partage/"@[1]);
    reveal_strlit("/api/dashboard");
    assert(p[1] == p.subrange(0, 9)[1] && "/api/dashboard"@[1] != "/partage/"@[1]);
    if p.len() >= 14 {
        assert(p.subrange(0, 14)[1] == p[1]);
    }
    reveal_strlit("/dashboard");
    assert(p[1] == p.subrange(0, 9)[1] && "/dashboard"@[1] != "/partage/"@[1]);
    reveal_strlit("/dashboard/");
    assert(p[1] == p.subrange(0, 9)[1] && "/dashboard/"@[1] != "/partage/"@[1]);
    reveal_strlit("/login/dashboard");
    assert(p[1] == p.subrange(0, 9)[1] && "/login/dashboard"@[1] != "/partage/"@[1]);
    reveal_strlit("/login/dashboard/");
    assert(p[1] == p.subrange(0, 9)[1] && "/login/dashboard/"@[1] != "/partage/"@[1]);
    reveal_strlit("/admin");
    assert(p[1] == p.subrange(0, 9)[1] && "/admin"@[1] != "/partage/"@[1]);
    if p.len() >= 6 {
        assert(p.subrange(0, 6)[1] == p[1]);
    }
    reveal_strlit("/api/admin");
    assert(p[1] == p.subrange(0, 9)[1] && "/api/admin"@[1] != "/partage/"@[1]);
    if p.len() >= 10 {
        assert(p.subrange(0, 10)[1] == p[1]);
    }
    reveal_strlit("/ext/");
    assert(p[1] == p.subrange(0, 9)[1] && "/ext/"@[1] != "/partage/"@[1]);
    if p.len() >= 5 {
        assert(p.subrange(0, 5)[1] == p[1]);
    }
    reveal_strlit("/api/ext/");
    assert(p[1] == p.subrange(0, 9)[1] && "/api/ext/"@[1] != "/partage/"@[1]);
    if p.len() >= 9 {
        assert(p.subrange(0, 9)[1] == p[1]);
    }
    reveal_strlit("/api/fchier/attendre");
    assert(p[1] == p.subrange(0, 9)[1] && "/api/fchier/attendre"@[1] != "/partage/"@[1]);
}

proof fn lemme_prefixe_9(p: Seq<char>)
    requires
        commence_par(p, "/api/partage/"@),
    ensures
        route_de(p) == Route::PartagePublic,
{
    lemme_longueurs_routes();
    reveal_strlit("/api/partage/");
    assert(p.subrange(0, 13) == "/api/partage/"@);
    reveal_strlit("/login/login.php");
    assert(p[1] == p.subrange(0, 13)[1] && "/login/login.php"@[1] != "/api/partage/"@[1]);
    reveal_strlit("/login/first_setup");
    assert(p[1] == p.subrange(0, 13)[1] && "/login/first_setup"@[1] != "/api/partage/"@[1]);
    reveal_strlit("/api/login/config");
    assert(p[5] == p.subrange(0, 13)[5] && "/api/login/config"@[5] != "/api/partage/"@[5]);
    reveal_strlit("/login/account");
    assert(p[1] == p.subrange(0, 13)[1] && "/login/account"@[1] != "/api/partage/"@[1]);
    reveal_strlit("/login/account/");
    assert(p[1] == p.subrange(0, 13)[1] && "/login/account/"@[1] != "/api/partage/"@[1]);
    reveal_strlit("/api/account");
    assert(p[5] == p.subrange(0, 13)[5] && "/api/account"@[5] != "/api/partage/"@[5]);
    if p.len() >= 12 {
        assert(p.subrange(0, 12)[5] == p[5]);
    }
    reveal_strlit("/login/logout");
    assert(p[1] == p.subrange(0, 13)[1] && "/login/logout"@[1] != "/api/partage/"@[1]);
    reveal_strlit("/login/logout/");
    assert(p[1] == p.subrange(0, 13)[1] && "/login/logout/"@[1] != "/api/partage/"@[1]);
    reveal_strlit("/autologin/");
    assert(p[2] == p.subrange(0, 13)[2] && "/autologin/"@[2] != "/api/partage/"@[2]);
    if p.len() >= 11 {
        assert(p.subrange(0, 11)[2] == p[2]);
    }
    reveal_strlit("/login/autologin");
    assert(p[1] == p.subrange(0, 13)[1] && "/login/autologin"@[1] != "/api/partage/"@[1]);
    reveal_strlit("/login/autologin/");
    assert(p[1] == p.subrange(0, 13)[1] && "/login/autologin/"@[1] != "/api/partage/"@[1]);
    reveal_strlit("/api/appareil");
    assert(p[5] == p.subrange(0, 13)[5] && "/api/appareil"@[5] != "/api/partage/"@[5]);
    if p.len() >= 13 {
        assert(p.subrange(0, 13)[5] == p[5]);
    }
    reveal_strlit("/autoriser-appareil");
    assert(p[2] == p.subrange(0, 13)[2] && "/autoriser-appareil"@[2] != "/api/partage/"@[2]);
    reveal_strlit("/autoriser-appareil/");
    assert(p[2] == p.subrange(0, 13)[2] && "/autoriser-appareil/"@[2] != "/api/partage/"@[2]);
    reveal_strlit("/api/dashboard");
    assert(p[5] == p.subrange(0, 13)[5] && "/api/dashboard"@[5] != "/api/partage/"@[5]);
    if p.len() >= 14 {
        assert(p.subrange(0, 14)[5] == p[5]);
    }
    reveal_strlit("/login/dashboard");
    assert(p[1] == p.subrange(0, 13)[1] && "/login/dashboard"@[1] != "/api/partage/"@[1]);
    reveal_strlit("/login/dashboard/");
    assert(p[1] == p.subrange(0, 13)[1] && "/login/dashboard/"@[1] != "/api/partage/"@[1]);
    reveal_strlit("/admin");
    assert(p[2] == p.subrange(0, 13)[2] && "/admin"@[2] != "/api/partage/"@[2]);
    if p.len() >= 6 {
        assert(p.subrange(0, 6)[2] == p[2]);
    }
    reveal_strlit("/api/admin");
    assert(p[5] == p.subrange(0, 13)[5] && "/api/admin"@[5] != "/api/partage/"@[5]);
    if p.len() >= 10 {
        assert(p.subrange(0, 10)[5] == p[5]);
    }
    reveal_strlit("/ext/");
    assert(p[1] == p.subrange(0, 13)[1] && "/ext/"@[1] != "/api/partage/"@[1]);
    if p.len() >= 5 {
        assert(p.subrange(0, 5)[1] == p[1]);
    }
    reveal_strlit("/api/ext/");
    assert(p[5] == p.subrange(0, 13)[5] && "/api/ext/"@[5] != "/api/partage/"@[5]);
    if p.len() >= 9 {
        assert(p.subrange(0, 9)[5] == p[5]);
    }
    reveal_strlit("/api/fchier/attendre");
    assert(p[5] == p.subrange(0, 13)[5] && "/api/fchier/attendre"@[5] != "/api/partage/"@[5]);
    reveal_strlit("/partage/");
    assert(p[1] == p.subrange(0, 13)[1] && "/partage/"@[1] != "/api/partage/"@[1]);
    if p.len() >= 9 {
        assert(p.subrange(0, 9)[1] == p[1]);
    }
}

proof fn lemme_prefixe_10(p: Seq<char>)
    requires
        commence_par(p, "/fchier"@),
    ensures
        route_de(p) == Route::Fichiers,
{
    lemme_longueurs_routes();
    reveal_strlit("/fchier");
    assert(p.subrange(0, 7) == "/fchier"@);
    reveal_strlit("/login/");
    assert(p[1] == p.subrange(0, 7)[1] && "/login/"@[1] != "/fchier"@[1]);
    reveal_strlit("/login/login");
    assert(p[1] == p.subrange(0, 7)[1] && "/login/login"@[1] != "/fchier"@[1]);
    reveal_strlit("/login/login.php");
    assert(p[1] == p.subrange(0, 7)[1] && "/login/login.php"@[1] != "/fchier"@[1]);
    reveal_strlit("/login/first_setup");
    assert(p[1] == p.subrange(0, 7)[1] && "/login/first_setup"@[1] != "/fchier"@[1]);
    reveal_strlit("/api/login/config");
    assert(p[1] == p.subrange(0, 7)[1] && "/api/login/config"@[1] != "/fchier"@[1]);
    reveal_strlit("/login/account");
    assert(p[1] == p.subrange(0, 7)[1] && "/login/account"@[1] != "/fchier"@[1]);
    reveal_strlit("/login/account/");
    assert(p[1] == p.subrange(0, 7)[1] && "/login/account/"@[1] != "/fchier"@[1]);
    reveal_strlit("/api/account");
    assert(p[1] == p.subrange(0, 7)[1] && "/api/account"@[1] != "/fchier"@[1]);
    if p.len() >= 12 {
        assert(p.subrange(0, 12)[1] == p[1]);
    }
    reveal_strlit("/logout");
    assert(p[1] == p.subrange(0, 7)[1] && "/logout"@[1] != "/fchier"@[1]);
    reveal_strlit("/logout/");
    assert(p[1] == p.subrange(0, 7)[1] && "/logout/"@[1] != "/fchier"@[1]);
    reveal_strlit("/login/logout");
    assert(p[1] == p.subrange(0, 7)[1] && "/login/logout"@[1] != "/fchier"@[1]);
    reveal_strlit("/login/logout/");
    assert(p[1] == p.subrange(0, 7)[1] && "/login/logout/"@[1] != "/fchier"@[1]);
    reveal_strlit("/autologin");
    assert(p[1] == p.subrange(0, 7)[1] && "/autologin"@[1] != "/fchier"@[1]);
    reveal_strlit("/autologin/");
    assert(p[1] == p.subrange(0, 7)[1] && "/autologin/"@[1] != "/fchier"@[1]);
    reveal_strlit("/autologin/");
    assert(p[1] == p.subrange(0, 7)[1] && "/autologin/"@[1] != "/fchier"@[1]);
    if p.len() >= 11 {
        assert(p.subrange(0, 11)[1] == p[1]);
    }
    reveal_strlit("/login/autologin");
    assert(p[1] == p.subrange(0, 7)[1] && "/login/autologin"@[1] != "/fchier"@[1]);
    reveal_strlit("/login/autologin/");
    assert(p[1] == p.subrange(0, 7)[1] && "/login/autologin/"@[1] != "/fchier"@[1]);
    reveal_strlit("/api/appareil");
    assert(p[1] == p.subrange(0, 7)[1] && "/api/appareil"@[1] != "/fchier"@[1]);
    if p.len() >= 13 {
        assert(p.subrange(0, 13)[1] == p[1]);
    }
    reveal_strlit("/autoriser-appareil");
    assert(p[1] == p.subrange(0, 7)[1] && "/autoriser-appareil"@[1] != "/fchier"@[1]);
    reveal_strlit("/autoriser-appareil/");
    assert(p[1] == p.subrange(0, 7)[1] && "/autoriser-appareil/"@[1] != "/fchier"@[1]);
    reveal_strlit("/install.ps1");
    assert(p[1] == p.subrange(0, 7)[1] && "/install.ps1"@[1] != "/fchier"@[1]);
    reveal_strlit("/api/dashboard");
    assert(p[1] == p.subrange(0, 7)[1] && "/api/dashboard"@[1] != "/fchier"@[1]);
    if p.len() >= 14 {
        assert(p.subrange(0, 14)[1] == p[1]);
    }
    reveal_strlit("/dashboard");
    assert(p[1] == p.subrange(0, 7)[1] && "/dashboard"@[1] != "/fchier"@[1]);
    reveal_strlit("/dashboard/");
    assert(p[1] == p.subrange(0, 7)[1] && "/dashboard/"@[1] != "/fchier"@[1]);
    reveal_strlit("/login/dashboard");
    assert(p[1] == p.subrange(0, 7)[1] && "/login/dashboard"@[1] != "/fchier"@[1]);
    reveal_strlit("/login/dashboard/");
    assert(p[1] == p.subrange(0, 7)[1] && "/login/dashboard/"@[1] != "/fchier"@[1]);
    reveal_strlit("/admin");
    assert(p[1] == p.subrange(0, 7)[1] && "/admin"@[1] != "/fchier"@[1]);
    if p.len() >= 6 {
        assert(p.subrange(0, 6)[1] == p[1]);
    }
    reveal_strlit("/api/admin");
    assert(p[1] == p.subrange(0, 7)[1] && "/api/admin"@[1] != "/fchier"@[1]);
    if p.len() >= 10 {
        assert(p.subrange(0, 10)[1] == p[1]);
    }
    reveal_strlit("/ext/");
    assert(p[1] == p.subrange(0, 7)[1] && "/ext/"@[1] != "/fchier"@[1]);
    if p.len() >= 5 {
        assert(p.subrange(0, 5)[1] == p[1]);
    }
    reveal_strlit("/api/ext/");
    assert(p[1] == p.subrange(0, 7)[1] && "/api/ext/"@[1] != "/fchier"@[1]);
    if p.len() >= 9 {
        assert(p.subrange(0, 9)[1] == p[1]);
    }
    reveal_strlit("/api/fchier/attendre");
    assert(p[1] == p.subrange(0, 7)[1] && "/api/fchier/attendre"@[1] != "/fchier"@[1]);
    reveal_strlit("/partage/");
    assert(p[1] == p.subrange(0, 7)[1] && "/partage/"@[1] != "/fchier"@[1]);
    if p.len() >= 9 {
        assert(p.subrange(0, 9)[1] == p[1]);
    }
    reveal_strlit("/api/partage/");
    assert(p[1] == p.subrange(0, 7)[1] && "/api/partage/"@[1] != "/fchier"@[1]);
    if p.len() >= 13 {
        assert(p.subrange(0, 13)[1] == p[1]);
    }
}

proof fn lemme_prefixe_11(p: Seq<char>)
    requires
        commence_par(p, "/api/fchier"@),
        p != "/api/fchier/attendre"@,
    ensures
        route_de(p) == Route::Fichiers,
{
    lemme_longueurs_routes();
    reveal_strlit("/api/fchier");
    assert(p.subrange(0, 11) == "/api/fchier"@);
    reveal_strlit("/login/login");
    assert(p[1] == p.subrange(0, 11)[1] && "/login/login"@[1] != "/api/fchier"@[1]);
    reveal_strlit("/login/login.php");
    assert(p[1] == p.subrange(0, 11)[1] && "/login/login.php"@[1] != "/api/fchier"@[1]);
    reveal_strlit("/login/first_setup");
    assert(p[1] == p.subrange(0, 11)[1] && "/login/first_setup"@[1] != "/api/fchier"@[1]);
    reveal_strlit("/api/login/config");
    assert(p[5] == p.subrange(0, 11)[5] && "/api/login/config"@[5] != "/api/fchier"@[5]);
    reveal_strlit("/login/account");
    assert(p[1] == p.subrange(0, 11)[1] && "/login/account"@[1] != "/api/fchier"@[1]);
    reveal_strlit("/login/account/");
    assert(p[1] == p.subrange(0, 11)[1] && "/login/account/"@[1] != "/api/fchier"@[1]);
    reveal_strlit("/api/account");
    assert(p[5] == p.subrange(0, 11)[5] && "/api/account"@[5] != "/api/fchier"@[5]);
    if p.len() >= 12 {
        assert(p.subrange(0, 12)[5] == p[5]);
    }
    reveal_strlit("/login/logout");
    assert(p[1] == p.subrange(0, 11)[1] && "/login/logout"@[1] != "/api/fchier"@[1]);
    reveal_strlit("/login/logout/");
    assert(p[1] == p.subrange(0, 11)[1] && "/login/logout/"@[1] != "/api/fchier"@[1]);
    reveal_strlit("/autologin/");
    assert(p[2] == p.subrange(0, 11)[2] && "/autologin/"@[2] != "/api/fchier"@[2]);
    reveal_strlit("/autologin/");
    assert(p[2] == p.subrange(0, 11)[2] && "/autologin/"@[2] != "/api/fchier"@[2]);
    if p.len() >= 11 {
        assert(p.subrange(0, 11)[2] == p[2]);
    }
    reveal_strlit("/login/autologin");
    assert(p[1] == p.subrange(0, 11)[1] && "/login/autologin"@[1] != "/api/fchier"@[1]);
    reveal_strlit("/login/autologin/");
    assert(p[1] == p.subrange(0, 11)[1] && "/login/autologin/"@[1] != "/api/fchier"@[1]);
    reveal_strlit("/api/appareil");
    assert(p[5] == p.subrange(0, 11)[5] && "/api/appareil"@[5] != "/api/fchier"@[5]);
    if p.len() >= 13 {
        assert(p.subrange(0, 13)[5] == p[5]);
    }
    reveal_strlit("/autoriser-appareil");
    assert(p[2] == p.subrange(0, 11)[2] && "/autoriser-appareil"@[2] != "/api/fchier"@[2]);
    reveal_strlit("/autoriser-appareil/");
    assert(p[2] == p.subrange(0, 11)[2] && "/autoriser-appareil/"@[2] != "/api/fchier"@[2]);
    reveal_strlit("/install.ps1");
    assert(p[1] == p.subrange(0, 11)[1] && "/install.ps1"@[1] != "/api/fchier"@[1]);
    reveal_strlit("/api/dashboard");
    assert(p[5] == p.subrange(0, 11)[5] && "/api/dashboard"@[5] != "/api/fchier"@[5]);
    if p.len() >= 14 {
        assert(p.subrange(0, 14)[5] == p[5]);
    }
    reveal_strlit("/dashboard/");
    assert(p[1] == p.subrange(0, 11)[1] && "/dashboard/"@[1] != "/api/fchier"@[1]);
    reveal_strlit("/login/dashboard");
    assert(p[1] == p.subrange(0, 11)[1] && "/login/dashboard"@[1] != "/api/fchier"@[1]);
    reveal_strlit("/login/dashboard/");
    assert(p[1] == p.subrange(0, 11)[1] && "/login/dashboard/"@[1] != "/api/fchier"@[1]);
    reveal_strlit("/admin");
    assert(p[2] == p.subrange(0, 11)[2] && "/admin"@[2] != "/api/fchier"@[2]);
    if p.len() >= 6 {
        assert(p.subrange(0, 6)[2] == p[2]);
    }
    reveal_strlit("/api/admin");
    assert(p[5] == p.subrange(0, 11)[5] && "/api/admin"@[5] != "/api/fchier"@[5]);
    if p.len() >= 10 {
        assert(p.subrange(0, 10)[5] == p[5]);
    }
    reveal_strlit("/ext/");
    assert(p[1] == p.subrange(0, 11)[1] && "/ext/"@[1] != "/api/fchier"@[1]);
    if p.len() >= 5 {
        assert(p.subrange(0, 5)[1] == p[1]);
    }
    reveal_strlit("/api/ext/");
    assert(p[5] == p.subrange(0, 11)[5] && "/api/ext/"@[5] != "/api/fchier"@[5]);
    if p.len() >= 9 {
        assert(p.subrange(0, 9)[5] == p[5]);
    }
    reveal_strlit("/partage/");
    assert(p[1] == p.subrange(0, 11)[1] && "/partage/"@[1] != "/api/fchier"@[1]);
    if p.len() >= 9 {
        assert(p.subrange(0, 9)[1] == p[1]);
    }
    reveal_strlit("/api/partage/");
    assert(p[5] == p.subrange(0, 11)[5] && "/api/partage/"@[5] != "/api/fchier"@[5]);
    if p.len() >= 13 {
        assert(p.subrange(0, 13)[5] == p[5]);
    }
    reveal_strlit("/fchier");
    assert(p[1] == p.subrange(0, 11)[1] && "/fchier"@[1] != "/api/fchier"@[1]);
    if p.len() >= 7 {
        assert(p.subrange(0, 7)[1] == p[1]);
    }
}

proof fn lemme_prefixe_12(p: Seq<char>)
    requires
        commence_par(p, "/mess"@),
    ensures
        route_de(p) == Route::Messagerie,
{
    lemme_longueurs_routes();
    reveal_strlit("/mess");
    assert(p.subrange(0, 5) == "/mess"@);
    reveal_strlit("/login");
    assert(p[1] == p.subrange(0, 5)[1] && "/login"@[1] != "/mess"@[1]);
    reveal_strlit("/login/");
    assert(p[1] == p.subrange(0, 5)[1] && "/login/"@[1] != "/mess"@[1]);
    reveal_strlit("/login/login");
    assert(p[1] == p.subrange(0, 5)[1] && "/login/login"@[1] != "/mess"@[1]);
    reveal_strlit("/login/login.php");
    assert(p[1] == p.subrange(0, 5)[1] && "/login/login.php"@[1] != "/mess"@[1]);
    reveal_strlit("/login/first_setup");
    assert(p[1] == p.subrange(0, 5)[1] && "/login/first_setup"@[1] != "/mess"@[1]);
    reveal_strlit("/api/login/config");
    assert(p[1] == p.subrange(0, 5)[1] && "/api/login/config"@[1] != "/mess"@[1]);
    reveal_strlit("/login/account");
    assert(p[1] == p.subrange(0, 5)[1] && "/login/account"@[1] != "/mess"@[1]);
    reveal_strlit("/login/account/");
    assert(p[1] == p.subrange(0, 5)[1] && "/login/account/"@[1] != "/mess"@[1]);
    reveal_strlit("/api/account");
    assert(p[1] == p.subrange(0, 5)[1] && "/api/account"@[1] != "/mess"@[1]);
    if p.len() >= 12 {
        assert(p.subrange(0, 12)[1] == p[1]);
    }
    reveal_strlit("/logout");
    assert(p[1] == p.subrange(0, 5)[1] && "/logout"@[1] != "/mess"@[1]);
    reveal_strlit("/logout/");
    assert(p[1] == p.subrange(0, 5)[1] && "/logout/"@[1] != "/mess"@[1]);
    reveal_strlit("/login/logout");
    assert(p[1] == p.subrange(0, 5)[1] && "/login/logout"@[1] != "/mess"@[1]);
    reveal_strlit("/login/logout/");
    assert(p[1] == p.subrange(0, 5)[1] && "/login/logout/"@[1] != "/mess"@[1]);
    reveal_strlit("/autologin");
    assert(p[1] == p.subrange(0, 5)[1] && "/autologin"@[1] != "/mess"@[1]);
    reveal_strlit("/autologin/");
    assert(p[1] == p.subrange(0, 5)[1] && "/autologin/"@[1] != "/mess"@[1]);
    reveal_strlit("/autologin/");
    assert(p[1] == p.subrange(0, 5)[1] && "/autologin/"@[1] != "/mess"@[1]);
    if p.len() >= 11 {
        assert(p.subrange(0, 11)[1] == p[1]);
    }
    reveal_strlit("/login/autologin");
    assert(p[1] == p.subrange(0, 5)[1] && "/login/autologin"@[1] != "/mess"@[1]);
    reveal_strlit("/login/autologin/");
    assert(p[1] == p.subrange(0, 5)[1] && "/login/autologin/"@[1] != "/mess"@[1]);
    reveal_strlit("/api/appareil");
    assert(p[1] == p.subrange(0, 5)[1] && "/api/appareil"@[1] != "/mess"@[1]);
    if p.len() >= 13 {
        assert(p.subrange(0, 13)[1] == p[1]);
    }
    reveal_strlit("/autoriser-appareil");
    assert(p[1] == p.subrange(0, 5)[1] && "/autoriser-appareil"@[1] != "/mess"@[1]);
    reveal_strlit("/autoriser-appareil/");
    assert(p[1] == p.subrange(0, 5)[1] && "/autoriser-appareil/"@[1] != "/mess"@[1]);
    reveal_strlit("/install.ps1");
    assert(p[1] == p.subrange(0, 5)[1] && "/install.ps1"@[1] != "/mess"@[1]);
    reveal_strlit("/api/dashboard");
    assert(p[1] == p.subrange(0, 5)[1] && "/api/dashboard"@[1] != "/mess"@[1]);
    if p.len() >= 14 {
        assert(p.subrange(0, 14)[1] == p[1]);
    }
    reveal_strlit("/dashboard");
    assert(p[1] == p.subrange(0, 5)[1] && "/dashboard"@[1] != "/mess"@[1]);
    reveal_strlit("/dashboard/");
    assert(p[1] == p.subrange(0, 5)[1] && "/dashboard/"@[1] != "/mess"@[1]);
    reveal_strlit("/login/dashboard");
    assert(p[1] == p.subrange(0, 5)[1] && "/login/dashboard"@[1] != "/mess"@[1]);
    reveal_strlit("/login/dashboard/");
    assert(p[1] == p.subrange(0, 5)[1] && "/login/dashboard/"@[1] != "/mess"@[1]);
    reveal_strlit("/admin");
    assert(p[1] == p.subrange(0, 5)[1] && "/admin"@[1] != "/mess"@[1]);
    if p.len() >= 6 {
        assert(p.subrange(0, 6)[1] == p[1]);
    }
    reveal_strlit("/api/admin");
    assert(p[1] == p.subrange(0, 5)[1] && "/api/admin"@[1] != "/mess"@[1]);
    if p.len() >= 10 {
        assert(p.subrange(0, 10)[1] == p[1]);
    }
    reveal_strlit("/ext/");
    assert(p[1] == p.subrange(0, 5)[1] && "/ext/"@[1] != "/mess"@[1]);
    if p.len() >= 5 {
        assert(p.subrange(0, 5)[1] == p[1]);
    }
    reveal_strlit("/api/ext/");
    assert(p[1] == p.subrange(0, 5)[1] && "/api/ext/"@[1] != "/mess"@[1]);
    if p.len() >= 9 {
        assert(p.subrange(0, 9)[1] == p[1]);
    }
    reveal_strlit("/api/fchier/attendre");
    assert(p[1] == p.subrange(0, 5)[1] && "/api/fchier/attendre"@[1] != "/mess"@[1]);
    reveal_strlit("/partage/");
    assert(p[1] == p.subrange(0, 5)[1] && "/partage/"@[1] != "/mess"@[1]);
    if p.len() >= 9 {
        assert(p.subrange(0, 9)[1] == p[1]);
    }
    reveal_strlit("/api/partage/");
    assert(p[1] == p.subrange(0, 5)[1] && "/api/partage/"@[1] != "/mess"@[1]);
    if p.len() >= 13 {
        assert(p.subrange(0, 13)[1] == p[1]);
    }
    reveal_strlit("/fchier");
    assert(p[1] == p.subrange(0, 5)[1] && "/fchier"@[1] != "/mess"@[1]);
    if p.len() >= 7 {
        assert(p.subrange(0, 7)[1] == p[1]);
    }
    reveal_strlit("/api/fchier");
    assert(p[1] == p.subrange(0, 5)[1] && "/api/fchier"@[1] != "/mess"@[1]);
    if p.len() >= 11 {
        assert(p.subrange(0, 11)[1] == p[1]);
    }
}

proof fn lemme_prefixe_13(p: Seq<char>)
    requires
        commence_par(p, "/api/mess"@),
    ensures
        route_de(p) == Route::Messagerie,
{
    lemme_longueurs_routes();
    reveal_strlit("/api/mess");
    assert(p.subrange(0, 9) == "/api/mess"@);
    reveal_strlit("/login/login");
    assert(p[1] == p.subrange(0, 9)[1] && "/login/login"@[1] != "/api/mess"@[1]);
    reveal_strlit("/login/login.php");
    assert(p[1] == p.subrange(0, 9)[1] && "/login/login.php"@[1] != "/api/mess"@[1]);
    reveal_strlit("/login/first_setup");
    assert(p[1] == p.subrange(0, 9)[1] && "/login/first_setup"@[1] != "/api/mess"@[1]);
    reveal_strlit("/api/login/config");
    assert(p[5] == p.subrange(0, 9)[5] && "/api/login/config"@[5] != "/api/mess"@[5]);
    reveal_strlit("/login/account");
    assert(p[1] == p.subrange(0, 9)[1] && "/login/account"@[1] != "/api/mess"@[1]);
    reveal_strlit("/login/account/");
    assert(p[1] == p.subrange(0, 9)[1] && "/login/account/"@[1] != "/api/mess"@[1]);
    reveal_strlit("/api/account");
    assert(p[5] == p.subrange(0, 9)[5] && "/api/account"@[5] != "/api/mess"@[5]);
    if p.len() >= 12 {
        assert(p.subrange(0, 12)[5] == p[5]);
    }
    reveal_strlit("/login/logout");
    assert(p[1] == p.subrange(0, 9)[1] && "/login/logout"@[1] != "/api/mess"@[1]);
    reveal_strlit("/login/logout/");
    assert(p[1] == p.subrange(0, 9)[1] && "/login/logout/"@[1] != "/api/mess"@[1]);
    reveal_strlit("/autologin");
    assert(p[2] == p.subrange(0, 9)[2] && "/autologin"@[2] != "/api/mess"@[2]);
    reveal_strlit("/autologin/");
    assert(p[2] == p.subrange(0, 9)[2] && "/autologin/"@[2] != "/api/mess"@[2]);
    reveal_strlit("/autologin/");
    assert(p[2] == p.subrange(0, 9)[2] && "/autologin/"@[2] != "/api/mess"@[2]);
    if p.len() >= 11 {
        assert(p.subrange(0, 11)[2] == p[2]);
    }
    reveal_strlit("/login/autologin");
    assert(p[1] == p.subrange(0, 9)[1] && "/login/autologin"@[1] != "/api/mess"@[1]);
    reveal_strlit("/login/autologin/");
    assert(p[1] == p.subrange(0, 9)[1] && "/login/autologin/"@[1] != "/api/mess"@[1]);
    reveal_strlit("/api/appareil");
    assert(p[5] == p.subrange(0, 9)[5] && "/api/appareil"@[5] != "/api/mess"@[5]);
    if p.len() >= 13 {
        assert(p.subrange(0, 13)[5] == p[5]);
    }
    reveal_strlit("/autoriser-appareil");
    assert(p[2] == p.subrange(0, 9)[2] && "/autoriser-appareil"@[2] != "/api/mess"@[2]);
    reveal_strlit("/autoriser-appareil/");
    assert(p[2] == p.subrange(0, 9)[2] && "/autoriser-appareil/"@[2] != "/api/mess"@[2]);
    reveal_strlit("/install.ps1");
    assert(p[1] == p.subrange(0, 9)[1] && "/install.ps1"@[1] != "/api/mess"@[1]);
    reveal_strlit("/api/dashboard");
    assert(p[5] == p.subrange(0, 9)[5] && "/api/dashboard"@[5] != "/api/mess"@[5]);
    if p.len() >= 14 {
        assert(p.subrange(0, 14)[5] == p[5]);
    }
    reveal_strlit("/dashboard");
    assert(p[1] == p.subrange(0, 9)[1] && "/dashboard"@[1] != "/api/mess"@[1]);
    reveal_strlit("/dashboard/");
    assert(p[1] == p.subrange(0, 9)[1] && "/dashboard/"@[1] != "/api/mess"@[1]);
    reveal_strlit("/login/dashboard");
    assert(p[1] == p.subrange(0, 9)[1] && "/login/dashboard"@[1] != "/api/mess"@[1]);
    reveal_strlit("/login/dashboard/");
    assert(p[1] == p.subrange(0, 9)[1] && "/login/dashboard/"@[1] != "/api/mess"@[1]);
    reveal_strlit("/admin");
    assert(p[2] == p.subrange(0, 9)[2] && "/admin"@[2] != "/api/mess"@[2]);
    if p.len() >= 6 {
        assert(p.subrange(0, 6)[2] == p[2]);
    }
    reveal_strlit("/api/admin");
    assert(p[5] == p.subrange(0, 9)[5] && "/api/admin"@[5] != "/api/mess"@[5]);
    if p.len() >= 10 {
        assert(p.subrange(0, 10)[5] == p[5]);
    }
    reveal_strlit("/ext/");
    assert(p[1] == p.subrange(0, 9)[1] && "/ext/"@[1] != "/api/mess"@[1]);
    if p.len() >= 5 {
        assert(p.subrange(0, 5)[1] == p[1]);
    }
    reveal_strlit("/api/ext/");
    assert(p[5] == p.subrange(0, 9)[5] && "/api/ext/"@[5] != "/api/mess"@[5]);
    if p.len() >= 9 {
        assert(p.subrange(0, 9)[5] == p[5]);
    }
    reveal_strlit("/api/fchier/attendre");
    assert(p[5] == p.subrange(0, 9)[5] && "/api/fchier/attendre"@[5] != "/api/mess"@[5]);
    reveal_strlit("/partage/");
    assert(p[1] == p.subrange(0, 9)[1] && "/partage/"@[1] != "/api/mess"@[1]);
    if p.len() >= 9 {
        assert(p.subrange(0, 9)[1] == p[1]);
    }
    reveal_strlit("/api/partage/");
    assert(p[5] == p.subrange(0, 9)[5] && "/api/partage/"@[5] != "/api/mess"@[5]);
    if p.len() >= 13 {
        assert(p.subrange(0, 13)[5] == p[5]);
    }
    reveal_strlit("/fchier");
    assert(p[1] == p.subrange(0, 9)[1] && "/fchier"@[1] != "/api/mess"@[1]);
    if p.len() >= 7 {
        assert(p.subrange(0, 7)[1] == p[1]);
    }
    reveal_strlit("/api/fchier");
    assert(p[5] == p.subrange(0, 9)[5] && "/api/fchier"@[5] != "/api/mess"@[5]);
    if p.len() >= 11 {
        assert(p.subrange(0, 11)[5] == p[5]);
    }
    reveal_strlit("/mess");
    assert(p[1] == p.subrange(0, 9)[1] && "/mess"@[1] != "/api/mess"@[1]);
    if p.len() >= 5 {
        assert(p.subrange(0, 5)[1] == p[1]);
    }
}

proof fn lemme_prefixe_14(p: Seq<char>)
    requires
        commence_par(p, "/p2p/"@),
        p != "/p2p/sso"@,
        p != "/p2p/sso/etat"@,
    ensures
        route_de(p) == Route::P2p,
{
    lemme_longueurs_routes();
    reveal_strlit("/p2p/");
    assert(p.subrange(0, 5) == "/p2p/"@);
    reveal_strlit("/login");
    assert(p[1] == p.subrange(0, 5)[1] && "/login"@[1] != "/p2p/"@[1]);
    reveal_strlit("/login/");
    assert(p[1] == p.subrange(0, 5)[1] && "/login/"@[1] != "/p2p/"@[1]);
    reveal_strlit("/login/login");
    assert(p[1] == p.subrange(0, 5)[1] && "/login/login"@[1] != "/p2p/"@[1]);
    reveal_strlit("/login/login.php");
    assert(p[1] == p.subrange(0, 5)[1] && "/login/login.php"@[1] != "/p2p/"@[1]);
    reveal_strlit("/login/first_setup");
    assert(p[1] == p.subrange(0, 5)[1] && "/login/first_setup"@[1] != "/p2p/"@[1]);
    reveal_strlit("/api/login/config");
    assert(p[1] == p.subrange(0, 5)[1] && "/api/login/config"@[1] != "/p2p/"@[1]);
    reveal_strlit("/login/account");
    assert(p[1] == p.subrange(0, 5)[1] && "/login/account"@[1] != "/p2p/"@[1]);
    reveal_strlit("/login/account/");
    assert(p[1] == p.subrange(0, 5)[1] && "/login/account/"@[1] != "/p2p/"@[1]);
    reveal_strlit("/api/account");
    assert(p[1] == p.subrange(0, 5)[1] && "/api/account"@[1] != "/p2p/"@[1]);
    if p.len() >= 12 {
        assert(p.subrange(0, 12)[1] == p[1]);
    }
    reveal_strlit("/logout");
    assert(p[1] == p.subrange(0, 5)[1] && "/logout"@[1] != "/p2p/"@[1]);
    reveal_strlit("/logout/");
    assert(p[1] == p.subrange(0, 5)[1] && "/logout/"@[1] != "/p2p/"@[1]);
    reveal_strlit("/login/logout");
    assert(p[1] == p.subrange(0, 5)[1] && "/login/logout"@[1] != "/p2p/"@[1]);
    reveal_strlit("/login/logout/");
    assert(p[1] == p.subrange(0, 5)[1] && "/login/logout/"@[1] != "/p2p/"@[1]);
    reveal_strlit("/autologin");
    assert(p[1] == p.subrange(0, 5)[1] && "/autologin"@[1] != "/p2p/"@[1]);
    reveal_strlit("/autologin/");
    assert(p[1] == p.subrange(0, 5)[1] && "/autologin/"@[1] != "/p2p/"@[1]);
    reveal_strlit("/autologin/");
    assert(p[1] == p.subrange(0, 5)[1] && "/autologin/"@[1] != "/p2p/"@[1]);
    if p.len() >= 11 {
        assert(p.subrange(0, 11)[1] == p[1]);
    }
    reveal_strlit("/login/autologin");
    assert(p[1] == p.subrange(0, 5)[1] && "/login/autologin"@[1] != "/p2p/"@[1]);
    reveal_strlit("/login/autologin/");
    assert(p[1] == p.subrange(0, 5)[1] && "/login/autologin/"@[1] != "/p2p/"@[1]);
    reveal_strlit("/api/appareil");
    assert(p[1] == p.subrange(0, 5)[1] && "/api/appareil"@[1] != "/p2p/"@[1]);
    if p.len() >= 13 {
        assert(p.subrange(0, 13)[1] == p[1]);
    }
    reveal_strlit("/autoriser-appareil");
    assert(p[1] == p.subrange(0, 5)[1] && "/autoriser-appareil"@[1] != "/p2p/"@[1]);
    reveal_strlit("/autoriser-appareil/");
    assert(p[1] == p.subrange(0, 5)[1] && "/autoriser-appareil/"@[1] != "/p2p/"@[1]);
    reveal_strlit("/install.ps1");
    assert(p[1] == p.subrange(0, 5)[1] && "/install.ps1"@[1] != "/p2p/"@[1]);
    reveal_strlit("/api/dashboard");
    assert(p[1] == p.subrange(0, 5)[1] && "/api/dashboard"@[1] != "/p2p/"@[1]);
    if p.len() >= 14 {
        assert(p.subrange(0, 14)[1] == p[1]);
    }
    reveal_strlit("/dashboard");
    assert(p[1] == p.subrange(0, 5)[1] && "/dashboard"@[1] != "/p2p/"@[1]);
    reveal_strlit("/dashboard/");
    assert(p[1] == p.subrange(0, 5)[1] && "/dashboard/"@[1] != "/p2p/"@[1]);
    reveal_strlit("/login/dashboard");
    assert(p[1] == p.subrange(0, 5)[1] && "/login/dashboard"@[1] != "/p2p/"@[1]);
    reveal_strlit("/login/dashboard/");
    assert(p[1] == p.subrange(0, 5)[1] && "/login/dashboard/"@[1] != "/p2p/"@[1]);
    reveal_strlit("/admin");
    assert(p[1] == p.subrange(0, 5)[1] && "/admin"@[1] != "/p2p/"@[1]);
    if p.len() >= 6 {
        assert(p.subrange(0, 6)[1] == p[1]);
    }
    reveal_strlit("/api/admin");
    assert(p[1] == p.subrange(0, 5)[1] && "/api/admin"@[1] != "/p2p/"@[1]);
    if p.len() >= 10 {
        assert(p.subrange(0, 10)[1] == p[1]);
    }
    reveal_strlit("/ext/");
    assert(p[1] == p.subrange(0, 5)[1] && "/ext/"@[1] != "/p2p/"@[1]);
    if p.len() >= 5 {
        assert(p.subrange(0, 5)[1] == p[1]);
    }
    reveal_strlit("/api/ext/");
    assert(p[1] == p.subrange(0, 5)[1] && "/api/ext/"@[1] != "/p2p/"@[1]);
    if p.len() >= 9 {
        assert(p.subrange(0, 9)[1] == p[1]);
    }
    reveal_strlit("/api/fchier/attendre");
    assert(p[1] == p.subrange(0, 5)[1] && "/api/fchier/attendre"@[1] != "/p2p/"@[1]);
    reveal_strlit("/partage/");
    assert(p[2] == p.subrange(0, 5)[2] && "/partage/"@[2] != "/p2p/"@[2]);
    if p.len() >= 9 {
        assert(p.subrange(0, 9)[2] == p[2]);
    }
    reveal_strlit("/api/partage/");
    assert(p[1] == p.subrange(0, 5)[1] && "/api/partage/"@[1] != "/p2p/"@[1]);
    if p.len() >= 13 {
        assert(p.subrange(0, 13)[1] == p[1]);
    }
    reveal_strlit("/fchier");
    assert(p[1] == p.subrange(0, 5)[1] && "/fchier"@[1] != "/p2p/"@[1]);
    if p.len() >= 7 {
        assert(p.subrange(0, 7)[1] == p[1]);
    }
    reveal_strlit("/api/fchier");
    assert(p[1] == p.subrange(0, 5)[1] && "/api/fchier"@[1] != "/p2p/"@[1]);
    if p.len() >= 11 {
        assert(p.subrange(0, 11)[1] == p[1]);
    }
    reveal_strlit("/mess");
    assert(p[1] == p.subrange(0, 5)[1] && "/mess"@[1] != "/p2p/"@[1]);
    if p.len() >= 5 {
        assert(p.subrange(0, 5)[1] == p[1]);
    }
    reveal_strlit("/api/mess");
    assert(p[1] == p.subrange(0, 5)[1] && "/api/mess"@[1] != "/p2p/"@[1]);
    if p.len() >= 9 {
        assert(p.subrange(0, 9)[1] == p[1]);
    }
}

proof fn lemme_prefixe_15(p: Seq<char>)
    requires
        commence_par(p, "/neut/"@),
    ensures
        route_de(p) == Route::P2p,
{
    lemme_longueurs_routes();
    reveal_strlit("/neut/");
    assert(p.subrange(0, 6) == "/neut/"@);
    reveal_strlit("/login");
    assert(p[1] == p.subrange(0, 6)[1] && "/login"@[1] != "/neut/"@[1]);
    reveal_strlit("/login/");
    assert(p[1] == p.subrange(0, 6)[1] && "/login/"@[1] != "/neut/"@[1]);
    reveal_strlit("/login/login");
    assert(p[1] == p.subrange(0, 6)[1] && "/login/login"@[1] != "/neut/"@[1]);
    reveal_strlit("/login/login.php");
    assert(p[1] == p.subrange(0, 6)[1] && "/login/login.php"@[1] != "/neut/"@[1]);
    reveal_strlit("/login/first_setup");
    assert(p[1] == p.subrange(0, 6)[1] && "/login/first_setup"@[1] != "/neut/"@[1]);
    reveal_strlit("/api/login/config");
    assert(p[1] == p.subrange(0, 6)[1] && "/api/login/config"@[1] != "/neut/"@[1]);
    reveal_strlit("/login/account");
    assert(p[1] == p.subrange(0, 6)[1] && "/login/account"@[1] != "/neut/"@[1]);
    reveal_strlit("/login/account/");
    assert(p[1] == p.subrange(0, 6)[1] && "/login/account/"@[1] != "/neut/"@[1]);
    reveal_strlit("/api/account");
    assert(p[1] == p.subrange(0, 6)[1] && "/api/account"@[1] != "/neut/"@[1]);
    if p.len() >= 12 {
        assert(p.subrange(0, 12)[1] == p[1]);
    }
    reveal_strlit("/logout");
    assert(p[1] == p.subrange(0, 6)[1] && "/logout"@[1] != "/neut/"@[1]);
    reveal_strlit("/logout/");
    assert(p[1] == p.subrange(0, 6)[1] && "/logout/"@[1] != "/neut/"@[1]);
    reveal_strlit("/login/logout");
    assert(p[1] == p.subrange(0, 6)[1] && "/login/logout"@[1] != "/neut/"@[1]);
    reveal_strlit("/login/logout/");
    assert(p[1] == p.subrange(0, 6)[1] && "/login/logout/"@[1] != "/neut/"@[1]);
    reveal_strlit("/autologin");
    assert(p[1] == p.subrange(0, 6)[1] && "/autologin"@[1] != "/neut/"@[1]);
    reveal_strlit("/autologin/");
    assert(p[1] == p.subrange(0, 6)[1] && "/autologin/"@[1] != "/neut/"@[1]);
    reveal_strlit("/autologin/");
    assert(p[1] == p.subrange(0, 6)[1] && "/autologin/"@[1] != "/neut/"@[1]);
    if p.len() >= 11 {
        assert(p.subrange(0, 11)[1] == p[1]);
    }
    reveal_strlit("/login/autologin");
    assert(p[1] == p.subrange(0, 6)[1] && "/login/autologin"@[1] != "/neut/"@[1]);
    reveal_strlit("/login/autologin/");
    assert(p[1] == p.subrange(0, 6)[1] && "/login/autologin/"@[1] != "/neut/"@[1]);
    reveal_strlit("/api/appareil");
    assert(p[1] == p.subrange(0, 6)[1] && "/api/appareil"@[1] != "/neut/"@[1]);
    if p.len() >= 13 {
        assert(p.subrange(0, 13)[1] == p[1]);
    }
    reveal_strlit("/autoriser-appareil");
    assert(p[1] == p.subrange(0, 6)[1] && "/autoriser-appareil"@[1] != "/neut/"@[1]);
    reveal_strlit("/autoriser-appareil/");
    assert(p[1] == p.subrange(0, 6)[1] && "/autoriser-appareil/"@[1] != "/neut/"@[1]);
    reveal_strlit("/install.ps1");
    assert(p[1] == p.subrange(0, 6)[1] && "/install.ps1"@[1] != "/neut/"@[1]);
    reveal_strlit("/api/dashboard");
    assert(p[1] == p.subrange(0, 6)[1] && "/api/dashboard"@[1] != "/neut/"@[1]);
    if p.len() >= 14 {
        assert(p.subrange(0, 14)[1] == p[1]);
    }
    reveal_strlit("/dashboard");
    assert(p[1] == p.subrange(0, 6)[1] && "/dashboard"@[1] != "/neut/"@[1]);
    reveal_strlit("/dashboard/");
    assert(p[1] == p.subrange(0, 6)[1] && "/dashboard/"@[1] != "/neut/"@[1]);
    reveal_strlit("/login/dashboard");
    assert(p[1] == p.subrange(0, 6)[1] && "/login/dashboard"@[1] != "/neut/"@[1]);
    reveal_strlit("/login/dashboard/");
    assert(p[1] == p.subrange(0, 6)[1] && "/login/dashboard/"@[1] != "/neut/"@[1]);
    reveal_strlit("/admin");
    assert(p[1] == p.subrange(0, 6)[1] && "/admin"@[1] != "/neut/"@[1]);
    if p.len() >= 6 {
        assert(p.subrange(0, 6)[1] == p[1]);
    }
    reveal_strlit("/api/admin");
    assert(p[1] == p.subrange(0, 6)[1] && "/api/admin"@[1] != "/neut/"@[1]);
    if p.len() >= 10 {
        assert(p.subrange(0, 10)[1] == p[1]);
    }
    reveal_strlit("/ext/");
    assert(p[1] == p.subrange(0, 6)[1] && "/ext/"@[1] != "/neut/"@[1]);
    if p.len() >= 5 {
        assert(p.subrange(0, 5)[1] == p[1]);
    }
    reveal_strlit("/api/ext/");
    assert(p[1] == p.subrange(0, 6)[1] && "/api/ext/"@[1] != "/neut/"@[1]);
    if p.len() >= 9 {
        assert(p.subrange(0, 9)[1] == p[1]);
    }
    reveal_strlit("/api/fchier/attendre");
    assert(p[1] == p.subrange(0, 6)[1] && "/api/fchier/attendre"@[1] != "/neut/"@[1]);
    reveal_strlit("/partage/");
    assert(p[1] == p.subrange(0, 6)[1] && "/partage/"@[1] != "/neut/"@[1]);
    if p.len() >= 9 {
        assert(p.subrange(0, 9)[1] == p[1]);
    }
    reveal_strlit("/api/partage/");
    assert(p[1] == p.subrange(0, 6)[1] && "/api/partage/"@[1] != "/neut/"@[1]);
    if p.len() >= 13 {
        assert(p.subrange(0, 13)[1] == p[1]);
    }
    reveal_strlit("/fchier");
    assert(p[1] == p.subrange(0, 6)[1] && "/fchier"@[1] != "/neut/"@[1]);
    if p.len() >= 7 {
        assert(p.subrange(0, 7)[1] == p[1]);
    }
    reveal_strlit("/api/fchier");
    assert(p[1] == p.subrange(0, 6)[1] && "/api/fchier"@[1] != "/neut/"@[1]);
    if p.len() >= 11 {
        assert(p.subrange(0, 11)[1] == p[1]);
    }
    reveal_strlit("/mess");
    assert(p[1] == p.subrange(0, 6)[1] && "/mess"@[1] != "/neut/"@[1]);
    if p.len() >= 5 {
        assert(p.subrange(0, 5)[1] == p[1]);
    }
    reveal_strlit("/api/mess");
    assert(p[1] == p.subrange(0, 6)[1] && "/api/mess"@[1] != "/neut/"@[1]);
    if p.len() >= 9 {
        assert(p.subrange(0, 9)[1] == p[1]);
    }
    reveal_strlit("/p2p/sso");
    assert(p[1] == p.subrange(0, 6)[1] && "/p2p/sso"@[1] != "/neut/"@[1]);
    reveal_strlit("/p2p/sso/etat");
    assert(p[1] == p.subrange(0, 6)[1] && "/p2p/sso/etat"@[1] != "/neut/"@[1]);
    reveal_strlit("/p2p/");
    assert(p[1] == p.subrange(0, 6)[1] && "/p2p/"@[1] != "/neut/"@[1]);
    if p.len() >= 5 {
        assert(p.subrange(0, 5)[1] == p[1]);
    }
}

proof fn lemme_prefixe_16(p: Seq<char>)
    requires
        commence_par(p, "/viso"@),
    ensures
        route_de(p) == Route::Visio,
{
    lemme_longueurs_routes();
    reveal_strlit("/viso");
    assert(p.subrange(0, 5) == "/viso"@);
    reveal_strlit("/login");
    assert(p[1] == p.subrange(0, 5)[1] && "/login"@[1] != "/viso"@[1]);
    reveal_strlit("/login/");
    assert(p[1] == p.subrange(0, 5)[1] && "/login/"@[1] != "/viso"@[1]);
    reveal_strlit("/login/login");
    assert(p[1] == p.subrange(0, 5)[1] && "/login/login"@[1] != "/viso"@[1]);
    reveal_strlit("/login/login.php");
    assert(p[1] == p.subrange(0, 5)[1] && "/login/login.php"@[1] != "/viso"@[1]);
    reveal_strlit("/login/first_setup");
    assert(p[1] == p.subrange(0, 5)[1] && "/login/first_setup"@[1] != "/viso"@[1]);
    reveal_strlit("/api/login/config");
    assert(p[1] == p.subrange(0, 5)[1] && "/api/login/config"@[1] != "/viso"@[1]);
    reveal_strlit("/login/account");
    assert(p[1] == p.subrange(0, 5)[1] && "/login/account"@[1] != "/viso"@[1]);
    reveal_strlit("/login/account/");
    assert(p[1] == p.subrange(0, 5)[1] && "/login/account/"@[1] != "/viso"@[1]);
    reveal_strlit("/api/account");
    assert(p[1] == p.subrange(0, 5)[1] && "/api/account"@[1] != "/viso"@[1]);
    if p.len() >= 12 {
        assert(p.subrange(0, 12)[1] == p[1]);
    }
    reveal_strlit("/logout");
    assert(p[1] == p.subrange(0, 5)[1] && "/logout"@[1] != "/viso"@[1]);
    reveal_strlit("/logout/");
    assert(p[1] == p.subrange(0, 5)[1] && "/logout/"@[1] != "/viso"@[1]);
    reveal_strlit("/login/logout");
    assert(p[1] == p.subrange(0, 5)[1] && "/login/logout"@[1] != "/viso"@[1]);
    reveal_strlit("/login/logout/");
    assert(p[1] == p.subrange(0, 5)[1] && "/login/logout/"@[1] != "/viso"@[1]);
    reveal_strlit("/autologin");
    assert(p[1] == p.subrange(0, 5)[1] && "/autologin"@[1] != "/viso"@[1]);
    reveal_strlit("/autologin/");
    assert(p[1] == p.subrange(0, 5)[1] && "/autologin/"@[1] != "/viso"@[1]);
    reveal_strlit("/autologin/");
    assert(p[1] == p.subrange(0, 5)[1] && "/autologin/"@[1] != "/viso"@[1]);
    if p.len() >= 11 {
        assert(p.subrange(0, 11)[1] == p[1]);
    }
    reveal_strlit("/login/autologin");
    assert(p[1] == p.subrange(0, 5)[1] && "/login/autologin"@[1] != "/viso"@[1]);
    reveal_strlit("/login/autologin/");
    assert(p[1] == p.subrange(0, 5)[1] && "/login/autologin/"@[1] != "/viso"@[1]);
    reveal_strlit("/api/appareil");
    assert(p[1] == p.subrange(0, 5)[1] && "/api/appareil"@[1] != "/viso"@[1]);
    if p.len() >= 13 {
        assert(p.subrange(0, 13)[1] == p[1]);
    }
    reveal_strlit("/autoriser-appareil");
    assert(p[1] == p.subrange(0, 5)[1] && "/autoriser-appareil"@[1] != "/viso"@[1]);
    reveal_strlit("/autoriser-appareil/");
    assert(p[1] == p.subrange(0, 5)[1] && "/autoriser-appareil/"@[1] != "/viso"@[1]);
    reveal_strlit("/install.ps1");
    assert(p[1] == p.subrange(0, 5)[1] && "/install.ps1"@[1] != "/viso"@[1]);
    reveal_strlit("/api/dashboard");
    assert(p[1] == p.subrange(0, 5)[1] && "/api/dashboard"@[1] != "/viso"@[1]);
    if p.len() >= 14 {
        assert(p.subrange(0, 14)[1] == p[1]);
    }
    reveal_strlit("/dashboard");
    assert(p[1] == p.subrange(0, 5)[1] && "/dashboard"@[1] != "/viso"@[1]);
    reveal_strlit("/dashboard/");
    assert(p[1] == p.subrange(0, 5)[1] && "/dashboard/"@[1] != "/viso"@[1]);
    reveal_strlit("/login/dashboard");
    assert(p[1] == p.subrange(0, 5)[1] && "/login/dashboard"@[1] != "/viso"@[1]);
    reveal_strlit("/login/dashboard/");
    assert(p[1] == p.subrange(0, 5)[1] && "/login/dashboard/"@[1] != "/viso"@[1]);
    reveal_strlit("/admin");
    assert(p[1] == p.subrange(0, 5)[1] && "/admin"@[1] != "/viso"@[1]);
    if p.len() >= 6 {
        assert(p.subrange(0, 6)[1] == p[1]);
    }
    reveal_strlit("/api/admin");
    assert(p[1] == p.subrange(0, 5)[1] && "/api/admin"@[1] != "/viso"@[1]);
    if p.len() >= 10 {
        assert(p.subrange(0, 10)[1] == p[1]);
    }
    reveal_strlit("/ext/");
    assert(p[1] == p.subrange(0, 5)[1] && "/ext/"@[1] != "/viso"@[1]);
    if p.len() >= 5 {
        assert(p.subrange(0, 5)[1] == p[1]);
    }
    reveal_strlit("/api/ext/");
    assert(p[1] == p.subrange(0, 5)[1] && "/api/ext/"@[1] != "/viso"@[1]);
    if p.len() >= 9 {
        assert(p.subrange(0, 9)[1] == p[1]);
    }
    reveal_strlit("/api/fchier/attendre");
    assert(p[1] == p.subrange(0, 5)[1] && "/api/fchier/attendre"@[1] != "/viso"@[1]);
    reveal_strlit("/partage/");
    assert(p[1] == p.subrange(0, 5)[1] && "/partage/"@[1] != "/viso"@[1]);
    if p.len() >= 9 {
        assert(p.subrange(0, 9)[1] == p[1]);
    }
    reveal_strlit("/api/partage/");
    assert(p[1] == p.subrange(0, 5)[1] && "/api/partage/"@[1] != "/viso"@[1]);
    if p.len() >= 13 {
        assert(p.subrange(0, 13)[1] == p[1]);
    }
    reveal_strlit("/fchier");
    assert(p[1] == p.subrange(0, 5)[1] && "/fchier"@[1] != "/viso"@[1]);
    if p.len() >= 7 {
        assert(p.subrange(0, 7)[1] == p[1]);
    }
    reveal_strlit("/api/fchier");
    assert(p[1] == p.subrange(0, 5)[1] && "/api/fchier"@[1] != "/viso"@[1]);
    if p.len() >= 11 {
        assert(p.subrange(0, 11)[1] == p[1]);
    }
    reveal_strlit("/mess");
    assert(p[1] == p.subrange(0, 5)[1] && "/mess"@[1] != "/viso"@[1]);
    if p.len() >= 5 {
        assert(p.subrange(0, 5)[1] == p[1]);
    }
    reveal_strlit("/api/mess");
    assert(p[1] == p.subrange(0, 5)[1] && "/api/mess"@[1] != "/viso"@[1]);
    if p.len() >= 9 {
        assert(p.subrange(0, 9)[1] == p[1]);
    }
    reveal_strlit("/p2p/sso");
    assert(p[1] == p.subrange(0, 5)[1] && "/p2p/sso"@[1] != "/viso"@[1]);
    reveal_strlit("/p2p/sso/etat");
    assert(p[1] == p.subrange(0, 5)[1] && "/p2p/sso/etat"@[1] != "/viso"@[1]);
    reveal_strlit("/p2p/");
    assert(p[1] == p.subrange(0, 5)[1] && "/p2p/"@[1] != "/viso"@[1]);
    if p.len() >= 5 {
        assert(p.subrange(0, 5)[1] == p[1]);
    }
    reveal_strlit("/neut/");
    assert(p[1] == p.subrange(0, 5)[1] && "/neut/"@[1] != "/viso"@[1]);
    if p.len() >= 6 {
        assert(p.subrange(0, 6)[1] == p[1]);
    }
}

proof fn lemme_prefixe_17(p: Seq<char>)
    requires
        commence_par(p, "/api/viso"@),
    ensures
        route_de(p) == Route::Visio,
{
    lemme_longueurs_routes();
    reveal_strlit("/api/viso");
    assert(p.subrange(0, 9) == "/api/viso"@);
    reveal_strlit("/login/login");
    assert(p[1] == p.subrange(0, 9)[1] && "/login/login"@[1] != "/api/viso"@[1]);
    reveal_strlit("/login/login.php");
    assert(p[1] == p.subrange(0, 9)[1] && "/login/login.php"@[1] != "/api/viso"@[1]);
    reveal_strlit("/login/first_setup");
    assert(p[1] == p.subrange(0, 9)[1] && "/login/first_setup"@[1] != "/api/viso"@[1]);
    reveal_strlit("/api/login/config");
    assert(p[5] == p.subrange(0, 9)[5] && "/api/login/config"@[5] != "/api/viso"@[5]);
    reveal_strlit("/login/account");
    assert(p[1] == p.subrange(0, 9)[1] && "/login/account"@[1] != "/api/viso"@[1]);
    reveal_strlit("/login/account/");
    assert(p[1] == p.subrange(0, 9)[1] && "/login/account/"@[1] != "/api/viso"@[1]);
    reveal_strlit("/api/account");
    assert(p[5] == p.subrange(0, 9)[5] && "/api/account"@[5] != "/api/viso"@[5]);
    if p.len() >= 12 {
        assert(p.subrange(0, 12)[5] == p[5]);
    }
    reveal_strlit("/login/logout");
    assert(p[1] == p.subrange(0, 9)[1] && "/login/logout"@[1] != "/api/viso"@[1]);
    reveal_strlit("/login/logout/");
    assert(p[1] == p.subrange(0, 9)[1] && "/login/logout/"@[1] != "/api/viso"@[1]);
    reveal_strlit("/autologin");
    assert(p[2] == p.subrange(0, 9)[2] && "/autologin"@[2] != "/api/viso"@[2]);
    reveal_strlit("/autologin/");
    assert(p[2] == p.subrange(0, 9)[2] && "/autologin/"@[2] != "/api/viso"@[2]);
    reveal_strlit("/autologin/");
    assert(p[2] == p.subrange(0, 9)[2] && "/autologin/"@[2] != "/api/viso"@[2]);
    if p.len() >= 11 {
        assert(p.subrange(0, 11)[2] == p[2]);
    }
    reveal_strlit("/login/autologin");
    assert(p[1] == p.subrange(0, 9)[1] && "/login/autologin"@[1] != "/api/viso"@[1]);
    reveal_strlit("/login/autologin/");
    assert(p[1] == p.subrange(0, 9)[1] && "/login/autologin/"@[1] != "/api/viso"@[1]);
    reveal_strlit("/api/appareil");
    assert(p[5] == p.subrange(0, 9)[5] && "/api/appareil"@[5] != "/api/viso"@[5]);
    if p.len() >= 13 {
        assert(p.subrange(0, 13)[5] == p[5]);
    }
    reveal_strlit("/autoriser-appareil");
    assert(p[2] == p.subrange(0, 9)[2] && "/autoriser-appareil"@[2] != "/api/viso"@[2]);
    reveal_strlit("/autoriser-appareil/");
    assert(p[2] == p.subrange(0, 9)[2] && "/autoriser-appareil/"@[2] != "/api/viso"@[2]);
    reveal_strlit("/install.ps1");
    assert(p[1] == p.subrange(0, 9)[1] && "/install.ps1"@[1] != "/api/viso"@[1]);
    reveal_strlit("/api/dashboard");
    assert(p[5] == p.subrange(0, 9)[5] && "/api/dashboard"@[5] != "/api/viso"@[5]);
    if p.len() >= 14 {
        assert(p.subrange(0, 14)[5] == p[5]);
    }
    reveal_strlit("/dashboard");
    assert(p[1] == p.subrange(0, 9)[1] && "/dashboard"@[1] != "/api/viso"@[1]);
    reveal_strlit("/dashboard/");
    assert(p[1] == p.subrange(0, 9)[1] && "/dashboard/"@[1] != "/api/viso"@[1]);
    reveal_strlit("/login/dashboard");
    assert(p[1] == p.subrange(0, 9)[1] && "/login/dashboard"@[1] != "/api/viso"@[1]);
    reveal_strlit("/login/dashboard/");
    assert(p[1] == p.subrange(0, 9)[1] && "/login/dashboard/"@[1] != "/api/viso"@[1]);
    reveal_strlit("/admin");
    assert(p[2] == p.subrange(0, 9)[2] && "/admin"@[2] != "/api/viso"@[2]);
    if p.len() >= 6 {
        assert(p.subrange(0, 6)[2] == p[2]);
    }
    reveal_strlit("/api/admin");
    assert(p[5] == p.subrange(0, 9)[5] && "/api/admin"@[5] != "/api/viso"@[5]);
    if p.len() >= 10 {
        assert(p.subrange(0, 10)[5] == p[5]);
    }
    reveal_strlit("/ext/");
    assert(p[1] == p.subrange(0, 9)[1] && "/ext/"@[1] != "/api/viso"@[1]);
    if p.len() >= 5 {
        assert(p.subrange(0, 5)[1] == p[1]);
    }
    reveal_strlit("/api/ext/");
    assert(p[5] == p.subrange(0, 9)[5] && "/api/ext/"@[5] != "/api/viso"@[5]);
    if p.len() >= 9 {
        assert(p.subrange(0, 9)[5] == p[5]);
    }
    reveal_strlit("/api/fchier/attendre");
    assert(p[5] == p.subrange(0, 9)[5] && "/api/fchier/attendre"@[5] != "/api/viso"@[5]);
    reveal_strlit("/partage/");
    assert(p[1] == p.subrange(0, 9)[1] && "/partage/"@[1] != "/api/viso"@[1]);
    if p.len() >= 9 {
        assert(p.subrange(0, 9)[1] == p[1]);
    }
    reveal_strlit("/api/partage/");
    assert(p[5] == p.subrange(0, 9)[5] && "/api/partage/"@[5] != "/api/viso"@[5]);
    if p.len() >= 13 {
        assert(p.subrange(0, 13)[5] == p[5]);
    }
    reveal_strlit("/fchier");
    assert(p[1] == p.subrange(0, 9)[1] && "/fchier"@[1] != "/api/viso"@[1]);
    if p.len() >= 7 {
        assert(p.subrange(0, 7)[1] == p[1]);
    }
    reveal_strlit("/api/fchier");
    assert(p[5] == p.subrange(0, 9)[5] && "/api/fchier"@[5] != "/api/viso"@[5]);
    if p.len() >= 11 {
        assert(p.subrange(0, 11)[5] == p[5]);
    }
    reveal_strlit("/mess");
    assert(p[1] == p.subrange(0, 9)[1] && "/mess"@[1] != "/api/viso"@[1]);
    if p.len() >= 5 {
        assert(p.subrange(0, 5)[1] == p[1]);
    }
    reveal_strlit("/api/mess");
    assert(p[5] == p.subrange(0, 9)[5] && "/api/mess"@[5] != "/api/viso"@[5]);
    if p.len() >= 9 {
        assert(p.subrange(0, 9)[5] == p[5]);
    }
    reveal_strlit("/p2p/sso/etat");
    assert(p[1] == p.subrange(0, 9)[1] && "/p2p/sso/etat"@[1] != "/api/viso"@[1]);
    reveal_strlit("/p2p/");
    assert(p[1] == p.subrange(0, 9)[1] && "/p2p/"@[1] != "/api/viso"@[1]);
    if p.len() >= 5 {
        assert(p.subrange(0, 5)[1] == p[1]);
    }
    reveal_strlit("/neut/");
    assert(p[1] == p.subrange(0, 9)[1] && "/neut/"@[1] != "/api/viso"@[1]);
    if p.len() >= 6 {
        assert(p.subrange(0, 6)[1] == p[1]);
    }
    reveal_strlit("/viso");
    assert(p[1] == p.subrange(0, 9)[1] && "/viso"@[1] != "/api/viso"@[1]);
    if p.len() >= 5 {
        assert(p.subrange(0, 5)[1] == p[1]);
    }
}

proof fn lemme_prefixe_18(p: Seq<char>)
    requires
        commence_par(p, "/sitec"@),
    ensures
        (route_de(p) == Route::Sitec { public: commence_par(p, "/page/"@) }),
{
    lemme_longueurs_routes();
    reveal_strlit("/sitec");
    assert(p.subrange(0, 6) == "/sitec"@);
    reveal_strlit("/login");
    assert(p[1] == p.subrange(0, 6)[1] && "/login"@[1] != "/sitec"@[1]);
    reveal_strlit("/login/");
    assert(p[1] == p.subrange(0, 6)[1] && "/login/"@[1] != "/sitec"@[1]);
    reveal_strlit("/login/login");
    assert(p[1] == p.subrange(0, 6)[1] && "/login/login"@[1] != "/sitec"@[1]);
    reveal_strlit("/login/login.php");
    assert(p[1] == p.subrange(0, 6)[1] && "/login/login.php"@[1] != "/sitec"@[1]);
    reveal_strlit("/login/first_setup");
    assert(p[1] == p.subrange(0, 6)[1] && "/login/first_setup"@[1] != "/sitec"@[1]);
    reveal_strlit("/api/login/config");
    assert(p[1] == p.subrange(0, 6)[1] && "/api/login/config"@[1] != "/sitec"@[1]);
    reveal_strlit("/login/account");
    assert(p[1] == p.subrange(0, 6)[1] && "/login/account"@[1] != "/sitec"@[1]);
    reveal_strlit("/login/account/");
    assert(p[1] == p.subrange(0, 6)[1] && "/login/account/"@[1] != "/sitec"@[1]);
    reveal_strlit("/api/account");
    assert(p[1] == p.subrange(0, 6)[1] && "/api/account"@[1] != "/sitec"@[1]);
    if p.len() >= 12 {
        assert(p.subrange(0, 12)[1] == p[1]);
    }
    reveal_strlit("/logout");
    assert(p[1] == p.subrange(0, 6)[1] && "/logout"@[1] != "/sitec"@[1]);
    reveal_strlit("/logout/");
    assert(p[1] == p.subrange(0, 6)[1] && "/logout/"@[1] != "/sitec"@[1]);
    reveal_strlit("/login/logout");
    assert(p[1] == p.subrange(0, 6)[1] && "/login/logout"@[1] != "/sitec"@[1]);
    reveal_strlit("/login/logout/");
    assert(p[1] == p.subrange(0, 6)[1] && "/login/logout/"@[1] != "/sitec"@[1]);
    reveal_strlit("/autologin");
    assert(p[1] == p.subrange(0, 6)[1] && "/autologin"@[1] != "/sitec"@[1]);
    reveal_strlit("/autologin/");
    assert(p[1] == p.subrange(0, 6)[1] && "/autologin/"@[1] != "/sitec"@[1]);
    reveal_strlit("/autologin/");
    assert(p[1] == p.subrange(0, 6)[1] && "/autologin/"@[1] != "/sitec"@[1]);
    if p.len() >= 11 {
        assert(p.subrange(0, 11)[1] == p[1]);
    }
    reveal_strlit("/login/autologin");
    assert(p[1] == p.subrange(0, 6)[1] && "/login/autologin"@[1] != "/sitec"@[1]);
    reveal_strlit("/login/autologin/");
    assert(p[1] == p.subrange(0, 6)[1] && "/login/autologin/"@[1] != "/sitec"@[1]);
    reveal_strlit("/api/appareil");
    assert(p[1] == p.subrange(0, 6)[1] && "/api/appareil"@[1] != "/sitec"@[1]);
    if p.len() >= 13 {
        assert(p.subrange(0, 13)[1] == p[1]);
    }
    reveal_strlit("/autoriser-appareil");
    assert(p[1] == p.subrange(0, 6)[1] && "/autoriser-appareil"@[1] != "/sitec"@[1]);
    reveal_strlit("/autoriser-appareil/");
    assert(p[1] == p.subrange(0, 6)[1] && "/autoriser-appareil/"@[1] != "/sitec"@[1]);
    reveal_strlit("/install.ps1");
    assert(p[1] == p.subrange(0, 6)[1] && "/install.ps1"@[1] != "/sitec"@[1]);
    reveal_strlit("/api/dashboard");
    assert(p[1] == p.subrange(0, 6)[1] && "/api/dashboard"@[1] != "/sitec"@[1]);
    if p.len() >= 14 {
        assert(p.subrange(0, 14)[1] == p[1]);
    }
    reveal_strlit("/dashboard");
    assert(p[1] == p.subrange(0, 6)[1] && "/dashboard"@[1] != "/sitec"@[1]);
    reveal_strlit("/dashboard/");
    assert(p[1] == p.subrange(0, 6)[1] && "/dashboard/"@[1] != "/sitec"@[1]);
    reveal_strlit("/login/dashboard");
    assert(p[1] == p.subrange(0, 6)[1] && "/login/dashboard"@[1] != "/sitec"@[1]);
    reveal_strlit("/login/dashboard/");
    assert(p[1] == p.subrange(0, 6)[1] && "/login/dashboard/"@[1] != "/sitec"@[1]);
    reveal_strlit("/admin");
    assert(p[1] == p.subrange(0, 6)[1] && "/admin"@[1] != "/sitec"@[1]);
    if p.len() >= 6 {
        assert(p.subrange(0, 6)[1] == p[1]);
    }
    reveal_strlit("/api/admin");
    assert(p[1] == p.subrange(0, 6)[1] && "/api/admin"@[1] != "/sitec"@[1]);
    if p.len() >= 10 {
        assert(p.subrange(0, 10)[1] == p[1]);
    }
    reveal_strlit("/ext/");
    assert(p[1] == p.subrange(0, 6)[1] && "/ext/"@[1] != "/sitec"@[1]);
    if p.len() >= 5 {
        assert(p.subrange(0, 5)[1] == p[1]);
    }
    reveal_strlit("/api/ext/");
    assert(p[1] == p.subrange(0, 6)[1] && "/api/ext/"@[1] != "/sitec"@[1]);
    if p.len() >= 9 {
        assert(p.subrange(0, 9)[1] == p[1]);
    }
    reveal_strlit("/api/fchier/attendre");
    assert(p[1] == p.subrange(0, 6)[1] && "/api/fchier/attendre"@[1] != "/sitec"@[1]);
    reveal_strlit("/partage/");
    assert(p[1] == p.subrange(0, 6)[1] && "/partage/"@[1] != "/sitec"@[1]);
    if p.len() >= 9 {
        assert(p.subrange(0, 9)[1] == p[1]);
    }
    reveal_strlit("/api/partage/");
    assert(p[1] == p.subrange(0, 6)[1] && "/api/partage/"@[1] != "/sitec"@[1]);
    if p.len() >= 13 {
        assert(p.subrange(0, 13)[1] == p[1]);
    }
    reveal_strlit("/fchier");
    assert(p[1] == p.subrange(0, 6)[1] && "/fchier"@[1] != "/sitec"@[1]);
    if p.len() >= 7 {
        assert(p.subrange(0, 7)[1] == p[1]);
    }
    reveal_strlit("/api/fchier");
    assert(p[1] == p.subrange(0, 6)[1] && "/api/fchier"@[1] != "/sitec"@[1]);
    if p.len() >= 11 {
        assert(p.subrange(0, 11)[1] == p[1]);
    }
    reveal_strlit("/mess");
    assert(p[1] == p.subrange(0, 6)[1] && "/mess"@[1] != "/sitec"@[1]);
    if p.len() >= 5 {
        assert(p.subrange(0, 5)[1] == p[1]);
    }
    reveal_strlit("/api/mess");
    assert(p[1] == p.subrange(0, 6)[1] && "/api/mess"@[1] != "/sitec"@[1]);
    if p.len() >= 9 {
        assert(p.subrange(0, 9)[1] == p[1]);
    }
    reveal_strlit("/p2p/sso");
    assert(p[1] == p.subrange(0, 6)[1] && "/p2p/sso"@[1] != "/sitec"@[1]);
    reveal_strlit("/p2p/sso/etat");
    assert(p[1] == p.subrange(0, 6)[1] && "/p2p/sso/etat"@[1] != "/sitec"@[1]);
    reveal_strlit("/p2p/");
    assert(p[1] == p.subrange(0, 6)[1] && "/p2p/"@[1] != "/sitec"@[1]);
    if p.len() >= 5 {
        assert(p.subrange(0, 5)[1] == p[1]);
    }
    reveal_strlit("/neut/");
    assert(p[1] == p.subrange(0, 6)[1] && "/neut/"@[1] != "/sitec"@[1]);
    if p.len() >= 6 {
        assert(p.subrange(0, 6)[1] == p[1]);
    }
    reveal_strlit("/viso");
    assert(p[1] == p.subrange(0, 6)[1] && "/viso"@[1] != "/sitec"@[1]);
    if p.len() >= 5 {
        assert(p.subrange(0, 5)[1] == p[1]);
    }
    reveal_strlit("/api/viso");
    assert(p[1] == p.subrange(0, 6)[1] && "/api/viso"@[1] != "/sitec"@[1]);
    if p.len() >= 9 {
        assert(p.subrange(0, 9)[1] == p[1]);
    }
}

proof fn lemme_prefixe_19(p: Seq<char>)
    requires
        commence_par(p, "/api/sitec"@),
    ensures
        (route_de(p) == Route::Sitec { public: commence_par(p, "/page/"@) }),
{
    lemme_longueurs_routes();
    reveal_strlit("/api/sitec");
    assert(p.subrange(0, 10) == "/api/sitec"@);
    reveal_strlit("/login/login");
    assert(p[1] == p.subrange(0, 10)[1] && "/login/login"@[1] != "/api/sitec"@[1]);
    reveal_strlit("/login/login.php");
    assert(p[1] == p.subrange(0, 10)[1] && "/login/login.php"@[1] != "/api/sitec"@[1]);
    reveal_strlit("/login/first_setup");
    assert(p[1] == p.subrange(0, 10)[1] && "/login/first_setup"@[1] != "/api/sitec"@[1]);
    reveal_strlit("/api/login/config");
    assert(p[5] == p.subrange(0, 10)[5] && "/api/login/config"@[5] != "/api/sitec"@[5]);
    reveal_strlit("/login/account");
    assert(p[1] == p.subrange(0, 10)[1] && "/login/account"@[1] != "/api/sitec"@[1]);
    reveal_strlit("/login/account/");
    assert(p[1] == p.subrange(0, 10)[1] && "/login/account/"@[1] != "/api/sitec"@[1]);
    reveal_strlit("/api/account");
    assert(p[5] == p.subrange(0, 10)[5] && "/api/account"@[5] != "/api/sitec"@[5]);
    if p.len() >= 12 {
        assert(p.subrange(0, 12)[5] == p[5]);
    }
    reveal_strlit("/login/logout");
    assert(p[1] == p.subrange(0, 10)[1] && "/login/logout"@[1] != "/api/sitec"@[1]);
    reveal_strlit("/login/logout/");
    assert(p[1] == p.subrange(0, 10)[1] && "/login/logout/"@[1] != "/api/sitec"@[1]);
    reveal_strlit("/autologin");
    assert(p[2] == p.subrange(0, 10)[2] && "/autologin"@[2] != "/api/sitec"@[2]);
    reveal_strlit("/autologin/");
    assert(p[2] == p.subrange(0, 10)[2] && "/autologin/"@[2] != "/api/sitec"@[2]);
    reveal_strlit("/autologin/");
    assert(p[2] == p.subrange(0, 10)[2] && "/autologin/"@[2] != "/api/sitec"@[2]);
    if p.len() >= 11 {
        assert(p.subrange(0, 11)[2] == p[2]);
    }
    reveal_strlit("/login/autologin");
    assert(p[1] == p.subrange(0, 10)[1] && "/login/autologin"@[1] != "/api/sitec"@[1]);
    reveal_strlit("/login/autologin/");
    assert(p[1] == p.subrange(0, 10)[1] && "/login/autologin/"@[1] != "/api/sitec"@[1]);
    reveal_strlit("/api/appareil");
    assert(p[5] == p.subrange(0, 10)[5] && "/api/appareil"@[5] != "/api/sitec"@[5]);
    if p.len() >= 13 {
        assert(p.subrange(0, 13)[5] == p[5]);
    }
    reveal_strlit("/autoriser-appareil");
    assert(p[2] == p.subrange(0, 10)[2] && "/autoriser-appareil"@[2] != "/api/sitec"@[2]);
    reveal_strlit("/autoriser-appareil/");
    assert(p[2] == p.subrange(0, 10)[2] && "/autoriser-appareil/"@[2] != "/api/sitec"@[2]);
    reveal_strlit("/install.ps1");
    assert(p[1] == p.subrange(0, 10)[1] && "/install.ps1"@[1] != "/api/sitec"@[1]);
    reveal_strlit("/api/dashboard");
    assert(p[5] == p.subrange(0, 10)[5] && "/api/dashboard"@[5] != "/api/sitec"@[5]);
    if p.len() >= 14 {
        assert(p.subrange(0, 14)[5] == p[5]);
    }
    reveal_strlit("/dashboard");
    assert(p[1] == p.subrange(0, 10)[1] && "/dashboard"@[1] != "/api/sitec"@[1]);
    reveal_strlit("/dashboard/");
    assert(p[1] == p.subrange(0, 10)[1] && "/dashboard/"@[1] != "/api/sitec"@[1]);
    reveal_strlit("/login/dashboard");
    assert(p[1] == p.subrange(0, 10)[1] && "/login/dashboard"@[1] != "/api/sitec"@[1]);
    reveal_strlit("/login/dashboard/");
    assert(p[1] == p.subrange(0, 10)[1] && "/login/dashboard/"@[1] != "/api/sitec"@[1]);
    reveal_strlit("/admin");
    assert(p[2] == p.subrange(0, 10)[2] && "/admin"@[2] != "/api/sitec"@[2]);
    if p.len() >= 6 {
        assert(p.subrange(0, 6)[2] == p[2]);
    }
    reveal_strlit("/api/admin");
    assert(p[5] == p.subrange(0, 10)[5] && "/api/admin"@[5] != "/api/sitec"@[5]);
    if p.len() >= 10 {
        assert(p.subrange(0, 10)[5] == p[5]);
    }
    reveal_strlit("/ext/");
    assert(p[1] == p.subrange(0, 10)[1] && "/ext/"@[1] != "/api/sitec"@[1]);
    if p.len() >= 5 {
        assert(p.subrange(0, 5)[1] == p[1]);
    }
    reveal_strlit("/api/ext/");
    assert(p[5] == p.subrange(0, 10)[5] && "/api/ext/"@[5] != "/api/sitec"@[5]);
    if p.len() >= 9 {
        assert(p.subrange(0, 9)[5] == p[5]);
    }
    reveal_strlit("/api/fchier/attendre");
    assert(p[5] == p.subrange(0, 10)[5] && "/api/fchier/attendre"@[5] != "/api/sitec"@[5]);
    reveal_strlit("/partage/");
    assert(p[1] == p.subrange(0, 10)[1] && "/partage/"@[1] != "/api/sitec"@[1]);
    if p.len() >= 9 {
        assert(p.subrange(0, 9)[1] == p[1]);
    }
    reveal_strlit("/api/partage/");
    assert(p[5] == p.subrange(0, 10)[5] && "/api/partage/"@[5] != "/api/sitec"@[5]);
    if p.len() >= 13 {
        assert(p.subrange(0, 13)[5] == p[5]);
    }
    reveal_strlit("/fchier");
    assert(p[1] == p.subrange(0, 10)[1] && "/fchier"@[1] != "/api/sitec"@[1]);
    if p.len() >= 7 {
        assert(p.subrange(0, 7)[1] == p[1]);
    }
    reveal_strlit("/api/fchier");
    assert(p[5] == p.subrange(0, 10)[5] && "/api/fchier"@[5] != "/api/sitec"@[5]);
    if p.len() >= 11 {
        assert(p.subrange(0, 11)[5] == p[5]);
    }
    reveal_strlit("/mess");
    assert(p[1] == p.subrange(0, 10)[1] && "/mess"@[1] != "/api/sitec"@[1]);
    if p.len() >= 5 {
        assert(p.subrange(0, 5)[1] == p[1]);
    }
    reveal_strlit("/api/mess");
    assert(p[5] == p.subrange(0, 10)[5] && "/api/mess"@[5] != "/api/sitec"@[5]);
    if p.len() >= 9 {
        assert(p.subrange(0, 9)[5] == p[5]);
    }
    reveal_strlit("/p2p/sso/etat");
    assert(p[1] == p.subrange(0, 10)[1] && "/p2p/sso/etat"@[1] != "/api/sitec"@[1]);
    reveal_strlit("/p2p/");
    assert(p[1] == p.subrange(0, 10)[1] && "/p2p/"@[1] != "/api/sitec"@[1]);
    if p.len() >= 5 {
        assert(p.subrange(0, 5)[1] == p[1]);
    }
    reveal_strlit("/neut/");
    assert(p[1] == p.subrange(0, 10)[1] && "/neut/"@[1] != "/api/sitec"@[1]);
    if p.len() >= 6 {
        assert(p.subrange(0, 6)[1] == p[1]);
    }
    reveal_strlit("/viso");
    assert(p[1] == p.subrange(0, 10)[1] && "/viso"@[1] != "/api/sitec"@[1]);
    if p.len() >= 5 {
        assert(p.subrange(0, 5)[1] == p[1]);
    }
    reveal_strlit("/api/viso");
    assert(p[5] == p.subrange(0, 10)[5] && "/api/viso"@[5] != "/api/sitec"@[5]);
    if p.len() >= 9 {
        assert(p.subrange(0, 9)[5] == p[5]);
    }
    reveal_strlit("/sitec");
    assert(p[1] == p.subrange(0, 10)[1] && "/sitec"@[1] != "/api/sitec"@[1]);
    if p.len() >= 6 {
        assert(p.subrange(0, 6)[1] == p[1]);
    }
}

proof fn lemme_prefixe_20(p: Seq<char>)
    requires
        commence_par(p, "/page/"@),
    ensures
        (route_de(p) == Route::Sitec { public: commence_par(p, "/page/"@) }),
{
    lemme_longueurs_routes();
    reveal_strlit("/page/");
    assert(p.subrange(0, 6) == "/page/"@);
    reveal_strlit("/login");
    assert(p[1] == p.subrange(0, 6)[1] && "/login"@[1] != "/page/"@[1]);
    reveal_strlit("/login/");
    assert(p[1] == p.subrange(0, 6)[1] && "/login/"@[1] != "/page/"@[1]);
    reveal_strlit("/login/login");
    assert(p[1] == p.subrange(0, 6)[1] && "/login/login"@[1] != "/page/"@[1]);
    reveal_strlit("/login/login.php");
    assert(p[1] == p.subrange(0, 6)[1] && "/login/login.php"@[1] != "/page/"@[1]);
    reveal_strlit("/login/first_setup");
    assert(p[1] == p.subrange(0, 6)[1] && "/login/first_setup"@[1] != "/page/"@[1]);
    reveal_strlit("/api/login/config");
    assert(p[1] == p.subrange(0, 6)[1] && "/api/login/config"@[1] != "/page/"@[1]);
    reveal_strlit("/login/account");
    assert(p[1] == p.subrange(0, 6)[1] && "/login/account"@[1] != "/page/"@[1]);
    reveal_strlit("/login/account/");
    assert(p[1] == p.subrange(0, 6)[1] && "/login/account/"@[1] != "/page/"@[1]);
    reveal_strlit("/api/account");
    assert(p[1] == p.subrange(0, 6)[1] && "/api/account"@[1] != "/page/"@[1]);
    if p.len() >= 12 {
        assert(p.subrange(0, 12)[1] == p[1]);
    }
    reveal_strlit("/logout");
    assert(p[1] == p.subrange(0, 6)[1] && "/logout"@[1] != "/page/"@[1]);
    reveal_strlit("/logout/");
    assert(p[1] == p.subrange(0, 6)[1] && "/logout/"@[1] != "/page/"@[1]);
    reveal_strlit("/login/logout");
    assert(p[1] == p.subrange(0, 6)[1] && "/login/logout"@[1] != "/page/"@[1]);
    reveal_strlit("/login/logout/");
    assert(p[1] == p.subrange(0, 6)[1] && "/login/logout/"@[1] != "/page/"@[1]);
    reveal_strlit("/autologin");
    assert(p[1] == p.subrange(0, 6)[1] && "/autologin"@[1] != "/page/"@[1]);
    reveal_strlit("/autologin/");
    assert(p[1] == p.subrange(0, 6)[1] && "/autologin/"@[1] != "/page/"@[1]);
    reveal_strlit("/autologin/");
    assert(p[1] == p.subrange(0, 6)[1] && "/autologin/"@[1] != "/page/"@[1]);
    if p.len() >= 11 {
        assert(p.subrange(0, 11)[1] == p[1]);
    }
    reveal_strlit("/login/autologin");
    assert(p[1] == p.subrange(0, 6)[1] && "/login/autologin"@[1] != "/page/"@[1]);
    reveal_strlit("/login/autologin/");
    assert(p[1] == p.subrange(0, 6)[1] && "/login/autologin/"@[1] != "/page/"@[1]);
    reveal_strlit("/api/appareil");
    assert(p[1] == p.subrange(0, 6)[1] && "/api/appareil"@[1] != "/page/"@[1]);
    if p.len() >= 13 {
        assert(p.subrange(0, 13)[1] == p[1]);
    }
    reveal_strlit("/autoriser-appareil");
    assert(p[1] == p.subrange(0, 6)[1] && "/autoriser-appareil"@[1] != "/page/"@[1]);
    reveal_strlit("/autoriser-appareil/");
    assert(p[1] == p.subrange(0, 6)[1] && "/autoriser-appareil/"@[1] != "/page/"@[1]);
    reveal_strlit("/install.ps1");
    assert(p[1] == p.subrange(0, 6)[1] && "/install.ps1"@[1] != "/page/"@[1]);
    reveal_strlit("/api/dashboard");
    assert(p[1] == p.subrange(0, 6)[1] && "/api/dashboard"@[1] != "/page/"@[1]);
    if p.len() >= 14 {
        assert(p.subrange(0, 14)[1] == p[1]);
    }
    reveal_strlit("/dashboard");
    assert(p[1] == p.subrange(0, 6)[1] && "/dashboard"@[1] != "/page/"@[1]);
    reveal_strlit("/dashboard/");
    assert(p[1] == p.subrange(0, 6)[1] && "/dashboard/"@[1] != "/page/"@[1]);
    reveal_strlit("/login/dashboard");
    assert(p[1] == p.subrange(0, 6)[1] && "/login/dashboard"@[1] != "/page/"@[1]);
    reveal_strlit("/login/dashboard/");
    assert(p[1] == p.subrange(0, 6)[1] && "/login/dashboard/"@[1] != "/page/"@[1]);
    reveal_strlit("/admin");
    assert(p[1] == p.subrange(0, 6)[1] && "/admin"@[1] != "/page/"@[1]);
    if p.len() >= 6 {
        assert(p.subrange(0, 6)[1] == p[1]);
    }
    reveal_strlit("/api/admin");
    assert(p[1] == p.subrange(0, 6)[1] && "/api/admin"@[1] != "/page/"@[1]);
    if p.len() >= 10 {
        assert(p.subrange(0, 10)[1] == p[1]);
    }
    reveal_strlit("/ext/");
    assert(p[1] == p.subrange(0, 6)[1] && "/ext/"@[1] != "/page/"@[1]);
    if p.len() >= 5 {
        assert(p.subrange(0, 5)[1] == p[1]);
    }
    reveal_strlit("/api/ext/");
    assert(p[1] == p.subrange(0, 6)[1] && "/api/ext/"@[1] != "/page/"@[1]);
    if p.len() >= 9 {
        assert(p.subrange(0, 9)[1] == p[1]);
    }
    reveal_strlit("/api/fchier/attendre");
    assert(p[1] == p.subrange(0, 6)[1] && "/api/fchier/attendre"@[1] != "/page/"@[1]);
    reveal_strlit("/partage/");
    assert(p[3] == p.subrange(0, 6)[3] && "/partage/"@[3] != "/page/"@[3]);
    if p.len() >= 9 {
        assert(p.subrange(0, 9)[3] == p[3]);
    }
    reveal_strlit("/api/partage/");
    assert(p[1] == p.subrange(0, 6)[1] && "/api/partage/"@[1] != "/page/"@[1]);
    if p.len() >= 13 {
        assert(p.subrange(0, 13)[1] == p[1]);
    }
    reveal_strlit("/fchier");
    assert(p[1] == p.subrange(0, 6)[1] && "/fchier"@[1] != "/page/"@[1]);
    if p.len() >= 7 {
        assert(p.subrange(0, 7)[1] == p[1]);
    }
    reveal_strlit("/api/fchier");
    assert(p[1] == p.subrange(0, 6)[1] && "/api/fchier"@[1] != "/page/"@[1]);
    if p.len() >= 11 {
        assert(p.subrange(0, 11)[1] == p[1]);
    }
    reveal_strlit("/mess");
    assert(p[1] == p.subrange(0, 6)[1] && "/mess"@[1] != "/page/"@[1]);
    if p.len() >= 5 {
        assert(p.subrange(0, 5)[1] == p[1]);
    }
    reveal_strlit("/api/mess");
    assert(p[1] == p.subrange(0, 6)[1] && "/api/mess"@[1] != "/page/"@[1]);
    if p.len() >= 9 {
        assert(p.subrange(0, 9)[1] == p[1]);
    }
    reveal_strlit("/p2p/sso");
    assert(p[2] == p.subrange(0, 6)[2] && "/p2p/sso"@[2] != "/page/"@[2]);
    reveal_strlit("/p2p/sso/etat");
    assert(p[2] == p.subrange(0, 6)[2] && "/p2p/sso/etat"@[2] != "/page/"@[2]);
    reveal_strlit("/p2p/");
    assert(p[2] == p.subrange(0, 6)[2] && "/p2p/"@[2] != "/page/"@[2]);
    if p.len() >= 5 {
        assert(p.subrange(0, 5)[2] == p[2]);
    }
    reveal_strlit("/neut/");
    assert(p[1] == p.subrange(0, 6)[1] && "/neut/"@[1] != "/page/"@[1]);
    if p.len() >= 6 {
        assert(p.subrange(0, 6)[1] == p[1]);
    }
    reveal_strlit("/viso");
    assert(p[1] == p.subrange(0, 6)[1] && "/viso"@[1] != "/page/"@[1]);
    if p.len() >= 5 {
        assert(p.subrange(0, 5)[1] == p[1]);
    }
    reveal_strlit("/api/viso");
    assert(p[1] == p.subrange(0, 6)[1] && "/api/viso"@[1] != "/page/"@[1]);
    if p.len() >= 9 {
        assert(p.subrange(0, 9)[1] == p[1]);
    }
    reveal_strlit("/sitec");
    assert(p[1] == p.subrange(0, 6)[1] && "/sitec"@[1] != "/page/"@[1]);
    if p.len() >= 6 {
        assert(p.subrange(0, 6)[1] == p[1]);
    }
    reveal_strlit("/api/sitec");
    assert(p[1] == p.subrange(0, 6)[1] && "/api/sitec"@[1] != "/page/"@[1]);
    if p.len() >= 10 {
        assert(p.subrange(0, 10)[1] == p[1]);
    }
}

proof fn lemme_prefixe_21(p: Seq<char>)
    requires
        commence_par(p, "/recherche"@),
    ensures
        route_de(p) == Route::Recherche,
{
    lemme_longueurs_routes();
    reveal_strlit("/recherche");
    assert(p.subrange(0, 10) == "/recherche"@);
    reveal_strlit("/login/login");
    assert(p[1] == p.subrange(0, 10)[1] && "/login/login"@[1] != "/recherche"@[1]);
    reveal_strlit("/login/login.php");
    assert(p[1] == p.subrange(0, 10)[1] && "/login/login.php"@[1] != "/recherche"@[1]);
    reveal_strlit("/login/first_setup");
    assert(p[1] == p.subrange(0, 10)[1] && "/login/first_setup"@[1] != "/recherche"@[1]);
    reveal_strlit("/api/login/config");
    assert(p[1] == p.subrange(0, 10)[1] && "/api/login/config"@[1] != "/recherche"@[1]);
    reveal_strlit("/login/account");
    assert(p[1] == p.subrange(0, 10)[1] && "/login/account"@[1] != "/recherche"@[1]);
    reveal_strlit("/login/account/");
    assert(p[1] == p.subrange(0, 10)[1] && "/login/account/"@[1] != "/recherche"@[1]);
    reveal_strlit("/api/account");
    assert(p[1] == p.subrange(0, 10)[1] && "/api/account"@[1] != "/recherche"@[1]);
    if p.len() >= 12 {
        assert(p.subrange(0, 12)[1] == p[1]);
    }
    reveal_strlit("/login/logout");
    assert(p[1] == p.subrange(0, 10)[1] && "/login/logout"@[1] != "/recherche"@[1]);
    reveal_strlit("/login/logout/");
    assert(p[1] == p.subrange(0, 10)[1] && "/login/logout/"@[1] != "/recherche"@[1]);
    reveal_strlit("/autologin");
    assert(p[1] == p.subrange(0, 10)[1] && "/autologin"@[1] != "/recherche"@[1]);
    reveal_strlit("/autologin/");
    assert(p[1] == p.subrange(0, 10)[1] && "/autologin/"@[1] != "/recherche"@[1]);
    reveal_strlit("/autologin/");
    assert(p[1] == p.subrange(0, 10)[1] && "/autologin/"@[1] != "/recherche"@[1]);
    if p.len() >= 11 {
        assert(p.subrange(0, 11)[1] == p[1]);
    }
    reveal_strlit("/login/autologin");
    assert(p[1] == p.subrange(0, 10)[1] && "/login/autologin"@[1] != "/recherche"@[1]);
    reveal_strlit("/login/autologin/");
    assert(p[1] == p.subrange(0, 10)[1] && "/login/autologin/"@[1] != "/recherche"@[1]);
    reveal_strlit("/api/appareil");
    assert(p[1] == p.subrange(0, 10)[1] && "/api/appareil"@[1] != "/recherche"@[1]);
    if p.len() >= 13 {
        assert(p.subrange(0, 13)[1] == p[1]);
    }
    reveal_strlit("/autoriser-appareil");
    assert(p[1] == p.subrange(0, 10)[1] && "/autoriser-appareil"@[1] != "/recherche"@[1]);
    reveal_strlit("/autoriser-appareil/");
    assert(p[1] == p.subrange(0, 10)[1] && "/autoriser-appareil/"@[1] != "/recherche"@[1]);
    reveal_strlit("/install.ps1");
    assert(p[1] == p.subrange(0, 10)[1] && "/install.ps1"@[1] != "/recherche"@[1]);
    reveal_strlit("/api/dashboard");
    assert(p[1] == p.subrange(0, 10)[1] && "/api/dashboard"@[1] != "/recherche"@[1]);
    if p.len() >= 14 {
        assert(p.subrange(0, 14)[1] == p[1]);
    }
    reveal_strlit("/dashboard");
    assert(p[1] == p.subrange(0, 10)[1] && "/dashboard"@[1] != "/recherche"@[1]);
    reveal_strlit("/dashboard/");
    assert(p[1] == p.subrange(0, 10)[1] && "/dashboard/"@[1] != "/recherche"@[1]);
    reveal_strlit("/login/dashboard");
    assert(p[1] == p.subrange(0, 10)[1] && "/login/dashboard"@[1] != "/recherche"@[1]);
    reveal_strlit("/login/dashboard/");
    assert(p[1] == p.subrange(0, 10)[1] && "/login/dashboard/"@[1] != "/recherche"@[1]);
    reveal_strlit("/admin");
    assert(p[1] == p.subrange(0, 10)[1] && "/admin"@[1] != "/recherche"@[1]);
    if p.len() >= 6 {
        assert(p.subrange(0, 6)[1] == p[1]);
    }
    reveal_strlit("/api/admin");
    assert(p[1] == p.subrange(0, 10)[1] && "/api/admin"@[1] != "/recherche"@[1]);
    if p.len() >= 10 {
        assert(p.subrange(0, 10)[1] == p[1]);
    }
    reveal_strlit("/ext/");
    assert(p[1] == p.subrange(0, 10)[1] && "/ext/"@[1] != "/recherche"@[1]);
    if p.len() >= 5 {
        assert(p.subrange(0, 5)[1] == p[1]);
    }
    reveal_strlit("/api/ext/");
    assert(p[1] == p.subrange(0, 10)[1] && "/api/ext/"@[1] != "/recherche"@[1]);
    if p.len() >= 9 {
        assert(p.subrange(0, 9)[1] == p[1]);
    }
    reveal_strlit("/api/fchier/attendre");
    assert(p[1] == p.subrange(0, 10)[1] && "/api/fchier/attendre"@[1] != "/recherche"@[1]);
    reveal_strlit("/partage/");
    assert(p[1] == p.subrange(0, 10)[1] && "/partage/"@[1] != "/recherche"@[1]);
    if p.len() >= 9 {
        assert(p.subrange(0, 9)[1] == p[1]);
    }
    reveal_strlit("/api/partage/");
    assert(p[1] == p.subrange(0, 10)[1] && "/api/partage/"@[1] != "/recherche"@[1]);
    if p.len() >= 13 {
        assert(p.subrange(0, 13)[1] == p[1]);
    }
    reveal_strlit("/fchier");
    assert(p[1] == p.subrange(0, 10)[1] && "/fchier"@[1] != "/recherche"@[1]);
    if p.len() >= 7 {
        assert(p.subrange(0, 7)[1] == p[1]);
    }
    reveal_strlit("/api/fchier");
    assert(p[1] == p.subrange(0, 10)[1] && "/api/fchier"@[1] != "/recherche"@[1]);
    if p.len() >= 11 {
        assert(p.subrange(0, 11)[1] == p[1]);
    }
    reveal_strlit("/mess");
    assert(p[1] == p.subrange(0, 10)[1] && "/mess"@[1] != "/recherche"@[1]);
    if p.len() >= 5 {
        assert(p.subrange(0, 5)[1] == p[1]);
    }
    reveal_strlit("/api/mess");
    assert(p[1] == p.subrange(0, 10)[1] && "/api/mess"@[1] != "/recherche"@[1]);
    if p.len() >= 9 {
        assert(p.subrange(0, 9)[1] == p[1]);
    }
    reveal_strlit("/p2p/sso/etat");
    assert(p[1] == p.subrange(0, 10)[1] && "/p2p/sso/etat"@[1] != "/recherche"@[1]);
    reveal_strlit("/p2p/");
    assert(p[1] == p.subrange(0, 10)[1] && "/p2p/"@[1] != "/recherche"@[1]);
    if p.len() >= 5 {
        assert(p.subrange(0, 5)[1] == p[1]);
    }
    reveal_strlit("/neut/");
    assert(p[1] == p.subrange(0, 10)[1] && "/neut/"@[1] != "/recherche"@[1]);
    if p.len() >= 6 {
        assert(p.subrange(0, 6)[1] == p[1]);
    }
    reveal_strlit("/viso");
    assert(p[1] == p.subrange(0, 10)[1] && "/viso"@[1] != "/recherche"@[1]);
    if p.len() >= 5 {
        assert(p.subrange(0, 5)[1] == p[1]);
    }
    reveal_strlit("/api/viso");
    assert(p[1] == p.subrange(0, 10)[1] && "/api/viso"@[1] != "/recherche"@[1]);
    if p.len() >= 9 {
        assert(p.subrange(0, 9)[1] == p[1]);
    }
    reveal_strlit("/sitec");
    assert(p[1] == p.subrange(0, 10)[1] && "/sitec"@[1] != "/recherche"@[1]);
    if p.len() >= 6 {
        assert(p.subrange(0, 6)[1] == p[1]);
    }
    reveal_strlit("/api/sitec");
    assert(p[1] == p.subrange(0, 10)[1] && "/api/sitec"@[1] != "/recherche"@[1]);
    if p.len() >= 10 {
        assert(p.subrange(0, 10)[1] == p[1]);
    }
    reveal_strlit("/page/");
    assert(p[1] == p.subrange(0, 10)[1] && "/page/"@[1] != "/recherche"@[1]);
    if p.len() >= 6 {
        assert(p.subrange(0, 6)[1] == p[1]);
    }
}

proof fn lemme_prefixe_22(p: Seq<char>)
    requires
        commence_par(p, "/api/recherche"@),
    ensures
        route_de(p) == Route::Recherche,
{
    lemme_longueurs_routes();
    reveal_strlit("/api/recherche");
    assert(p.subrange(0, 14) == "/api/recherche"@);
    reveal_strlit("/login/login.php");
    assert(p[1] == p.subrange(0, 14)[1] && "/login/login.php"@[1] != "/api/recherche"@[1]);
    reveal_strlit("/login/first_setup");
    assert(p[1] == p.subrange(0, 14)[1] && "/login/first_setup"@[1] != "/api/recherche"@[1]);
    reveal_strlit("/api/login/config");
    assert(p[5] == p.subrange(0, 14)[5] && "/api/login/config"@[5] != "/api/recherche"@[5]);
    reveal_strlit("/login/account");
    assert(p[1] == p.subrange(0, 14)[1] && "/login/account"@[1] != "/api/recherche"@[1]);
    reveal_strlit("/login/account/");
    assert(p[1] == p.subrange(0, 14)[1] && "/login/account/"@[1] != "/api/recherche"@[1]);
    reveal_strlit("/api/account");
    assert(p[5] == p.subrange(0, 14)[5] && "/api/account"@[5] != "/api/recherche"@[5]);
    if p.len() >= 12 {
        assert(p.subrange(0, 12)[5] == p[5]);
    }
    reveal_strlit("/login/logout/");
    assert(p[1] == p.subrange(0, 14)[1] && "/login/logout/"@[1] != "/api/recherche"@[1]);
    reveal_strlit("/autologin/");
    assert(p[2] == p.subrange(0, 14)[2] && "/autologin/"@[2] != "/api/recherche"@[2]);
    if p.len() >= 11 {
        assert(p.subrange(0, 11)[2] == p[2]);
    }
    reveal_strlit("/login/autologin");
    assert(p[1] == p.subrange(0, 14)[1] && "/login/autologin"@[1] != "/api/recherche"@[1]);
    reveal_strlit("/login/autologin/");
    assert(p[1] == p.subrange(0, 14)[1] && "/login/autologin/"@[1] != "/api/recherche"@[1]);
    reveal_strlit("/api/appareil");
    assert(p[5] == p.subrange(0, 14)[5] && "/api/appareil"@[5] != "/api/recherche"@[5]);
    if p.len() >= 13 {
        assert(p.subrange(0, 13)[5] == p[5]);
    }
    reveal_strlit("/autoriser-appareil");
    assert(p[2] == p.subrange(0, 14)[2] && "/autoriser-appareil"@[2] != "/api/recherche"@[2]);
    reveal_strlit("/autoriser-appareil/");
    assert(p[2] == p.subrange(0, 14)[2] && "/autoriser-appareil/"@[2] != "/api/recherche"@[2]);
    reveal_strlit("/api/dashboard");
    assert(p[5] == p.subrange(0, 14)[5] && "/api/dashboard"@[5] != "/api/recherche"@[5]);
    if p.len() >= 14 {
        assert(p.subrange(0, 14)[5] == p[5]);
    }
    reveal_strlit("/login/dashboard");
    assert(p[1] == p.subrange(0, 14)[1] && "/login/dashboard"@[1] != "/api/recherche"@[1]);
    reveal_strlit("/login/dashboard/");
    assert(p[1] == p.subrange(0, 14)[1] && "/login/dashboard/"@[1] != "/api/recherche"@[1]);
    reveal_strlit("/admin");
    assert(p[2] == p.subrange(0, 14)[2] && "/admin"@[2] != "/api/recherche"@[2]);
    if p.len() >= 6 {
        assert(p.subrange(0, 6)[2] == p[2]);
    }
    reveal_strlit("/api/admin");
    assert(p[5] == p.subrange(0, 14)[5] && "/api/admin"@[5] != "/api/recherche"@[5]);
    if p.len() >= 10 {
        assert(p.subrange(0, 10)[5] == p[5]);
    }
    reveal_strlit("/ext/");
    assert(p[1] == p.subrange(0, 14)[1] && "/ext/"@[1] != "/api/recherche"@[1]);
    if p.len() >= 5 {
        assert(p.subrange(0, 5)[1] == p[1]);
    }
    reveal_strlit("/api/ext/");
    assert(p[5] == p.subrange(0, 14)[5] && "/api/ext/"@[5] != "/api/recherche"@[5]);
    if p.len() >= 9 {
        assert(p.subrange(0, 9)[5] == p[5]);
    }
    reveal_strlit("/api/fchier/attendre");
    assert(p[5] == p.subrange(0, 14)[5] && "/api/fchier/attendre"@[5] != "/api/recherche"@[5]);
    reveal_strlit("/partage/");
    assert(p[1] == p.subrange(0, 14)[1] && "/partage/"@[1] != "/api/recherche"@[1]);
    if p.len() >= 9 {
        assert(p.subrange(0, 9)[1] == p[1]);
    }
    reveal_strlit("/api/partage/");
    assert(p[5] == p.subrange(0, 14)[5] && "/api/partage/"@[5] != "/api/recherche"@[5]);
    if p.len() >= 13 {
        assert(p.subrange(0, 13)[5] == p[5]);
    }
    reveal_strlit("/fchier");
    assert(p[1] == p.subrange(0, 14)[1] && "/fchier"@[1] != "/api/recherche"@[1]);
    if p.len() >= 7 {
        assert(p.subrange(0, 7)[1] == p[1]);
    }
    reveal_strlit("/api/fchier");
    assert(p[5] == p.subrange(0, 14)[5] && "/api/fchier"@[5] != "/api/recherche"@[5]);
    if p.len() >= 11 {
        assert(p.subrange(0, 11)[5] == p[5]);
    }
    reveal_strlit("/mess");
    assert(p[1] == p.subrange(0, 14)[1] && "/mess"@[1] != "/api/recherche"@[1]);
    if p.len() >= 5 {
        assert(p.subrange(0, 5)[1] == p[1]);
    }
    reveal_strlit("/api/mess");
    assert(p[5] == p.subrange(0, 14)[5] && "/api/mess"@[5] != "/api/recherche"@[5]);
    if p.len() >= 9 {
        assert(p.subrange(0, 9)[5] == p[5]);
    }
    reveal_strlit("/p2p/");
    assert(p[1] == p.subrange(0, 14)[1] && "/p2p/"@[1] != "/api/recherche"@[1]);
    if p.len() >= 5 {
        assert(p.subrange(0, 5)[1] == p[1]);
    }
    reveal_strlit("/neut/");
    assert(p[1] == p.subrange(0, 14)[1] && "/neut/"@[1] != "/api/recherche"@[1]);
    if p.len() >= 6 {
        assert(p.subrange(0, 6)[1] == p[1]);
    }
    reveal_strlit("/viso");
    assert(p[1] == p.subrange(0, 14)[1] && "/viso"@[1] != "/api/recherche"@[1]);
    if p.len() >= 5 {
        assert(p.subrange(0, 5)[1] == p[1]);
    }
    reveal_strlit("/api/viso");
    assert(p[5] == p.subrange(0, 14)[5] && "/api/viso"@[5] != "/api/recherche"@[5]);
    if p.len() >= 9 {
        assert(p.subrange(0, 9)[5] == p[5]);
    }
    reveal_strlit("/sitec");
    assert(p[1] == p.subrange(0, 14)[1] && "/sitec"@[1] != "/api/recherche"@[1]);
    if p.len() >= 6 {
        assert(p.subrange(0, 6)[1] == p[1]);
    }
    reveal_strlit("/api/sitec");
    assert(p[5] == p.subrange(0, 14)[5] && "/api/sitec"@[5] != "/api/recherche"@[5]);
    if p.len() >= 10 {
        assert(p.subrange(0, 10)[5] == p[5]);
    }
    reveal_strlit("/page/");
    assert(p[1] == p.subrange(0, 14)[1] && "/page/"@[1] != "/api/recherche"@[1]);
    if p.len() >= 6 {
        assert(p.subrange(0, 6)[1] == p[1]);
    }
    reveal_strlit("/recherche");
    assert(p[1] == p.subrange(0, 14)[1] && "/recherche"@[1] != "/api/recherche"@[1]);
    if p.len() >= 10 {
        assert(p.subrange(0, 10)[1] == p[1]);
    }
}

/// Le chemin désigne-t-il un fichier statique ?
pub fn is_static(path: &str) -> (r: bool)
    ensures
        r == statique(path@),
{
    let p = caracteres(path);
    commence_lit(&p, "/static/") || finit_lit(&p, ".png") || finit_lit(&p, ".ico") || finit_lit(&p, ".js")
        || finit_lit(&p, ".css") || finit_lit(&p, ".svg") || finit_lit(&p, ".woff2")
}

/// Le module chargé du chemin `path` (sans la requête `?…`).
pub fn router(path: &str) -> (r: Route)
    ensures
        r == route_de(path@),
{
    let p = caracteres(path);
    if egale_lit(&p, "/") || egale_lit(&p, "/login") || egale_lit(&p, "/login/") || egale_lit(&p, "/login/login")
        || egale_lit(&p, "/login/login.php") {
        Route::Connexion
    } else if egale_lit(&p, "/login/first_setup") {
        Route::PremierReglage
    } else if egale_lit(&p, "/api/login/config") {
        Route::ConfigConnexion
    } else if egale_lit(&p, "/login/account") || egale_lit(&p, "/login/account/") || commence_lit(&p, "/api/account") {
        Route::Compte
    } else if egale_lit(&p, "/logout") || egale_lit(&p, "/logout/") || egale_lit(&p, "/login/logout") || egale_lit(
        &p,
        "/login/logout/",
    ) {
        Route::Deconnexion
    } else if egale_lit(&p, "/autologin") || egale_lit(&p, "/autologin/") || commence_lit(&p, "/autologin/")
        || egale_lit(&p, "/login/autologin") || egale_lit(&p, "/login/autologin/") {
        Route::Autologin
    } else if commence_lit(&p, "/api/appareil") || egale_lit(&p, "/autoriser-appareil") || egale_lit(
        &p,
        "/autoriser-appareil/",
    ) || egale_lit(&p, "/install.ps1") {
        Route::Appareil
    } else if commence_lit(&p, "/api/dashboard") || egale_lit(&p, "/dashboard") || egale_lit(&p, "/dashboard/")
        || egale_lit(&p, "/login/dashboard") || egale_lit(&p, "/login/dashboard/") {
        Route::TableauDeBord
    } else if commence_lit(&p, "/admin") || commence_lit(&p, "/api/admin") {
        Route::Admin
    } else if commence_lit(&p, "/ext/") || commence_lit(&p, "/api/ext/") {
        Route::Extension
    } else if egale_lit(&p, "/api/fchier/attendre") {
        Route::AttenteFichiers
    } else if commence_lit(&p, "/partage/") || commence_lit(&p, "/api/partage/") {
        Route::PartagePublic
    } else if commence_lit(&p, "/fchier") || commence_lit(&p, "/api/fchier") {
        Route::Fichiers
    } else if commence_lit(&p, "/mess") || commence_lit(&p, "/api/mess") {
        Route::Messagerie
    } else if egale_lit(&p, "/p2p/sso") || egale_lit(&p, "/p2p/sso/etat") {
        Route::Sso
    } else if commence_lit(&p, "/p2p/") || commence_lit(&p, "/neut/") {
        Route::P2p
    } else if commence_lit(&p, "/viso") || commence_lit(&p, "/api/viso") {
        Route::Visio
    } else if commence_lit(&p, "/sitec") || commence_lit(&p, "/api/sitec") || commence_lit(&p, "/page/") {
        Route::Sitec { public: commence_lit(&p, "/page/") }
    } else if commence_lit(&p, "/recherche") || commence_lit(&p, "/api/recherche") {
        Route::Recherche
    } else if egale_lit(&p, "/api/db") {
        Route::ApiDb
    } else if is_static(path) {
        Route::Statique
    } else if egale_lit(&p, "/health") {
        Route::Sante
    } else {
        Route::Introuvable
    }
}

/// Accès à journaliser comme sensible : requête POST dont le chemin
/// contient `privilege` ou `admin`.
pub fn acces_sensible(path: &str, method: &str) -> (r: bool)
    ensures
        r == ((contient_motif(path@, "privilege"@) || contient_motif(path@, "admin"@)) && method@ == "POST"@),
{
    let p = caracteres(path);
    let m = caracteres(method);
    (contient_texte(&p, "privilege") || contient_texte(&p, "admin")) && egale_lit(&m, "POST")
}

/// Requête à signaler comme lente : au moins 2 s, hors attente longue de
/// `/api/fchier/attendre`.
pub fn requete_lente(duree_ms: u128, path: &str) -> (r: bool)
    ensures
        r == (duree_ms >= 2000 && path@ != "/api/fchier/attendre"@),
{
    let p = caracteres(path);
    duree_ms >= 2000 && !egale_lit(&p, "/api/fchier/attendre")
}

/// La page 404 lisible est due à un navigateur : chemin hors `/api/` et
/// en-tête `Accept` contenant `text/html`.
pub fn veut_html(path: &str, accept: &[String]) -> (r: bool)
    ensures
        r == (!commence_par(path@, "/api/"@) && exists|i: int|
            0 <= i < accept@.len() && contient_motif(#[trigger] accept@[i]@, "text/html"@)),
{
    let p = caracteres(path);
    if commence_lit(&p, "/api/") {
        return false;
    }
    let mut i: usize = 0;
    while i < accept.len()
        invariant
            i <= accept.len(),
            !commence_par(path@, "/api/"@),
            forall|j: int| 0 <= j < i ==> !contient_motif(#[trigger] accept@[j]@, "text/html"@),
        decreases accept.len() - i,
    {
        let a = caracteres(accept[i].as_str());
        assert(a@ == accept@[i as int]@);
        if contient_texte(&a, "text/html") {
            assert(contient_motif(accept@[i as int]@, "text/html"@));
            return true;
        }
        i += 1;
    }
    false
}

/// Adresse du visiteur pour le journal : `ip` ou `ip (via proxy)`.
pub fn ip_pour_journal(ip_client: &str, ip_proxy: &Option<String>) -> (r: String)
    ensures
        r@ == match ip_proxy {
            Some(p) => ip_client@ + " (via "@ + p@ + ")"@,
            None => ip_client@,
        },
{
    let mut out: Vec<char> = Vec::new();
    ajouter(&mut out, ip_client);
    match ip_proxy {
        Some(p) => {
            ajouter(&mut out, " (via ");
            ajouter(&mut out, p.as_str());
            ajouter(&mut out, ")");
        },
        None => {},
    }
    chaine_de(&out)
}

// ══════════════════════════════════════════════════════════════════
// Fichiers statiques
// ══════════════════════════════════════════════════════════════════

/// Type MIME d'un fichier statique d'après son extension.
pub open spec fn mime_de(p: Seq<char>) -> Seq<char> {
    if finit_par(p, ".html"@) {
        "text/html; charset=utf-8"@
    } else if finit_par(p, ".css"@) {
        "text/css"@
    } else if finit_par(p, ".js"@) {
        "application/javascript"@
    } else if finit_par(p, ".json"@) {
        "application/json"@
    } else if finit_par(p, ".png"@) {
        "image/png"@
    } else if finit_par(p, ".jpg"@) || finit_par(p, ".jpeg"@) {
        "image/jpeg"@
    } else if finit_par(p, ".gif"@) {
        "image/gif"@
    } else if finit_par(p, ".webp"@) {
        "image/webp"@
    } else if finit_par(p, ".ico"@) {
        "image/x-icon"@
    } else if finit_par(p, ".svg"@) {
        "image/svg+xml"@
    } else if finit_par(p, ".woff2"@) {
        "font/woff2"@
    } else {
        "application/octet-stream"@
    }
}

/// Type MIME d'un fichier statique d'après son extension.
pub fn guess_mime(path: &str) -> (r: &'static str)
    ensures
        r@ == mime_de(path@),
{
    let p = caracteres(path);
    if finit_lit(&p, ".html") {
        "text/html; charset=utf-8"
    } else if finit_lit(&p, ".css") {
        "text/css"
    } else if finit_lit(&p, ".js") {
        "application/javascript"
    } else if finit_lit(&p, ".json") {
        "application/json"
    } else if finit_lit(&p, ".png") {
        "image/png"
    } else if finit_lit(&p, ".jpg") || finit_lit(&p, ".jpeg") {
        "image/jpeg"
    } else if finit_lit(&p, ".gif") {
        "image/gif"
    } else if finit_lit(&p, ".webp") {
        "image/webp"
    } else if finit_lit(&p, ".ico") {
        "image/x-icon"
    } else if finit_lit(&p, ".svg") {
        "image/svg+xml"
    } else if finit_lit(&p, ".woff2") {
        "font/woff2"
    } else {
        "application/octet-stream"
    }
}

/// Chemin statique refusé (403) : il contient `..`.
pub fn chemin_interdit(path: &str) -> (r: bool)
    ensures
        r == contient_motif(path@, ".."@),
{
    let p = caracteres(path);
    contient_texte(&p, "..")
}

/// Les pages, scripts et feuilles de style se revalident à chaque
/// chargement ; le reste se garde une semaine.
pub open spec fn a_revalider(p: Seq<char>) -> bool {
    finit_par(p, ".html"@) || finit_par(p, ".js"@) || finit_par(p, ".css"@)
}

/// Valeur de `Cache-Control` d'un fichier statique.
pub fn cache_control(path: &str) -> (r: &'static str)
    ensures
        r@ == if a_revalider(path@) { "no-cache"@ } else { "public, max-age=604800"@ },
{
    let p = caracteres(path);
    if finit_lit(&p, ".html") || finit_lit(&p, ".js") || finit_lit(&p, ".css") {
        "no-cache"
    } else {
        "public, max-age=604800"
    }
}

/// Écriture hexadécimale minuscule de `n`, sans zéro superflu (`{:x}`).
pub open spec fn hexa(n: nat) -> Seq<char>
    decreases n,
{
    if n < 16 {
        seq![hex_min(n as int)]
    } else {
        hexa(n / 16).push(hex_min((n % 16) as int))
    }
}

fn ajouter_hexa(out: &mut Vec<char>, n: u64)
    ensures
        final(out)@ == old(out)@ + hexa(n as nat),
    decreases n,
{
    if n >= 16 {
        ajouter_hexa(out, n / 16);
    }
    out.push(crate::texte::chiffre_hex_min((n % 16) as u8));
    assert(final(out)@ =~= old(out)@ + hexa(n as nat));
}

/// ETag d'un fichier statique : `"<taille>-<date>"`, en hexadécimal.
pub fn etag(taille: u64, mtime: u64) -> (r: String)
    ensures
        r@ == seq!['"'] + hexa(taille as nat) + seq!['-'] + hexa(mtime as nat) + seq!['"'],
{
    let mut out: Vec<char> = Vec::new();
    out.push('"');
    ajouter_hexa(&mut out, taille);
    out.push('-');
    ajouter_hexa(&mut out, mtime);
    out.push('"');
    chaine_de(&out)
}

/// Le fichier n'a pas changé (réponse 304) : l'en-tête `If-None-Match` du
/// client est exactement l'ETag courant.
pub fn inchange(etag: &Option<String>, si_aucun: &Option<String>) -> (r: bool)
    ensures
        r == match (etag, si_aucun) {
            (Some(t), Some(s)) => t@ == s@,
            _ => false,
        },
{
    match (etag, si_aucun) {
        (Some(t), Some(s)) => {
            let a = caracteres(t.as_str());
            let b = caracteres(s.as_str());
            crate::texte::egales(&a, &b)
        },
        _ => false,
    }
}

// ══════════════════════════════════════════════════════════════════
// Empreinte FNV-1a et signature d'élévation
// ══════════════════════════════════════════════════════════════════

/// FNV-1a 64 bits : départ 0xcbf29ce484222325, puis pour chaque octet
/// `h = (h ^ b) * 0x100000001b3` (nombre premier FNV 64 bits) modulo 2^64.
pub open spec fn fnv(d: Seq<u8>) -> u64
    decreases d.len(),
{
    if d.len() == 0 {
        0xcbf29ce484222325
    } else {
        ((fnv(d.drop_last()) ^ (d.last() as u64)) as u64).wrapping_mul(0x100000001b3)
    }
}

/// Empreinte FNV-1a 64 bits des octets.
pub fn fnv64(data: &[u8]) -> (h: u64)
    ensures
        h == fnv(data@),
{
    let mut h: u64 = 0xcbf29ce484222325;
    let mut i: usize = 0;
    while i < data.len()
        invariant
            i <= data.len(),
            h == fnv(data@.subrange(0, i as int)),
        decreases data.len() - i,
    {
        assert(data@.subrange(0, i + 1).drop_last() =~= data@.subrange(0, i as int));
        h ^= data[i] as u64;
        h = h.wrapping_mul(0x100000001b3);
        i += 1;
    }
    assert(data@.subrange(0, data.len() as int) =~= data@);
    h
}

/// Signature d'extension acceptée : clé publique de 32 octets et signature
/// de 64 (toutes deux en base64 standard), la signature étant une signature
/// Ed25519 valide de la charge par la clé privée du fondateur.
pub open spec fn signature_ed25519_acceptee(payload: Seq<char>, signature: Seq<char>, cle: Seq<char>) -> bool {
    match (base64_standard(cle), base64_standard(signature)) {
        (Some(k), Some(s)) => k.len() == 32 && s.len() == 64 && ed25519_valide(k, vstd::utf8::encode_utf8(payload), s),
        _ => false,
    }
}

/// Vérifie la signature d'une demande d'extension voulant agir en
/// fondateur : signature Ed25519 de la charge par la clé du fondateur.
pub fn verifier_signature_extension(payload: &str, signature_b64: &str, pubkey_b64: &str) -> (r: bool)
    ensures
        r == signature_ed25519_acceptee(payload@, signature_b64@, pubkey_b64@),
{
    let k = match decoder_base64_standard(pubkey_b64) {
        Some(k) => k,
        None => return false,
    };
    let s = match decoder_base64_standard(signature_b64) {
        Some(s) => s,
        None => return false,
    };
    if k.len() != 32 || s.len() != 64 {
        return false;
    }
    let arr: [u8; 32] = [
        k[0], k[1], k[2], k[3], k[4], k[5], k[6], k[7], k[8], k[9], k[10], k[11], k[12], k[13], k[14], k[15],
        k[16], k[17], k[18], k[19], k[20], k[21], k[22], k[23], k[24], k[25], k[26], k[27], k[28], k[29], k[30],
        k[31],
    ];
    assert(arr@ =~= k@);
    verifier_ed25519(&arr, payload.as_bytes(), &s)
}

/// Refus d'une demande d'élévation au rang de fondateur.
#[derive(PartialEq, Eq, Structural, Clone, Copy, Debug)]
pub enum RefusElevation {
    /// Aucune clé publique de fondateur n'est enregistrée.
    ClePubliqueAbsente,
    /// La signature ne correspond pas.
    SignatureInvalide,
    /// La charge n'est pas `fondateur:<id>:<…>`.
    PayloadMalForme,
    /// L'identifiant de la charge n'est pas un entier.
    IdInvalide,
}

impl RefusElevation {
    /// Le message du refus.
    pub fn message(&self) -> (r: &'static str)
        ensures
            r@ == match *self {
                RefusElevation::ClePubliqueAbsente => "Clé publique fondateur absente."@,
                RefusElevation::SignatureInvalide => "Signature invalide."@,
                RefusElevation::PayloadMalForme => "Payload mal formé."@,
                RefusElevation::IdInvalide => "ID invalide dans payload."@,
            },
    {
        match self {
            RefusElevation::ClePubliqueAbsente => "Clé publique fondateur absente.",
            RefusElevation::SignatureInvalide => "Signature invalide.",
            RefusElevation::PayloadMalForme => "Payload mal formé.",
            RefusElevation::IdInvalide => "ID invalide dans payload.",
        }
    }
}

/// Les morceaux de `s` séparés par `c` (comme `str::split`).
pub open spec fn morceaux(s: Seq<char>, c: char) -> Seq<Seq<char>> {
    crate::texte::decouper(s, c)
}

/// Issue d'une demande d'élévation : clé présente, signature acceptée,
/// charge `fondateur:<id>:…` d'au moins trois morceaux, id entier.
pub open spec fn elevation(pubkey: Option<Seq<char>>, payload: Seq<char>, signature: Seq<char>) -> Result<i64, RefusElevation> {
    match pubkey {
        None => Err(RefusElevation::ClePubliqueAbsente),
        Some(k) => if !signature_ed25519_acceptee(payload, signature, k) {
            Err(RefusElevation::SignatureInvalide)
        } else {
            let parts = morceaux(payload, ':');
            if parts.len() < 3 || parts[0] != "fondateur"@ {
                Err(RefusElevation::PayloadMalForme)
            } else {
                match i64_ecrit(parts[1]) {
                    Some(id) => Ok(id),
                    None => Err(RefusElevation::IdInvalide),
                }
            }
        },
    }
}

/// Tentative d'élévation au rang de fondateur par une extension signée :
/// l'id du fondateur si la signature (clé publique `pubkey`) est valide et
/// la charge bien formée.
pub fn demande_elevation_fondateur(pubkey: Option<&str>, payload: &str, signature_b64: &str) -> (r: Result<i64, RefusElevation>)
    ensures
        r == elevation(
            match pubkey {
                Some(k) => Some(k@),
                None => None,
            },
            payload@,
            signature_b64@,
        ),
{
    let k = match pubkey {
        Some(k) => k,
        None => return Err(RefusElevation::ClePubliqueAbsente),
    };
    if !verifier_signature_extension(payload, signature_b64, k) {
        return Err(RefusElevation::SignatureInvalide);
    }
    let p = caracteres(payload);
    let parts = crate::texte::decoupe(&p, ':');
    let ghost vp = crate::texte::vues(parts@);
    assert(vp.len() == parts@.len());
    if parts.len() < 3 || !egale_lit(&parts[0], "fondateur") {
        assert(parts.len() >= 3 ==> vp[0] == parts@[0]@);
        return Err(RefusElevation::PayloadMalForme);
    }
    assert(vp[0] == parts@[0]@);
    assert(vp[1] == parts@[1]@);
    match analyser_i64(&parts[1]) {
        Some(id) => Ok(id),
        None => Err(RefusElevation::IdInvalide),
    }
}

// ══════════════════════════════════════════════════════════════════
// Commandes du terminal
// ══════════════════════════════════════════════════════════════════

/// Action sur une table demandée au terminal.
#[derive(PartialEq, Eq, Structural, Clone, Copy, Debug)]
pub enum ActionTable {
    Vider,
    SupprimerToutesLesLignes,
}

/// Ce que demandent les arguments du terminal.
#[derive(PartialEq, Eq, Debug)]
pub enum CommandeTerminal {
    /// `--help-db` : afficher l'aide.
    Aide,
    /// `--table-action` sans ses deux arguments.
    UsageTableAction,
    /// `--table-action <table> <action>` avec une action inconnue.
    ActionInconnue { inconnue: String },
    /// `--table-action <table> <vider|supprimer-lignes>`.
    ActionTable { table: String, action: ActionTable },
    /// `--set-privilege` sans deux entiers.
    UsagePrivilege,
    /// `--set-privilege <id> 1` : refusé, le rang 1 est réservé au fondateur.
    PrivilegeFondateurRefuse { user_id: i64 },
    /// `--set-privilege <id> <privilege>`.
    RegleePrivilege { user_id: i64, privilege: i64 },
}

/// Position du premier argument égal à `a`, -1 s'il n'y en a pas.
pub open spec fn position(args: Seq<Seq<char>>, a: Seq<char>) -> int
    decreases args.len(),
{
    if args.len() == 0 {
        -1
    } else if args[0] == a {
        0
    } else {
        let r = position(args.drop_first(), a);
        if r < 0 { -1 } else { r + 1 }
    }
}

/// Les arguments, en suites de caractères.
pub open spec fn vues_args(args: Seq<String>) -> Seq<Seq<char>> {
    args.map_values(|a: String| a@)
}

/// Argument `i` s'il existe.
pub open spec fn arg(args: Seq<Seq<char>>, i: int) -> Option<Seq<char>> {
    if 0 <= i < args.len() { Some(args[i]) } else { None }
}

/// Entier en argument `i`, s'il existe et s'écrit comme un `i64`.
pub open spec fn arg_i64(args: Seq<Seq<char>>, i: int) -> Option<i64> {
    match arg(args, i) {
        Some(a) => i64_ecrit(a),
        None => None,
    }
}

/// Vue d'une commande.
pub enum VueCommande {
    Aide,
    UsageTableAction,
    ActionInconnue(Seq<char>),
    ActionTable(Seq<char>, ActionTable),
    UsagePrivilege,
    PrivilegeFondateurRefuse(i64),
    RegleePrivilege(i64, i64),
}

/// Vue d'une commande (les chaînes par leurs caractères).
pub open spec fn vue_commande(c: CommandeTerminal) -> VueCommande {
    match c {
        CommandeTerminal::Aide => VueCommande::Aide,
        CommandeTerminal::UsageTableAction => VueCommande::UsageTableAction,
        CommandeTerminal::ActionInconnue { inconnue } => VueCommande::ActionInconnue(inconnue@),
        CommandeTerminal::ActionTable { table, action } => VueCommande::ActionTable(table@, action),
        CommandeTerminal::UsagePrivilege => VueCommande::UsagePrivilege,
        CommandeTerminal::PrivilegeFondateurRefuse { user_id } => VueCommande::PrivilegeFondateurRefuse(user_id),
        CommandeTerminal::RegleePrivilege { user_id, privilege } => VueCommande::RegleePrivilege(user_id, privilege),
    }
}

/// Commande demandée par les arguments, dans l'ordre de priorité :
/// `--help-db`, puis `--table-action`, puis `--set-privilege`.
pub open spec fn commande_de(args: Seq<Seq<char>>) -> Option<VueCommande> {
    if position(args, "--help-db"@) >= 0 {
        Some(VueCommande::Aide)
    } else if position(args, "--table-action"@) >= 0 {
        let pos = position(args, "--table-action"@);
        match (arg(args, pos + 1), arg(args, pos + 2)) {
            (Some(t), Some(a)) => if a == "vider"@ {
                Some(VueCommande::ActionTable(t, ActionTable::Vider))
            } else if a == "supprimer-lignes"@ {
                Some(VueCommande::ActionTable(t, ActionTable::SupprimerToutesLesLignes))
            } else {
                Some(VueCommande::ActionInconnue(a))
            },
            _ => Some(VueCommande::UsageTableAction),
        }
    } else if position(args, "--set-privilege"@) >= 0 {
        let pos = position(args, "--set-privilege"@);
        match (arg_i64(args, pos + 1), arg_i64(args, pos + 2)) {
            (Some(u), Some(p)) => if p == 1 {
                Some(VueCommande::PrivilegeFondateurRefuse(u))
            } else {
                Some(VueCommande::RegleePrivilege(u, p))
            },
            _ => Some(VueCommande::UsagePrivilege),
        }
    } else {
        None
    }
}

proof fn lemme_position(args: Seq<Seq<char>>, a: Seq<char>)
    ensures
        -1 <= position(args, a) < args.len(),
        position(args, a) >= 0 ==> args[position(args, a)] == a,
        forall|j: int| 0 <= j < args.len() && (position(args, a) < 0 || j < position(args, a)) ==> args[j] != a,
    decreases args.len(),
{
    if args.len() > 0 && args[0] != a {
        lemme_position(args.drop_first(), a);
        assert forall|j: int|
            0 <= j < args.len() && (position(args, a) < 0 || j < position(args, a)) implies args[j] != a by {
            if j > 0 {
                assert(args[j] == args.drop_first()[j - 1]);
            }
        }
    }
}

fn chercher_arg(args: &[String], a: &str) -> (r: Option<usize>)
    ensures
        match r {
            Some(i) => position(vues_args(args@), a@) == i as int && i < args.len(),
            None => position(vues_args(args@), a@) == -1,
        },
{
    let ghost v = vues_args(args@);
    proof {
        lemme_position(v, a@);
    }
    let mut i: usize = 0;
    while i < args.len()
        invariant
            i <= args.len(),
            v == vues_args(args@),
            -1 <= position(v, a@) < v.len(),
            position(v, a@) >= 0 ==> v[position(v, a@)] == a@,
            forall|j: int| 0 <= j < v.len() && (position(v, a@) < 0 || j < position(v, a@)) ==> v[j] != a@,
            forall|j: int| 0 <= j < i ==> #[trigger] v[j] != a@,
        decreases args.len() - i,
    {
        let c = caracteres(args[i].as_str());
        if egale_lit(&c, a) {
            assert(v[i as int] == a@);
            return Some(i);
        }
        assert(v[i as int] != a@);
        i += 1;
    }
    None
}

fn arg_entier(args: &[String], i: usize) -> (r: Option<i64>)
    ensures
        r == arg_i64(vues_args(args@), i as int),
{
    if i < args.len() {
        let c = caracteres(args[i].as_str());
        analyser_i64(&c)
    } else {
        None
    }
}

/// Commande du terminal demandée par les arguments du programme, s'il y en
/// a une.
pub fn commande_terminal(args: &[String]) -> (r: Option<CommandeTerminal>)
    ensures
        match r {
            Some(c) => commande_de(vues_args(args@)) == Some(vue_commande(c)),
            None => commande_de(vues_args(args@)) is None,
        },
{
    let ghost v = vues_args(args@);
    if chercher_arg(args, "--help-db").is_some() {
        return Some(CommandeTerminal::Aide);
    }
    match chercher_arg(args, "--table-action") {
        Some(pos) => {
            if args.len() - pos <= 2 {
                return Some(CommandeTerminal::UsageTableAction);
            }
            let table = args[pos + 1].clone();
            let action = args[pos + 2].clone();
            let a = caracteres(action.as_str());
            assert(v[pos + 1] == table@);
            assert(v[pos + 2] == action@);
            if egale_lit(&a, "vider") {
                return Some(CommandeTerminal::ActionTable { table, action: ActionTable::Vider });
            } else if egale_lit(&a, "supprimer-lignes") {
                return Some(CommandeTerminal::ActionTable { table, action: ActionTable::SupprimerToutesLesLignes });
            } else {
                return Some(CommandeTerminal::ActionInconnue { inconnue: action });
            }
        },
        None => {},
    }
    match chercher_arg(args, "--set-privilege") {
        Some(pos) => {
            let u = arg_entier(args, pos + 1);
            let p = if args.len() - pos > 2 { arg_entier(args, pos + 2) } else { None };
            match (u, p) {
                (Some(user_id), Some(privilege)) => {
                    if privilege == 1 {
                        Some(CommandeTerminal::PrivilegeFondateurRefuse { user_id })
                    } else {
                        Some(CommandeTerminal::RegleePrivilege { user_id, privilege })
                    }
                },
                _ => Some(CommandeTerminal::UsagePrivilege),
            }
        },
        None => None,
    }
}

// ══════════════════════════════════════════════════════════════════
// Audit du privilège fondateur
// ══════════════════════════════════════════════════════════════════

/// Identifiants (0 s'il manque) des comptes de privilège 1 autres que le
/// fondateur légitime, dans l'ordre.
pub open spec fn illegitimes(ids: Seq<Option<i64>>, fondateur: i64) -> Seq<i64>
    decreases ids.len(),
{
    if ids.len() == 0 {
        Seq::empty()
    } else {
        let r = illegitimes(ids.drop_last(), fondateur);
        let id = match ids.last() {
            Some(n) => n,
            None => 0,
        };
        if id == fondateur { r } else { r.push(id) }
    }
}

/// Comptes de privilège 1 à rétrograder au privilège 10 : tous ceux qui ne
/// sont pas le fondateur légitime (voir `illegitimes`). `ids` sont les
/// identifiants lus des comptes de privilège 1.
pub fn audit_privilege_1(ids: &[Option<i64>], fondateur_id_legitime: i64) -> (r: Vec<i64>)
    ensures
        r@ == illegitimes(ids@, fondateur_id_legitime),
{
    let mut r: Vec<i64> = Vec::new();
    let mut i: usize = 0;
    while i < ids.len()
        invariant
            i <= ids.len(),
            r@ == illegitimes(ids@.subrange(0, i as int), fondateur_id_legitime),
        decreases ids.len() - i,
    {
        assert(ids@.subrange(0, i + 1).drop_last() =~= ids@.subrange(0, i as int));
        let id = match ids[i] {
            Some(n) => n,
            None => 0,
        };
        if id != fondateur_id_legitime {
            r.push(id);
        }
        i += 1;
    }
    assert(ids@.subrange(0, ids@.len() as int) =~= ids@);
    r
}

/// Message de sécurité pour un compte rétrogradé.
pub open spec fn message_audit(id: i64, nom: Seq<char>, email: Seq<char>) -> Seq<char> {
    "PRIVILEGE ILLÉGITIME détecté — id="@ + decimal_signe(id as int) + " nom='"@ + nom + "' email='"@ + email
        + "' avait privilege=1 → forcé à 10"@
}

/// Message de sécurité (voir `message_audit`).
pub fn ligne_audit(id: i64, nom: &str, email: &str) -> (r: String)
    ensures
        r@ == message_audit(id, nom@, email@),
{
    let mut o: Vec<char> = Vec::new();
    ajouter(&mut o, "PRIVILEGE ILLÉGITIME détecté — id=");
    ajouter_decimal_signe(&mut o, id);
    ajouter(&mut o, " nom='");
    ajouter(&mut o, nom);
    ajouter(&mut o, "' email='");
    ajouter(&mut o, email);
    ajouter(&mut o, "' avait privilege=1 → forcé à 10");
    chaine_de(&o)
}

} // verus!
