//! VEX : logique du serveur (SRP-6a, jetons, journal d'accès, routage,
//! rendu HTML) sous forme de fonctions vérifiées.

pub mod texte;
pub mod utils;
pub mod grand;
pub mod crypto;
pub mod srp;
pub mod connexion;
pub mod autologin;
pub mod routage;
pub mod json;
pub mod sitec;
pub mod sitec_nettoyage;
pub mod sso;
pub mod p2p;
pub mod temps;
pub mod tableau;
pub mod notice;
pub mod compte;
pub mod inscription;
pub mod appareil;
pub mod premier;
pub mod editeur;
pub mod recherche;
pub mod visio;
pub mod messagerie;
pub mod sso_pages;
pub mod replication;
