//! Dates « AAAA-MM-JJ HH:MM:SS » des tables : lecture et écriture courte
//! par `chrono`.

use vstd::prelude::*;

verus! {

/// Instant Unix (secondes, UTC) écrit par une date « %Y-%m-%d %H:%M:%S »,
/// `None` si le texte n'en est pas une (valeur nommée de `chrono`).
pub uninterp spec fn instant_de(s: Seq<char>) -> Option<i64>;

/// `chrono::NaiveDateTime::parse_from_str(s, "%Y-%m-%d %H:%M:%S")` puis
/// `and_utc().timestamp()`. Contrat : le résultat est la valeur nommée
/// `instant_de` du texte, une erreur de lecture donnant `None`.
#[verifier::external_body]
pub(crate) fn lire_date_heure(s: &str) -> (r: Option<i64>)
    ensures
        r == instant_de(s@),
{
    match chrono::NaiveDateTime::parse_from_str(s, "%Y-%m-%d %H:%M:%S") {
        Ok(dt) => Some(dt.and_utc().timestamp()),
        Err(_) => None,
    }
}

/// Date courte « JJ/MM/AAAA » d'une date « %Y-%m-%d %H:%M:%S », `None` si
/// le texte n'en est pas une (valeur nommée de `chrono`).
pub uninterp spec fn date_jma(s: Seq<char>) -> Option<Seq<char>>;

/// `chrono::NaiveDateTime::parse_from_str(s, "%Y-%m-%d %H:%M:%S")` puis
/// `format("%d/%m/%Y")`. Contrat : le résultat est la valeur nommée
/// `date_jma` du texte.
#[verifier::external_body]
pub(crate) fn date_courte(s: &str) -> (r: Option<String>)
    ensures
        match r {
            Some(d) => date_jma(s@) == Some(d@),
            None => date_jma(s@) is None,
        },
{
    match chrono::NaiveDateTime::parse_from_str(s, "%Y-%m-%d %H:%M:%S") {
        Ok(dt) => Some(dt.format("%d/%m/%Y").to_string()),
        Err(_) => None,
    }
}

/// Instant d'une date des tables, 0 si elle est illisible.
pub open spec fn ts_de(s: Seq<char>) -> i64 {
    match instant_de(s) {
        Some(t) => t,
        None => 0,
    }
}

/// Instant d'une date des tables, 0 si elle est illisible.
pub fn ts_de_date(s: &str) -> (r: i64)
    ensures
        r == ts_de(s@),
{
    match lire_date_heure(s) {
        Some(t) => t,
        None => 0,
    }
}


/// Instant Unix (secondes, UTC) écrit par une date « %Y-%m-%dT%H:%M:%S »,
/// `None` si le texte n'en est pas une (valeur nommée de `chrono`).
pub uninterp spec fn instant_iso_de(s: Seq<char>) -> Option<i64>;

/// `chrono::NaiveDateTime::parse_from_str(s, "%Y-%m-%dT%H:%M:%S")` puis
/// `and_utc().timestamp()`. Contrat : le résultat est la valeur nommée
/// `instant_iso_de` du texte, une erreur de lecture donnant `None`.
#[verifier::external_body]
pub(crate) fn lire_date_heure_iso(s: &str) -> (r: Option<i64>)
    ensures
        r == instant_iso_de(s@),
{
    match chrono::NaiveDateTime::parse_from_str(s, "%Y-%m-%dT%H:%M:%S") {
        Ok(dt) => Some(dt.and_utc().timestamp()),
        Err(_) => None,
    }
}

} // verus!
