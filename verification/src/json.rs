//! Valeurs JSON telles que la logique les lit : accès aux champs d'un
//! objet, texte d'un champ, liste d'un champ ; lecture d'un texte JSON par
//! `serde_json`. Les textes JSON que la bibliothèque écrit le sont ici, dans
//! la forme de `serde_json` (échappement des chaînes, clés triées).

use vstd::prelude::*;
use crate::texte::{ajouter_car, ajouter_echappe, caracteres, egales, tranche, Echappement, echappe};

verus! {

broadcast use vstd::string::group_string_axioms;

/// Une valeur JSON. Un nombre est un entier de `i64`, un entier plus grand
/// (jusqu'à `u64::MAX`), ou un autre nombre, gardé par son écriture
/// décimale (voir `tronque_decimal` pour la lecture qu'en fait la logique).
pub enum Json {
    Nul,
    Booleen(bool),
    Nombre(i64),
    Grand(u64),
    Decimal(String),
    Texte(String),
    Liste(Vec<Json>),
    Objet(Vec<(String, Json)>),
}

/// Valeur de la première entrée de clé `k`, `Nul` s'il n'y en a pas.
pub open spec fn champ_dans(m: Seq<(String, Json)>, k: Seq<char>) -> Json
    decreases m.len(),
{
    if m.len() == 0 {
        Json::Nul
    } else if m[0].0@ == k {
        m[0].1
    } else {
        champ_dans(m.drop_first(), k)
    }
}

/// `v[k]` : le champ `k` d'un objet, `Nul` pour une autre valeur ou un
/// champ absent.
pub open spec fn champ(v: Json, k: Seq<char>) -> Json {
    match v {
        Json::Objet(m) => champ_dans(m@, k),
        _ => Json::Nul,
    }
}

/// `v.as_str().unwrap_or("")`.
pub open spec fn texte_de(v: Json) -> Seq<char> {
    match v {
        Json::Texte(s) => s@,
        _ => Seq::empty(),
    }
}

/// Texte du champ `k` (vide s'il n'est pas une chaîne).
pub open spec fn t(v: Json, k: Seq<char>) -> Seq<char> {
    texte_de(champ(v, k))
}

/// Éléments du champ `k` s'il est une liste, sinon aucun.
pub open spec fn elements(v: Json, k: Seq<char>) -> Seq<Json> {
    match champ(v, k) {
        Json::Liste(l) => l@,
        _ => Seq::empty(),
    }
}

/// Échappement HTML (`& < > " '`).
pub open spec fn h(s: Seq<char>) -> Seq<char> {
    echappe(Echappement::HtmlApos, s)
}

/// Texte échappé du champ `k`.
pub open spec fn ht(v: Json, k: Seq<char>) -> Seq<char> {
    h(t(v, k))
}

/// La valeur est un objet.
pub open spec fn est_objet(v: Json) -> bool {
    v is Objet
}

proof fn lemme_champ_dans(m: Seq<(String, Json)>, k: Seq<char>, i: int)
    requires
        0 <= i <= m.len(),
        forall|j: int| 0 <= j < i ==> (#[trigger] m[j]).0@ != k,
    ensures
        champ_dans(m, k) == champ_dans(m.subrange(i, m.len() as int), k),
    decreases i,
{
    assert(m.subrange(0, m.len() as int) =~= m);
    if i > 0 {
        let n = m.drop_first();
        assert forall|j: int| 0 <= j < i - 1 implies (#[trigger] n[j]).0@ != k by {
            assert(n[j] == m[j + 1]);
        }
        lemme_champ_dans(n, k, i - 1);
        assert(n.subrange(i - 1, n.len() as int) =~= m.subrange(i, m.len() as int));
        assert(m[0].0@ != k);
    }
}

/// `v[k]`, s'il est présent.
pub fn valeur_de<'a>(v: &'a Json, k: &str) -> (r: Option<&'a Json>)
    ensures
        match r {
            Some(x) => champ(*v, k@) == *x,
            None => champ(*v, k@) == Json::Nul,
        },
{
    match v {
        Json::Objet(m) => {
            let kc = caracteres(k);
            let mut i: usize = 0;
            while i < m.len()
                invariant
                    i <= m.len(),
                    kc@ == k@,
                    champ(*v, k@) == champ_dans(m@, k@),
                    forall|j: int| 0 <= j < i ==> (#[trigger] m@[j]).0@ != k@,
                decreases m.len() - i,
            {
                let c = caracteres(m[i].0.as_str());
                if egales(&c, &kc) {
                    proof {
                        lemme_champ_dans(m@, k@, i as int);
                        assert(m@.subrange(i as int, m@.len() as int)[0] == m@[i as int]);
                        assert(c@ == m@[i as int].0@);
                        assert(m@[i as int].0@ == k@);
                        assert(champ_dans(m@.subrange(i as int, m@.len() as int), k@) == m@[i as int].1);

                    }
                    return Some(&m[i].1);
                }
                i += 1;
            }
            proof {
                lemme_champ_dans(m@, k@, i as int);
            }
            None
        },
        _ => None,
    }
}

/// Texte du champ `k` (vide s'il n'est pas une chaîne).
pub fn texte_ref<'a>(v: &'a Json, k: &str) -> (r: &'a str)
    ensures
        r@ == t(*v, k@),
{
    match valeur_de(v, k) {
        Some(Json::Texte(s)) => s.as_str(),
        _ => {
            proof {
                reveal_strlit("");
            }
            ""
        },
    }
}

/// Caractères du texte du champ `k`.
pub fn texte_champ(v: &Json, k: &str) -> (r: Vec<char>)
    ensures
        r@ == t(*v, k@),
{
    caracteres(texte_ref(v, k))
}

/// Éléments du champ `k` s'il est une liste.
pub fn elements_de<'a>(v: &'a Json, k: &str) -> (r: &'a [Json])
    ensures
        r@ == elements(*v, k@),
{
    match valeur_de(v, k) {
        Some(Json::Liste(l)) => l.as_slice(),
        _ => &[],
    }
}

/// Ajoute à `out` les caractères `s` échappés pour HTML.
pub fn ajouter_h(out: &mut Vec<char>, s: &[char])
    ensures
        final(out)@ == old(out)@ + h(s@),
{
    ajouter_echappe(out, Echappement::HtmlApos, s);
}

/// Ajoute à `out` le texte échappé du champ `k`.
pub fn ajouter_ht(out: &mut Vec<char>, v: &Json, k: &str)
    ensures
        final(out)@ == old(out)@ + ht(*v, k@),
{
    let s = texte_champ(v, k);
    ajouter_h(out, &s);
}

/// Les textes d'une suite de `&str`.
pub open spec fn vues_str(s: Seq<&str>) -> Seq<Seq<char>> {
    s.map_values(|x: &str| x@)
}

/// `s` s'il figure parmi `choix`, sinon `defaut`.
pub open spec fn choix(s: Seq<char>, choix: Seq<Seq<char>>, defaut: Seq<char>) -> Seq<char> {
    if choix.contains(s) { s } else { defaut }
}

/// `s` figure-t-il parmi `choix` ?
pub fn parmi(s: &[char], choix: &[&str]) -> (r: bool)
    ensures
        r == vues_str(choix@).contains(s@),
{
    let mut i: usize = 0;
    while i < choix.len()
        invariant
            i <= choix.len(),
            forall|j: int| 0 <= j < i ==> (#[trigger] choix@[j])@ != s@,
        decreases choix.len() - i,
    {
        let c = caracteres(choix[i]);
        if egales(&c, s) {
            assert(vues_str(choix@)[i as int] == s@);
            return true;
        }
        i += 1;
    }
    assert forall|j: int| 0 <= j < vues_str(choix@).len() implies vues_str(choix@)[j] != s@ by {
        assert(vues_str(choix@)[j] == choix@[j]@);
    }
    false
}

/// `san_choice` : le texte du champ `k` s'il figure parmi `choix`, sinon
/// `defaut`.
pub fn choisir(v: &Json, k: &str, choix_possibles: &[&str], defaut: &str) -> (r: Vec<char>)
    ensures
        r@ == choix(t(*v, k@), vues_str(choix_possibles@), defaut@),
{
    let s = texte_champ(v, k);
    if parmi(&s, choix_possibles) {
        s
    } else {
        caracteres(defaut)
    }
}

/// Ajoute à `out` les caractères `v`.
pub fn ajouter_vec(out: &mut Vec<char>, v: &Vec<char>)
    ensures
        final(out)@ == old(out)@ + v@,
{
    ajouter_car(out, v.as_slice());
}

// ══════════════════════════════════════════════════════════════════
// Nombres écrits en décimal
// ══════════════════════════════════════════════════════════════════

pub open spec fn est_chiffre(c: char) -> bool {
    '0' <= c <= '9'
}

/// Fin de la suite de chiffres qui commence à `i`.
pub open spec fn fin_chiffres(s: Seq<char>, i: int) -> int
    decreases s.len() - i,
{
    if 0 <= i < s.len() && est_chiffre(s[i]) { fin_chiffres(s, i + 1) } else { i }
}

proof fn lemme_fin_chiffres(s: Seq<char>, i: int)
    requires
        0 <= i <= s.len(),
    ensures
        i <= fin_chiffres(s, i) <= s.len(),
        forall|j: int| i <= j < fin_chiffres(s, i) ==> est_chiffre(#[trigger] s[j]),
        fin_chiffres(s, i) < s.len() ==> !est_chiffre(s[fin_chiffres(s, i)]),
    decreases s.len() - i,
{
    if i < s.len() && est_chiffre(s[i]) {
        lemme_fin_chiffres(s, i + 1);
    }
}

/// Fin de la suite de chiffres qui commence à `i`.
fn fin_des_chiffres(s: &[char], i: usize) -> (r: usize)
    requires
        i <= s.len(),
    ensures
        r == fin_chiffres(s@, i as int),
{
    let mut j = i;
    while j < s.len() && '0' <= s[j] && s[j] <= '9'
        invariant
            i <= j <= s.len(),
            fin_chiffres(s@, j as int) == fin_chiffres(s@, i as int),
        decreases s.len() - j,
    {
        j += 1;
    }
    j
}

/// Écriture d'un nombre décimal : `-` facultatif, chiffres, partie
/// décimale facultative (`.` et au moins un chiffre), exposant facultatif
/// (`e` ou `E`, signe facultatif, un à quatre chiffres). Rend le signe, les
/// chiffres de la mantisse sans le point, et la puissance de dix qui les
/// multiplie.
pub open spec fn decompose_decimal(t: Seq<char>) -> Option<(bool, Seq<char>, int)> {
    let neg = t.len() > 0 && t[0] == '-';
    let p0: int = if neg { 1 } else { 0 };
    let p1 = fin_chiffres(t, p0);
    let point = p1 < t.len() && t[p1] == '.';
    let p2 = if point { fin_chiffres(t, p1 + 1) } else { p1 };
    let expo = p2 < t.len() && (t[p2] == 'e' || t[p2] == 'E');
    let signe_e = expo && p2 + 1 < t.len() && (t[p2 + 1] == '+' || t[p2 + 1] == '-');
    let q: int = if signe_e { p2 + 2 } else { p2 + 1 };
    let p3 = if expo { fin_chiffres(t, q) } else { p2 };
    let mantisse = t.subrange(p0, p1) + if point { t.subrange(p1 + 1, p2) } else { Seq::empty() };
    let e: int = if !expo {
        0
    } else if signe_e && t[p2 + 1] == '-' {
        -(valeur_plafonnee(t.subrange(q, p3)) as int)
    } else {
        valeur_plafonnee(t.subrange(q, p3)) as int
    };
    if p1 > p0 && (!point || p2 > p1 + 1) && (!expo || (p3 > q && p3 - q <= 4)) && p3 == t.len() {
        Some((neg, mantisse, e - (if point { p2 - p1 - 1 } else { 0 })))
    } else {
        None
    }
}

/// Chiffres de la partie entière de `d × 10^k`.
pub open spec fn chiffres_entiers(d: Seq<char>, k: int) -> Seq<char> {
    if k >= 0 {
        d + Seq::new(k as nat, |i: int| '0')
    } else if d.len() + k <= 0 {
        Seq::empty()
    } else {
        d.subrange(0, d.len() + k)
    }
}

/// Plafond de la valeur lue : 2^63.
pub open spec fn plafond() -> nat {
    0x8000_0000_0000_0000
}

/// Valeur décimale des chiffres, plafonnée à 2^63.
pub open spec fn valeur_plafonnee(s: Seq<char>) -> nat
    decreases s.len(),
{
    if s.len() == 0 {
        0
    } else {
        let v = valeur_plafonnee(s.drop_last()) * 10 + ((s.last() as nat) - ('0' as nat));
        if v > plafond() { plafond() } else { v as nat }
    }
}

/// Lecture entière d'un nombre écrit en décimal, comme `f as i64` sur sa
/// valeur : tronqué vers zéro, ramené aux bornes d'un `i64` ; `None` si le
/// texte n'est pas une écriture décimale.
pub open spec fn tronque_decimal(t: Seq<char>) -> Option<i64> {
    match decompose_decimal(t) {
        None => None,
        Some((neg, d, k)) => {
            let v = valeur_plafonnee(chiffres_entiers(d, k));
            Some(
                if neg {
                    (-(v as int)) as i64
                } else if v > i64::MAX {
                    i64::MAX
                } else {
                    v as i64
                },
            )
        },
    }
}

/// Valeur décimale plafonnée des chiffres (voir `valeur_plafonnee`).
fn valeur_chiffres(s: &[char]) -> (r: u64)
    requires
        forall|i: int| 0 <= i < s.len() ==> est_chiffre(#[trigger] s@[i]),
    ensures
        r == valeur_plafonnee(s@),
{
    let mut v: u64 = 0;
    let mut j: usize = 0;
    assert(s@.subrange(0, 0) =~= Seq::<char>::empty());
    while j < s.len()
        invariant
            j <= s.len(),
            forall|i: int| 0 <= i < s.len() ==> est_chiffre(#[trigger] s@[i]),
            v == valeur_plafonnee(s@.subrange(0, j as int)),
            v <= plafond(),
        decreases s.len() - j,
    {
        let d = (s[j] as u32 - '0' as u32) as u64;
        assert(s@.subrange(0, j + 1).drop_last() =~= s@.subrange(0, j as int));
        let w: u128 = (v as u128) * 10 + (d as u128);
        v = if w > 0x8000_0000_0000_0000 { 0x8000_0000_0000_0000 } else { w as u64 };
        j += 1;
    }
    assert(s@.subrange(0, s.len() as int) =~= s@);
    v
}

/// Décomposition d'une écriture décimale (voir `decompose_decimal`).
#[verifier::rlimit(40)]
fn decomposer_decimal(c: &[char]) -> (r: Option<(bool, Vec<char>, i128)>)
    ensures
        match r {
            Some((neg, d, k)) => {
                &&& decompose_decimal(c@) == Some((neg, d@, k as int))
                &&& k <= 9999
                &&& forall|i: int| 0 <= i < d@.len() ==> est_chiffre(#[trigger] d@[i])
            },
            None => decompose_decimal(c@) is None,
        },
{
    let n = c.len();
    let neg = n > 0 && c[0] == '-';
    let p0: usize = if neg { 1 } else { 0 };
    let p1 = fin_des_chiffres(c, p0);
    let point = p1 < n && c[p1] == '.';
    let p2 = if point { fin_des_chiffres(c, p1 + 1) } else { p1 };
    let expo = p2 < n && (c[p2] == 'e' || c[p2] == 'E');
    let signe_e = expo && p2 + 1 < n && (c[p2 + 1] == '+' || c[p2 + 1] == '-');
    let q: usize = if !expo { p2 } else if signe_e { p2 + 2 } else { p2 + 1 };
    let p3 = if expo { fin_des_chiffres(c, q) } else { p2 };
    proof {
        lemme_fin_chiffres(c@, p0 as int);
        if point {
            lemme_fin_chiffres(c@, p1 + 1);
        }
        if expo {
            lemme_fin_chiffres(c@, q as int);
        }
    }
    if !(p1 > p0 && (!point || p2 > p1 + 1) && (!expo || (p3 > q && p3 - q <= 4)) && p3 == n) {
        return None;
    }
    let mut d = tranche(c, p0, p1);
    if point {
        let mut f = tranche(c, p1 + 1, p2);
        d.append(&mut f);
    }
    let e: i128 = if expo {
        let x = tranche(c, q, p3);
        proof {
            assert forall|i: int| 0 <= i < x@.len() implies est_chiffre(#[trigger] x@[i]) by {
                assert(x@[i] == c@[q + i]);
            }
            lemme_plafond_court(x@);
        }
        let m = valeur_chiffres(&x);
        if signe_e && c[p2 + 1] == '-' { -(m as i128) } else { m as i128 }
    } else {
        0
    };
    let nf: i128 = if point { (p2 - p1 - 1) as i128 } else { 0 };
    proof {
        let dd = d@;
        assert forall|i: int| 0 <= i < dd.len() implies est_chiffre(#[trigger] dd[i]) by {
            if i < p1 - p0 {
                assert(dd[i] == c@[p0 + i]);
            } else {
                assert(dd[i] == c@[p1 + 1 + (i - (p1 - p0))]);
            }
        }
    }
    Some((neg, d, e - nf))
}

/// Chiffres de la partie entière de `d × 10^k` (voir `chiffres_entiers`).
fn chiffres_de(d: Vec<char>, k: i128) -> (r: Vec<char>)
    requires
        k <= 9999,
        forall|i: int| 0 <= i < d@.len() ==> est_chiffre(#[trigger] d@[i]),
    ensures
        r@ == chiffres_entiers(d@, k as int),
        forall|i: int| 0 <= i < r@.len() ==> est_chiffre(#[trigger] r@[i]),
{
    let ghost dd = d@;
    let r: Vec<char> = if k >= 0 {
        let mut v = d;
        let mut z: i128 = 0;
        while z < k
            invariant
                0 <= z <= k,
                v@ == dd + Seq::new(z as nat, |i: int| '0'),
            decreases k - z,
        {
            v.push('0');
            z += 1;
            assert(v@ =~= dd + Seq::new(z as nat, |i: int| '0'));
        }
        v
    } else if (d.len() as i128) + k <= 0 {
        Vec::new()
    } else {
        let fin = ((d.len() as i128) + k) as usize;
        tranche(&d, 0, fin)
    };
    proof {
        let ce = chiffres_entiers(dd, k as int);
        assert(r@ =~= ce);
        assert forall|i: int| 0 <= i < ce.len() implies est_chiffre(#[trigger] ce[i]) by {
            if k >= 0 && i >= dd.len() {
            } else {
                assert(ce[i] == dd[i]);
            }
        }
    }
    r
}

/// Lecture entière d'un nombre écrit en décimal (voir `tronque_decimal`).
pub fn tronquer_decimal(t: &str) -> (r: Option<i64>)
    ensures
        r == tronque_decimal(t@),
{
    let c = caracteres(t);
    let (neg, d, k) = match decomposer_decimal(&c) {
        Some(x) => x,
        None => return None,
    };
    let chiffres = chiffres_de(d, k);
    let v = valeur_chiffres(&chiffres);
    if neg {
        Some(-(v as i128) as i64)
    } else if v > 0x7fff_ffff_ffff_ffff {
        Some(0x7fff_ffff_ffff_ffff)
    } else {
        Some(v as i64)
    }
}

/// Au plus quatre chiffres valent moins que 10 000 : le plafond n'y joue pas.
proof fn lemme_plafond_court(s: Seq<char>)
    requires
        s.len() <= 4,
        forall|i: int| 0 <= i < s.len() ==> est_chiffre(#[trigger] s[i]),
    ensures
        valeur_plafonnee(s) < puissance10(s.len()),
        puissance10(s.len()) <= 10000,
    decreases s.len(),
{
    assert(puissance10(0) == 1);
    assert(puissance10(1) == 10);
    assert(puissance10(2) == 100);
    assert(puissance10(3) == 1000);
    assert(puissance10(4) == 10000);
    if s.len() > 0 {
        let t = s.drop_last();
        assert forall|i: int| 0 <= i < t.len() implies est_chiffre(#[trigger] t[i]) by {
            assert(t[i] == s[i]);
        }
        lemme_plafond_court(t);
        assert(est_chiffre(s[s.len() - 1]));
    }
}

pub open spec fn puissance10(n: nat) -> nat
    decreases n,
{
    if n == 0 { 1 } else { 10 * puissance10((n - 1) as nat) }
}

/// Texte JSON d'une chaîne, tel que l'écrit `serde_json` : entre
/// guillemets, chaque caractère échappé par `esc_json`.
#[verifier::opaque]
pub open spec fn json_chaine(s: Seq<char>) -> Seq<char> {
    seq!['"'] + echappe(Echappement::Json, s) + seq!['"']
}

/// Texte JSON d'une chaîne (voir `json_chaine`).
pub fn chaine_json(s: &str) -> (r: String)
    ensures
        r@ == json_chaine(s@),
{
    let mut o: Vec<char> = Vec::new();
    o.push('"');
    ajouter_echappe(&mut o, Echappement::Json, caracteres(s).as_slice());
    o.push('"');
    proof {
        reveal(json_chaine);
    }
    crate::texte::chaine_de(&o)
}


/// Textes mis bout à bout, séparés par des virgules.
pub open spec fn joindre(s: Seq<Seq<char>>) -> Seq<char>
    decreases s.len(),
{
    if s.len() == 0 {
        Seq::empty()
    } else if s.len() == 1 {
        s[0]
    } else {
        joindre(s.drop_last()) + seq![','] + s.last()
    }
}

/// Un texte de plus dans une jonction.
pub proof fn lemme_joindre_pas(f: spec_fn(int) -> Seq<char>, i: nat)
    ensures
        joindre(Seq::new(i + 1, f)) == if i == 0 {
            f(0)
        } else {
            joindre(Seq::new(i, f)) + seq![','] + f(i as int)
        },
{
    assert(Seq::new(i + 1, f).drop_last() =~= Seq::new(i, f));
}

/// Ajoute le texte JSON d'une chaîne.
pub fn ajouter_chaine_json(out: &mut Vec<char>, s: &str)
    ensures
        final(out)@ == old(out)@ + json_chaine(s@),
{
    let j = chaine_json(s);
    ajouter_car(out, caracteres(j.as_str()).as_slice());
}

/// Ordre des clés dans un objet écrit par `serde_json` (table triée) :
/// ordre des suites de caractères, code par code, la plus courte d'abord
/// à préfixe égal.
pub open spec fn cle_avant(a: Seq<char>, b: Seq<char>) -> bool
    decreases a.len(),
{
    if b.len() == 0 {
        false
    } else if a.len() == 0 {
        true
    } else if a[0] != b[0] {
        (a[0] as u32) < (b[0] as u32)
    } else {
        cle_avant(a.drop_first(), b.drop_first())
    }
}

/// `a` vient avant `b` dans l'ordre des clés.
pub fn avant(a: &[char], b: &[char]) -> (r: bool)
    ensures
        r == cle_avant(a@, b@),
{
    let mut i: usize = 0;
    assert(a@.subrange(0, a@.len() as int) =~= a@);
    assert(b@.subrange(0, b@.len() as int) =~= b@);
    while i < a.len() && i < b.len() && a[i] == b[i]
        invariant
            i <= a.len() && i <= b.len(),
            cle_avant(a@, b@) == cle_avant(a@.subrange(i as int, a@.len() as int), b@.subrange(i as int, b@.len() as int)),
        decreases a.len() - i,
    {
        assert(a@.subrange(i as int, a@.len() as int).drop_first() =~= a@.subrange(i + 1, a@.len() as int));
        assert(b@.subrange(i as int, b@.len() as int).drop_first() =~= b@.subrange(i + 1, b@.len() as int));
        i += 1;
    }
    if i == b.len() {
        false
    } else if i == a.len() {
        true
    } else {
        (a[i] as u32) < (b[i] as u32)
    }
}

/// L'indice `j` inséré dans l'ordre `o` : avant le premier indice dont la
/// clé vient après la sienne.
pub open spec fn inserer_indice(o: Seq<usize>, cles: Seq<Seq<char>>, j: usize) -> Seq<usize>
    decreases o.len(),
{
    if o.len() == 0 {
        seq![j]
    } else if cle_avant(cles[j as int], cles[o[0] as int]) {
        seq![j] + o
    } else {
        seq![o[0]] + inserer_indice(o.drop_first(), cles, j)
    }
}

/// Indices des `n` premières clés dans l'ordre des clés (tri par
/// insertion, stable).
pub open spec fn ordre_cles(cles: Seq<Seq<char>>, n: nat) -> Seq<usize>
    decreases n,
{
    if n == 0 {
        Seq::empty()
    } else {
        inserer_indice(ordre_cles(cles, (n - 1) as nat), cles, (n - 1) as usize)
    }
}

proof fn lemme_inserer_indice(o: Seq<usize>, cles: Seq<Seq<char>>, j: usize, p: int)
    requires
        0 <= p <= o.len(),
        forall|i: int| 0 <= i < p ==> !cle_avant(cles[j as int], cles[#[trigger] o[i] as int]),
        p < o.len() ==> cle_avant(cles[j as int], cles[o[p] as int]),
    ensures
        inserer_indice(o, cles, j) == o.insert(p, j),
    decreases o.len(),
{
    if o.len() == 0 {
        assert(o.insert(p, j) =~= seq![j]);
    } else if p == 0 {
        assert(seq![j] + o =~= o.insert(0, j));
    } else {
        let t = o.drop_first();
        assert forall|i: int| 0 <= i < p - 1 implies !cle_avant(cles[j as int], cles[#[trigger] t[i] as int]) by {
            assert(t[i] == o[i + 1]);
        }
        assert(!cle_avant(cles[j as int], cles[o[0] as int]));
        lemme_inserer_indice(t, cles, j, p - 1);
        assert(seq![o[0]] + t.insert(p - 1, j) =~= o.insert(p, j));
    }
}

/// Indices des clés dans l'ordre des clés (voir `ordre_cles`).
pub fn ordre_des_cles(cles: &Vec<Vec<char>>) -> (r: Vec<usize>)
    ensures
        r@ == ordre_cles(cles@.map_values(|c: Vec<char>| c@), cles@.len() as nat),
        forall|i: int| 0 <= i < r@.len() ==> #[trigger] r@[i] < cles@.len(),
        r@.len() == cles@.len(),
{
    let ghost vc = cles@.map_values(|c: Vec<char>| c@);
    let mut o: Vec<usize> = Vec::new();
    let mut j: usize = 0;
    while j < cles.len()
        invariant
            j <= cles.len(),
            vc == cles@.map_values(|c: Vec<char>| c@),
            o@ == ordre_cles(vc, j as nat),
            o@.len() == j,
            forall|i: int| 0 <= i < o@.len() ==> #[trigger] o@[i] < j,
        decreases cles.len() - j,
    {
        let mut p: usize = 0;
        while p < o.len() && !avant(cles[j].as_slice(), cles[o[p]].as_slice())
            invariant
                p <= o@.len(),
                j < cles@.len(),
                vc == cles@.map_values(|c: Vec<char>| c@),
                forall|i: int| 0 <= i < o@.len() ==> #[trigger] o@[i] < j,
                forall|i: int| 0 <= i < p ==> !cle_avant(vc[j as int], vc[#[trigger] o@[i] as int]),
            decreases o@.len() - p,
        {
            p += 1;
        }
        proof {
            if p < o@.len() {
                assert(cle_avant(vc[j as int], vc[o@[p as int] as int]));
            }
            lemme_inserer_indice(o@, vc, j, p as int);
        }
        let ghost avant_insertion = o@;
        o.insert(p, j);
        assert(o@ == avant_insertion.insert(p as int, j));
        j += 1;
        assert forall|i: int| 0 <= i < o@.len() implies #[trigger] o@[i] < j by {
            if i < p {
                assert(o@[i] == avant_insertion[i]);
            } else if i > p {
                assert(o@[i] == avant_insertion[i - 1]);
            }
        }
    }
    o
}

/// Valeur JSON de `serde_json`, opaque ici : seule la lecture d'un texte
/// la traverse.
#[verifier::external_type_specification]
#[verifier::external_body]
pub struct ExValeurSerde(serde_json::Value);

/// Valeur JSON que `serde_json` lit dans le texte, `None` si le texte n'est
/// pas du JSON (valeur nommée).
pub uninterp spec fn json_lu(t: Seq<char>) -> Option<Json>;

/// `serde_json::from_str::<serde_json::Value>(t)`, la valeur prise comme
/// `Json` variante par variante (un nombre qui n'est ni un `i64` ni un
/// `u64` garde son écriture). Contrat : le résultat est la valeur nommée
/// `json_lu` du texte.
#[verifier::external_body]
pub fn lire_json(t: &str) -> (r: Option<Json>)
    ensures
        r == json_lu(t@),
{
    serde_json::from_str::<serde_json::Value>(t).ok().map(|v| depuis_serde(&v))
}

/// Conversion d'une valeur de `serde_json`, variante par variante, pour
/// `lire_json`.
#[verifier::external_body]
fn depuis_serde(v: &serde_json::Value) -> Json {
    match v {
        serde_json::Value::Null => Json::Nul,
        serde_json::Value::Bool(b) => Json::Booleen(*b),
        serde_json::Value::Number(n) => match (n.as_i64(), n.as_u64()) {
            (Some(i), _) => Json::Nombre(i),
            (None, Some(u)) => Json::Grand(u),
            _ => Json::Decimal(n.to_string()),
        },
        serde_json::Value::String(s) => Json::Texte(s.clone()),
        serde_json::Value::Array(a) => Json::Liste(a.iter().map(depuis_serde).collect()),
        serde_json::Value::Object(o) => Json::Objet(o.iter().map(|(k, x)| (k.clone(), depuis_serde(x))).collect()),
    }
}

} // verus!
