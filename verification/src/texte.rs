//! Outils de texte : suites de caractères, échappements, nombres.
//!
//! Les fonctions de ce module travaillent sur des `Vec<char>` : leur vue est
//! exactement la `Seq<char>` de la chaîne qu'ils représentent.

use vstd::prelude::*;

verus! {

broadcast use vstd::string::group_string_axioms;

// ══════════════════════════════════════════════════════════════════
// Passage chaîne <-> caractères
// ══════════════════════════════════════════════════════════════════

/// Les caractères d'une chaîne, dans l'ordre.
pub fn caracteres(s: &str) -> (v: Vec<char>)
    ensures
        v@ == s@,
{
    let mut v: Vec<char> = Vec::new();
    for c in it: s.chars()
        invariant
            v@ == it.seq().take(it.index() as int),
    {
        v.push(c);
    }
    v
}

/// La chaîne formée des caractères `v` (collecte d'un itérateur de `char`,
/// `FromIterator<char> for String` de std).
#[verifier::external_body]
pub fn chaine_de(v: &[char]) -> (s: String)
    ensures
        s@ == v@,
{
    v.iter().collect()
}

/// Ajoute à `out` les caractères de `s`.
pub fn ajouter(out: &mut Vec<char>, s: &str)
    ensures
        final(out)@ == old(out)@ + s@,
{
    let mut v = caracteres(s);
    out.append(&mut v);
}

/// Ajoute à `out` les caractères `v`.
pub fn ajouter_car(out: &mut Vec<char>, v: &[char])
    ensures
        final(out)@ == old(out)@ + v@,
{
    out.extend_from_slice(v);
}

// ══════════════════════════════════════════════════════════════════
// Recherche dans une suite de caractères
// ══════════════════════════════════════════════════════════════════

/// `s` commence par `p`.
pub open spec fn commence_par(s: Seq<char>, p: Seq<char>) -> bool {
    p.len() <= s.len() && s.subrange(0, p.len() as int) == p
}

/// `s` finit par `p`.
pub open spec fn finit_par(s: Seq<char>, p: Seq<char>) -> bool {
    p.len() <= s.len() && s.subrange(s.len() - p.len(), s.len() as int) == p
}

/// Indice de la première occurrence de `c` dans `s`, -1 s'il n'y en a pas.
pub open spec fn premier(s: Seq<char>, c: char) -> int
    decreases s.len(),
{
    if s.len() == 0 {
        -1
    } else if s[0] == c {
        0
    } else {
        let r = premier(s.drop_first(), c);
        if r < 0 { -1 } else { r + 1 }
    }
}

/// Indice de la dernière occurrence de `c` dans `s`, -1 s'il n'y en a pas.
pub open spec fn dernier(s: Seq<char>, c: char) -> int
    decreases s.len(),
{
    if s.len() == 0 {
        -1
    } else if s.last() == c {
        s.len() - 1
    } else {
        dernier(s.drop_last(), c)
    }
}

pub proof fn lemme_premier(s: Seq<char>, c: char)
    ensures
        -1 <= premier(s, c) < s.len(),
        premier(s, c) >= 0 ==> s[premier(s, c)] == c,
        forall|j: int| 0 <= j < s.len() && (premier(s, c) < 0 || j < premier(s, c)) ==> s[j] != c,
    decreases s.len(),
{
    if s.len() > 0 && s[0] != c {
        lemme_premier(s.drop_first(), c);
        assert forall|j: int| 0 <= j < s.len() && (premier(s, c) < 0 || j < premier(s, c)) implies s[j] != c by {
            if j > 0 {
                assert(s[j] == s.drop_first()[j - 1]);
            }
        }
    }
}

pub proof fn lemme_dernier(s: Seq<char>, c: char)
    ensures
        -1 <= dernier(s, c) < s.len(),
        dernier(s, c) >= 0 ==> s[dernier(s, c)] == c,
        forall|j: int| dernier(s, c) < j < s.len() ==> s[j] != c,
    decreases s.len(),
{
    if s.len() > 0 && s.last() != c {
        lemme_dernier(s.drop_last(), c);
        assert forall|j: int| dernier(s, c) < j < s.len() implies s[j] != c by {
            if j < s.len() - 1 {
                assert(s[j] == s.drop_last()[j]);
            }
        }
    }
}

/// Indice de la première occurrence de `c` dans `s`.
pub fn trouver(s: &[char], c: char) -> (r: Option<usize>)
    ensures
        match r {
            Some(i) => premier(s@, c) == i as int,
            None => premier(s@, c) == -1,
        },
{
    proof { lemme_premier(s@, c); }
    let mut i: usize = 0;
    while i < s.len()
        invariant
            i <= s.len(),
            forall|j: int| 0 <= j < i ==> s@[j] != c,
            -1 <= premier(s@, c) < s@.len(),
            premier(s@, c) >= 0 ==> s@[premier(s@, c)] == c,
            forall|j: int| 0 <= j < s@.len() && (premier(s@, c) < 0 || j < premier(s@, c)) ==> s@[j] != c,
        decreases s.len() - i,
    {
        if s[i] == c {
            return Some(i);
        }
        i += 1;
    }
    None
}

/// Indice de la dernière occurrence de `c` dans `s`.
pub fn trouver_dernier(s: &[char], c: char) -> (r: Option<usize>)
    ensures
        match r {
            Some(i) => dernier(s@, c) == i as int,
            None => dernier(s@, c) == -1,
        },
{
    proof { lemme_dernier(s@, c); }
    let mut i: usize = s.len();
    while i > 0
        invariant
            i <= s.len(),
            forall|j: int| i <= j < s@.len() ==> s@[j] != c,
            -1 <= dernier(s@, c) < s@.len(),
            dernier(s@, c) >= 0 ==> s@[dernier(s@, c)] == c,
            forall|j: int| dernier(s@, c) < j < s@.len() ==> s@[j] != c,
        decreases i,
    {
        if s[i - 1] == c {
            return Some(i - 1);
        }
        i -= 1;
    }
    None
}

/// `s` contient le caractère `c`.
pub fn contient(s: &[char], c: char) -> (r: bool)
    ensures
        r == s@.contains(c),
{
    proof { lemme_premier(s@, c); }
    match trouver(s, c) {
        Some(i) => {
            assert(s@[i as int] == c);
            true
        },
        None => false,
    }
}

/// `s` commence par `p`.
pub fn commence(s: &[char], p: &[char]) -> (r: bool)
    ensures
        r == commence_par(s@, p@),
{
    if p.len() > s.len() {
        return false;
    }
    let mut i: usize = 0;
    while i < p.len()
        invariant
            p.len() <= s.len(),
            i <= p.len(),
            forall|j: int| 0 <= j < i ==> s@[j] == p@[j],
        decreases p.len() - i,
    {
        if s[i] != p[i] {
            assert(s@.subrange(0, p@.len() as int)[i as int] != p@[i as int]);
            return false;
        }
        i += 1;
    }
    assert(s@.subrange(0, p@.len() as int) =~= p@);
    true
}

/// `s` commence par le texte `p`.
pub fn commence_lit(s: &[char], p: &str) -> (r: bool)
    ensures
        r == commence_par(s@, p@),
{
    let pc = caracteres(p);
    commence(s, &pc)
}

/// `s` finit par le texte `p`.
pub fn finit_lit(s: &[char], p: &str) -> (r: bool)
    ensures
        r == finit_par(s@, p@),
{
    let pc = caracteres(p);
    finit(s, &pc)
}

/// `s` est exactement le texte `p`.
pub fn egale_lit(s: &[char], p: &str) -> (r: bool)
    ensures
        r == (s@ == p@),
{
    let pc = caracteres(p);
    egales(s, &pc)
}

/// `s` finit par `p`.
pub fn finit(s: &[char], p: &[char]) -> (r: bool)
    ensures
        r == finit_par(s@, p@),
{
    if p.len() > s.len() {
        return false;
    }
    let d = s.len() - p.len();
    let mut i: usize = 0;
    while i < p.len()
        invariant
            p.len() <= s.len(),
            d == s.len() - p.len(),
            i <= p.len(),
            forall|j: int| 0 <= j < i ==> s@[d + j] == p@[j],
        decreases p.len() - i,
    {
        if s[d + i] != p[i] {
            assert(s@.subrange(d as int, s@.len() as int)[i as int] != p@[i as int]);
            return false;
        }
        i += 1;
    }
    assert(s@.subrange(d as int, s@.len() as int) =~= p@);
    true
}

/// Égalité de deux suites de caractères.
pub fn egales(a: &[char], b: &[char]) -> (r: bool)
    ensures
        r == (a@ == b@),
{
    if a.len() != b.len() {
        return false;
    }
    let r = commence(a, b);
    assert(a@.subrange(0, b@.len() as int) =~= a@);
    r
}

/// Copie de la tranche `s[debut..fin]`.
pub fn tranche(s: &[char], debut: usize, fin: usize) -> (v: Vec<char>)
    requires
        debut <= fin <= s.len(),
    ensures
        v@ == s@.subrange(debut as int, fin as int),
{
    let mut v: Vec<char> = Vec::new();
    let mut i = debut;
    while i < fin
        invariant
            debut <= i <= fin <= s.len(),
            v@ == s@.subrange(debut as int, i as int),
        decreases fin - i,
    {
        v.push(s[i]);
        assert(s@.subrange(debut as int, i + 1) == s@.subrange(debut as int, i as int).push(s@[i as int]));
        i += 1;
    }
    v
}

// ══════════════════════════════════════════════════════════════════
// Transformations caractère par caractère
// ══════════════════════════════════════════════════════════════════

/// Échappement HTML des quatre caractères `& < > "`.
pub open spec fn esc_html(c: char) -> Seq<char> {
    if c == '&' {
        seq!['&', 'a', 'm', 'p', ';']
    } else if c == '<' {
        seq!['&', 'l', 't', ';']
    } else if c == '>' {
        seq!['&', 'g', 't', ';']
    } else if c == '"' {
        seq!['&', 'q', 'u', 'o', 't', ';']
    } else {
        seq![c]
    }
}

/// Échappement HTML des cinq caractères `& < > " '`.
pub open spec fn esc_html_apos(c: char) -> Seq<char> {
    if c == '\'' {
        seq!['&', '#', '3', '9', ';']
    } else {
        esc_html(c)
    }
}

/// Échappement d'une chaîne entre apostrophes JavaScript : `\` et `'`.
pub open spec fn esc_js(c: char) -> Seq<char> {
    if c == '\\' {
        seq!['\\', '\\']
    } else if c == '\'' {
        seq!['\\', '\'']
    } else {
        seq![c]
    }
}

/// Échappement d'un caractère dans une chaîne JSON, comme l'écrit
/// `serde_json` : `"` et `\` précédés de `\`, les contrôles courants en
/// `\b \t \n \f \r`, les autres caractères sous U+0020 en `\u00` et deux
/// chiffres hexadécimaux minuscules ; tout autre caractère tel quel.
pub open spec fn esc_json(c: char) -> Seq<char> {
    if c == '"' {
        seq!['\\', '"']
    } else if c == '\\' {
        seq!['\\', '\\']
    } else if c == '\u{8}' {
        seq!['\\', 'b']
    } else if c == '\t' {
        seq!['\\', 't']
    } else if c == '\n' {
        seq!['\\', 'n']
    } else if c == '\u{c}' {
        seq!['\\', 'f']
    } else if c == '\r' {
        seq!['\\', 'r']
    } else if (c as u32) < 0x20 {
        seq!['\\', 'u', '0', '0', hex_min((c as u32 / 16) as int), hex_min((c as u32 % 16) as int)]
    } else {
        seq![c]
    }
}

/// Les échappements caractère par caractère de ce module.
pub enum Echappement {
    Html,
    HtmlApos,
    Js,
    Json,
}

pub open spec fn esc(e: Echappement, c: char) -> Seq<char> {
    match e {
        Echappement::Html => esc_html(c),
        Echappement::HtmlApos => esc_html_apos(c),
        Echappement::Js => esc_js(c),
        Echappement::Json => esc_json(c),
    }
}

/// `s` où chaque caractère `c` est remplacé par `esc(e, c)`.
pub open spec fn echappe(e: Echappement, s: Seq<char>) -> Seq<char>
    decreases s.len(),
{
    if s.len() == 0 {
        Seq::empty()
    } else {
        echappe(e, s.drop_last()) + esc(e, s.last())
    }
}

pub proof fn lemme_echappe_concat(e: Echappement, a: Seq<char>, b: Seq<char>)
    ensures
        echappe(e, a + b) == echappe(e, a) + echappe(e, b),
    decreases b.len(),
{
    if b.len() == 0 {
        assert(a + b =~= a);
    } else {
        lemme_echappe_concat(e, a, b.drop_last());
        assert((a + b).drop_last() =~= a + b.drop_last());
    }
}

fn ajouter_esc(out: &mut Vec<char>, e: &Echappement, c: char)
    ensures
        final(out)@ == old(out)@ + esc(*e, c),
{
    match e {
        Echappement::Html | Echappement::HtmlApos => {
            if c == '&' {
                ajouter(out, "&amp;");
            } else if c == '<' {
                ajouter(out, "&lt;");
            } else if c == '>' {
                ajouter(out, "&gt;");
            } else if c == '"' {
                ajouter(out, "&quot;");
            } else if c == '\'' && matches!(e, Echappement::HtmlApos) {
                ajouter(out, "&#39;");
            } else {
                out.push(c);
            }
            proof {
                reveal_strlit("&amp;");
                reveal_strlit("&lt;");
                reveal_strlit("&gt;");
                reveal_strlit("&quot;");
                reveal_strlit("&#39;");
                assert(final(out)@ =~= old(out)@ + esc(*e, c));
            }
        },
        Echappement::Js => {
            if c == '\\' {
                out.push('\\');
                out.push('\\');
            } else if c == '\'' {
                out.push('\\');
                out.push('\'');
            } else {
                out.push(c);
            }
            assert(final(out)@ =~= old(out)@ + esc(*e, c));
        },
        Echappement::Json => {
            let n = c as u32;
            if c == '"' || c == '\\' {
                out.push('\\');
                out.push(c);
            } else if c == '\u{8}' {
                out.push('\\');
                out.push('b');
            } else if c == '\t' {
                out.push('\\');
                out.push('t');
            } else if c == '\n' {
                out.push('\\');
                out.push('n');
            } else if c == '\u{c}' {
                out.push('\\');
                out.push('f');
            } else if c == '\r' {
                out.push('\\');
                out.push('r');
            } else if n < 0x20 {
                out.push('\\');
                out.push('u');
                out.push('0');
                out.push('0');
                out.push(chiffre_hex_min((n / 16) as u8));
                out.push(chiffre_hex_min((n % 16) as u8));
            } else {
                out.push(c);
            }
            assert(final(out)@ =~= old(out)@ + esc(*e, c));
        },
    }
}

/// Ajoute à `out` la suite `s` échappée.
pub fn ajouter_echappe(out: &mut Vec<char>, e: Echappement, s: &[char])
    ensures
        final(out)@ == old(out)@ + echappe(e, s@),
{
    let ghost debut = out@;
    let mut i: usize = 0;
    while i < s.len()
        invariant
            i <= s.len(),
            out@ == debut + echappe(e, s@.subrange(0, i as int)),
        decreases s.len() - i,
    {
        ajouter_esc(out, &e, s[i]);
        assert(s@.subrange(0, i + 1).drop_last() =~= s@.subrange(0, i as int));
        i += 1;
    }
    assert(s@.subrange(0, s.len() as int) =~= s@);
}

/// `s` avec `& < > "` remplacés par leurs entités HTML.
pub fn echapper_html(s: &str) -> (r: String)
    ensures
        r@ == echappe(Echappement::Html, s@),
{
    let v = caracteres(s);
    let mut out: Vec<char> = Vec::new();
    ajouter_echappe(&mut out, Echappement::Html, &v);
    chaine_de(&out)
}

/// `s` avec `& < > " '` remplacés par leurs entités HTML.
pub fn echapper_html_apos(s: &str) -> (r: String)
    ensures
        r@ == echappe(Echappement::HtmlApos, s@),
{
    let v = caracteres(s);
    let mut out: Vec<char> = Vec::new();
    ajouter_echappe(&mut out, Echappement::HtmlApos, &v);
    chaine_de(&out)
}

/// `s` avec `\` et `'` précédés d'une barre oblique inverse.
pub fn echapper_js(s: &str) -> (r: String)
    ensures
        r@ == echappe(Echappement::Js, s@),
{
    let v = caracteres(s);
    let mut out: Vec<char> = Vec::new();
    ajouter_echappe(&mut out, Echappement::Js, &v);
    chaine_de(&out)
}

// ══════════════════════════════════════════════════════════════════
// Nombres
// ══════════════════════════════════════════════════════════════════

/// Chiffre hexadécimal majuscule de `n < 16`.
pub open spec fn hex_maj(n: int) -> char {
    if n < 10 { (('0' as int) + n) as char } else { (('A' as int) + n - 10) as char }
}

/// Chiffre hexadécimal minuscule de `n < 16`.
pub open spec fn hex_min(n: int) -> char {
    if n < 10 { (('0' as int) + n) as char } else { (('a' as int) + n - 10) as char }
}

pub fn chiffre_hex_maj(n: u8) -> (c: char)
    requires
        n < 16,
    ensures
        c == hex_maj(n as int),
{
    if n < 10 { ((48u8 + n) as char) } else { ((55u8 + n) as char) }
}

pub fn chiffre_hex_min(n: u8) -> (c: char)
    requires
        n < 16,
    ensures
        c == hex_min(n as int),
{
    if n < 10 { ((48u8 + n) as char) } else { ((87u8 + n) as char) }
}

/// Écriture décimale de `n`, sans zéro superflu.
pub open spec fn decimal(n: nat) -> Seq<char>
    decreases n,
{
    if n < 10 {
        seq![(('0' as nat) + n) as char]
    } else {
        decimal(n / 10).push((('0' as nat) + n % 10) as char)
    }
}

/// Écriture décimale d'un entier relatif (signe `-` devant les négatifs).
pub open spec fn decimal_signe(n: int) -> Seq<char> {
    if n < 0 { seq!['-'] + decimal((-n) as nat) } else { decimal(n as nat) }
}

/// Ajoute à `out` l'écriture décimale de `n`.
pub fn ajouter_decimal(out: &mut Vec<char>, n: u128)
    ensures
        final(out)@ == old(out)@ + decimal(n as nat),
    decreases n,
{
    if n >= 10 {
        ajouter_decimal(out, n / 10);
    }
    let d = (n % 10) as u8;
    out.push((48u8 + d) as char);
    proof {
        if n >= 10 {
            assert(decimal(n as nat) == decimal((n / 10) as nat).push((('0' as nat) + n % 10) as char));
        }
    }
    assert(final(out)@ =~= old(out)@ + decimal(n as nat));
}

/// Ajoute à `out` l'écriture décimale de l'entier relatif `n`.
pub fn ajouter_decimal_signe(out: &mut Vec<char>, n: i64)
    ensures
        final(out)@ == old(out)@ + decimal_signe(n as int),
{
    if n < 0 {
        out.push('-');
        let m: u128 = if n == i64::MIN { 9223372036854775808u128 } else { (-n) as u128 };
        ajouter_decimal(out, m);
        assert(final(out)@ =~= old(out)@ + decimal_signe(n as int));
    } else {
        ajouter_decimal(out, n as u128);
    }
}

/// Écriture décimale de `n`.
pub fn entier_en_chaine(n: i64) -> (s: String)
    ensures
        s@ == decimal_signe(n as int),
{
    let mut out: Vec<char> = Vec::new();
    ajouter_decimal_signe(&mut out, n);
    assert(out@ =~= decimal_signe(n as int));
    chaine_de(&out)
}

// ══════════════════════════════════════════════════════════════════
// Espaces, découpage, casse
// ══════════════════════════════════════════════════════════════════

/// Propriété Unicode `White_Space` (celle de `char::is_whitespace`).
pub open spec fn est_espace(c: char) -> bool {
    let u = c as u32;
    (0x09 <= u <= 0x0D) || u == 0x20 || u == 0x85 || u == 0xA0 || u == 0x1680
        || (0x2000 <= u <= 0x200A) || u == 0x2028 || u == 0x2029 || u == 0x202F
        || u == 0x205F || u == 0x3000
}

pub fn espace(c: char) -> (r: bool)
    ensures
        r == est_espace(c),
{
    let u = c as u32;
    (0x09 <= u && u <= 0x0D) || u == 0x20 || u == 0x85 || u == 0xA0 || u == 0x1680
        || (0x2000 <= u && u <= 0x200A) || u == 0x2028 || u == 0x2029 || u == 0x202F
        || u == 0x205F || u == 0x3000
}

/// Nombre d'espaces en tête de `s`.
pub open spec fn espaces_tete(s: Seq<char>) -> nat
    decreases s.len(),
{
    if s.len() > 0 && est_espace(s[0]) { 1 + espaces_tete(s.drop_first()) } else { 0 }
}

/// Nombre d'espaces en queue de `s`.
pub open spec fn espaces_queue(s: Seq<char>) -> nat
    decreases s.len(),
{
    if s.len() > 0 && est_espace(s.last()) { 1 + espaces_queue(s.drop_last()) } else { 0 }
}

/// `s` sans ses espaces de fin (`trim_end`).
pub open spec fn rogner_fin(s: Seq<char>) -> Seq<char> {
    s.subrange(0, s.len() - espaces_queue(s))
}

/// `s` sans ses espaces de début ni de fin (`trim`).
pub open spec fn rogner(s: Seq<char>) -> Seq<char> {
    rogner_fin(s.subrange(espaces_tete(s) as int, s.len() as int))
}

pub proof fn lemme_espaces_tete(s: Seq<char>)
    ensures
        espaces_tete(s) <= s.len(),
        forall|j: int| 0 <= j < espaces_tete(s) ==> est_espace(s[j]),
        espaces_tete(s) < s.len() ==> !est_espace(s[espaces_tete(s) as int]),
    decreases s.len(),
{
    if s.len() > 0 && est_espace(s[0]) {
        lemme_espaces_tete(s.drop_first());
        assert forall|j: int| 0 <= j < espaces_tete(s) implies est_espace(s[j]) by {
            if j > 0 {
                assert(s[j] == s.drop_first()[j - 1]);
            }
        }
        if espaces_tete(s) < s.len() {
            assert(s[espaces_tete(s) as int] == s.drop_first()[espaces_tete(s.drop_first()) as int]);
        }
    }
}

pub proof fn lemme_espaces_queue(s: Seq<char>)
    ensures
        espaces_queue(s) <= s.len(),
        forall|j: int| s.len() - espaces_queue(s) <= j < s.len() ==> est_espace(s[j]),
        espaces_queue(s) < s.len() ==> !est_espace(s[s.len() - espaces_queue(s) - 1]),
    decreases s.len(),
{
    if s.len() > 0 && est_espace(s.last()) {
        lemme_espaces_queue(s.drop_last());
        assert forall|j: int| s.len() - espaces_queue(s) <= j < s.len() implies est_espace(s[j]) by {
            if j < s.len() - 1 {
                assert(s[j] == s.drop_last()[j]);
            }
        }
        if espaces_queue(s) < s.len() {
            assert(s[s.len() - espaces_queue(s) - 1] == s.drop_last()[s.drop_last().len() - espaces_queue(s.drop_last()) - 1]);
        }
    }
}

pub proof fn lemme_espaces_tete_unique(s: Seq<char>, k: int)
    requires
        0 <= k <= s.len(),
        forall|j: int| 0 <= j < k ==> est_espace(s[j]),
        k < s.len() ==> !est_espace(s[k]),
    ensures
        espaces_tete(s) == k,
    decreases s.len(),
{
    if k > 0 {
        assert forall|j: int| 0 <= j < k - 1 implies est_espace(s.drop_first()[j]) by {
            assert(s.drop_first()[j] == s[j + 1]);
        }
        if k - 1 < s.len() - 1 {
            assert(s.drop_first()[k - 1] == s[k]);
        }
        lemme_espaces_tete_unique(s.drop_first(), k - 1);
    }
}

pub proof fn lemme_espaces_queue_unique(s: Seq<char>, k: int)
    requires
        0 <= k <= s.len(),
        forall|j: int| s.len() - k <= j < s.len() ==> est_espace(s[j]),
        k < s.len() ==> !est_espace(s[s.len() - k - 1]),
    ensures
        espaces_queue(s) == k,
    decreases s.len(),
{
    if k > 0 {
        let t = s.drop_last();
        assert forall|j: int| t.len() - (k - 1) <= j < t.len() implies est_espace(t[j]) by {
            assert(t[j] == s[j]);
        }
        if k - 1 < t.len() {
            assert(t[t.len() - (k - 1) - 1] == s[s.len() - k - 1]);
        }
        lemme_espaces_queue_unique(t, k - 1);
    }
}

/// `s` sans espaces de début ni de fin.
pub fn rogne(s: &[char]) -> (v: Vec<char>)
    ensures
        v@ == rogner(s@),
{
    let mut d: usize = 0;
    while d < s.len() && espace(s[d])
        invariant
            d <= s.len(),
            forall|j: int| 0 <= j < d ==> est_espace(s@[j]),
        decreases s.len() - d,
    {
        d += 1;
    }
    proof { lemme_espaces_tete_unique(s@, d as int); }
    let mut f: usize = s.len();
    while f > d && espace(s[f - 1])
        invariant
            d <= f <= s.len(),
            forall|j: int| f <= j < s.len() ==> est_espace(s@[j]),
        decreases f,
    {
        f -= 1;
    }
    let ghost t = s@.subrange(d as int, s@.len() as int);
    proof {
        assert forall|j: int| t.len() - (s.len() - f) <= j < t.len() implies est_espace(t[j]) by {
            assert(t[j] == s@[d + j]);
        }
        if f > d {
            assert(t[t.len() - (s.len() - f) - 1] == s@[f - 1]);
        }
        lemme_espaces_queue_unique(t, (s.len() - f) as int);
        assert(t.subrange(0, t.len() - espaces_queue(t)) =~= s@.subrange(d as int, f as int));
    }
    tranche(s, d, f)
}

/// `s` sans espaces de fin.
pub fn rogne_fin(s: &[char]) -> (v: Vec<char>)
    ensures
        v@ == rogner_fin(s@),
{
    let mut f: usize = s.len();
    while f > 0 && espace(s[f - 1])
        invariant
            f <= s.len(),
            forall|j: int| f <= j < s.len() ==> est_espace(s@[j]),
        decreases f,
    {
        f -= 1;
    }
    proof { lemme_espaces_queue_unique(s@, (s.len() - f) as int); }
    tranche(s, 0, f)
}

/// Découpage de `s` sur chaque occurrence de `c` (`str::split`).
pub open spec fn decouper(s: Seq<char>, c: char) -> Seq<Seq<char>>
    decreases s.len(),
{
    let i = premier(s, c);
    if i < 0 {
        seq![s]
    } else {
        proof { lemme_premier(s, c); }
        seq![s.subrange(0, i)] + decouper(s.subrange(i + 1, s.len() as int), c)
    }
}

/// Sans séparateur, un texte est son seul morceau.
pub proof fn lemme_decouper_sans(s: Seq<char>, c: char)
    requires
        !s.contains(c),
    ensures
        decouper(s, c) == seq![s],
{
    assert forall|j: int| 0 <= j < s.len() && (-1int < 0 || j < -1) implies s[j] != c by {
        if s[j] == c {
            assert(s.contains(c));
        }
    }
    lemme_premier_en(s, c, -1);
}

/// Découper `a c b`, où `a` n'a pas de séparateur `c` : `a`, puis les
/// morceaux de `b`.
pub proof fn lemme_decouper_concat(a: Seq<char>, b: Seq<char>, c: char)
    requires
        !a.contains(c),
    ensures
        decouper(a + seq![c] + b, c) == seq![a] + decouper(b, c),
{
    let s = a + seq![c] + b;
    assert forall|j: int| 0 <= j < s.len() && (a.len() < 0 || j < a.len()) implies s[j] != c by {
        assert(s[j] == a[j]);
        if a[j] == c {
            assert(a.contains(c));
        }
    }
    assert(s[a.len() as int] == c);
    lemme_premier_en(s, c, a.len() as int);
    assert(s.subrange(0, a.len() as int) =~= a);
    assert(s.subrange(a.len() as int + 1, s.len() as int) =~= b);
}

/// Le dernier morceau de `s c b`, quand `b` n'a pas de séparateur, est `b`.
pub proof fn lemme_decouper_dernier(s: Seq<char>, b: Seq<char>, c: char)
    requires
        !b.contains(c),
    ensures
        decouper(s + seq![c] + b, c).len() >= 1,
        decouper(s + seq![c] + b, c).last() == b,
    decreases s.len(),
{
    let x = s + seq![c] + b;
    lemme_premier(s, c);
    let k = premier(s, c);
    if k < 0 {
        assert(!s.contains(c)) by {
            if s.contains(c) {
                let j = choose|j: int| 0 <= j < s.len() && s[j] == c;
                assert(s[j] != c);
            }
        }
        lemme_decouper_concat(s, b, c);
        lemme_decouper_sans(b, c);
    } else {
        assert forall|j: int| 0 <= j < x.len() && (k < 0 || j < k) implies x[j] != c by {
            assert(x[j] == s[j]);
        }
        assert(x[k] == s[k]);
        lemme_premier_en(x, c, k);
        let reste = s.subrange(k + 1, s.len() as int);
        assert(x.subrange(k + 1, x.len() as int) =~= reste + seq![c] + b);
        lemme_decouper_dernier(reste, b, c);
        lemme_decouper_non_vide(reste + seq![c] + b, c);
    }
}

/// Ajouter `c b` à un texte, quand `b` n'a pas de séparateur `c`, ajoute
/// le morceau `b` à son découpage.
pub proof fn lemme_decouper_ajout(x: Seq<char>, b: Seq<char>, c: char)
    requires
        !b.contains(c),
    ensures
        decouper(x + seq![c] + b, c) == decouper(x, c).push(b),
    decreases x.len(),
{
    let s = x + seq![c] + b;
    lemme_premier(x, c);
    let k = premier(x, c);
    if k < 0 {
        assert(!x.contains(c)) by {
            if x.contains(c) {
                let j = choose|j: int| 0 <= j < x.len() && x[j] == c;
                assert(x[j] != c);
            }
        }
        lemme_decouper_concat(x, b, c);
        lemme_decouper_sans(b, c);
        lemme_decouper_sans(x, c);
    } else {
        assert forall|j: int| 0 <= j < s.len() && (k < 0 || j < k) implies s[j] != c by {
            assert(s[j] == x[j]);
        }
        assert(s[k] == x[k]);
        lemme_premier_en(s, c, k);
        let reste = x.subrange(k + 1, x.len() as int);
        assert(s.subrange(k + 1, s.len() as int) =~= reste + seq![c] + b);
        assert(s.subrange(0, k) =~= x.subrange(0, k));
        lemme_decouper_ajout(reste, b, c);
        assert(decouper(x, c) == seq![x.subrange(0, k)] + decouper(reste, c));
    }
}

/// Les textes de `l`, chacun suivi de `c`.
pub open spec fn avec_fin(l: Seq<Seq<char>>, c: char) -> Seq<char>
    decreases l.len(),
{
    if l.len() == 0 {
        Seq::empty()
    } else {
        avec_fin(l.drop_last(), c) + l.last() + seq![c]
    }
}

/// Découper des lignes terminées par `c` suivies d'un reste sans `c` : les
/// lignes, puis le reste.
pub proof fn lemme_decouper_lignes(l: Seq<Seq<char>>, reste: Seq<char>, c: char)
    requires
        forall|i: int| 0 <= i < l.len() ==> !(#[trigger] l[i]).contains(c),
        !reste.contains(c),
    ensures
        decouper(avec_fin(l, c) + reste, c) == l.push(reste),
    decreases l.len(),
{
    if l.len() == 0 {
        assert(avec_fin(l, c) + reste =~= reste);
        lemme_decouper_sans(reste, c);
        assert(l.push(reste) =~= seq![reste]);
    } else {
        let debut = avec_fin(l.drop_last(), c) + l.last();
        assert(avec_fin(l, c) + reste =~= debut + seq![c] + reste);
        lemme_decouper_ajout(debut, reste, c);
        assert(!l.last().contains(c)) by {
            assert(l.last() == l[l.len() - 1]);
        }
        lemme_decouper_lignes(l.drop_last(), l.last(), c);
        assert(l.drop_last().push(l.last()) =~= l);
    }
}

/// Un texte sans espace au début ni à la fin est son propre rognage.
pub proof fn lemme_rogner_propre(s: Seq<char>)
    requires
        s.len() > 0,
        !est_espace(s[0]),
        !est_espace(s.last()),
    ensures
        rogner(s) == s,
{
    assert(espaces_tete(s) == 0);
    assert(s.subrange(0, s.len() as int) =~= s);
    assert(espaces_queue(s) == 0);
}

/// Rogner deux fois revient à rogner une fois, et ne fait pas apparaître
/// de caractère absent du texte.
pub proof fn lemme_rogner_stable(s: Seq<char>)
    ensures
        rogner(rogner(s)) == rogner(s),
        forall|c: char| !s.contains(c) ==> !rogner(s).contains(c),
{
    lemme_espaces_tete(s);
    let h = espaces_tete(s) as int;
    let t = s.subrange(h, s.len() as int);
    lemme_espaces_queue(t);
    let r = rogner(s);
    if r.len() > 0 {
        assert(r[0] == s[h]);
        assert(r.last() == t[t.len() - espaces_queue(t) - 1]);
        lemme_rogner_propre(r);
    } else {
        assert(espaces_tete(r) == 0);
        assert(rogner(r) =~= r);
    }
    assert forall|c: char| !s.contains(c) implies !r.contains(c) by {
        if r.contains(c) {
            let j = choose|j: int| 0 <= j < r.len() && r[j] == c;
            assert(s[j + h] == c);
        }
    }
}

/// Aucun morceau d'un découpage ne contient le séparateur.
pub proof fn lemme_decouper_morceaux(s: Seq<char>, c: char)
    ensures
        forall|i: int| 0 <= i < decouper(s, c).len() ==> !(#[trigger] decouper(s, c)[i]).contains(c),
    decreases s.len(),
{
    lemme_premier(s, c);
    let i = premier(s, c);
    if i < 0 {
        assert(decouper(s, c) == seq![s]);
        assert(!s.contains(c));
    } else {
        let a = s.subrange(0, i);
        let reste = s.subrange(i + 1, s.len() as int);
        lemme_decouper_morceaux(reste, c);
        assert(decouper(s, c) == seq![a] + decouper(reste, c));
        assert(!a.contains(c)) by {
            if a.contains(c) {
                let j = choose|j: int| 0 <= j < a.len() && a[j] == c;
                assert(s[j] == c);
            }
        }
        assert forall|k: int| 0 <= k < decouper(s, c).len() implies !(#[trigger] decouper(s, c)[k]).contains(c) by {
            if k > 0 {
                assert(decouper(s, c)[k] == decouper(reste, c)[k - 1]);
            }
        }
    }
}

/// La première occurrence d'un motif dans un début de texte reste la
/// première dans le texte entier.
pub proof fn lemme_premier_motif_prefixe(a: Seq<char>, b: Seq<char>, p: Seq<char>)
    requires
        premier_motif(a, p) >= 0,
    ensures
        premier_motif(a + b, p) == premier_motif(a, p),
    decreases a.len(),
{
    if commence_par(a, p) {
        assert((a + b).subrange(0, p.len() as int) =~= a.subrange(0, p.len() as int));
    } else {
        assert(p.len() <= a.len());
        assert((a + b).subrange(0, p.len() as int) =~= a.subrange(0, p.len() as int));
        assert((a + b).drop_first() =~= a.drop_first() + b);
        lemme_premier_motif_prefixe(a.drop_first(), b, p);
    }
}

/// Un découpage a toujours au moins un morceau.
pub proof fn lemme_decouper_non_vide(s: Seq<char>, c: char)
    ensures
        decouper(s, c).len() >= 1,
{
}

pub proof fn lemme_premier_en(s: Seq<char>, c: char, k: int)
    requires
        -1 <= k < s.len(),
        k >= 0 ==> s[k] == c,
        forall|j: int| 0 <= j < s.len() && (k < 0 || j < k) ==> s[j] != c,
    ensures
        premier(s, c) == k,
    decreases s.len(),
{
    if s.len() > 0 && k != 0 {
        let t = s.drop_first();
        assert forall|j: int| 0 <= j < t.len() && ((if k < 0 { -1 } else { k - 1 }) < 0 || j < (if k < 0 { -1 } else { k - 1 })) implies t[j] != c by {
            assert(t[j] == s[j + 1]);
        }
        if k > 0 {
            assert(t[k - 1] == s[k]);
        }
        lemme_premier_en(t, c, if k < 0 { -1 } else { k - 1 });
        assert(s[0] != c);
    }
}

/// Vues des éléments d'une suite de `Vec<char>`.
pub open spec fn vues(v: Seq<Vec<char>>) -> Seq<Seq<char>> {
    v.map_values(|x: Vec<char>| x@)
}

/// Les morceaux de `s` séparés par `c`.
pub fn decoupe(s: &[char], c: char) -> (v: Vec<Vec<char>>)
    ensures
        vues(v@) == decouper(s@, c),
{
    let mut v: Vec<Vec<char>> = Vec::new();
    let mut debut: usize = 0;
    let mut i: usize = 0;
    assert(vues(v@) =~= Seq::<Seq<char>>::empty());
    assert(s@.subrange(0, s@.len() as int) =~= s@);
    assert(vues(v@) + decouper(s@, c) =~= decouper(s@, c));
    while i < s.len()
        invariant
            debut <= i <= s.len(),
            forall|j: int| debut <= j < i ==> s@[j] != c,
            vues(v@) + decouper(s@.subrange(debut as int, s@.len() as int), c) == decouper(s@, c),
        decreases s.len() - i,
    {
        if s[i] == c {
            let ghost reste = s@.subrange(debut as int, s@.len() as int);
            proof {
                assert forall|j: int| 0 <= j < reste.len() && j < i - debut implies reste[j] != c by {
                    assert(reste[j] == s@[debut + j]);
                }
                lemme_premier_en(reste, c, i - debut);
                assert(reste.subrange(0, i - debut) =~= s@.subrange(debut as int, i as int));
                assert(reste.subrange(i - debut + 1, reste.len() as int) =~= s@.subrange(i + 1, s@.len() as int));
            }
            let morceau = tranche(s, debut, i);
            let ghost avant = v@;
            v.push(morceau);
            assert(vues(v@) =~= vues(avant).push(morceau@));
            assert(vues(v@) + decouper(s@.subrange(i + 1, s@.len() as int), c) =~= vues(avant) + decouper(reste, c));
            debut = i + 1;
        }
        i += 1;
    }
    let ghost reste = s@.subrange(debut as int, s@.len() as int);
    proof {
        assert forall|j: int| 0 <= j < reste.len() implies reste[j] != c by {
            assert(reste[j] == s@[debut + j]);
        }
        lemme_premier_en(reste, c, -1);
    }
    let morceau = tranche(s, debut, s.len());
    let ghost avant = v@;
    v.push(morceau);
    assert(vues(v@) =~= vues(avant).push(morceau@));
    assert(vues(v@) =~= vues(avant) + decouper(reste, c));
    v
}

/// Minuscule ASCII (`to_ascii_lowercase` sur un caractère).
pub open spec fn minuscule(c: char) -> char {
    if 'A' <= c <= 'Z' { ((c as u32) + 32) as char } else { c }
}

/// `s` en minuscules ASCII.
pub open spec fn minuscules(s: Seq<char>) -> Seq<char> {
    s.map_values(|c: char| minuscule(c))
}

/// Égalité sans tenir compte de la casse ASCII (`eq_ignore_ascii_case`).
pub open spec fn egal_sans_casse(a: Seq<char>, b: Seq<char>) -> bool {
    minuscules(a) == minuscules(b)
}

pub fn en_minuscule(c: char) -> (r: char)
    ensures
        r == minuscule(c),
{
    if 'A' <= c && c <= 'Z' {
        let u = (c as u32) + 32;
        proof { assert(u == 'a' as u32 + (c as u32 - 'A' as u32)); }
        char_depuis_ascii(u as u8)
    } else {
        c
    }
}

/// Caractère de code ASCII `b`.
pub fn char_depuis_ascii(b: u8) -> (c: char)
    requires
        b < 128,
    ensures
        c as u32 == b as u32,
{
    b as char
}

/// `s` en minuscules ASCII.
pub fn en_minuscules(s: &[char]) -> (v: Vec<char>)
    ensures
        v@ == minuscules(s@),
{
    let mut v: Vec<char> = Vec::new();
    let mut i: usize = 0;
    while i < s.len()
        invariant
            i <= s.len(),
            v@ == minuscules(s@.subrange(0, i as int)),
        decreases s.len() - i,
    {
        v.push(en_minuscule(s[i]));
        assert(minuscules(s@.subrange(0, i + 1)) =~= minuscules(s@.subrange(0, i as int)).push(minuscule(s@[i as int])));
        i += 1;
    }
    assert(s@.subrange(0, s.len() as int) =~= s@);
    v
}

/// Égalité sans tenir compte de la casse ASCII.
pub fn egales_sans_casse(a: &[char], b: &[char]) -> (r: bool)
    ensures
        r == egal_sans_casse(a@, b@),
{
    let la = en_minuscules(a);
    let lb = en_minuscules(b);
    egales(&la, &lb)
}

// ══════════════════════════════════════════════════════════════════
// Recherche d'un motif
// ══════════════════════════════════════════════════════════════════

/// Indice de la première occurrence du motif `p` dans `s`, -1 s'il n'y en
/// a pas.
pub open spec fn premier_motif(s: Seq<char>, p: Seq<char>) -> int
    decreases s.len(),
{
    if p.len() > s.len() {
        -1
    } else if commence_par(s, p) {
        0
    } else if s.len() == 0 {
        -1
    } else {
        let r = premier_motif(s.drop_first(), p);
        if r < 0 { -1 } else { r + 1 }
    }
}

/// `s` contient le motif `p`.
pub open spec fn contient_motif(s: Seq<char>, p: Seq<char>) -> bool {
    premier_motif(s, p) >= 0
}

pub proof fn lemme_premier_motif(s: Seq<char>, p: Seq<char>)
    ensures
        -1 <= premier_motif(s, p),
        premier_motif(s, p) >= 0 ==> premier_motif(s, p) + p.len() <= s.len(),
        premier_motif(s, p) >= 0 ==> s.subrange(premier_motif(s, p), premier_motif(s, p) + p.len()) == p,
    decreases s.len(),
{
    if p.len() <= s.len() && !commence_par(s, p) && s.len() > 0 {
        lemme_premier_motif(s.drop_first(), p);
        let r = premier_motif(s.drop_first(), p);
        if r >= 0 {
            assert(s.subrange(r + 1, r + 1 + p.len()) =~= s.drop_first().subrange(r, r + p.len()));
        }
    }
}

proof fn lemme_premier_motif_suite(s: Seq<char>, p: Seq<char>, i: int)
    requires
        0 <= i <= s.len(),
        forall|j: int| 0 <= j < i ==> !commence_par(#[trigger] s.subrange(j, s.len() as int), p),
    ensures
        premier_motif(s, p) == (if premier_motif(s.subrange(i, s.len() as int), p) < 0 { -1 } else { premier_motif(s.subrange(i, s.len() as int), p) + i }),
    decreases i,
{
    assert(s.subrange(0, s.len() as int) =~= s);
    if i > 0 {
        assert(!commence_par(s, p));
        if p.len() > s.len() {
            lemme_premier_motif(s.subrange(i, s.len() as int), p);
        } else {
            let t = s.drop_first();
            assert forall|j: int| 0 <= j < i - 1 implies !commence_par(#[trigger] t.subrange(j, t.len() as int), p) by {
                assert(t.subrange(j, t.len() as int) =~= s.subrange(j + 1, s.len() as int));
            }
            lemme_premier_motif_suite(t, p, i - 1);
            assert(t.subrange(i - 1, t.len() as int) =~= s.subrange(i, s.len() as int));
        }
    }
}

/// Indice de la première occurrence du motif `p` dans `s`.
pub fn trouver_motif(s: &[char], p: &[char]) -> (r: Option<usize>)
    ensures
        match r {
            Some(i) => premier_motif(s@, p@) == i as int,
            None => premier_motif(s@, p@) == -1,
        },
{
    let mut i: usize = 0;
    while i < s.len()
        invariant
            i <= s.len(),
            forall|j: int| 0 <= j < i ==> !commence_par(#[trigger] s@.subrange(j, s@.len() as int), p@),
        decreases s.len() - i,
    {
        let reste = tranche(s, i, s.len());
        if commence(&reste, p) {
            proof {
                lemme_premier_motif_suite(s@, p@, i as int);
            }
            return Some(i);
        }
        i += 1;
    }
    proof {
        lemme_premier_motif_suite(s@, p@, i as int);
        let vide = s@.subrange(i as int, s@.len() as int);
        assert(vide.len() == 0);
        if p@.len() == 0 {
            assert(commence_par(vide, p@)) by {
                assert(vide.subrange(0, 0) =~= p@);
            }
        }
    }
    if p.len() == 0 {
        return Some(i);
    }
    None
}

/// `s` contient le motif `p`.
pub fn contient_texte(s: &[char], p: &str) -> (r: bool)
    ensures
        r == contient_motif(s@, p@),
{
    let pc = caracteres(p);
    trouver_motif(s, &pc).is_some()
}

// ══════════════════════════════════════════════════════════════════
// Encodage pour URL
// ══════════════════════════════════════════════════════════════════

/// Octet non réservé (RFC 3986) : lettre, chiffre, `-`, `_`, `.`, `~`.
pub open spec fn non_reserve(b: u8) -> bool {
    (65 <= b <= 90) || (97 <= b <= 122) || (48 <= b <= 57) || b == 45 || b == 95 || b == 46 || b == 126
}

/// Un octet encodé : tel quel s'il est non réservé, sinon `%XX` (majuscules).
pub open spec fn octet_url(b: u8) -> Seq<char> {
    if non_reserve(b) {
        seq![b as char]
    } else {
        seq!['%', hex_maj((b / 16) as int), hex_maj((b % 16) as int)]
    }
}

/// Encodage pourcent des octets.
pub open spec fn encode_octets_url(b: Seq<u8>) -> Seq<char>
    decreases b.len(),
{
    if b.len() == 0 { Seq::empty() } else { encode_octets_url(b.drop_last()) + octet_url(b.last()) }
}

/// Encodage pourcent (RFC 3986) du texte : octets UTF-8 non réservés gardés,
/// les autres en `%XX`.
pub open spec fn encode_url(s: Seq<char>) -> Seq<char> {
    encode_octets_url(vstd::utf8::encode_utf8(s))
}

/// Encodage pourcent minimal (RFC 3986) d'un texte.
pub fn encoder_url(s: &str) -> (r: String)
    ensures
        r@ == encode_url(s@),
{
    let b = s.as_bytes();
    let mut out: Vec<char> = Vec::new();
    let mut i: usize = 0;
    while i < b.len()
        invariant
            i <= b.len(),
            out@ == encode_octets_url(b@.subrange(0, i as int)),
        decreases b.len() - i,
    {
        let x = b[i];
        let ghost avant = out@;
        if (65 <= x && x <= 90) || (97 <= x && x <= 122) || (48 <= x && x <= 57) || x == 45 || x == 95 || x == 46 || x == 126 {
            out.push(x as char);
        } else {
            out.push('%');
            out.push(chiffre_hex_maj(x / 16));
            out.push(chiffre_hex_maj(x % 16));
        }
        assert(out@ =~= avant + octet_url(x));
        assert(b@.subrange(0, i + 1).drop_last() =~= b@.subrange(0, i as int));
        i += 1;
    }
    assert(b@.subrange(0, b.len() as int) =~= b@);
    chaine_de(&out)
}


// ══════════════════════════════════════════════════════════════════
// Lecture d'un entier décimal
// ══════════════════════════════════════════════════════════════════

/// `s` est une suite non vide de chiffres ASCII.
pub open spec fn que_des_chiffres(s: Seq<char>) -> bool {
    s.len() > 0 && forall|i: int| 0 <= i < s.len() ==> '0' <= #[trigger] s[i] <= '9'
}

/// Valeur décimale d'une suite de chiffres.
pub open spec fn valeur_decimale(s: Seq<char>) -> nat
    decreases s.len(),
{
    if s.len() == 0 {
        0
    } else {
        valeur_decimale(s.drop_last()) * 10 + ((s.last() as nat) - ('0' as nat)) as nat
    }
}

/// Entier écrit par `s` à la manière de `str::parse::<i64>` : un signe `+`
/// ou `-` facultatif suivi d'au moins un chiffre, rien d'autre.
pub open spec fn entier_ecrit(s: Seq<char>) -> Option<int> {
    if s.len() > 0 && s[0] == '-' && que_des_chiffres(s.drop_first()) {
        Some(-(valeur_decimale(s.drop_first()) as int))
    } else if s.len() > 0 && s[0] == '+' && que_des_chiffres(s.drop_first()) {
        Some(valeur_decimale(s.drop_first()) as int)
    } else if que_des_chiffres(s) {
        Some(valeur_decimale(s) as int)
    } else {
        None
    }
}

/// Résultat de `str::parse::<i64>` : l'entier écrit, s'il tient dans un `i64`.
pub open spec fn i64_ecrit(s: Seq<char>) -> Option<i64> {
    match entier_ecrit(s) {
        Some(v) => if i64::MIN <= v <= i64::MAX { Some(v as i64) } else { None },
        None => None,
    }
}

pub proof fn lemme_decimal_chiffres(n: nat)
    ensures
        que_des_chiffres(decimal(n)),
        valeur_decimale(decimal(n)) == n,
    decreases n,
{
    let c = (('0' as nat) + n % 10) as char;
    assert(c as nat == ('0' as nat) + n % 10);
    if n < 10 {
        assert(decimal(n).drop_last() =~= Seq::<char>::empty());
        assert(valeur_decimale(Seq::<char>::empty()) == 0);
        assert(decimal(n).last() == c);
        assert(valeur_decimale(decimal(n)) == 0 * 10 + n % 10);
    } else {
        lemme_decimal_chiffres(n / 10);
        let d = decimal(n);
        assert(d.drop_last() =~= decimal(n / 10));
        assert(d.last() == c);
        assert(valeur_decimale(d) == valeur_decimale(decimal(n / 10)) * 10 + n % 10);
        assert((n / 10) * 10 + n % 10 == n);
        assert forall|i: int| 0 <= i < d.len() implies '0' <= #[trigger] d[i] <= '9' by {
            if i < d.len() - 1 {
                assert(d[i] == decimal(n / 10)[i]);
            }
        }
    }
}

/// Relire l'écriture décimale d'un `i64` redonne ce nombre.
pub proof fn loi_relire_entier(n: i64)
    ensures
        i64_ecrit(decimal_signe(n as int)) == Some(n),
{
    if n < 0 {
        let m: nat = (-n) as nat;
        lemme_decimal_chiffres(m);
        let s = decimal_signe(n as int);
        assert(s.drop_first() =~= decimal(m));
    } else {
        lemme_decimal_chiffres(n as nat);
        assert('0' <= decimal(n as nat)[0] <= '9');
    }
}

proof fn lemme_valeur_croissante(s: Seq<char>, k: int)
    requires
        0 <= k <= s.len(),
        forall|i: int| 0 <= i < s.len() ==> '0' <= #[trigger] s[i] <= '9',
    ensures
        valeur_decimale(s.subrange(0, k)) <= valeur_decimale(s),
    decreases s.len(),
{
    if k < s.len() {
        let t = s.drop_last();
        assert(t.subrange(0, k) =~= s.subrange(0, k));
        lemme_valeur_croissante(t, k);
    } else {
        assert(s.subrange(0, k) =~= s);
    }
}

/// Lit les chiffres `s[debut..]` ; `None` si l'un n'est pas un chiffre, si
/// la suite est vide, ou si la valeur dépasse `borne`.
fn lire_chiffres(s: &[char], debut: usize, borne: u128) -> (r: Option<u128>)
    requires
        debut <= s.len(),
        borne < 0x1_0000_0000_0000_0000,
    ensures
        match r {
            Some(v) => que_des_chiffres(s@.subrange(debut as int, s@.len() as int))
                && v == valeur_decimale(s@.subrange(debut as int, s@.len() as int)) && v <= borne,
            None => !que_des_chiffres(s@.subrange(debut as int, s@.len() as int))
                || valeur_decimale(s@.subrange(debut as int, s@.len() as int)) > borne,
        },
{
    let ghost t = s@.subrange(debut as int, s@.len() as int);
    if debut == s.len() {
        return None;
    }
    let mut i = debut;
    let mut v: u128 = 0;
    while i < s.len()
        invariant
            debut <= i <= s.len(),
            t == s@.subrange(debut as int, s@.len() as int),
            borne < 0x1_0000_0000_0000_0000,
            v <= borne,
            v == valeur_decimale(t.subrange(0, i - debut)),
            forall|j: int| 0 <= j < i - debut ==> '0' <= #[trigger] t[j] <= '9',
        decreases s.len() - i,
    {
        let c = s[i];
        if !('0' <= c && c <= '9') {
            assert(t[i - debut] == c);
            return None;
        }
        assert(t.subrange(0, i + 1 - debut).drop_last() =~= t.subrange(0, i - debut));
        let d = (c as u32 - 48) as u128;
        let nv = v * 10 + d;
        if nv > borne {
            proof {
                assert(valeur_decimale(t.subrange(0, i + 1 - debut)) == nv);
                if que_des_chiffres(t) {
                    lemme_valeur_croissante(t, i + 1 - debut);
                }
            }
            return None;
        }
        v = nv;
        i += 1;
    }
    assert(t.subrange(0, i - debut) =~= t);
    Some(v)
}

/// `str::parse::<i64>` : l'entier écrit par `s`, s'il tient dans un `i64`.
pub fn analyser_i64(s: &[char]) -> (r: Option<i64>)
    ensures
        r == i64_ecrit(s@),
{
    if s.len() > 0 && (s[0] == '-' || s[0] == '+') {
        assert(s@.subrange(1, s@.len() as int) =~= s@.drop_first());
        let negatif = s[0] == '-';
        let borne: u128 = if negatif { 9223372036854775808 } else { 9223372036854775807 };
        match lire_chiffres(s, 1, borne) {
            Some(v) => {
                if negatif {
                    if v == 9223372036854775808 {
                        Some(i64::MIN)
                    } else {
                        Some(-(v as i64))
                    }
                } else {
                    Some(v as i64)
                }
            },
            None => {
                assert(!que_des_chiffres(s@)) by {
                    if que_des_chiffres(s@) {
                        assert('0' <= s@[0] <= '9');
                    }
                }
                None
            },
        }
    } else {
        assert(s@.subrange(0, s@.len() as int) =~= s@);
        match lire_chiffres(s, 0, 9223372036854775807) {
            Some(v) => Some(v as i64),
            None => None,
        }
    }
}

/// Entier naturel écrit par `s` à la manière de `str::parse` pour un type
/// non signé : un `+` facultatif suivi d'au moins un chiffre.
pub open spec fn naturel_ecrit(s: Seq<char>) -> Option<nat> {
    if s.len() > 0 && s[0] == '+' && que_des_chiffres(s.drop_first()) {
        Some(valeur_decimale(s.drop_first()))
    } else if que_des_chiffres(s) {
        Some(valeur_decimale(s))
    } else {
        None
    }
}

/// `str::parse` pour un entier non signé de valeur au plus `max` : l'entier
/// écrit, s'il ne dépasse pas `max`.
pub open spec fn naturel_borne(s: Seq<char>, max: nat) -> Option<nat> {
    match naturel_ecrit(s) {
        Some(v) => if v <= max { Some(v) } else { None },
        None => None,
    }
}

/// `str::parse::<u64>` (et des types non signés plus petits, avec leur
/// maximum `max`).
pub fn analyser_naturel(s: &[char], max: u64) -> (r: Option<u64>)
    ensures
        match r {
            Some(v) => naturel_borne(s@, max as nat) == Some(v as nat),
            None => naturel_borne(s@, max as nat) is None,
        },
{
    if s.len() > 0 && s[0] == '+' {
        assert(s@.subrange(1, s@.len() as int) =~= s@.drop_first());
        match lire_chiffres(s, 1, max as u128) {
            Some(v) => Some(v as u64),
            None => {
                assert(!que_des_chiffres(s@)) by {
                    if que_des_chiffres(s@) {
                        assert('0' <= s@[0] <= '9');
                    }
                }
                None
            },
        }
    } else {
        assert(s@.subrange(0, s@.len() as int) =~= s@);
        match lire_chiffres(s, 0, max as u128) {
            Some(v) => Some(v as u64),
            None => None,
        }
    }
}

// ══════════════════════════════════════════════════════════════════
// Coupures par un ensemble de séparateurs, segments entre motifs
// ══════════════════════════════════════════════════════════════════

/// Indice du premier caractère de `s` qui appartient à `sep`, -1 s'il n'y
/// en a pas.
pub open spec fn premier_parmi(s: Seq<char>, sep: Seq<char>) -> int
    decreases s.len(),
{
    if s.len() == 0 {
        -1
    } else if sep.contains(s[0]) {
        0
    } else {
        let r = premier_parmi(s.drop_first(), sep);
        if r < 0 { -1 } else { r + 1 }
    }
}

/// Premier morceau de `s` coupé aux caractères de `sep`
/// (`s.split([..]).next()`).
pub open spec fn avant_parmi(s: Seq<char>, sep: Seq<char>) -> Seq<char> {
    let i = premier_parmi(s, sep);
    if i < 0 { s } else { s.subrange(0, i) }
}

pub proof fn lemme_premier_parmi(s: Seq<char>, sep: Seq<char>)
    ensures
        -1 <= premier_parmi(s, sep) < s.len(),
        premier_parmi(s, sep) >= 0 ==> sep.contains(s[premier_parmi(s, sep)]),
        forall|j: int| 0 <= j < s.len() && (premier_parmi(s, sep) < 0 || j < premier_parmi(s, sep))
            ==> !sep.contains(#[trigger] s[j]),
    decreases s.len(),
{
    if s.len() > 0 && !sep.contains(s[0]) {
        lemme_premier_parmi(s.drop_first(), sep);
        assert forall|j: int| 0 <= j < s.len() && (premier_parmi(s, sep) < 0 || j < premier_parmi(s, sep))
            implies !sep.contains(#[trigger] s[j]) by {
            if j > 0 {
                assert(s[j] == s.drop_first()[j - 1]);
            }
        }
    }
}

proof fn lemme_premier_parmi_suite(s: Seq<char>, sep: Seq<char>, i: int)
    requires
        0 <= i <= s.len(),
        forall|j: int| 0 <= j < i ==> !sep.contains(#[trigger] s[j]),
    ensures
        premier_parmi(s, sep) == (if premier_parmi(s.subrange(i, s.len() as int), sep) < 0 { -1 } else {
            premier_parmi(s.subrange(i, s.len() as int), sep) + i
        }),
    decreases i,
{
    assert(s.subrange(0, s.len() as int) =~= s);
    if i > 0 {
        let t = s.drop_first();
        assert forall|j: int| 0 <= j < i - 1 implies !sep.contains(#[trigger] t[j]) by {
            assert(t[j] == s[j + 1]);
        }
        lemme_premier_parmi_suite(t, sep, i - 1);
        assert(t.subrange(i - 1, t.len() as int) =~= s.subrange(i, s.len() as int));
    }
}

/// Premier morceau de `s` coupé aux caractères de `sep`.
pub fn prefixe_avant(s: &[char], sep: &[char]) -> (v: Vec<char>)
    ensures
        v@ == avant_parmi(s@, sep@),
{
    let mut i: usize = 0;
    while i < s.len()
        invariant
            i <= s.len(),
            forall|j: int| 0 <= j < i ==> !sep@.contains(#[trigger] s@[j]),
        decreases s.len() - i,
    {
        if contient(sep, s[i]) {
            proof {
                lemme_premier_parmi_suite(s@, sep@, i as int);
                assert(sep@.contains(s@.subrange(i as int, s@.len() as int)[0]));
            }
            return tranche(s, 0, i);
        }
        i += 1;
    }
    proof {
        lemme_premier_parmi_suite(s@, sep@, i as int);
        assert(s@.subrange(0, s@.len() as int) =~= s@);
    }
    tranche(s, 0, s.len())
}

/// Le segment de `s` entre la première et la deuxième occurrence du motif
/// `p` (`s.split(p).nth(1)`), `None` si `p` n'apparaît pas.
pub open spec fn segment_apres(s: Seq<char>, p: Seq<char>) -> Option<Seq<char>> {
    let i = premier_motif(s, p);
    if i < 0 {
        None
    } else {
        let reste = s.subrange(i + p.len(), s.len() as int);
        let j = premier_motif(reste, p);
        if j < 0 { Some(reste) } else { Some(reste.subrange(0, j)) }
    }
}

/// Le segment de `s` entre la première et la deuxième occurrence du motif
/// non vide `p`.
pub fn segment_suivant(s: &[char], p: &str) -> (r: Option<Vec<char>>)
    ensures
        match r {
            Some(v) => segment_apres(s@, p@) == Some(v@),
            None => segment_apres(s@, p@) is None,
        },
{
    let pc = caracteres(p);
    proof {
        lemme_premier_motif(s@, p@);
    }
    match trouver_motif(s, &pc) {
        None => None,
        Some(i) => {
            let n = s.len();
            let m = pc.len();
            assert(i + m <= n);
            let reste = tranche(s, i + m, n);
            proof {
                lemme_premier_motif(reste@, p@);
            }
            match trouver_motif(&reste, &pc) {
                None => Some(reste),
                Some(j) => Some(tranche(&reste, 0, j)),
            }
        },
    }
}


// ══════════════════════════════════════════════════════════════════
// Remplacement d'un motif
// ══════════════════════════════════════════════════════════════════

/// Chaque caractère de `s` suivi de `r`.
pub open spec fn intercaler(s: Seq<char>, r: Seq<char>) -> Seq<char>
    decreases s.len(),
{
    if s.len() == 0 { Seq::empty() } else { seq![s[0]] + r + intercaler(s.drop_first(), r) }
}

/// `s` où chaque occurrence du motif `p`, prise de gauche à droite sans
/// chevauchement, est remplacée par `r` (`str::replace`) ; un motif vide se
/// trouve avant chaque caractère et à la fin, donc `r` y est inséré.
pub open spec fn remplacer(s: Seq<char>, p: Seq<char>, r: Seq<char>) -> Seq<char>
    decreases s.len(),
{
    if p.len() == 0 {
        r + intercaler(s, r)
    } else if s.len() == 0 {
        s
    } else if commence_par(s, p) {
        r + remplacer(s.subrange(p.len() as int, s.len() as int), p, r)
    } else {
        seq![s[0]] + remplacer(s.drop_first(), p, r)
    }
}

/// `s[i..]` commence par `p`.
pub fn commence_en(s: &[char], i: usize, p: &[char]) -> (b: bool)
    requires
        i <= s.len(),
    ensures
        b == commence_par(s@.subrange(i as int, s@.len() as int), p@),
{
    let ghost t = s@.subrange(i as int, s@.len() as int);
    if p.len() > s.len() - i {
        return false;
    }
    let mut j: usize = 0;
    while j < p.len()
        invariant
            j <= p.len() <= s.len() - i,
            i <= s.len(),
            t == s@.subrange(i as int, s@.len() as int),
            forall|k: int| 0 <= k < j ==> t.subrange(0, p@.len() as int)[k] == p@[k],
        decreases p.len() - j,
    {
        if s[i + j] != p[j] {
            assert(t.subrange(0, p@.len() as int)[j as int] != p@[j as int]);
            return false;
        }
        j += 1;
    }
    assert(t.subrange(0, p@.len() as int) =~= p@);
    true
}

/// `s` où chaque occurrence de `p` est remplacée par `r` (voir `remplacer`).
pub fn remplacer_car(s: &[char], p: &[char], r: &[char]) -> (v: Vec<char>)
    ensures
        v@ == remplacer(s@, p@, r@),
{
    let mut o: Vec<char> = Vec::new();
    if p.len() == 0 {
        o.extend_from_slice(r);
        let mut k: usize = 0;
        assert(s@.subrange(0, s@.len() as int) =~= s@);
        while k < s.len()
            invariant
                k <= s.len(),
                p@.len() == 0,
                o@ + intercaler(s@.subrange(k as int, s@.len() as int), r@) == r@ + intercaler(s@, r@),
            decreases s.len() - k,
        {
            let ghost t = s@.subrange(k as int, s@.len() as int);
            assert(t.drop_first() =~= s@.subrange(k + 1, s@.len() as int));
            assert(t[0] == s@[k as int]);
            let ghost avant = o@;
            o.push(s[k]);
            o.extend_from_slice(r);
            assert(o@ + intercaler(t.drop_first(), r@) =~= avant + intercaler(t, r@));
            k += 1;
        }
        assert(intercaler(s@.subrange(k as int, s@.len() as int), r@) =~= Seq::<char>::empty());
        assert(o@ =~= o@ + Seq::<char>::empty());
        return o;
    }
    let mut i: usize = 0;
    assert(s@.subrange(0, s@.len() as int) =~= s@);
    while i < s.len()
        invariant
            i <= s.len(),
            p@.len() > 0,
            o@ + remplacer(s@.subrange(i as int, s@.len() as int), p@, r@) == remplacer(s@, p@, r@),
        decreases s.len() - i,
    {
        let ghost t = s@.subrange(i as int, s@.len() as int);
        if commence_en(s, i, p) {
            assert(t.subrange(p@.len() as int, t.len() as int) =~= s@.subrange(i + p@.len(), s@.len() as int));
            o.extend_from_slice(r);
            i += p.len();
        } else {
            assert(t.drop_first() =~= s@.subrange(i + 1, s@.len() as int));
            o.push(s[i]);
            i += 1;
        }
    }
    assert(s@.subrange(i as int, s@.len() as int).len() == 0);
    o
}

/// `s` où chaque occurrence du motif `p` est remplacée par `r` (voir
/// `remplacer`).
pub fn remplace(s: &str, p: &str, r: &str) -> (v: String)
    ensures
        v@ == remplacer(s@, p@, r@),
{
    let sc = caracteres(s);
    let pc = caracteres(p);
    let rc = caracteres(r);
    chaine_de(&remplacer_car(&sc, &pc, &rc))
}


// ══════════════════════════════════════════════════════════════════
// Longueur en octets UTF-8
// ══════════════════════════════════════════════════════════════════

/// Nombre d'octets de l'UTF-8 de `c`.
pub fn largeur_utf8(c: char) -> (r: usize)
    ensures
        r == vstd::utf8::encode_scalar(c as u32).len(),
        1 <= r <= 4,
{
    proof {
        vstd::utf8::char_is_scalar(c);
    }
    let u = c as u32;
    if u <= 0x7F {
        1
    } else if u <= 0x7FF {
        2
    } else if u <= 0xFFFF {
        3
    } else {
        4
    }
}

pub proof fn lemme_utf8_ajout(a: Seq<char>, c: char)
    ensures
        vstd::utf8::encode_utf8(a.push(c)).len() == vstd::utf8::encode_utf8(a).len()
            + vstd::utf8::encode_scalar(c as u32).len(),
    decreases a.len(),
{
    let b = a.push(c);
    assert(vstd::utf8::encode_utf8(b) == vstd::utf8::encode_scalar(b[0] as u32) + vstd::utf8::encode_utf8(b.drop_first()));
    if a.len() > 0 {
        assert(b.drop_first() =~= a.drop_first().push(c));
        assert(b[0] == a[0]);
        lemme_utf8_ajout(a.drop_first(), c);
        assert(vstd::utf8::encode_utf8(a) == vstd::utf8::encode_scalar(a[0] as u32) + vstd::utf8::encode_utf8(a.drop_first()));
    } else {
        assert(b.drop_first() =~= Seq::<char>::empty());
        assert(vstd::utf8::encode_utf8(Seq::<char>::empty()).len() == 0);
        assert(vstd::utf8::encode_utf8(a).len() == 0);
    }
}

proof fn lemme_utf8_croissant(s: Seq<char>, i: int)
    requires
        0 <= i <= s.len(),
    ensures
        vstd::utf8::encode_utf8(s.subrange(0, i)).len() <= vstd::utf8::encode_utf8(s).len(),
    decreases s.len() - i,
{
    if i < s.len() {
        lemme_utf8_croissant(s, i + 1);
        assert(s.subrange(0, i + 1) =~= s.subrange(0, i).push(s[i]));
        lemme_utf8_ajout(s.subrange(0, i), s[i]);
    } else {
        assert(s.subrange(0, i) =~= s);
    }
}

/// L'UTF-8 de `s` a plus de `max` octets (`str::len() > max`).
pub fn octets_depassent(s: &[char], max: usize) -> (r: bool)
    requires
        max <= usize::MAX - 4,
    ensures
        r == (vstd::utf8::encode_utf8(s@).len() > max),
{
    let mut total: usize = 0;
    let mut i: usize = 0;
    assert(s@.subrange(0, 0) =~= Seq::<char>::empty());
    while i < s.len()
        invariant
            i <= s.len(),
            max <= usize::MAX - 4,
            total <= max,
            total == vstd::utf8::encode_utf8(s@.subrange(0, i as int)).len(),
        decreases s.len() - i,
    {
        proof {
            assert(s@.subrange(0, i + 1) =~= s@.subrange(0, i as int).push(s@[i as int]));
            lemme_utf8_ajout(s@.subrange(0, i as int), s@[i as int]);
        }
        total = total + largeur_utf8(s[i]);
        i += 1;
        if total > max {
            proof {
                lemme_utf8_croissant(s@, i as int);
            }
            return true;
        }
    }
    assert(s@.subrange(0, i as int) =~= s@);
    false
}

/// L'UTF-8 de `s` a exactement `n` octets.
pub fn octets_egaux(s: &[char], n: usize) -> (r: bool)
    requires
        n <= usize::MAX - 4,
    ensures
        r == (vstd::utf8::encode_utf8(s@).len() == n),
{
    if octets_depassent(s, n) {
        return false;
    }
    if n == 0 {
        return true;
    }
    octets_depassent(s, n - 1)
}

} // verus!
