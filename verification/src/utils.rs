//! Utilitaires partagés : adresses, requêtes, journal d'accès.

use vstd::prelude::*;
use crate::texte::{
    ajouter, ajouter_car, ajouter_decimal, caracteres, chaine_de, commence, commence_par, contient,
    decimal, decoupe, decouper, dernier, egal_sans_casse, encode_octets_url, encode_url, hex_maj, octet_url, egales, egales_sans_casse, en_minuscules,
    lemme_dernier, lemme_premier, minuscules, premier, rogne, rogner, tranche, trouver,
    trouver_dernier, vues,
};

verus! {

broadcast use vstd::string::group_string_axioms;

// ══════════════════════════════════════════════════════════════════
// Adresse sans port
// ══════════════════════════════════════════════════════════════════

/// L'adresse `a` sans son port : `[ip6]:port` donne `ip6`, `ip4:port`
/// donne `ip4`, une adresse à plusieurs `:` sans crochets reste telle quelle.
pub open spec fn sans_port(a: Seq<char>) -> Seq<char> {
    let f = premier(a, ']');
    let d = dernier(a, ':');
    if a.len() > 0 && a[0] == '[' && f >= 0 {
        a.subrange(1, f)
    } else if d >= 0 && !a.subrange(0, d).contains(':') {
        a.subrange(0, d)
    } else {
        a
    }
}

/// Supprime le port d'une adresse IP :
/// `"127.0.0.1:54321"` donne `"127.0.0.1"`, `"[::1]:8080"` donne `"::1"`.
pub fn strip_port(addr: &str) -> (r: String)
    ensures
        r@ == sans_port(addr@),
{
    let a = caracteres(addr);
    let v = port_retire(&a);
    chaine_de(&v)
}

pub fn port_retire(a: &[char]) -> (v: Vec<char>)
    ensures
        v@ == sans_port(a@),
{
    proof {
        lemme_premier(a@, ']');
        lemme_dernier(a@, ':');
    }
    if a.len() > 0 && a[0] == '[' {
        if let Some(f) = trouver(a, ']') {
            return tranche(a, 1, f);
        }
    }
    if let Some(d) = trouver_dernier(a, ':') {
        let avant = tranche(a, 0, d);
        if !contient(&avant, ':') {
            return avant;
        }
    }
    tranche(a, 0, a.len())
}

// ══════════════════════════════════════════════════════════════════
// Décodage des URL
// ══════════════════════════════════════════════════════════════════

/// Valeur d'un chiffre hexadécimal ASCII.
pub open spec fn valeur_hex(b: u8) -> Option<u8> {
    if 48 <= b <= 57 {
        Some((b - 48) as u8)
    } else if 97 <= b <= 102 {
        Some((b - 87) as u8)
    } else if 65 <= b <= 70 {
        Some((b - 55) as u8)
    } else {
        None
    }
}

pub fn chiffre_hex(b: u8) -> (r: Option<u8>)
    ensures
        r == valeur_hex(b),
{
    if 48 <= b && b <= 57 {
        Some(b - 48)
    } else if 97 <= b && b <= 102 {
        Some(b - 87)
    } else if 65 <= b && b <= 70 {
        Some(b - 55)
    } else {
        None
    }
}

/// Les octets `b` où `+` devient une espace.
pub open spec fn plus_en_espace(b: Seq<u8>) -> Seq<u8> {
    b.map_values(|x: u8| if x == 43 { 32u8 } else { x })
}

/// Décodage des séquences `%XX` (deux chiffres hexadécimaux) ; tout autre
/// octet est recopié.
pub open spec fn decoder_pourcent(b: Seq<u8>) -> Seq<u8>
    decreases b.len(),
{
    if b.len() == 0 {
        Seq::empty()
    } else if b[0] == 37 && b.len() > 2 && valeur_hex(b[1]) is Some && valeur_hex(b[2]) is Some {
        seq![(valeur_hex(b[1])->0 * 16 + valeur_hex(b[2])->0) as u8] + decoder_pourcent(b.subrange(3, b.len() as int))
    } else {
        seq![b[0]] + decoder_pourcent(b.subrange(1, b.len() as int))
    }
}

/// Texte de l'UTF-8 `b`, chaque séquence invalide étant remplacée par
/// U+FFFD (`String::from_utf8_lossy`).
pub uninterp spec fn utf8_avec_pertes(b: Seq<u8>) -> Seq<char>;

/// `String::from_utf8_lossy` (std) : le texte des octets, dont les séquences
/// UTF-8 invalides deviennent U+FFFD. Contrat : le résultat est la valeur
/// nommée `utf8_avec_pertes` des octets ; des octets UTF-8 valides donnent
/// exactement leur texte.
#[verifier::external_body]
fn depuis_utf8_avec_pertes(b: &[u8]) -> (s: String)
    ensures
        s@ == utf8_avec_pertes(b@),
        vstd::utf8::valid_utf8(b@) ==> s@ == vstd::utf8::decode_utf8(b@),
{
    String::from_utf8_lossy(b).into_owned()
}

/// Texte décodé d'un composant d'URL : `+` devient une espace, `%XX` devient
/// l'octet XX, puis les octets sont lus en UTF-8 (séquences invalides
/// remplacées par U+FFFD).
pub open spec fn decoder_url(s: Seq<char>) -> Seq<char> {
    texte_utf8(decoder_pourcent(plus_en_espace(vstd::utf8::encode_utf8(s))))
}

/// Texte des octets lus en UTF-8 : leur décodage s'ils sont valides, sinon
/// le texte où les séquences invalides sont remplacées.
pub open spec fn texte_utf8(b: Seq<u8>) -> Seq<char> {
    if vstd::utf8::valid_utf8(b) { vstd::utf8::decode_utf8(b) } else { utf8_avec_pertes(b) }
}

/// Décodage `+` et `%XX` d'octets.
pub fn decoder_octets(b: &[u8]) -> (out: Vec<u8>)
    ensures
        out@ == decoder_pourcent(plus_en_espace(b@)),
{
    let mut p: Vec<u8> = Vec::new();
    let mut i: usize = 0;
    while i < b.len()
        invariant
            i <= b.len(),
            p@ == plus_en_espace(b@.subrange(0, i as int)),
        decreases b.len() - i,
    {
        p.push(if b[i] == 43 { 32u8 } else { b[i] });
        assert(plus_en_espace(b@.subrange(0, i + 1)) =~= plus_en_espace(b@.subrange(0, i as int)).push(if b@[i as int] == 43 { 32u8 } else { b@[i as int] }));
        i += 1;
    }
    assert(b@.subrange(0, b.len() as int) =~= b@);
    let mut out: Vec<u8> = Vec::new();
    let mut i: usize = 0;
    assert(p@.subrange(0, p@.len() as int) =~= p@);
    while i < p.len()
        invariant
            i <= p.len(),
            out@ + decoder_pourcent(p@.subrange(i as int, p@.len() as int)) == decoder_pourcent(p@),
        decreases p.len() - i,
    {
        let ghost reste = p@.subrange(i as int, p@.len() as int);
        if p[i] == 37 && p.len() - i > 2 {
            let h = chiffre_hex(p[i + 1]);
            let l = chiffre_hex(p[i + 2]);
            if let (Some(h), Some(l)) = (h, l) {
                assert(reste[1] == p@[i + 1] && reste[2] == p@[i + 2]);
                assert(reste.subrange(3, reste.len() as int) =~= p@.subrange(i + 3, p@.len() as int));
                let ghost avant = out@;
                out.push(h * 16 + l);
                assert(out@ + decoder_pourcent(p@.subrange(i + 3, p@.len() as int)) =~= avant + decoder_pourcent(reste));
                i += 3;
                continue;
            }
        }
        proof {
            if reste[0] == 37 && reste.len() > 2 {
                assert(reste[1] == p@[i + 1] && reste[2] == p@[i + 2]);
            }
        }
        assert(reste.subrange(1, reste.len() as int) =~= p@.subrange(i + 1, p@.len() as int));
        let ghost avant = out@;
        out.push(p[i]);
        assert(out@ + decoder_pourcent(p@.subrange(i + 1, p@.len() as int)) =~= avant + decoder_pourcent(reste));
        i += 1;
    }
    assert(out@ + decoder_pourcent(p@.subrange(i as int, p@.len() as int)) =~= out@ + Seq::<u8>::empty());
    out
}

/// Décode un composant d'URL (`+`, `%XX`, puis UTF-8 avec remplacement des
/// séquences invalides).
pub fn url_decode(s: &str) -> (r: String)
    ensures
        r@ == decoder_url(s@),
{
    let b = s.as_bytes();
    let o = decoder_octets(b);
    depuis_utf8_avec_pertes(&o)
}

/// Octets d'un texte ASCII.
pub open spec fn octets_ascii(e: Seq<char>) -> Seq<u8> {
    e.map_values(|c: char| c as u8)
}

/// Encodage pourcent des octets, écrit depuis le premier.
spec fn encode_avant(b: Seq<u8>) -> Seq<char>
    decreases b.len(),
{
    if b.len() == 0 { Seq::empty() } else { octet_url(b[0]) + encode_avant(b.drop_first()) }
}

proof fn lemme_encode_avant(b: Seq<u8>)
    ensures
        encode_avant(b) == encode_octets_url(b),
    decreases b.len(),
{
    if b.len() == 1 {
        assert(b.drop_first() =~= Seq::<u8>::empty());
        assert(b.drop_last() =~= Seq::<u8>::empty());
        assert(encode_avant(b.drop_first()) =~= Seq::<char>::empty());
        assert(encode_avant(b) =~= octet_url(b[0]));
        assert(encode_octets_url(b.drop_last()) =~= Seq::<char>::empty());
        assert(encode_octets_url(b) =~= octet_url(b.last()));
    } else if b.len() > 1 {
        let df = b.drop_first();
        let dl = b.drop_last();
        let m = df.drop_last();
        assert(dl.drop_first() =~= m);
        assert(df.last() == b.last());
        assert(dl[0] == b[0]);
        lemme_encode_avant(m);
        lemme_encode_avant(dl);
        lemme_encode_avant(df);
        assert(encode_avant(b) == octet_url(b[0]) + encode_avant(df));
        assert(encode_octets_url(df) == encode_octets_url(m) + octet_url(b.last()));
        assert(encode_avant(b) =~= octet_url(b[0]) + (encode_octets_url(m) + octet_url(b.last())));
        assert(encode_octets_url(b) =~= (octet_url(b[0]) + encode_avant(m)) + octet_url(b.last()));
    }
}

/// Un octet encodé : caractères ASCII autres que `+`, et le décodage le
/// rend.
proof fn lemme_octet_relu(x: u8, r: Seq<u8>)
    ensures
        forall|i: int| 0 <= i < octet_url(x).len() ==> (#[trigger] octet_url(x)[i]) <= '\u{7f}' && octet_url(x)[i] != '+',
        decoder_pourcent(octets_ascii(octet_url(x)) + r) == seq![x] + decoder_pourcent(r),
{
    let o = octet_url(x);
    let t = octets_ascii(o) + r;
    if crate::texte::non_reserve(x) {
        assert(o == seq![x as char]);
        assert(t[0] == x);
        assert(t.subrange(1, t.len() as int) =~= r);
    } else {
        let h = x / 16;
        let l = x % 16;
        assert(o == seq!['%', hex_maj(h as int), hex_maj(l as int)]);
        assert(t[0] == 37);
        assert(t[1] == hex_maj(h as int) as u8);
        assert(t[2] == hex_maj(l as int) as u8);
        assert(valeur_hex(t[1]) == Some(h));
        assert(valeur_hex(t[2]) == Some(l));
        assert(t.subrange(3, t.len() as int) =~= r);
        assert((h * 16 + l) as u8 == x);
    }
}

proof fn lemme_encode_relu(b: Seq<u8>)
    ensures
        forall|i: int| 0 <= i < encode_avant(b).len() ==> (#[trigger] encode_avant(b)[i]) <= '\u{7f}' && encode_avant(b)[i] != '+',
        decoder_pourcent(octets_ascii(encode_avant(b))) == b,
    decreases b.len(),
{
    if b.len() > 0 {
        let o = octet_url(b[0]);
        let reste = encode_avant(b.drop_first());
        lemme_encode_relu(b.drop_first());
        lemme_octet_relu(b[0], octets_ascii(reste));
        assert(octets_ascii(encode_avant(b)) =~= octets_ascii(o) + octets_ascii(reste));
        assert(seq![b[0]] + b.drop_first() =~= b);
        assert forall|i: int| 0 <= i < encode_avant(b).len() implies (#[trigger] encode_avant(b)[i]) <= '\u{7f}' && encode_avant(b)[i] != '+' by {
            if i < o.len() {
                assert(encode_avant(b)[i] == o[i]);
            } else {
                assert(encode_avant(b)[i] == reste[i - o.len()]);
            }
        }
    } else {
        assert(octets_ascii(encode_avant(b)) =~= Seq::<u8>::empty());
    }
}

proof fn lemme_car_positif(c: char)
    ensures
        '\0' <= c,
{
}

/// Décoder l'encodage pourcent d'un texte redonne ce texte.
pub proof fn loi_url_relue(s: Seq<char>)
    ensures
        decoder_url(encode_url(s)) == s,
{
    let b = vstd::utf8::encode_utf8(s);
    let e = encode_url(s);
    lemme_encode_avant(b);
    lemme_encode_relu(b);
    assert(e == encode_avant(b));
    assert forall|i: int| 0 <= i < e.len() implies '\0' <= #[trigger] e[i] <= '\u{7f}' by {
        assert(encode_avant(b)[i] <= '\u{7f}');
        assert(e[i] == encode_avant(b)[i]);
        lemme_car_positif(e[i]);
    }
    assert(vstd::utf8::is_ascii_chars(e));
    vstd::utf8::is_ascii_chars_encode_utf8(e);
    let a = vstd::utf8::encode_utf8(e);
    assert(a =~= octets_ascii(e));
    assert forall|i: int| 0 <= i < a.len() implies a[i] != 43 by {
        assert(e[i] != '+');
        assert(a[i] == e[i] as u8);
    }
    assert(plus_en_espace(a) =~= a);
    vstd::utf8::encode_utf8_valid_utf8(s);
    vstd::utf8::encode_utf8_decode_utf8(s);
}

// ══════════════════════════════════════════════════════════════════
// Paramètres d'une requête
// ══════════════════════════════════════════════════════════════════

/// Carte des paires clé/valeur ; pour une clé répétée, la dernière gagne.
pub open spec fn carte_de(p: Seq<(Seq<char>, Seq<char>)>) -> Map<Seq<char>, Seq<char>>
    decreases p.len(),
{
    if p.len() == 0 {
        Map::empty()
    } else {
        carte_de(p.drop_last()).insert(p.last().0, p.last().1)
    }
}

/// Vue des paires de chaînes.
pub open spec fn vue_paires(p: Seq<(String, String)>) -> Seq<(Seq<char>, Seq<char>)> {
    p.map_values(|x: (String, String)| (x.0@, x.1@))
}

/// Paramètres clé/valeur décodés d'une requête (chaîne de requête ou corps
/// de formulaire).
pub struct Parametres {
    paires: Vec<(String, String)>,
}

impl View for Parametres {
    type V = Map<Seq<char>, Seq<char>>;

    closed spec fn view(&self) -> Map<Seq<char>, Seq<char>> {
        carte_de(vue_paires(self.paires@))
    }
}

pub proof fn lemme_carte_de_dernier(p: Seq<(Seq<char>, Seq<char>)>, k: Seq<char>, i: int)
    requires
        0 <= i < p.len(),
        p[i].0 == k,
        forall|j: int| i < j < p.len() ==> p[j].0 != k,
    ensures
        carte_de(p).contains_key(k),
        carte_de(p)[k] == p[i].1,
    decreases p.len(),
{
    if i < p.len() - 1 {
        lemme_carte_de_dernier(p.drop_last(), k, i);
    }
}

pub proof fn lemme_carte_de_absent(p: Seq<(Seq<char>, Seq<char>)>, k: Seq<char>)
    requires
        forall|j: int| 0 <= j < p.len() ==> p[j].0 != k,
    ensures
        !carte_de(p).contains_key(k),
    decreases p.len(),
{
    if p.len() > 0 {
        lemme_carte_de_absent(p.drop_last(), k);
    }
}

impl Parametres {
    pub closed spec fn paires_vues(&self) -> Seq<(Seq<char>, Seq<char>)> {
        vue_paires(self.paires@)
    }

    pub proof fn lemme_vue(&self)
        ensures
            self@ == carte_de(self.paires_vues()),
    {
    }

    /// Aucun paramètre.
    pub fn new() -> (p: Parametres)
        ensures
            p.paires_vues() == Seq::<(Seq<char>, Seq<char>)>::empty(),
            p@ == Map::<Seq<char>, Seq<char>>::empty(),
    {
        let p = Parametres { paires: Vec::new() };
        assert(vue_paires(p.paires@) =~= Seq::<(Seq<char>, Seq<char>)>::empty());
        p
    }

    /// Ajoute la paire `(k, v)` ; elle remplace toute valeur antérieure de `k`.
    pub fn inserer(&mut self, k: String, v: String)
        ensures
            final(self).paires_vues() == old(self).paires_vues().push((k@, v@)),
            final(self)@ == old(self)@.insert(k@, v@),
    {
        self.paires.push((k, v));
        assert(vue_paires(self.paires@) =~= vue_paires(old(self).paires@).push((k@, v@)));
        assert(vue_paires(self.paires@).drop_last() =~= vue_paires(old(self).paires@));
    }

    /// La valeur de la clé `k`, s'il y en a une.
    pub fn get(&self, k: &str) -> (r: Option<&String>)
        ensures
            match r {
                Some(v) => self@.contains_key(k@) && self@[k@] == v@,
                None => !self@.contains_key(k@),
            },
    {
        let kc = caracteres(k);
        let ghost p = vue_paires(self.paires@);
        let mut i: usize = self.paires.len();
        while i > 0
            invariant
                i <= self.paires.len(),
                p == vue_paires(self.paires@),
                kc@ == k@,
                forall|j: int| i <= j < p.len() ==> p[j].0 != k@,
            decreases i,
        {
            let ci = caracteres(self.paires[i - 1].0.as_str());
            if egales(&ci, &kc) {
                proof { lemme_carte_de_dernier(p, k@, i - 1); }
                return Some(&self.paires[i - 1].1);
            }
            i -= 1;
        }
        proof { lemme_carte_de_absent(p, k@); }
        None
    }

    /// Nombre de paires lues (clés répétées comprises).
    pub fn nombre(&self) -> (n: usize)
        ensures
            n == self.paires_vues().len(),
    {
        self.paires.len()
    }
}

/// Lecture des octets décodés d'un composant d'URL.
pub enum Decodage {
    /// Octets lus en UTF-8 (séquences invalides remplacées par U+FFFD).
    Utf8,
    /// Chaque octet devient le caractère de même code (Latin-1).
    Latin1,
}

/// Octets lus comme caractères Latin-1.
pub open spec fn latin1(b: Seq<u8>) -> Seq<char> {
    b.map_values(|x: u8| x as char)
}

/// Texte décodé d'un composant d'URL, octets lus en Latin-1.
pub open spec fn decoder_url_latin1(s: Seq<char>) -> Seq<char> {
    latin1(decoder_pourcent(plus_en_espace(vstd::utf8::encode_utf8(s))))
}

/// Décodage d'un composant selon le mode.
pub open spec fn decoder_selon(d: Decodage, s: Seq<char>) -> Seq<char> {
    match d {
        Decodage::Utf8 => decoder_url(s),
        Decodage::Latin1 => decoder_url_latin1(s),
    }
}

/// Caractère que le décodage d'un composant laisse tel quel : ASCII, ni `+`
/// ni `%`.
pub open spec fn car_neutre(c: char) -> bool {
    '\0' <= c <= '\u{7f}' && c != '+' && c != '%'
}

proof fn lemme_pourcent_neutre(b: Seq<u8>)
    requires
        forall|i: int| 0 <= i < b.len() ==> b[i] != 37,
    ensures
        decoder_pourcent(b) == b,
    decreases b.len(),
{
    if b.len() > 0 {
        lemme_pourcent_neutre(b.subrange(1, b.len() as int));
        assert(seq![b[0]] + b.subrange(1, b.len() as int) =~= b);
    }
}

/// Un composant fait de caractères neutres se décode en lui-même.
pub proof fn lemme_latin1_neutre(s: Seq<char>)
    requires
        forall|i: int| 0 <= i < s.len() ==> car_neutre(#[trigger] s[i]),
    ensures
        decoder_url_latin1(s) == s,
{
    assert(vstd::utf8::is_ascii_chars(s)) by {
        assert forall|i: int| 0 <= i < s.len() implies '\0' <= #[trigger] s[i] <= '\u{7f}' by {
            assert(car_neutre(s[i]));
        }
    }
    vstd::utf8::is_ascii_chars_encode_utf8(s);
    let e = vstd::utf8::encode_utf8(s);
    assert forall|i: int| 0 <= i < e.len() implies e[i] != 43 && e[i] != 37 && (e[i] as char) == s[i] by {
        assert(s[i] as u8 == e[i]);
        assert(car_neutre(s[i]));
        let c = s[i];
        assert(((c as u8) as char) == c && (c as u8) != 43 && (c as u8) != 37) by {
            vstd::utf8::char_is_scalar(c);
        }
    }
    assert(plus_en_espace(e) =~= e);
    lemme_pourcent_neutre(e);
    assert(latin1(e) =~= s);
}

/// Les deux paires d'un formulaire `k1=v1&k2=v2` dont les clés et valeurs
/// sont faites de caractères neutres, sans `=` ni `&`.
pub proof fn lemme_deux_paires(k1: Seq<char>, v1: Seq<char>, k2: Seq<char>, v2: Seq<char>)
    requires
        forall|i: int| 0 <= i < k1.len() ==> car_neutre(#[trigger] k1[i]) && k1[i] != '=' && k1[i] != '&',
        forall|i: int| 0 <= i < v1.len() ==> car_neutre(#[trigger] v1[i]) && v1[i] != '=' && v1[i] != '&',
        forall|i: int| 0 <= i < k2.len() ==> car_neutre(#[trigger] k2[i]) && k2[i] != '=' && k2[i] != '&',
        forall|i: int| 0 <= i < v2.len() ==> car_neutre(#[trigger] v2[i]) && v2[i] != '=' && v2[i] != '&',
    ensures
        paires_formulaire(Decodage::Latin1, k1 + seq!['='] + v1 + seq!['&'] + k2 + seq!['='] + v2) == seq![
            (k1, v1),
            (k2, v2),
        ],
{
    let m1 = k1 + seq!['='] + v1;
    let m2 = k2 + seq!['='] + v2;
    assert(k1 + seq!['='] + v1 + seq!['&'] + k2 + seq!['='] + v2 =~= m1 + seq!['&'] + m2);
    assert(!m1.contains('&')) by {
        if m1.contains('&') {
            let j = choose|j: int| 0 <= j < m1.len() && m1[j] == '&';
            if j < k1.len() {
                assert(m1[j] == k1[j]);
            } else if j > k1.len() {
                assert(m1[j] == v1[j - k1.len() - 1]);
            }
        }
    }
    assert(!m2.contains('&')) by {
        if m2.contains('&') {
            let j = choose|j: int| 0 <= j < m2.len() && m2[j] == '&';
            if j < k2.len() {
                assert(m2[j] == k2[j]);
            } else if j > k2.len() {
                assert(m2[j] == v2[j - k2.len() - 1]);
            }
        }
    }
    crate::texte::lemme_decouper_concat(m1, m2, '&');
    crate::texte::lemme_decouper_sans(m2, '&');
    let d = decouper(m1 + seq!['&'] + m2, '&');
    assert(d =~= seq![m1, m2]);
    assert forall|j: int| 0 <= j < m1.len() && (k1.len() < 0 || j < k1.len()) implies m1[j] != '=' by {
        assert(m1[j] == k1[j]);
    }
    crate::texte::lemme_premier_en(m1, '=', k1.len() as int);
    assert forall|j: int| 0 <= j < m2.len() && (k2.len() < 0 || j < k2.len()) implies m2[j] != '=' by {
        assert(m2[j] == k2[j]);
    }
    crate::texte::lemme_premier_en(m2, '=', k2.len() as int);
    assert(m1.subrange(0, k1.len() as int) =~= k1);
    assert(m1.subrange(k1.len() as int + 1, m1.len() as int) =~= v1);
    assert(m2.subrange(0, k2.len() as int) =~= k2);
    assert(m2.subrange(k2.len() as int + 1, m2.len() as int) =~= v2);
    assert forall|i: int| 0 <= i < k1.len() implies car_neutre(#[trigger] k1[i]) by {}
    assert forall|i: int| 0 <= i < v1.len() implies car_neutre(#[trigger] v1[i]) by {}
    assert forall|i: int| 0 <= i < k2.len() implies car_neutre(#[trigger] k2[i]) by {}
    assert forall|i: int| 0 <= i < v2.len() implies car_neutre(#[trigger] v2[i]) by {}
    lemme_latin1_neutre(k1);
    lemme_latin1_neutre(v1);
    lemme_latin1_neutre(k2);
    lemme_latin1_neutre(v2);
    assert(d.drop_last() =~= seq![m1]);
    assert(d.drop_last().drop_last() =~= Seq::<Seq<char>>::empty());
    assert(decoder_selon(Decodage::Latin1, m1.subrange(0, k1.len() as int)) == k1);
    assert(decoder_selon(Decodage::Latin1, m1.subrange(k1.len() as int + 1, m1.len() as int)) == v1);
    assert(decoder_selon(Decodage::Latin1, m2.subrange(0, k2.len() as int)) == k2);
    assert(decoder_selon(Decodage::Latin1, m2.subrange(k2.len() as int + 1, m2.len() as int)) == v2);
    assert(paires_de(Decodage::Latin1, seq![m1]) == paires_de(Decodage::Latin1, Seq::<Seq<char>>::empty()).push((k1, v1)));
    assert(paires_de(Decodage::Latin1, d) == paires_de(Decodage::Latin1, seq![m1]).push((k2, v2)));
}

/// Décode un composant d'URL (`+`, `%XX`), chaque octet obtenu devenant le
/// caractère de même code.
pub fn url_decode_latin1(s: &str) -> (r: String)
    ensures
        r@ == decoder_url_latin1(s@),
{
    let b = s.as_bytes();
    let o = decoder_octets(b);
    let mut v: Vec<char> = Vec::new();
    let mut i: usize = 0;
    while i < o.len()
        invariant
            i <= o.len(),
            v@ == latin1(o@.subrange(0, i as int)),
        decreases o.len() - i,
    {
        v.push(o[i] as char);
        assert(latin1(o@.subrange(0, i + 1)) =~= latin1(o@.subrange(0, i as int)).push(o@[i as int] as char));
        i += 1;
    }
    assert(o@.subrange(0, o.len() as int) =~= o@);
    chaine_de(&v)
}

fn decoder_avec(d: &Decodage, s: &str) -> (r: String)
    ensures
        r@ == decoder_selon(*d, s@),
{
    match d {
        Decodage::Utf8 => url_decode(s),
        Decodage::Latin1 => url_decode_latin1(s),
    }
}

/// Paires `(clé, valeur)` décodées des morceaux `cle=valeur` ; un morceau
/// sans `=` est ignoré, la valeur va jusqu'à la fin du morceau.
pub open spec fn paires_de(d: Decodage, morceaux: Seq<Seq<char>>) -> Seq<(Seq<char>, Seq<char>)>
    decreases morceaux.len(),
{
    if morceaux.len() == 0 {
        Seq::empty()
    } else {
        let m = morceaux.last();
        let i = premier(m, '=');
        if i < 0 {
            paires_de(d, morceaux.drop_last())
        } else {
            paires_de(d, morceaux.drop_last()).push(
                (decoder_selon(d, m.subrange(0, i)), decoder_selon(d, m.subrange(i + 1, m.len() as int))),
            )
        }
    }
}

/// Paires d'un formulaire `a=1&b=2`.
pub open spec fn paires_formulaire(d: Decodage, corps: Seq<char>) -> Seq<(Seq<char>, Seq<char>)> {
    paires_de(d, decouper(corps, '&'))
}

/// Paires de la chaîne de requête d'une URL : le texte entre le premier `?`
/// et le `?` suivant (ou la fin).
pub open spec fn paires_requete(url: Seq<char>) -> Seq<(Seq<char>, Seq<char>)> {
    let m = decouper(url, '?');
    if m.len() > 1 { paires_formulaire(Decodage::Utf8, m[1]) } else { Seq::empty() }
}

/// Lit les paires `cle=valeur` séparées par `&` de `corps`.
pub fn lire_formulaire(d: Decodage, corps: &[char]) -> (p: Parametres)
    ensures
        p.paires_vues() == paires_formulaire(d, corps@),
        p@ == carte_de(paires_formulaire(d, corps@)),
{
    let morceaux = decoupe(corps, '&');
    let ghost m = vues(morceaux@);
    let mut p = Parametres::new();
    let mut i: usize = 0;
    while i < morceaux.len()
        invariant
            i <= morceaux.len(),
            m == vues(morceaux@),
            m == decouper(corps@, '&'),
            p.paires_vues() == paires_de(d, m.subrange(0, i as int)),
        decreases morceaux.len() - i,
    {
        let morceau = &morceaux[i];
        assert(m[i as int] == morceau@);
        assert(m.subrange(0, i + 1).drop_last() =~= m.subrange(0, i as int));
        match trouver(morceau, '=') {
            Some(e) => {
                proof { lemme_premier(morceau@, '='); }
                assert(e < morceau.len());
                let k = chaine_de(&tranche(morceau, 0, e));
                let v = chaine_de(&tranche(morceau, e + 1, morceau.len()));
                let kd = decoder_avec(&d, k.as_str());
                let vd = decoder_avec(&d, v.as_str());
                p.inserer(kd, vd);
            },
            None => {},
        }
        i += 1;
    }
    assert(m.subrange(0, morceaux.len() as int) =~= m);
    proof { p.lemme_vue(); }
    p
}

/// Paramètres de la chaîne de requête d'une URL (`?a=1&b=2`), décodés.
pub fn parse_query(url: &str) -> (p: Parametres)
    ensures
        p.paires_vues() == paires_requete(url@),
        p@ == carte_de(paires_requete(url@)),
{
    let u = caracteres(url);
    let m = decoupe(&u, '?');
    assert(vues(m@).len() == m@.len());
    if m.len() > 1 {
        assert(vues(m@)[1] == m@[1]@);
        lire_formulaire(Decodage::Utf8, &m[1])
    } else {
        let p = Parametres::new();
        proof { p.lemme_vue(); }
        p
    }
}

// ══════════════════════════════════════════════════════════════════
// Journal d'accès
// ══════════════════════════════════════════════════════════════════

/// Le chemin avec le jeton qu'il porte masqué, pour les préfixes de liens
/// secrets (autologin, autorisation d'appareil, partages).
pub open spec fn masque_chemin(c: Seq<char>) -> Seq<char> {
    if c.len() > "/autologin/"@.len() && commence_par(c, "/autologin/"@) {
        "/autologin/"@ + "***"@
    } else if c.len() > "/login/autologin/"@.len() && commence_par(c, "/login/autologin/"@) {
        "/login/autologin/"@ + "***"@
    } else if c.len() > "/autoriser-appareil/"@.len() && commence_par(c, "/autoriser-appareil/"@) {
        "/autoriser-appareil/"@ + "***"@
    } else if c.len() > "/partage/"@.len() && commence_par(c, "/partage/"@) {
        "/partage/"@ + "***"@
    } else if c.len() > "/api/partage/"@.len() && commence_par(c, "/api/partage/"@) {
        "/api/partage/"@ + "***"@
    } else {
        c
    }
}

fn masque_si(c: &[char], prefixe: &str) -> (r: Option<Vec<char>>)
    ensures
        match r {
            Some(v) => c@.len() > prefixe@.len() && commence_par(c@, prefixe@) && v@ == prefixe@ + "***"@,
            None => !(c@.len() > prefixe@.len() && commence_par(c@, prefixe@)),
        },
{
    let p = caracteres(prefixe);
    if c.len() > p.len() && commence(c, &p) {
        let mut v = p;
        ajouter(&mut v, "***");
        Some(v)
    } else {
        None
    }
}

pub fn masque(c: &[char]) -> (v: Vec<char>)
    ensures
        v@ == masque_chemin(c@),
{
    if let Some(v) = masque_si(c, "/autologin/") {
        return v;
    }
    if let Some(v) = masque_si(c, "/login/autologin/") {
        return v;
    }
    if let Some(v) = masque_si(c, "/autoriser-appareil/") {
        return v;
    }
    if let Some(v) = masque_si(c, "/partage/") {
        return v;
    }
    if let Some(v) = masque_si(c, "/api/partage/") {
        return v;
    }
    tranche(c, 0, c.len())
}

/// Préfixes des liens secrets, dans l'ordre où le masquage les essaie.
pub open spec fn prefixes_secrets() -> Seq<Seq<char>> {
    seq!["/autologin/"@, "/login/autologin/"@, "/autoriser-appareil/"@, "/partage/"@, "/api/partage/"@]
}

/// Le texte `c` ne commence pas par `p` : ils diffèrent à la place `k`.
proof fn lemme_pas_prefixe(c: Seq<char>, p: Seq<char>, k: int)
    requires
        0 <= k < p.len(),
        k < c.len(),
        c[k] != p[k],
    ensures
        !commence_par(c, p),
{
    if p.len() <= c.len() {
        assert(c.subrange(0, p.len() as int)[k] != p[k]);
    }
}

/// Pour chacun des préfixes de liens secrets, le chemin journalisé ne
/// garde rien du jeton qui suit : `p + s` et `p + t` (jetons non vides)
/// s'écrivent tous deux `p` suivi de `***`.
pub proof fn loi_masque_jeton(i: int, s: Seq<char>, t: Seq<char>)
    requires
        0 <= i < 5,
        s.len() > 0,
        t.len() > 0,
    ensures
        masque_chemin(prefixes_secrets()[i] + s) == prefixes_secrets()[i] + "***"@,
        masque_chemin(prefixes_secrets()[i] + s) == masque_chemin(prefixes_secrets()[i] + t),
{
    reveal_strlit("/autologin/");
    reveal_strlit("/login/autologin/");
    reveal_strlit("/autoriser-appareil/");
    reveal_strlit("/partage/");
    reveal_strlit("/api/partage/");
    lemme_masque_prefixe(i, s);
    lemme_masque_prefixe(i, t);
}

proof fn lemme_masque_prefixe(i: int, s: Seq<char>)
    requires
        0 <= i < 5,
        s.len() > 0,
    ensures
        masque_chemin(prefixes_secrets()[i] + s) == prefixes_secrets()[i] + "***"@,
{
    reveal_strlit("/autologin/");
    reveal_strlit("/login/autologin/");
    reveal_strlit("/autoriser-appareil/");
    reveal_strlit("/partage/");
    reveal_strlit("/api/partage/");
    let p = prefixes_secrets()[i];
    let c = p + s;
    assert(c.subrange(0, p.len() as int) =~= p);
    assert(commence_par(c, p));
    if i >= 1 {
        lemme_pas_prefixe(c, "/autologin/"@, if i == 2 { 5 } else if i == 4 { 2 } else { 1 });
    }
    if i >= 2 {
        lemme_pas_prefixe(c, "/login/autologin/"@, 1);
    }
    if i >= 3 {
        lemme_pas_prefixe(c, "/autoriser-appareil/"@, if i == 4 { 2 } else { 1 });
    }
    if i >= 4 {
        lemme_pas_prefixe(c, "/partage/"@, 1);
    }
}

/// Retire les jetons portés dans le chemin (liens d'autologin, partages)
/// avant écriture dans un journal lisible par les administrateurs.
pub fn masquer_secrets_chemin(chemin: &str) -> (r: String)
    ensures
        r@ == masque_chemin(chemin@),
{
    let c = caracteres(chemin);
    chaine_de(&masque(&c))
}

/// Caractère de contrôle (catégorie Unicode Cc, `char::is_control`).
pub open spec fn est_controle(c: char) -> bool {
    (c as u32) < 0x20 || (0x7F <= (c as u32) <= 0x9F)
}

/// `s` sans ses caractères de contrôle.
pub open spec fn sans_controle(s: Seq<char>) -> Seq<char>
    decreases s.len(),
{
    if s.len() == 0 {
        Seq::empty()
    } else if est_controle(s.last()) {
        sans_controle(s.drop_last())
    } else {
        sans_controle(s.drop_last()).push(s.last())
    }
}

/// Les `n` premiers éléments de `s` (tout `s` s'il est plus court).
pub open spec fn prendre<A>(s: Seq<A>, n: nat) -> Seq<A> {
    if n <= s.len() { s.subrange(0, n as int) } else { s }
}

/// Les `n` premiers caractères de `s` (tous s'il y en a moins).
pub fn tronquer(s: &[char], n: usize) -> (v: Vec<char>)
    ensures
        v@ == prendre(s@, n as nat),
{
    if n <= s.len() {
        crate::texte::tranche(s, 0, n)
    } else {
        crate::texte::tranche(s, 0, s.len())
    }
}

/// Champ nettoyé pour le journal : sans caractère de contrôle, tronqué à
/// `max` caractères, guillemets `"` remplacés par `'`.
pub open spec fn nettoye(s: Seq<char>, max: nat) -> Seq<char> {
    prendre(sans_controle(s), max).map_values(|c: char| if c == '"' { '\'' } else { c })
}

pub fn nettoyer(s: &str, max: usize) -> (v: Vec<char>)
    ensures
        v@ == nettoye(s@, max as nat),
{
    let c = caracteres(s);
    let mut filtre: Vec<char> = Vec::new();
    let mut i: usize = 0;
    while i < c.len()
        invariant
            i <= c.len(),
            filtre@ == sans_controle(c@.subrange(0, i as int)),
        decreases c.len() - i,
    {
        let u = c[i] as u32;
        if !(u < 0x20 || (0x7F <= u && u <= 0x9F)) {
            filtre.push(c[i]);
        }
        assert(c@.subrange(0, i + 1).drop_last() =~= c@.subrange(0, i as int));
        i += 1;
    }
    assert(c@.subrange(0, c.len() as int) =~= c@);
    let n = if max <= filtre.len() { max } else { filtre.len() };
    let mut v: Vec<char> = Vec::new();
    let mut j: usize = 0;
    while j < n
        invariant
            n <= filtre.len(),
            n == if max <= filtre@.len() { max as nat } else { filtre@.len() },
            j <= n,
            v@ == prendre(filtre@, max as nat).subrange(0, j as int).map_values(|c: char| if c == '"' { '\'' } else { c }),
        decreases n - j,
    {
        let x = filtre[j];
        v.push(if x == '"' { '\'' } else { x });
        assert(prendre(filtre@, max as nat).subrange(0, j + 1) =~= prendre(filtre@, max as nat).subrange(0, j as int).push(x));
        assert(v@ =~= prendre(filtre@, max as nat).subrange(0, j + 1).map_values(|c: char| if c == '"' { '\'' } else { c }));
        j += 1;
    }
    assert(prendre(filtre@, max as nat).subrange(0, n as int) =~= prendre(filtre@, max as nat));
    v
}

/// Une entrée du journal d'accès.
pub struct LigneAcces {
    pub ip: String,
    pub via: Option<String>,
    pub methode: String,
    pub chemin: String,
    pub statut: Option<u16>,
    pub duree_ms: u128,
    pub user_agent: String,
    pub referer: String,
}

/// Texte d'une ligne du journal d'accès :
/// `ip=… (via …) METHODE chemin statut=… Nms ua="…" ref="…"`.
pub open spec fn ligne_acces(l: LigneAcces) -> Seq<char> {
    "ip="@ + l.ip@
        + (match l.via {
        Some(v) => " (via "@ + v@ + ")"@,
        None => Seq::empty(),
    }) + " "@ + l.methode@ + " "@ + masque_chemin(nettoye(l.chemin@, 300)) + " statut="@
        + (match l.statut {
        Some(s) => decimal(s as nat),
        None => "-"@,
    }) + " "@ + decimal(l.duree_ms as nat) + "ms ua=\""@ + nettoye(l.user_agent@, 200)
        + "\" ref=\""@ + nettoye(l.referer@, 200) + "\""@
}

impl LigneAcces {
    /// La ligne du journal : champs libres sans caractère de contrôle (pas
    /// de fausse ligne injectée), guillemets neutralisés, jetons du chemin
    /// masqués.
    pub fn formater(&self) -> (r: String)
        ensures
            r@ == ligne_acces(*self),
    {
        let mut out: Vec<char> = Vec::new();
        ajouter(&mut out, "ip=");
        ajouter(&mut out, self.ip.as_str());
        match &self.via {
            Some(v) => {
                ajouter(&mut out, " (via ");
                ajouter(&mut out, v.as_str());
                ajouter(&mut out, ")");
            },
            None => {},
        }
        ajouter(&mut out, " ");
        ajouter(&mut out, self.methode.as_str());
        ajouter(&mut out, " ");
        let ch = nettoyer(self.chemin.as_str(), 300);
        let m = masque(&ch);
        ajouter_car(&mut out, &m);
        ajouter(&mut out, " statut=");
        match self.statut {
            Some(s) => ajouter_decimal(&mut out, s as u128),
            None => ajouter(&mut out, "-"),
        }
        ajouter(&mut out, " ");
        ajouter_decimal(&mut out, self.duree_ms);
        ajouter(&mut out, "ms ua=\"");
        let ua = nettoyer(self.user_agent.as_str(), 200);
        ajouter_car(&mut out, &ua);
        ajouter(&mut out, "\" ref=\"");
        let rf = nettoyer(self.referer.as_str(), 200);
        ajouter_car(&mut out, &rf);
        ajouter(&mut out, "\"");
        assert(out@ =~= ligne_acces(*self));
        chaine_de(&out)
    }
}

/// Aucun caractère de `s` n'est un caractère de contrôle.
pub open spec fn sans_car_controle(s: Seq<char>) -> bool {
    forall|i: int| 0 <= i < s.len() ==> !est_controle(#[trigger] s[i])
}

proof fn lemme_concat_sans_controle(a: Seq<char>, b: Seq<char>)
    requires
        sans_car_controle(a),
        sans_car_controle(b),
    ensures
        sans_car_controle(a + b),
{
    assert forall|i: int| 0 <= i < (a + b).len() implies !est_controle(#[trigger] (a + b)[i]) by {
        if i < a.len() {
            assert((a + b)[i] == a[i]);
        } else {
            assert((a + b)[i] == b[i - a.len()]);
        }
    }
}

proof fn lemme_sans_controle(s: Seq<char>)
    ensures
        sans_car_controle(sans_controle(s)),
    decreases s.len(),
{
    if s.len() > 0 {
        lemme_sans_controle(s.drop_last());
    }
}

proof fn lemme_nettoye(s: Seq<char>, max: nat)
    ensures
        sans_car_controle(nettoye(s, max)),
{
    lemme_sans_controle(s);
    let p = prendre(sans_controle(s), max);
    assert forall|i: int| 0 <= i < p.len() implies !est_controle(#[trigger] p[i]) by {
        assert(p[i] == sans_controle(s)[i]);
    }
}

proof fn lemme_decimal(n: nat)
    ensures
        sans_car_controle(decimal(n)),
    decreases n,
{
    if n >= 10 {
        lemme_decimal(n / 10);
    }
}

proof fn lemme_litteraux()
    ensures
        sans_car_controle("ip="@),
        sans_car_controle(" (via "@),
        sans_car_controle(")"@),
        sans_car_controle(" "@),
        sans_car_controle(" statut="@),
        sans_car_controle("-"@),
        sans_car_controle("ms ua=\""@),
        sans_car_controle("\" ref=\""@),
        sans_car_controle("\""@),
        sans_car_controle("***"@),
        sans_car_controle("/autologin/"@),
        sans_car_controle("/login/autologin/"@),
        sans_car_controle("/autoriser-appareil/"@),
        sans_car_controle("/partage/"@),
        sans_car_controle("/api/partage/"@),
        sans_car_controle(Seq::<char>::empty()),
{
    reveal_strlit("ip=");
    reveal_strlit(" (via ");
    reveal_strlit(")");
    reveal_strlit(" ");
    reveal_strlit(" statut=");
    reveal_strlit("-");
    reveal_strlit("ms ua=\"");
    reveal_strlit("\" ref=\"");
    reveal_strlit("\"");
    reveal_strlit("***");
    reveal_strlit("/autologin/");
    reveal_strlit("/login/autologin/");
    reveal_strlit("/autoriser-appareil/");
    reveal_strlit("/partage/");
    reveal_strlit("/api/partage/");
}

proof fn lemme_masque(c: Seq<char>)
    requires
        sans_car_controle(c),
    ensures
        sans_car_controle(masque_chemin(c)),
{
    lemme_litteraux();
    lemme_concat_sans_controle("/autologin/"@, "***"@);
    lemme_concat_sans_controle("/login/autologin/"@, "***"@);
    lemme_concat_sans_controle("/autoriser-appareil/"@, "***"@);
    lemme_concat_sans_controle("/partage/"@, "***"@);
    lemme_concat_sans_controle("/api/partage/"@, "***"@);
}

/// Une ligne du journal d'accès ne contient aucun caractère de contrôle, et
/// donc aucun saut de ligne, quels que soient le chemin, l'agent et le
/// référent reçus, dès que l'adresse, le relais et la méthode n'en ont pas.
pub proof fn loi_ligne_sans_controle(l: LigneAcces)
    requires
        sans_car_controle(l.ip@),
        l.via matches Some(v) ==> sans_car_controle(v@),
        sans_car_controle(l.methode@),
    ensures
        sans_car_controle(ligne_acces(l)),
{
    lemme_litteraux();
    lemme_nettoye(l.chemin@, 300);
    lemme_masque(nettoye(l.chemin@, 300));
    lemme_nettoye(l.user_agent@, 200);
    lemme_nettoye(l.referer@, 200);
    lemme_decimal(l.duree_ms as nat);
    let via = match l.via {
        Some(v) => " (via "@ + v@ + ")"@,
        None => Seq::empty(),
    };
    match l.via {
        Some(v) => {
            lemme_concat_sans_controle(" (via "@, v@);
            lemme_concat_sans_controle(" (via "@ + v@, ")"@);
        },
        None => {},
    }
    let statut = match l.statut {
        Some(s) => decimal(s as nat),
        None => "-"@,
    };
    match l.statut {
        Some(s) => lemme_decimal(s as nat),
        None => {},
    }
    let a0 = "ip="@ + l.ip@;
    lemme_concat_sans_controle("ip="@, l.ip@);
    let a1 = a0 + via;
    lemme_concat_sans_controle(a0, via);
    let a2 = a1 + " "@;
    lemme_concat_sans_controle(a1, " "@);
    let a3 = a2 + l.methode@;
    lemme_concat_sans_controle(a2, l.methode@);
    let a4 = a3 + " "@;
    lemme_concat_sans_controle(a3, " "@);
    let a5 = a4 + masque_chemin(nettoye(l.chemin@, 300));
    lemme_concat_sans_controle(a4, masque_chemin(nettoye(l.chemin@, 300)));
    let a6 = a5 + " statut="@;
    lemme_concat_sans_controle(a5, " statut="@);
    let a7 = a6 + statut;
    lemme_concat_sans_controle(a6, statut);
    let a8 = a7 + " "@;
    lemme_concat_sans_controle(a7, " "@);
    let a9 = a8 + decimal(l.duree_ms as nat);
    lemme_concat_sans_controle(a8, decimal(l.duree_ms as nat));
    let a10 = a9 + "ms ua=\""@;
    lemme_concat_sans_controle(a9, "ms ua=\""@);
    let a11 = a10 + nettoye(l.user_agent@, 200);
    lemme_concat_sans_controle(a10, nettoye(l.user_agent@, 200));
    let a12 = a11 + "\" ref=\""@;
    lemme_concat_sans_controle(a11, "\" ref=\""@);
    let a13 = a12 + nettoye(l.referer@, 200);
    lemme_concat_sans_controle(a12, nettoye(l.referer@, 200));
    let a14 = a13 + "\""@;
    lemme_concat_sans_controle(a13, "\""@);
    assert(a14 =~= ligne_acces(l));
}

// ══════════════════════════════════════════════════════════════════
// En-têtes HTTP
// ══════════════════════════════════════════════════════════════════

/// Valeur du premier en-tête nommé `nom` (casse ASCII ignorée).
pub open spec fn entete(h: Seq<(Seq<char>, Seq<char>)>, nom: Seq<char>) -> Option<Seq<char>>
    decreases h.len(),
{
    if h.len() == 0 {
        None
    } else if egal_sans_casse(h[0].0, nom) {
        Some(h[0].1)
    } else {
        entete(h.drop_first(), nom)
    }
}

/// Un en-tête au moins est nommé `nom`.
pub open spec fn a_entete(h: Seq<(Seq<char>, Seq<char>)>, nom: Seq<char>) -> bool {
    exists|i: int| 0 <= i < h.len() && egal_sans_casse(#[trigger] h[i].0, nom)
}

pub proof fn lemme_entete(h: Seq<(Seq<char>, Seq<char>)>, nom: Seq<char>)
    ensures
        entete(h, nom) is Some <==> a_entete(h, nom),
    decreases h.len(),
{
    if h.len() > 0 {
        lemme_entete(h.drop_first(), nom);
        if a_entete(h, nom) && !egal_sans_casse(h[0].0, nom) {
            let i = choose|i: int| 0 <= i < h.len() && egal_sans_casse(#[trigger] h[i].0, nom);
            assert(h.drop_first()[i - 1] == h[i]);
        }
        if a_entete(h.drop_first(), nom) {
            let i = choose|i: int| 0 <= i < h.drop_first().len() && egal_sans_casse(#[trigger] h.drop_first()[i].0, nom);
            assert(h[i + 1] == h.drop_first()[i]);
        }
    }
}

/// Valeur du premier en-tête nommé `nom`.
pub fn trouver_entete(h: &[(String, String)], nom: &str) -> (r: Option<Vec<char>>)
    ensures
        match r {
            Some(v) => entete(vue_paires(h@), nom@) == Some(v@),
            None => entete(vue_paires(h@), nom@) is None,
        },
{
    let n = caracteres(nom);
    let ghost vh = vue_paires(h@);
    let mut i: usize = 0;
    assert(vh.subrange(0, vh.len() as int) =~= vh);
    while i < h.len()
        invariant
            i <= h.len(),
            n@ == nom@,
            vh == vue_paires(h@),
            entete(vh, nom@) == entete(vh.subrange(i as int, vh.len() as int), nom@),
        decreases h.len() - i,
    {
        let ghost r = vh.subrange(i as int, vh.len() as int);
        assert(r.drop_first() =~= vh.subrange(i + 1, vh.len() as int));
        assert(r[0] == vh[i as int]);
        let c = caracteres(h[i].0.as_str());
        if egales_sans_casse(&c, &n) {
            return Some(caracteres(h[i].1.as_str()));
        }
        i += 1;
    }
    None
}

/// Un en-tête au moins est nommé `nom`.
pub fn contient_entete(h: &[(String, String)], nom: &str) -> (r: bool)
    ensures
        r == a_entete(vue_paires(h@), nom@),
{
    proof { lemme_entete(vue_paires(h@), nom@); }
    trouver_entete(h, nom).is_some()
}

// ══════════════════════════════════════════════════════════════════
// Compression gzip des réponses texte
// ══════════════════════════════════════════════════════════════════

/// Taille minimale compressée (en dessous, gzip n'apporte rien).
pub const GZIP_MIN: usize = 1024;
/// Taille maximale compressée (au-delà, le coût CPU dépasse le gain).
pub const GZIP_MAX: usize = 8388608;

/// Type de contenu textuel : `text/*`, JSON, JavaScript, SVG.
pub open spec fn compressible(ct: Seq<char>) -> bool {
    let l = minuscules(ct);
    commence_par(l, "text/"@) || commence_par(l, "application/json"@)
        || commence_par(l, "application/javascript"@) || commence_par(l, "image/svg+xml"@)
}

fn commence_str(s: &[char], p: &str) -> (r: bool)
    ensures
        r == commence_par(s@, p@),
{
    let pc = caracteres(p);
    commence(s, &pc)
}

pub fn type_compressible(content_type: &str) -> (r: bool)
    ensures
        r == compressible(content_type@),
{
    let c = caracteres(content_type);
    let l = en_minuscules(&c);
    commence_str(&l, "text/") || commence_str(&l, "application/json")
        || commence_str(&l, "application/javascript") || commence_str(&l, "image/svg+xml")
}

/// `s` sans ses espaces U+0020.
pub open spec fn sans_espaces(s: Seq<char>) -> Seq<char>
    decreases s.len(),
{
    if s.len() == 0 {
        Seq::empty()
    } else if s.last() == ' ' {
        sans_espaces(s.drop_last())
    } else {
        sans_espaces(s.drop_last()).push(s.last())
    }
}

/// Un paramètre `q=0` (au-delà du premier morceau) refuse le codage.
pub open spec fn a_q0(parts: Seq<Seq<char>>) -> bool {
    exists|j: int| 1 <= j < parts.len() && sans_espaces(rogner(#[trigger] parts[j])) == "q=0"@
}

/// Un élément `codage;param...` d'Accept-Encoding accepte gzip.
pub open spec fn element_gzip(e: Seq<char>) -> bool {
    let parts = decouper(rogner(e), ';');
    let nom = rogner(parts[0]);
    (egal_sans_casse(nom, "gzip"@) || nom == "*"@) && !a_q0(parts)
}

/// La valeur d'Accept-Encoding accepte gzip.
pub open spec fn valeur_accepte_gzip(v: Seq<char>) -> bool {
    exists|i: int| 0 <= i < decouper(v, ',').len() && element_gzip(#[trigger] decouper(v, ',')[i])
}

/// Le client accepte gzip : son premier en-tête Accept-Encoding a un
/// élément `gzip` (ou `*`) sans `q=0`.
pub open spec fn accepte_gzip_spec(h: Seq<(Seq<char>, Seq<char>)>) -> bool {
    match entete(h, "Accept-Encoding"@) {
        Some(v) => valeur_accepte_gzip(v),
        None => false,
    }
}

pub proof fn lemme_decouper_non_vide(s: Seq<char>, c: char)
    ensures
        decouper(s, c).len() >= 1,
    decreases s.len(),
{
    lemme_premier(s, c);
    if premier(s, c) >= 0 {
        lemme_decouper_non_vide(s.subrange(premier(s, c) + 1, s.len() as int), c);
    }
}

fn sans_espaces_exec(s: &[char]) -> (v: Vec<char>)
    ensures
        v@ == sans_espaces(s@),
{
    let mut v: Vec<char> = Vec::new();
    let mut i: usize = 0;
    while i < s.len()
        invariant
            i <= s.len(),
            v@ == sans_espaces(s@.subrange(0, i as int)),
        decreases s.len() - i,
    {
        if s[i] != ' ' {
            v.push(s[i]);
        }
        assert(s@.subrange(0, i + 1).drop_last() =~= s@.subrange(0, i as int));
        i += 1;
    }
    assert(s@.subrange(0, s.len() as int) =~= s@);
    v
}

fn element_accepte_gzip(e: &[char]) -> (r: bool)
    ensures
        r == element_gzip(e@),
{
    let t = rogne(e);
    let parts = decoupe(&t, ';');
    proof { lemme_decouper_non_vide(t@, ';'); }
    assert(vues(parts@)[0] == parts@[0]@);
    let nom = rogne(&parts[0]);
    let g = caracteres("gzip");
    let etoile = caracteres("*");
    let q0c = caracteres("q=0");
    let mut q0 = false;
    let mut j: usize = 1;
    while j < parts.len()
        invariant
            1 <= j <= parts.len(),
            vues(parts@) == decouper(t@, ';'),
            q0c@ == "q=0"@,
            q0 == exists|k: int| 1 <= k < j && sans_espaces(rogner(#[trigger] vues(parts@)[k])) == "q=0"@,
        decreases parts.len() - j,
    {
        assert(vues(parts@)[j as int] == parts@[j as int]@);
        let r = rogne(&parts[j]);
        let se = sans_espaces_exec(&r);
        if egales(&se, &q0c) {
            q0 = true;
        }
        j += 1;
    }
    (egales_sans_casse(&nom, &g) || egales(&nom, &etoile)) && !q0
}

/// Le client accepte-t-il gzip (en-tête Accept-Encoding) ?
pub fn accepte_gzip(entetes: &[(String, String)]) -> (r: bool)
    ensures
        r == accepte_gzip_spec(vue_paires(entetes@)),
{
    match trouver_entete(entetes, "Accept-Encoding") {
        None => false,
        Some(v) => {
            let elements = decoupe(&v, ',');
            let mut i: usize = 0;
            while i < elements.len()
                invariant
                    i <= elements.len(),
                    vues(elements@) == decouper(v@, ','),
                    entete(vue_paires(entetes@), "Accept-Encoding"@) == Some(v@),
                    forall|k: int| 0 <= k < i ==> !element_gzip(#[trigger] decouper(v@, ',')[k]),
                decreases elements.len() - i,
            {
                assert(vues(elements@)[i as int] == elements@[i as int]@);
                if element_accepte_gzip(&elements[i]) {
                    assert(element_gzip(decouper(v@, ',')[i as int]));
                    assert(decouper(v@, ',').len() == elements@.len());
                    assert(valeur_accepte_gzip(v@));
                    assert(accepte_gzip_spec(vue_paires(entetes@)));
                    return true;
                }
                i += 1;
            }
            false
        },
    }
}

/// Octets compressés en gzip (flate2, niveau 5) ; valeur nommée du
/// compresseur, fonction des seuls octets d'entrée.
pub uninterp spec fn gzip_niveau5(donnees: Seq<u8>) -> Seq<u8>;

/// `flate2::write::GzEncoder` (niveau 5) : écrit `donnees` puis termine le
/// flux. Contrat : le résultat est la valeur nommée `gzip_niveau5` des
/// données ; l'écriture se fait dans un `Vec`, qui n'échoue jamais, donc le
/// résultat est toujours `Some`.
#[verifier::external_body]
fn gzip_compresser(donnees: &[u8]) -> (r: Option<Vec<u8>>)
    ensures
        r matches Some(g) ==> g@ == gzip_niveau5(donnees@),
        r is Some,
{
    let mut enc = flate2::write::GzEncoder::new(Vec::new(), flate2::Compression::new(5));
    if std::io::Write::write_all(&mut enc, donnees).is_err() { None } else { enc.finish().ok() }
}

/// Une réponse HTTP à envoyer : statut, en-têtes, corps.
pub struct Reponse {
    pub statut: u16,
    pub entetes: Vec<(String, String)>,
    pub corps: Vec<u8>,
}

/// Les en-têtes `h` sans ceux nommés `nom`.
pub open spec fn sans_entete(h: Seq<(Seq<char>, Seq<char>)>, nom: Seq<char>) -> Seq<(Seq<char>, Seq<char>)>
    decreases h.len(),
{
    if h.len() == 0 {
        Seq::empty()
    } else if egal_sans_casse(h.last().0, nom) {
        sans_entete(h.drop_last(), nom)
    } else {
        sans_entete(h.drop_last(), nom).push(h.last())
    }
}

/// La réponse est à compresser : gzip accepté, statut 200, taille entre
/// GZIP_MIN et GZIP_MAX, pas déjà codée, Content-Type compressible.
pub open spec fn a_compresser(r: Reponse, gzip_ok: bool) -> bool {
    let h = vue_paires(r.entetes@);
    &&& gzip_ok
    &&& r.statut == 200
    &&& GZIP_MIN <= r.corps@.len() <= GZIP_MAX
    &&& !a_entete(h, "Content-Encoding"@)
    &&& match entete(h, "Content-Type"@) {
        Some(ct) => compressible(ct),
        None => false,
    }
}

fn retirer_entete(h: Vec<(String, String)>, nom: &str) -> (r: Vec<(String, String)>)
    ensures
        vue_paires(r@) == sans_entete(vue_paires(h@), nom@),
{
    let n = caracteres(nom);
    let ghost vh = vue_paires(h@);
    let mut r: Vec<(String, String)> = Vec::new();
    let mut i: usize = 0;
    assert(vue_paires(r@) =~= sans_entete(vh.subrange(0, 0), nom@));
    while i < h.len()
        invariant
            i <= h.len(),
            vh == vue_paires(h@),
            n@ == nom@,
            vue_paires(r@) == sans_entete(vh.subrange(0, i as int), nom@),
        decreases h.len() - i,
    {
        assert(vh.subrange(0, i + 1).drop_last() =~= vh.subrange(0, i as int));
        assert(vh[i as int] == (h@[i as int].0@, h@[i as int].1@));
        let c = caracteres(h[i].0.as_str());
        if !egales_sans_casse(&c, &n) {
            let ghost ar = vue_paires(r@);
            let k = h[i].0.clone();
            let v = h[i].1.clone();
            r.push((k, v));
            assert(vue_paires(r@) =~= ar.push(vh[i as int]));
        }
        i += 1;
    }
    assert(vh.subrange(0, h.len() as int) =~= vh);
    r
}

fn ajouter_entete(h: &mut Vec<(String, String)>, nom: &str, valeur: &str)
    ensures
        vue_paires(final(h)@) == vue_paires(old(h)@).push((nom@, valeur@)),
{
    let ghost avant = vue_paires(h@);
    h.push((chaine_de(&caracteres(nom)), chaine_de(&caracteres(valeur))));
    assert(vue_paires(h@) =~= avant.push((nom@, valeur@)));
}

/// Compresse en gzip une réponse texte (HTML, JSON, CSS, JS, SVG) si le
/// client l'accepte ; toute autre réponse est rendue intacte.
pub fn compresser_reponse(resp: Reponse, gzip_ok: bool) -> (r: Reponse)
    ensures
        !a_compresser(resp, gzip_ok) ==> r == resp,
        a_compresser(resp, gzip_ok) ==> {
            let h = sans_entete(vue_paires(resp.entetes@), "Content-Length"@);
            &&& r.statut == resp.statut
            &&& if gzip_niveau5(resp.corps@).len() < resp.corps@.len() {
                &&& r.corps@ == gzip_niveau5(resp.corps@)
                &&& vue_paires(r.entetes@) == h.push(("Content-Encoding"@, "gzip"@)).push(("Vary"@, "Accept-Encoding"@))
            } else {
                vue_paires(r.entetes@) == h && r.corps@ == resp.corps@
            }
        },
{
    if !gzip_ok || resp.statut != 200 {
        return resp;
    }
    let len = resp.corps.len();
    if !(GZIP_MIN <= len && len <= GZIP_MAX) {
        return resp;
    }
    let deja_encode = contient_entete(&resp.entetes, "Content-Encoding");
    let compressible = match trouver_entete(&resp.entetes, "Content-Type") {
        Some(ct) => {
            let s = chaine_de(&ct);
            type_compressible(s.as_str())
        },
        None => false,
    };
    if deja_encode || !compressible {
        return resp;
    }
    let Reponse { statut, entetes, corps } = resp;
    let mut entetes = retirer_entete(entetes, "Content-Length");
    match gzip_compresser(&corps) {
        Some(gz) => {
            if gz.len() < corps.len() {
                ajouter_entete(&mut entetes, "Content-Encoding", "gzip");
                ajouter_entete(&mut entetes, "Vary", "Accept-Encoding");
                return Reponse { statut, entetes, corps: gz };
            }
            Reponse { statut, entetes, corps }
        },
        None => Reponse { statut, entetes, corps },
    }
}

/// En-têtes de sécurité ajoutés à une réponse HTML, sauf s'ils y sont déjà :
/// `X-Frame-Options: SAMEORIGIN` (si `anti_iframe`), `X-Content-Type-Options:
/// nosniff`, `Referrer-Policy: strict-origin-when-cross-origin`.
pub open spec fn avec_securite(h: Seq<(Seq<char>, Seq<char>)>, anti_iframe: bool) -> Seq<(Seq<char>, Seq<char>)> {
    let h1 = if anti_iframe && !a_entete(h, "X-Frame-Options"@) {
        h.push(("X-Frame-Options"@, "SAMEORIGIN"@))
    } else {
        h
    };
    let h2 = if !a_entete(h1, "X-Content-Type-Options"@) {
        h1.push(("X-Content-Type-Options"@, "nosniff"@))
    } else {
        h1
    };
    if !a_entete(h2, "Referrer-Policy"@) {
        h2.push(("Referrer-Policy"@, "strict-origin-when-cross-origin"@))
    } else {
        h2
    }
}

/// La réponse est du HTML : un en-tête Content-Type commence par `text/html`.
pub open spec fn est_html(h: Seq<(Seq<char>, Seq<char>)>) -> bool {
    exists|i: int| 0 <= i < h.len() && egal_sans_casse(#[trigger] h[i].0, "Content-Type"@)
        && commence_par(h[i].1, "text/html"@)
}

fn ajouter_si_absent(h: &mut Vec<(String, String)>, nom: &str, valeur: &str)
    ensures
        vue_paires(final(h)@) == if a_entete(vue_paires(old(h)@), nom@) {
            vue_paires(old(h)@)
        } else {
            vue_paires(old(h)@).push((nom@, valeur@))
        },
{
    if !contient_entete(h, nom) {
        ajouter_entete(h, nom, valeur);
    }
}

/// Ajoute les en-têtes de sécurité à une réponse HTML ; rend son statut.
pub fn securiser(resp: &mut Reponse, anti_iframe: bool) -> (statut: u16)
    ensures
        statut == old(resp).statut,
        final(resp).statut == old(resp).statut,
        final(resp).corps == old(resp).corps,
        vue_paires(final(resp).entetes@) == if est_html(vue_paires(old(resp).entetes@)) {
            avec_securite(vue_paires(old(resp).entetes@), anti_iframe)
        } else {
            vue_paires(old(resp).entetes@)
        },
{
    let ghost h = vue_paires(resp.entetes@);
    let ct = caracteres("Content-Type");
    let th = caracteres("text/html");
    let mut html = false;
    let mut i: usize = 0;
    while i < resp.entetes.len()
        invariant
            i <= resp.entetes.len(),
            h == vue_paires(resp.entetes@),
            ct@ == "Content-Type"@,
            th@ == "text/html"@,
            html == exists|k: int| 0 <= k < i && egal_sans_casse(#[trigger] h[k].0, "Content-Type"@)
                && commence_par(h[k].1, "text/html"@),
        decreases resp.entetes.len() - i,
    {
        let n = caracteres(resp.entetes[i].0.as_str());
        let v = caracteres(resp.entetes[i].1.as_str());
        assert(h[i as int] == (resp.entetes@[i as int].0@, resp.entetes@[i as int].1@));
        let b = egales_sans_casse(&n, &ct) && commence(&v, &th);
        html = html || b;
        assert(html == exists|k: int| 0 <= k < i + 1 && egal_sans_casse(#[trigger] h[k].0, "Content-Type"@)
                && commence_par(h[k].1, "text/html"@)) by {
            if b {
                assert(egal_sans_casse(h[i as int].0, "Content-Type"@) && commence_par(h[i as int].1, "text/html"@));
            }
        }
        i += 1;
    }
    if html {
        if anti_iframe {
            ajouter_si_absent(&mut resp.entetes, "X-Frame-Options", "SAMEORIGIN");
        }
        ajouter_si_absent(&mut resp.entetes, "X-Content-Type-Options", "nosniff");
        ajouter_si_absent(&mut resp.entetes, "Referrer-Policy", "strict-origin-when-cross-origin");
    }
    resp.statut
}

// ══════════════════════════════════════════════════════════════════
// IP réelle du client
// ══════════════════════════════════════════════════════════════════

/// Une adresse IP : quatre octets (IPv4) ou huit segments (IPv6).
pub enum AdresseIp {
    V4([u8; 4]),
    V6([u16; 8]),
}

/// IPv4 de boucle locale, de réseau privé ou de lien local.
pub open spec fn v4_confiance(o: Seq<u8>, lien_local: bool) -> bool {
    o[0] == 127 || o[0] == 10 || (o[0] == 172 && 16 <= o[1] <= 31) || (o[0] == 192 && o[1] == 168)
        || (lien_local && o[0] == 169 && o[1] == 254)
}

/// Adresse d'un proxy de confiance possible : boucle locale, réseau privé,
/// lien local (IPv4) ; `::1`, fc00::/7, fe80::/10, ou IPv4 mappée de boucle
/// locale ou privée (IPv6).
pub open spec fn confiance(ip: AdresseIp) -> bool {
    match ip {
        AdresseIp::V4(o) => v4_confiance(o@, true),
        AdresseIp::V6(s) => {
            let s = s@;
            let boucle = s[0] == 0 && s[1] == 0 && s[2] == 0 && s[3] == 0 && s[4] == 0 && s[5] == 0 && s[6] == 0 && s[7] == 1;
            let mappee = s[0] == 0 && s[1] == 0 && s[2] == 0 && s[3] == 0 && s[4] == 0 && s[5] == 0xffff;
            boucle || (s[0] & 0xfe00) == 0xfc00 || (s[0] & 0xffc0) == 0xfe80
                || (mappee && v4_confiance(seq![(s[6] / 256) as u8, (s[6] % 256) as u8, (s[7] / 256) as u8, (s[7] % 256) as u8], false))
        },
    }
}

fn v4_de_confiance(o: &[u8; 4], lien_local: bool) -> (r: bool)
    ensures
        r == v4_confiance(o@, lien_local),
{
    o[0] == 127 || o[0] == 10 || (o[0] == 172 && 16 <= o[1] && o[1] <= 31) || (o[0] == 192 && o[1] == 168)
        || (lien_local && o[0] == 169 && o[1] == 254)
}

/// La connexion TCP vient-elle d'un proxy de confiance possible ? Seules
/// ces adresses peuvent imposer une IP cliente par un en-tête.
pub fn proxy_de_confiance(ip: &AdresseIp) -> (r: bool)
    ensures
        r == confiance(*ip),
{
    match ip {
        AdresseIp::V4(o) => v4_de_confiance(o, true),
        AdresseIp::V6(s) => {
            let boucle = s[0] == 0 && s[1] == 0 && s[2] == 0 && s[3] == 0 && s[4] == 0 && s[5] == 0 && s[6] == 0 && s[7] == 1;
            let mappee = s[0] == 0 && s[1] == 0 && s[2] == 0 && s[3] == 0 && s[4] == 0 && s[5] == 0xffff;
            let o: [u8; 4] = [(s[6] / 256) as u8, (s[6] % 256) as u8, (s[7] / 256) as u8, (s[7] % 256) as u8];
            let r = boucle || (s[0] & 0xfe00) == 0xfc00 || (s[0] & 0xffc0) == 0xfe80
                || (mappee && v4_de_confiance(&o, false));
            assert(o@ =~= seq![(s@[6] / 256) as u8, (s@[6] % 256) as u8, (s@[7] / 256) as u8, (s@[7] % 256) as u8]);
            r
        },
    }
}

/// Noms des en-têtes qui portent l'IP du visiteur, dans l'ordre de lecture.
pub open spec fn noms_ip(i: int) -> Seq<char> {
    if i == 0 { "CF-Connecting-IP"@ } else if i == 1 { "X-Real-IP"@ } else { "X-Forwarded-For"@ }
}

/// Candidate lue dans la valeur d'un en-tête : le premier élément de la
/// liste séparée par des virgules, sans espaces ni port.
pub open spec fn premiere_adresse(v: Seq<char>) -> Seq<char> {
    sans_port(rogner(decouper(v, ',')[0]))
}

/// Adresses candidates lues dans les en-têtes CF-Connecting-IP, X-Real-IP
/// puis X-Forwarded-For (un en-tête absent ne donne rien).
pub open spec fn candidates_ip(h: Seq<(Seq<char>, Seq<char>)>) -> Seq<Seq<char>> {
    let c0 = match entete(h, noms_ip(0)) { Some(v) => seq![premiere_adresse(v)], None => Seq::empty() };
    let c1 = match entete(h, noms_ip(1)) { Some(v) => seq![premiere_adresse(v)], None => Seq::empty() };
    let c2 = match entete(h, noms_ip(2)) { Some(v) => seq![premiere_adresse(v)], None => Seq::empty() };
    c0 + c1 + c2
}

fn candidate(h: &[(String, String)], nom: &str, out: &mut Vec<String>)
    ensures
        vues_chaines(final(out)@) == vues_chaines(old(out)@) + match entete(vue_paires(h@), nom@) {
            Some(v) => seq![premiere_adresse(v)],
            None => Seq::<Seq<char>>::empty(),
        },
{
    match trouver_entete(h, nom) {
        Some(v) => {
            let morceaux = decoupe(&v, ',');
            proof { lemme_decouper_non_vide(v@, ','); }
            assert(vues(morceaux@)[0] == morceaux@[0]@);
            let r = rogne(&morceaux[0]);
            let a = port_retire(&r);
            let ghost avant = vues_chaines(out@);
            out.push(chaine_de(&a));
            assert(vues_chaines(out@) =~= avant + seq![premiere_adresse(v@)]);
        },
        None => {
            assert(vues_chaines(out@) =~= vues_chaines(old(out)@) + Seq::<Seq<char>>::empty());
        },
    }
}

/// Vues d'une suite de chaînes.
pub open spec fn vues_chaines(v: Seq<String>) -> Seq<Seq<char>> {
    v.map_values(|x: String| x@)
}

/// Adresses candidates à l'IP du visiteur, lues dans les en-têtes du proxy.
pub fn adresses_candidates(entetes: &[(String, String)]) -> (v: Vec<String>)
    ensures
        vues_chaines(v@) == candidates_ip(vue_paires(entetes@)),
{
    let mut v: Vec<String> = Vec::new();
    assert(vues_chaines(v@) =~= Seq::<Seq<char>>::empty());
    candidate(entetes, "CF-Connecting-IP", &mut v);
    candidate(entetes, "X-Real-IP", &mut v);
    candidate(entetes, "X-Forwarded-For", &mut v);
    assert(vues_chaines(v@) =~= candidates_ip(vue_paires(entetes@)));
    v
}

/// Première candidate qui est une adresse IP valide (forme canonique).
pub open spec fn premiere_valide(c: Seq<Option<Seq<char>>>) -> Option<Seq<char>>
    decreases c.len(),
{
    if c.len() == 0 {
        None
    } else if c[0] is Some {
        c[0]
    } else {
        premiere_valide(c.drop_first())
    }
}

/// Vues d'une suite d'options de chaînes.
pub open spec fn vues_options(v: Seq<Option<String>>) -> Seq<Option<Seq<char>>> {
    v.map_values(|x: Option<String>| match x { Some(s) => Some(s@), None => None })
}

/// IP réelle du client, pour les journaux uniquement : si la connexion TCP
/// vient d'un proxy de confiance, la première candidate valide (forme
/// canonique) accompagnée de l'IP brute du proxy ; sinon l'IP brute seule.
/// `analysees[i]` est la candidate `i` lue comme adresse IP, ou `None`.
pub fn client_ip(brute: String, ip_tcp: Option<AdresseIp>, analysees: &[Option<String>]) -> (r: (String, Option<String>))
    ensures
        match ip_tcp {
            Some(ip) if confiance(ip) => match premiere_valide(vues_options(analysees@)) {
                Some(a) => r.0@ == a && r.1 == Some(brute),
                None => r.0 == brute && r.1 is None,
            },
            _ => r.0 == brute && r.1 is None,
        },
{
    let de_confiance = match &ip_tcp {
        Some(ip) => proxy_de_confiance(ip),
        None => false,
    };
    if !de_confiance {
        return (brute, None);
    }
    let ghost c = vues_options(analysees@);
    let mut i: usize = 0;
    assert(c.subrange(0, c.len() as int) =~= c);
    while i < analysees.len()
        invariant
            i <= analysees.len(),
            c == vues_options(analysees@),
            match ip_tcp { Some(ip) => confiance(ip), None => false },
            premiere_valide(c) == premiere_valide(c.subrange(i as int, c.len() as int)),
        decreases analysees.len() - i,
    {
        let ghost r = c.subrange(i as int, c.len() as int);
        assert(r.drop_first() =~= c.subrange(i + 1, c.len() as int));
        assert(r[0] == c[i as int]);
        match &analysees[i] {
            Some(a) => {
                assert(analysees@[i as int] == Some(*a));
                assert(c[i as int] == Some(a@));
                assert(r[0] == Some(a@));
                assert(premiere_valide(r) == Some(a@));
                assert(premiere_valide(c) == Some(a@));
                return (chaine_de(&caracteres(a.as_str())), Some(brute));
            },
            None => {},
        }
        i += 1;
    }
    (brute, None)
}

} // verus!
