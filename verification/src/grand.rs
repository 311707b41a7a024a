//! Grands entiers naturels en octets big-endian, calculés par `num-bigint`.

use vstd::prelude::*;
use vstd::arithmetic::power::{pow, lemma_pow_adds, lemma_pow_positive};
use vstd::arithmetic::mul::{lemma_mul_inequality, lemma_mul_is_distributive_add};
use vstd::arithmetic::div_mod::{lemma_fundamental_div_mod_converse, lemma_mod_multiples_vanish, lemma_small_mod};
use num_bigint::BigUint;

verus! {

/// Valeur d'une suite d'octets big-endian.
pub open spec fn valeur_be(s: Seq<u8>) -> nat
    decreases s.len(),
{
    if s.len() == 0 {
        0
    } else {
        valeur_be(s.drop_last()) * 256 + s.last() as nat
    }
}

/// Écriture big-endian minimale de `n` (un seul octet nul pour zéro), celle
/// de `BigUint::to_bytes_be`.
pub open spec fn octets_be(n: nat) -> Seq<u8>
    decreases n,
{
    if n < 256 {
        seq![n as u8]
    } else {
        octets_be(n / 256).push((n % 256) as u8)
    }
}

/// `256^k`.
pub open spec fn p256(k: nat) -> nat {
    pow(256, k) as nat
}

pub proof fn lemme_p256(k: nat)
    ensures
        p256(k) >= 1,
        p256(k + 1) == p256(k) * 256,
        pow(256, k) > 0,
{
    lemma_pow_positive(256, k);
    lemma_pow_adds(256, k, 1);
    vstd::arithmetic::power::lemma_pow1(256);
}

pub proof fn lemme_un_octet(x: u8)
    ensures
        valeur_be(seq![x]) == x as nat,
        octets_be(x as nat) == seq![x],
{
    assert(seq![x].drop_last() =~= Seq::<u8>::empty());
    assert(valeur_be(Seq::<u8>::empty()) == 0);
}

pub proof fn lemme_valeur_borne(s: Seq<u8>)
    ensures
        valeur_be(s) < p256(s.len()),
    decreases s.len(),
{
    lemme_p256(s.len() as nat);
    if s.len() > 0 {
        lemme_valeur_borne(s.drop_last());
        lemme_p256((s.len() - 1) as nat);
        let a = valeur_be(s.drop_last());
        let p = p256((s.len() - 1) as nat);
        assert(a + 1 <= p);
        lemma_mul_inequality((a + 1) as int, p as int, 256);
        assert((a + 1) * 256 == a * 256 + 256) by (nonlinear_arith);
    }
}

pub proof fn lemme_valeur_concat(a: Seq<u8>, b: Seq<u8>)
    ensures
        valeur_be(a + b) == valeur_be(a) * p256(b.len()) + valeur_be(b),
    decreases b.len(),
{
    lemme_p256(b.len() as nat);
    if b.len() == 0 {
        assert(a + b =~= a);
        vstd::arithmetic::power::lemma_pow0(256);
        assert(p256(0) == 1);
        assert(valeur_be(b) == 0);
    } else {
        lemme_valeur_concat(a, b.drop_last());
        assert((a + b).drop_last() =~= a + b.drop_last());
        assert((a + b).last() == b.last());
        lemme_p256((b.len() - 1) as nat);
        let va = valeur_be(a);
        let p = p256((b.len() - 1) as nat);
        let vb = valeur_be(b.drop_last());
        assert(p256(b.len() as nat) == p * 256);
        assert(valeur_be(a + b) == valeur_be((a + b).drop_last()) * 256 + (a + b).last() as nat);
        assert(valeur_be(b) == vb * 256 + b.last() as nat);
        assert((va * p + vb) * 256 == va * (p * 256) + vb * 256) by (nonlinear_arith);
    }
}

pub proof fn lemme_valeur_zeros(k: nat)
    ensures
        valeur_be(Seq::new(k, |i: int| 0u8)) == 0,
    decreases k,
{
    if k > 0 {
        assert(Seq::new(k, |i: int| 0u8).drop_last() =~= Seq::new((k - 1) as nat, |i: int| 0u8));
        lemme_valeur_zeros((k - 1) as nat);
    }
}

pub proof fn lemme_valeur_suffixe(s: Seq<u8>, k: nat)
    requires
        k <= s.len(),
    ensures
        valeur_be(s.subrange(s.len() - k, s.len() as int)) == valeur_be(s) % p256(k),
{
    let a = s.subrange(0, s.len() - k);
    let b = s.subrange(s.len() - k, s.len() as int);
    assert(a + b =~= s);
    lemme_valeur_concat(a, b);
    lemme_valeur_borne(b);
    lemme_p256(k);
    lemma_fundamental_div_mod_converse(valeur_be(s) as int, p256(k) as int, valeur_be(a) as int, valeur_be(b) as int);
}

pub proof fn lemme_octets_be(n: nat)
    ensures
        valeur_be(octets_be(n)) == n,
        octets_be(n).len() >= 1,
        octets_be(n).len() == 1 || octets_be(n)[0] != 0,
    decreases n,
{
    if n < 256 {
        lemme_un_octet(n as u8);
    } else {
        lemme_octets_be(n / 256);
        let t = octets_be(n / 256);
        assert(octets_be(n).drop_last() =~= t);
        assert(octets_be(n)[0] == t[0]);
        vstd::arithmetic::div_mod::lemma_fundamental_div_mod(n as int, 256);
        assert(valeur_be(octets_be(n)) == valeur_be(t) * 256 + (n % 256));
        if t.len() == 1 {
            assert(t =~= seq![t[0]]);
            lemme_un_octet(t[0]);
            assert(t[0] != 0);
        }
    }
}

pub proof fn lemme_valeur_premier_non_nul(s: Seq<u8>)
    requires
        s.len() >= 1,
        s[0] != 0,
    ensures
        valeur_be(s) >= p256((s.len() - 1) as nat),
{
    let a = s.subrange(0, 1);
    let b = s.subrange(1, s.len() as int);
    assert(a + b =~= s);
    lemme_valeur_concat(a, b);
    assert(a =~= seq![s[0]]);
    lemme_un_octet(s[0]);
    lemme_p256(b.len() as nat);
    lemma_mul_inequality(1, valeur_be(a) as int, p256(b.len() as nat) as int);
}

/// Une écriture sans zéro de tête (ou un seul octet) est l'écriture
/// minimale de sa valeur.
pub proof fn lemme_canonique(s: Seq<u8>)
    requires
        s.len() >= 1,
        s.len() == 1 || s[0] != 0,
    ensures
        octets_be(valeur_be(s)) == s,
    decreases s.len(),
{
    if s.len() == 1 {
        assert(s =~= seq![s[0]]);
        lemme_un_octet(s[0]);
    } else {
        let t = s.drop_last();
        assert(t[0] == s[0]);
        lemme_canonique(t);
        lemme_valeur_premier_non_nul(t);
        lemme_p256((t.len() - 1) as nat);
        let v = valeur_be(s);
        assert(v / 256 == valeur_be(t) && v % 256 == s.last()) by {
            lemma_fundamental_div_mod_converse(v as int, 256, valeur_be(t) as int, s.last() as int);
        }
        assert(octets_be(v) =~= s);
    }
}

/// Un grand entier naturel, conservé sous son écriture big-endian minimale.
pub struct Grand {
    octets: Vec<u8>,
}

impl View for Grand {
    type V = nat;

    closed spec fn view(&self) -> nat {
        valeur_be(self.octets@)
    }
}

impl Grand {
    /// L'écriture big-endian minimale est gardée.
    #[verifier::type_invariant]
    closed spec fn bien_forme(&self) -> bool {
        self.octets@ == octets_be(valeur_be(self.octets@))
    }

    /// Octets big-endian minimaux (`BigUint::to_bytes_be`).
    pub closed spec fn octets_vue(&self) -> Seq<u8> {
        self.octets@
    }

    /// Le grand entier des octets big-endian `b` (`BigUint::from_bytes_be`).
    pub fn depuis_octets(b: &[u8]) -> (g: Grand)
        ensures
            g@ == valeur_be(b@),
    {
        let mut i: usize = 0;
        while i < b.len() && b[i] == 0
            invariant
                i <= b.len(),
                forall|j: int| 0 <= j < i ==> b@[j] == 0,
            decreases b.len() - i,
        {
            i += 1;
        }
        let mut v: Vec<u8> = Vec::new();
        if i == b.len() {
            v.push(0u8);
            proof {
                assert(b@ =~= Seq::new(b@.len(), |k: int| 0u8));
                lemme_valeur_zeros(b@.len());
                assert(v@ =~= seq![0u8]);
                lemme_un_octet(0u8);
            }
        } else {
            let mut j = i;
            while j < b.len()
                invariant
                    i <= j <= b.len(),
                    v@ == b@.subrange(i as int, j as int),
                decreases b.len() - j,
            {
                v.push(b[j]);
                assert(b@.subrange(i as int, j + 1) == b@.subrange(i as int, j as int).push(b@[j as int]));
                j += 1;
            }
            proof {
                let z = b@.subrange(0, i as int);
                assert(z =~= Seq::new(i as nat, |k: int| 0u8));
                lemme_valeur_zeros(i as nat);
                assert(z + v@ =~= b@);
                lemme_valeur_concat(z, v@);
                assert(v@[0] == b@[i as int]);
                lemme_canonique(v@);
            }
        }
        Grand { octets: v }
    }

    /// L'entier `n`.
    pub fn depuis_u64(n: u64) -> (g: Grand)
        ensures
            g@ == n as nat,
    {
        let mut o: Vec<u8> = Vec::new();
        let mut k: u64 = n;
        let mut i: usize = 0;
        proof {
            vstd::arithmetic::power::lemma_pow0(256);
            assert(valeur_be(o@) == 0);
            assert(p256(0) == 1);
        }
        while i < 8
            invariant
                i <= 8,
                o@.len() == i,
                n as nat == k as nat * p256(i as nat) + valeur_be(o@),
            decreases 8 - i,
        {
            let ghost avant = o@;
            o.insert(0, (k % 256) as u8);
            proof {
                assert(o@ =~= seq![(k % 256) as u8] + avant);
                lemme_valeur_concat(seq![(k % 256) as u8], avant);
                lemme_un_octet((k % 256) as u8);
                lemme_p256(i as nat);
                let p = p256(i as nat);
                assert(k as nat * p == (k / 256) as nat * (p * 256) + (k % 256) as nat * p) by (nonlinear_arith)
                    requires k as nat == (k / 256) as nat * 256 + (k % 256) as nat;
            }
            k = k / 256;
            i += 1;
        }
        proof {
            lemme_valeur_borne(o@);
            lemme_p256(8);
            assert(p256(8) == 18446744073709551616) by {
                vstd::arithmetic::power::lemma_pow_positive(256, 8);
                reveal(pow);
                reveal_with_fuel(pow, 9);
            }
            assert(k == 0) by (nonlinear_arith)
                requires n as nat == k as nat * p256(8) + valeur_be(o@), p256(8) == 18446744073709551616, n < 18446744073709551616nat;
        }
        Grand::depuis_octets(&o)
    }

    /// Les octets big-endian minimaux (`BigUint::to_bytes_be`).
    pub fn to_bytes_be(&self) -> (v: Vec<u8>)
        ensures
            v@ == self.octets_vue(),
            v@ == octets_be(self@),
    {
        proof { use_type_invariant(self); }
        self.octets.clone()
    }

    /// L'entier est nul.
    pub fn is_zero(&self) -> (r: bool)
        ensures
            r == (self@ == 0),
    {
        proof {
            use_type_invariant(self);
            lemme_octets_be(self@);
            lemme_un_octet(0u8);
            if self.octets@.len() == 1 {
                assert(self.octets@ =~= seq![self.octets@[0]]);
                lemme_un_octet(self.octets@[0]);
            }
        }
        self.octets.len() == 1 && self.octets[0] == 0
    }
}

// ══════════════════════════════════════════════════════════════════
// Opérations de num-bigint
// ══════════════════════════════════════════════════════════════════

/// `BigUint * BigUint` : le produit, en octets big-endian minimaux.
#[verifier::external_body]
fn big_mul(a: &[u8], b: &[u8]) -> (r: Vec<u8>)
    ensures
        r@ == octets_be(valeur_be(a@) * valeur_be(b@)),
{
    (BigUint::from_bytes_be(a) * BigUint::from_bytes_be(b)).to_bytes_be()
}

/// `BigUint + BigUint` : la somme, en octets big-endian minimaux.
#[verifier::external_body]
fn big_add(a: &[u8], b: &[u8]) -> (r: Vec<u8>)
    ensures
        r@ == octets_be(valeur_be(a@) + valeur_be(b@)),
{
    (BigUint::from_bytes_be(a) + BigUint::from_bytes_be(b)).to_bytes_be()
}

/// `BigUint % BigUint` (panique sur un diviseur nul, exclu) : le reste.
#[verifier::external_body]
fn big_rem(a: &[u8], m: &[u8]) -> (r: Vec<u8>)
    requires
        valeur_be(m@) > 0,
    ensures
        r@ == octets_be(valeur_be(a@) % valeur_be(m@)),
{
    (BigUint::from_bytes_be(a) % BigUint::from_bytes_be(m)).to_bytes_be()
}

/// `BigUint::modpow` : `(base ^ exposant) % module` ; panique sur un module
/// nul. Le contrat est donné pour un module > 1.
#[verifier::external_body]
fn big_modpow(base: &[u8], exposant: &[u8], module: &[u8]) -> (r: Vec<u8>)
    requires
        valeur_be(module@) > 1,
    ensures
        r@ == octets_be((pow(valeur_be(base@) as int, valeur_be(exposant@)) % (valeur_be(module@) as int)) as nat),
{
    BigUint::from_bytes_be(base).modpow(&BigUint::from_bytes_be(exposant), &BigUint::from_bytes_be(module)).to_bytes_be()
}

fn grand_de(r: Vec<u8>) -> (g: Grand)
    requires
        r@ == octets_be(valeur_be(r@)),
    ensures
        g@ == valeur_be(r@),
{
    Grand { octets: r }
}

impl Grand {
    /// `a * b`.
    pub fn mul(&self, b: &Grand) -> (r: Grand)
        ensures
            r@ == self@ * b@,
    {
        let o = big_mul(&self.octets, &b.octets);
        proof { lemme_octets_be(self@ * b@); }
        grand_de(o)
    }

    /// `a + b`.
    pub fn add(&self, b: &Grand) -> (r: Grand)
        ensures
            r@ == self@ + b@,
    {
        let o = big_add(&self.octets, &b.octets);
        proof { lemme_octets_be(self@ + b@); }
        grand_de(o)
    }

    /// `a % m`.
    pub fn rem(&self, m: &Grand) -> (r: Grand)
        requires
            m@ > 0,
        ensures
            r@ == self@ % m@,
    {
        let o = big_rem(&self.octets, &m.octets);
        proof { lemme_octets_be(self@ % m@); }
        grand_de(o)
    }

    /// `(a ^ e) % m`.
    pub fn modpow(&self, e: &Grand, m: &Grand) -> (r: Grand)
        requires
            m@ > 1,
        ensures
            r@ == pow(self@ as int, e@) % (m@ as int),
    {
        let o = big_modpow(&self.octets, &e.octets, &m.octets);
        proof {
            let x = pow(self@ as int, e@) % (m@ as int);
            assert(x >= 0);
            lemme_octets_be(x as nat);
        }
        grand_de(o)
    }
}

} // verus!
