//! Réseau P2P de VEX : configuration, identité du nœud, annuaire texte
//! répliqué (écriture et lecture), transferts de fichiers en morceaux.

use vstd::prelude::*;
use crate::crypto::{
    base64_standard, base64_standard_enc, cle_publique_ed25519, decoder_base64_standard, deriver_cle_publique,
    ed25519_valide, encoder_base64_standard, octets_aleatoires, signature_ed25519, signer_ed25519,
    verifier_ed25519,
};
use crate::json::{valeur_de, Json};
use crate::srp::{hex_encode, hex_octets, sha256};
use crate::texte::{
    ajouter, ajouter_decimal, ajouter_decimal_signe, caracteres, chaine_de, commence_par, decimal, decimal_signe,
    decouper, decoupe, egale_lit, egales, en_minuscules, encode_url, encoder_url, finit_par, i64_ecrit,
    analyser_i64, analyser_naturel, lemme_premier_motif, minuscules, naturel_borne, premier_motif, rogne, rogner,
    tranche, trouver_motif, vues,
};

verus! {

broadcast use vstd::string::group_string_axioms;

// ══════════════════════════════════════════════════════════════════
// Configuration
// ══════════════════════════════════════════════════════════════════

/// Configuration P2P (section `p2p` de la configuration).
#[derive(Debug, Clone)]
pub struct P2pConfig {
    /// Taille d'un morceau de fichier en octets (1 Mo par défaut).
    pub chunk_size_bytes: usize,
    /// URL du serveur d'amorçage.
    pub bootstrap_url: String,
    /// Adresse Tor `.onion` annoncée, si Tor est utilisé.
    pub tor_addr: Option<String>,
    /// Tor est-il utilisé ?
    pub use_tor: bool,
    /// Port d'écoute P2P.
    pub port: u16,
    /// Intervalle de synchronisation avec l'amorçage (secondes).
    pub sync_interval_secs: u64,
    /// Dossier des morceaux reçus.
    pub chunks_dir: String,
    /// Dossier des fichiers reconstitués.
    pub output_dir: String,
}

/// `v.as_u64()` : un nombre entier positif ou nul.
pub open spec fn naturel_de(v: Json) -> Option<u64> {
    match v {
        Json::Nombre(n) => if n >= 0 { Some(n as u64) } else { None },
        Json::Grand(g) => Some(g),
        _ => None,
    }
}

/// `v.as_str()`.
pub open spec fn texte_opt(v: Json) -> Option<Seq<char>> {
    match v {
        Json::Texte(s) => Some(s@),
        _ => None,
    }
}

/// `v.as_bool()`.
pub open spec fn booleen_de(v: Json) -> Option<bool> {
    match v {
        Json::Booleen(b) => Some(b),
        _ => None,
    }
}

/// Tor est utilisé : valeur `use_tor` si c'est un booléen, sinon dès
/// qu'une adresse Tor non vide est donnée.
pub open spec fn tor_utilise(p: Json) -> bool {
    match booleen_de(crate::json::champ(p, "use_tor"@)) {
        Some(b) => b,
        None => match texte_opt(crate::json::champ(p, "tor_addr"@)) {
            Some(s) => s.len() > 0,
            None => false,
        },
    }
}

/// Adresse Tor retenue : seulement si Tor est utilisé et l'adresse non vide.
pub open spec fn tor_retenue(p: Json) -> Option<Seq<char>> {
    if tor_utilise(p) {
        match texte_opt(crate::json::champ(p, "tor_addr"@)) {
            Some(s) => if s.len() > 0 { Some(s) } else { None },
            None => None,
        }
    } else {
        None
    }
}

/// URL d'amorçage normalisée : sans espaces autour ni `/` finaux, sans
/// suffixe `index.php` (casse ignorée) ni les `/` qui le précédaient.
pub open spec fn bootstrap_normalise(raw: Seq<char>) -> Seq<char> {
    let u = sans_barres_fin(rogner(raw));
    if finit_par(minuscules(u), "index.php"@) {
        sans_barres_fin(u.subrange(0, u.len() - 9))
    } else {
        u
    }
}

/// `s` sans ses `/` finaux.
pub open spec fn sans_barres_fin(s: Seq<char>) -> Seq<char>
    decreases s.len(),
{
    if s.len() > 0 && s.last() == '/' { sans_barres_fin(s.drop_last()) } else { s }
}

pub(crate) fn retirer_barres_fin(s: &[char]) -> (r: Vec<char>)
    ensures
        r@ == sans_barres_fin(s@),
{
    let mut n = s.len();
    assert(s@.subrange(0, n as int) =~= s@);
    while n > 0 && s[n - 1] == '/'
        invariant
            n <= s.len(),
            sans_barres_fin(s@) == sans_barres_fin(s@.subrange(0, n as int)),
        decreases n,
    {
        assert(s@.subrange(0, n as int).drop_last() =~= s@.subrange(0, n - 1));
        n -= 1;
    }
    tranche(s, 0, n)
}

/// Normalise l'URL d'amorçage (voir `bootstrap_normalise`).
pub fn normalize_bootstrap_url(raw: &str) -> (r: String)
    ensures
        r@ == bootstrap_normalise(raw@),
{
    let c = caracteres(raw);
    let u = retirer_barres_fin(&rogne(&c));
    let m = en_minuscules(&u);
    if crate::texte::finit_lit(&m, "index.php") {
        proof {
            reveal_strlit("index.php");
        }
        let v = tranche(&u, 0, u.len() - 9);
        chaine_de(&retirer_barres_fin(&v))
    } else {
        chaine_de(&u)
    }
}

/// `v.as_u64().unwrap_or(defaut)`.
pub open spec fn naturel_ou(v: Json, defaut: u64) -> u64 {
    match naturel_de(v) {
        Some(n) => n,
        None => defaut,
    }
}

/// `v.as_str().unwrap_or(defaut)`.
pub open spec fn texte_ou(v: Json, defaut: Seq<char>) -> Seq<char> {
    match texte_opt(v) {
        Some(s) => s,
        None => defaut,
    }
}

fn naturel_champ(p: &Json, k: &str, defaut: u64) -> (r: u64)
    ensures
        r == naturel_ou(crate::json::champ(*p, k@), defaut),
{
    match valeur_de(p, k) {
        Some(Json::Nombre(n)) => if *n >= 0 { *n as u64 } else { defaut },
        Some(Json::Grand(g)) => *g,
        _ => defaut,
    }
}

fn texte_champ_ou(p: &Json, k: &str, defaut: &str) -> (r: String)
    ensures
        r@ == texte_ou(crate::json::champ(*p, k@), defaut@),
{
    match valeur_de(p, k) {
        Some(Json::Texte(s)) => chaine_de(&caracteres(s.as_str())),
        _ => chaine_de(&caracteres(defaut)),
    }
}

impl P2pConfig {
    /// Configuration lue de la section `p2p` (valeurs par défaut pour les
    /// champs absents ; une valeur entière hors type est tronquée comme
    /// par `as`).
    pub fn from_vex_config(p: &Json) -> (r: P2pConfig)
        ensures
            r.chunk_size_bytes as u64 == naturel_ou(crate::json::champ(*p, "chunk_size_bytes"@), 1_048_576) as usize as u64,
            r.bootstrap_url@ == bootstrap_normalise(
                texte_ou(crate::json::champ(*p, "bootstrap_url"@), "https://vex.hopto.org/neut"@),
            ),
            r.use_tor == tor_utilise(*p),
            match r.tor_addr {
                Some(t) => tor_retenue(*p) == Some(t@),
                None => tor_retenue(*p) is None,
            },
            r.port == naturel_ou(crate::json::champ(*p, "port"@), 7700) as u16,
            r.sync_interval_secs == naturel_ou(crate::json::champ(*p, "sync_interval_secs"@), 1_800),
            r.chunks_dir@ == texte_ou(crate::json::champ(*p, "chunks_dir"@), "/tmp/vex_chunks"@),
            r.output_dir@ == texte_ou(crate::json::champ(*p, "output_dir"@), "/tmp/vex_received"@),
    {
        let tor_brut: Option<&String> = match valeur_de(p, "tor_addr") {
            Some(Json::Texte(s)) => Some(s),
            _ => None,
        };
        let use_tor = match valeur_de(p, "use_tor") {
            Some(Json::Booleen(b)) => *b,
            _ => match tor_brut {
                Some(s) => caracteres(s.as_str()).len() > 0,
                None => false,
            },
        };
        let tor_addr = if use_tor {
            match tor_brut {
                Some(s) => if caracteres(s.as_str()).len() > 0 {
                    Some(chaine_de(&caracteres(s.as_str())))
                } else {
                    None
                },
                None => None,
            }
        } else {
            None
        };
        let bootstrap = texte_champ_ou(p, "bootstrap_url", "https://vex.hopto.org/neut");
        P2pConfig {
            chunk_size_bytes: naturel_champ(p, "chunk_size_bytes", 1_048_576) as usize,
            bootstrap_url: normalize_bootstrap_url(bootstrap.as_str()),
            tor_addr,
            use_tor,
            port: naturel_champ(p, "port", 7700) as u16,
            sync_interval_secs: naturel_champ(p, "sync_interval_secs", 1_800),
            chunks_dir: texte_champ_ou(p, "chunks_dir", "/tmp/vex_chunks"),
            output_dir: texte_champ_ou(p, "output_dir", "/tmp/vex_received"),
        }
    }
}

// ══════════════════════════════════════════════════════════════════
// Identité du nœud
// ══════════════════════════════════════════════════════════════════

/// Identifiant d'un nœud : les 16 premiers octets du SHA-256 de son URL
/// suivie de sa clé publique (base64), en hexadécimal.
pub open spec fn node_id_de(vex_url: Seq<char>, pub_b64: Seq<char>) -> Seq<char> {
    hex_octets(crate::crypto::sha256_spec(vstd::utf8::encode_utf8(vex_url + pub_b64)).subrange(0, 16))
}

/// Identifiant du nœud d'URL `vex_url` et de clé publique `pub_b64`.
pub fn node_id(vex_url: &str, pub_b64: &str) -> (r: String)
    ensures
        r@ == node_id_de(vex_url@, pub_b64@),
{
    let mut t: Vec<char> = Vec::new();
    ajouter(&mut t, vex_url);
    ajouter(&mut t, pub_b64);
    let s = chaine_de(&t);
    let h = sha256(s.as_str().as_bytes());
    let debut = slice_debut(&h, 16);
    hex_encode(&debut)
}

fn slice_debut(v: &Vec<u8>, n: usize) -> (r: Vec<u8>)
    requires
        n <= v@.len(),
    ensures
        r@ == v@.subrange(0, n as int),
{
    let mut r: Vec<u8> = Vec::new();
    let mut i: usize = 0;
    while i < n
        invariant
            i <= n <= v@.len(),
            r@ == v@.subrange(0, i as int),
        decreases n - i,
    {
        r.push(v[i]);
        i += 1;
    }
    r
}

/// Clé publique du nœud en base64 standard.
pub fn pub_key_b64(cle_publique: &[u8; 32]) -> (r: String)
    ensures
        r@ == base64_standard_enc(cle_publique@),
{
    encoder_base64_standard(cle_publique)
}

/// Signature du message par la clé du nœud, en base64 standard.
pub open spec fn signature_b64(cle: Seq<u8>, msg: Seq<u8>) -> Seq<char> {
    base64_standard_enc(signature_ed25519(cle, msg))
}

/// Signe un message ; la signature en base64 standard.
pub fn signer(cle: &[u8; 32], msg: &[u8]) -> (r: String)
    ensures
        r@ == signature_b64(cle@, msg@),
{
    encoder_base64_standard(&signer_ed25519(cle, msg))
}

/// Signature acceptée : clé publique et signature en base64 standard, de 32
/// et 64 octets, et signature Ed25519 valide du message.
pub open spec fn signature_valide(pub_b64: Seq<char>, msg: Seq<u8>, sig_b64: Seq<char>) -> bool {
    match (base64_standard(pub_b64), base64_standard(sig_b64)) {
        (Some(k), Some(s)) => k.len() == 32 && s.len() == 64 && ed25519_valide(k, msg, s),
        _ => false,
    }
}

/// Vérifie une signature base64 d'un message avec une clé publique base64.
pub fn verifier_signature(pub_key_b64: &str, msg: &[u8], sig_b64: &str) -> (r: bool)
    ensures
        r == signature_valide(pub_key_b64@, msg@, sig_b64@),
{
    let k = match decoder_base64_standard(pub_key_b64) {
        Some(k) => k,
        None => return false,
    };
    let s = match decoder_base64_standard(sig_b64) {
        Some(s) => s,
        None => return false,
    };
    if k.len() != 32 || s.len() != 64 {
        return false;
    }
    let arr: [u8; 32] = [
        k[0], k[1], k[2], k[3], k[4], k[5], k[6], k[7], k[8], k[9], k[10], k[11], k[12], k[13], k[14], k[15],
        k[16], k[17], k[18], k[19], k[20], k[21], k[22], k[23], k[24], k[25], k[26], k[27], k[28], k[29], k[30],
        k[31],
    ];
    assert(arr@ =~= k@);
    verifier_ed25519(&arr, msg, &s)
}

// ══════════════════════════════════════════════════════════════════
// État du nœud
// ══════════════════════════════════════════════════════════════════

/// Identité et configuration du nœud : clé Ed25519 (octets), clé publique
/// qui en dérive, identifiant, URL publique.
pub struct NodeState {
    pub node_id: String,
    pub signing_key: [u8; 32],
    pub verifying_key: [u8; 32],
    pub vex_url: String,
    pub config: P2pConfig,
}

/// Clé secrète lue dans le fichier de clé : son texte sans espaces autour,
/// décodé en base64 standard, s'il fait 32 octets.
pub open spec fn cle_lue(texte: Option<Seq<char>>) -> Option<Seq<u8>> {
    match texte {
        Some(t) => match base64_standard(rogner(t)) {
            Some(k) => if k.len() == 32 { Some(k) } else { None },
            None => None,
        },
        None => None,
    }
}

impl NodeState {
    /// La clé publique dérive de la clé secrète, l'identifiant de l'URL et
    /// de la clé publique.
    pub open spec fn coherent(self) -> bool {
        &&& self.verifying_key@ == cle_publique_ed25519(self.signing_key@)
        &&& self.node_id@ == node_id_de(self.vex_url@, base64_standard_enc(self.verifying_key@))
    }

    /// État du nœud d'URL `vex_url`. `fichier_cle` est le contenu du fichier
    /// de clé s'il existe. Si une clé de 32 octets s'y lit, elle est gardée ;
    /// sinon une clé (32 octets) est tirée du générateur du système et son
    /// texte base64, à écrire dans le fichier, est rendu à côté de l'état.
    /// `None` seulement si ce tirage échoue.
    pub fn init(vex_url: &str, p2p_cfg: P2pConfig, fichier_cle: Option<&str>) -> (r: Option<(NodeState, Option<String>)>)
        ensures
            cle_lue(
                match fichier_cle {
                    Some(t) => Some(t@),
                    None => None,
                },
            ) is Some ==> r is Some,
            match r {
                Some((e, a_ecrire)) => {
                    &&& e.coherent()
                    &&& e.vex_url@ == vex_url@
                    &&& e.config == p2p_cfg
                    &&& match cle_lue(
                        match fichier_cle {
                            Some(t) => Some(t@),
                            None => None,
                        },
                    ) {
                        Some(k) => e.signing_key@ == k && a_ecrire is None,
                        None => a_ecrire is Some && a_ecrire->0@ == base64_standard_enc(e.signing_key@),
                    }
                },
                None => true,
            },
    {
        let lue: Option<[u8; 32]> = match fichier_cle {
            Some(t) => {
                let net = chaine_de(&rogne(&caracteres(t)));
                match decoder_base64_standard(net.as_str()) {
                    Some(k) => if k.len() == 32 {
                        let arr: [u8; 32] = [
                            k[0], k[1], k[2], k[3], k[4], k[5], k[6], k[7], k[8], k[9], k[10], k[11], k[12], k[13],
                            k[14], k[15], k[16], k[17], k[18], k[19], k[20], k[21], k[22], k[23], k[24], k[25],
                            k[26], k[27], k[28], k[29], k[30], k[31],
                        ];
                        assert(arr@ =~= k@);
                        Some(arr)
                    } else {
                        None
                    },
                    None => None,
                }
            },
            None => None,
        };
        let (signing_key, a_ecrire) = match lue {
            Some(k) => (k, None),
            None => {
                let b = match octets_aleatoires(32) {
                    Some(b) => b,
                    None => return None,
                };
                let k: [u8; 32] = [
                    b[0], b[1], b[2], b[3], b[4], b[5], b[6], b[7], b[8], b[9], b[10], b[11], b[12], b[13], b[14],
                    b[15], b[16], b[17], b[18], b[19], b[20], b[21], b[22], b[23], b[24], b[25], b[26], b[27],
                    b[28], b[29], b[30], b[31],
                ];
                (k, Some(encoder_base64_standard(&k)))
            },
        };
        let verifying_key = deriver_cle_publique(&signing_key);
        let pub_b64 = pub_key_b64(&verifying_key);
        let id = node_id(vex_url, pub_b64.as_str());
        let etat = NodeState {
            node_id: id,
            signing_key,
            verifying_key,
            vex_url: chaine_de(&caracteres(vex_url)),
            config: p2p_cfg,
        };
        Some((etat, a_ecrire))
    }

    /// Clé publique du nœud en base64 standard.
    pub fn pub_key_b64(&self) -> (r: String)
        ensures
            r@ == base64_standard_enc(self.verifying_key@),
    {
        pub_key_b64(&self.verifying_key)
    }

    /// Signe un message avec la clé du nœud ; signature en base64 standard.
    /// Pour un état cohérent, la signature est acceptée par
    /// `verifier_signature` avec la clé publique du nœud (`pub_key_b64`).
    pub fn signer(&self, msg: &[u8]) -> (r: String)
        ensures
            r@ == signature_b64(self.signing_key@, msg@),
            self.coherent() ==> signature_valide(base64_standard_enc(self.verifying_key@), msg@, r@),
    {
        let s = signer_ed25519(&self.signing_key, msg);
        let r = encoder_base64_standard(&s);
        let cle = encoder_base64_standard(&self.verifying_key);
        assert(base64_standard(cle@) == Some(self.verifying_key@));
        r
    }

    /// Vérifie une signature base64 d'un message avec une clé publique
    /// base64 (voir `signature_valide`).
    pub fn verifier_signature(pub_key_b64: &str, msg: &[u8], sig_b64: &str) -> (r: bool)
        ensures
            r == signature_valide(pub_key_b64@, msg@, sig_b64@),
    {
        verifier_signature(pub_key_b64, msg, sig_b64)
    }
}

// ══════════════════════════════════════════════════════════════════
// Transferts en morceaux
// ══════════════════════════════════════════════════════════════════

/// Nombre de morceaux d'un fichier : un au moins, sinon la taille divisée
/// par celle d'un morceau, arrondie au-dessus.
pub open spec fn morceaux_necessaires(taille: nat, morceau: nat) -> nat {
    if taille == 0 { 1 } else { ((taille + morceau - 1) / (morceau as int)) as nat }
}

/// Calcule le nombre de morceaux nécessaires pour un fichier.
pub fn nombre_chunks(taille: usize, chunk_size: usize) -> (n: usize)
    requires
        chunk_size > 0 || taille == 0,
        taille == 0 || taille + (chunk_size - 1) <= usize::MAX,
    ensures
        n == morceaux_necessaires(taille as nat, chunk_size as nat),
        n >= 1,
        taille > 0 ==> (n - 1) * chunk_size < taille <= n * chunk_size,
{
    if taille == 0 {
        return 1;
    }
    let n = (taille + (chunk_size - 1)) / chunk_size;
    assert((n - 1) * chunk_size < taille <= n * chunk_size && n >= 1) by (nonlinear_arith)
        requires
            n == (taille + chunk_size - 1) / (chunk_size as int),
            chunk_size > 0,
            taille > 0,
    {
        let a: int = taille + chunk_size - 1;
        let c: int = chunk_size as int;
        assert(a == (a / c) * c + a % c);
    }
    n
}

/// Nom du fichier d'un morceau reçu : son numéro sur six chiffres au moins.
pub open spec fn nom_morceau(idx: nat) -> Seq<char> {
    let d = decimal(idx);
    Seq::new(if d.len() < 6 { (6 - d.len()) as nat } else { 0 }, |i: int| '0') + d + ".chunk"@
}

/// Nom du fichier d'un morceau reçu (`{:06}.chunk`).
pub fn nom_chunk(idx: u64) -> (r: String)
    ensures
        r@ == nom_morceau(idx as nat),
{
    let mut d: Vec<char> = Vec::new();
    ajouter_decimal(&mut d, idx as u128);
    let mut o: Vec<char> = Vec::new();
    let mut k: usize = d.len();
    while k < 6
        invariant
            d.len() <= k <= 6 || (k == d.len() && k >= 6),
            o@ == Seq::new((k - d.len()) as nat, |i: int| '0'),
        decreases 6 - k,
    {
        o.push('0');
        k += 1;
        assert(o@ =~= Seq::new((k - d.len()) as nat, |i: int| '0'));
    }
    crate::texte::ajouter_car(&mut o, &d);
    ajouter(&mut o, ".chunk");
    assert(o@ =~= nom_morceau(idx as nat));
    chaine_de(&o)
}

/// Caractère remplacé par `_` dans un nom de fichier reçu.
pub open spec fn car_interdit(c: char) -> bool {
    c == '/' || c == '\\' || c == ':' || c == '*' || c == '?' || c == '"' || c == '<' || c == '>' || c == '|'
}

/// Nom de fichier sûr : chaque caractère interdit devient `_`.
pub open spec fn nom_sur(s: Seq<char>) -> Seq<char> {
    s.map_values(|c: char| if car_interdit(c) { '_' } else { c })
}

/// Nom de sortie d'un fichier reconstitué : 8 premiers caractères du
/// transfert, `_`, nom sûr.
pub fn nom_sortie(tid: &str, file_name: &str) -> (r: String)
    requires
        tid@.len() >= 8,
    ensures
        r@ == tid@.subrange(0, 8) + "_"@ + nom_sur(file_name@),
{
    let t = caracteres(tid);
    let f = caracteres(file_name);
    let mut o = tranche(&t, 0, 8);
    o.push('_');
    let ghost debut = o@;
    let mut i: usize = 0;
    while i < f.len()
        invariant
            i <= f.len(),
            o@ == debut + nom_sur(f@.subrange(0, i as int)),
        decreases f.len() - i,
    {
        let c = f[i];
        let x = if c == '/' || c == '\\' || c == ':' || c == '*' || c == '?' || c == '"' || c == '<' || c == '>' || c == '|' {
            '_'
        } else {
            c
        };
        o.push(x);
        assert(nom_sur(f@.subrange(0, i + 1)) =~= nom_sur(f@.subrange(0, i as int)).push(x));
        i += 1;
    }
    assert(f@.subrange(0, f@.len() as int) =~= f@);
    assert(o@ =~= tid@.subrange(0, 8) + "_"@ + nom_sur(file_name@)) by {
        reveal_strlit("_");
    }
    chaine_de(&o)
}

/// Adresse de base d'un pair : son adresse Tor (`http://…`) si elle est
/// connue et non vide, sinon son URL sans `/` finaux.
pub open spec fn adresse_pair(vex_url: Seq<char>, tor: Option<Seq<char>>) -> Seq<char> {
    match tor {
        Some(t) => if t.len() > 0 { "http://"@ + t } else { sans_barres_fin(vex_url) },
        None => sans_barres_fin(vex_url),
    }
}

/// Adresse de base d'un pair (voir `adresse_pair`).
pub fn base_pair(vex_url: &str, tor: Option<&str>) -> (r: String)
    ensures
        r@ == adresse_pair(vex_url@, match tor {
            Some(t) => Some(t@),
            None => None,
        }),
{
    match tor {
        Some(t) => {
            let tc = caracteres(t);
            if tc.len() > 0 {
                let mut o: Vec<char> = Vec::new();
                ajouter(&mut o, "http://");
                ajouter(&mut o, t);
                return chaine_de(&o);
            }
        },
        None => {},
    }
    chaine_de(&retirer_barres_fin(&caracteres(vex_url)))
}

/// Encodage pourcent d'un paramètre envoyé à un pair.
pub fn urlenc(s: &str) -> (r: String)
    ensures
        r@ == encode_url(s@),
{
    encoder_url(s)
}

// ══════════════════════════════════════════════════════════════════
// Annuaire texte
// ══════════════════════════════════════════════════════════════════

/// Un nœud connu, tel que lu en base (champs absents possibles).
pub struct PairAnnuaire {
    pub node_id: Option<String>,
    pub vex_url: Option<String>,
    pub tor_addr: Option<String>,
    pub pub_key: Option<String>,
    pub status: Option<String>,
    pub last_seen: Option<String>,
    pub version: Option<String>,
}

/// Un utilisateur publié, tel que lu en base.
pub struct UtilisateurAnnuaire {
    pub user_id: Option<i64>,
    pub node_id: Option<String>,
    pub nom: Option<String>,
    pub pub_key: Option<String>,
    pub updated_at: Option<String>,
}

/// Le texte, ou `d` s'il est absent.
pub open spec fn ou(o: Option<String>, d: Seq<char>) -> Seq<char> {
    match o {
        Some(s) => s@,
        None => d,
    }
}

fn texte_ou_defaut(o: &Option<String>, d: &str) -> (r: Vec<char>)
    ensures
        r@ == ou(*o, d@),
{
    match o {
        Some(s) => caracteres(s.as_str()),
        None => caracteres(d),
    }
}

/// Ligne d'un nœud : `NODE_ID | URL | TOR_OU_ANONYME | CLÉ | STATUT | VU_LE
/// | VERSION` ; l'adresse réelle n'est jamais publiée.
pub open spec fn ligne_pair(p: PairAnnuaire) -> Seq<char> {
    let tor = ou(p.tor_addr, ""@);
    ou(p.node_id, ""@) + " | "@ + ou(p.vex_url, ""@) + " | "@ + (if tor.len() == 0 { "ANONYME"@ } else { tor }) + " | "@
        + ou(p.pub_key, ""@) + " | "@ + ou(p.status, "offline"@) + " | "@ + ou(p.last_seen, ""@) + " | "@ + ou(
        p.version,
        "?"@,
    ) + "\n"@
}

/// Ligne d'un utilisateur : `USER_ID@NODE_ID | NOM | CLÉ | MIS_À_JOUR`.
pub open spec fn ligne_utilisateur(u: UtilisateurAnnuaire) -> Seq<char> {
    decimal_signe(
        match u.user_id {
            Some(n) => n as int,
            None => 0,
        },
    ) + "@"@ + ou(u.node_id, ""@) + " | "@ + ou(u.nom, ""@) + " | "@ + ou(u.pub_key, ""@) + " | "@ + ou(
        u.updated_at,
        ""@,
    ) + "\n"@
}

/// Lignes des nœuds, dans l'ordre.
pub open spec fn lignes_pairs(p: Seq<PairAnnuaire>) -> Seq<char>
    decreases p.len(),
{
    if p.len() == 0 { Seq::empty() } else { lignes_pairs(p.drop_last()) + ligne_pair(p.last()) }
}

/// Lignes des utilisateurs, dans l'ordre.
pub open spec fn lignes_utilisateurs(u: Seq<UtilisateurAnnuaire>) -> Seq<char>
    decreases u.len(),
{
    if u.len() == 0 { Seq::empty() } else { lignes_utilisateurs(u.drop_last()) + ligne_utilisateur(u.last()) }
}

/// Sorte d'annuaire : complet, ou nouveautés des dernières 24 h.
#[derive(PartialEq, Eq, Structural, Clone, Copy, Debug)]
pub enum SorteAnnuaire {
    Complet,
    Nouveautes,
}

/// En-tête d'un annuaire daté de `now`, jusqu'à l'en-tête des nœuds.
pub open spec fn entete(sorte: SorteAnnuaire, now: Seq<char>) -> Seq<char> {
    match sorte {
        SorteAnnuaire::Complet => "# VEX AnonNet — Annuaire des nœuds\n# Généré le "@ + now
            + "\n# Ce fichier est répliqué entre tous les nœuds du réseau.\n# Les IPs réelles sont anonymisées — seule l'adresse Tor ou ANONYME est visible.\n\n[NODES]\n# NODE_ID | VEX_URL | TOR_OU_ANONYME | PUB_KEY | STATUT | VU_LE | VERSION\n"@,
        SorteAnnuaire::Nouveautes => "# VEX AnonNet — Nouveautés (dernières 24h)\n# "@ + now
            + "\n\n[NODES]\n# NODE_ID | VEX_URL | TOR_OU_ANONYME | PUB_KEY | STATUT | VU_LE | VERSION\n"@,
    }
}

/// Texte signé d'un annuaire : en-tête, nœuds, utilisateurs.
pub open spec fn corps_annuaire(sorte: SorteAnnuaire, now: Seq<char>, p: Seq<PairAnnuaire>, u: Seq<UtilisateurAnnuaire>) -> Seq<char> {
    entete(sorte, now) + lignes_pairs(p) + "\n[USERS]\n# USER_ID@NODE_ID | NOM | PUB_KEY | MIS_A_JOUR\n"@
        + lignes_utilisateurs(u)
}

/// Annuaire complet : le corps suivi de sa signature par le nœud
/// (`[SIGNATURE]`, puis `NODE_ID:signature`).
pub open spec fn annuaire(
    sorte: SorteAnnuaire,
    now: Seq<char>,
    p: Seq<PairAnnuaire>,
    u: Seq<UtilisateurAnnuaire>,
    node_id: Seq<char>,
    cle: Seq<u8>,
) -> Seq<char> {
    let corps = corps_annuaire(sorte, now, p, u);
    corps + "\n[SIGNATURE]\n"@ + node_id + ":"@ + signature_b64(cle, vstd::utf8::encode_utf8(corps)) + "\n"@
}

fn ajouter_ligne_pair(o: &mut Vec<char>, p: &PairAnnuaire)
    ensures
        final(o)@ == old(o)@ + ligne_pair(*p),
{
    let ghost a = o@;
    let n = texte_ou_defaut(&p.node_id, "");
    let u = texte_ou_defaut(&p.vex_url, "");
    let tor = texte_ou_defaut(&p.tor_addr, "");
    let t = if tor.len() == 0 { caracteres("ANONYME") } else { tor };
    let k = texte_ou_defaut(&p.pub_key, "");
    let st = texte_ou_defaut(&p.status, "offline");
    let vu = texte_ou_defaut(&p.last_seen, "");
    let v = texte_ou_defaut(&p.version, "?");
    let sep = caracteres(" | ");
    let fin = caracteres("\n");
    let ghost attendu = n@ + sep@ + u@ + sep@ + t@ + sep@ + k@ + sep@ + st@ + sep@ + vu@ + sep@ + v@ + fin@;
    assert(attendu == ligne_pair(*p));
    crate::texte::ajouter_car(o, &n);
    crate::texte::ajouter_car(o, &sep);
    crate::texte::ajouter_car(o, &u);
    crate::texte::ajouter_car(o, &sep);
    crate::texte::ajouter_car(o, &t);
    crate::texte::ajouter_car(o, &sep);
    crate::texte::ajouter_car(o, &k);
    crate::texte::ajouter_car(o, &sep);
    crate::texte::ajouter_car(o, &st);
    crate::texte::ajouter_car(o, &sep);
    crate::texte::ajouter_car(o, &vu);
    crate::texte::ajouter_car(o, &sep);
    crate::texte::ajouter_car(o, &v);
    crate::texte::ajouter_car(o, &fin);
    assert(o@ =~= a + attendu);
}

fn ajouter_ligne_utilisateur(o: &mut Vec<char>, u: &UtilisateurAnnuaire)
    ensures
        final(o)@ == old(o)@ + ligne_utilisateur(*u),
{
    let ghost a = o@;
    let uid: i64 = match u.user_id {
        Some(n) => n,
        None => 0,
    };
    ajouter_decimal_signe(o, uid);
    ajouter(o, "@");
    crate::texte::ajouter_car(o, &texte_ou_defaut(&u.node_id, ""));
    ajouter(o, " | ");
    crate::texte::ajouter_car(o, &texte_ou_defaut(&u.nom, ""));
    ajouter(o, " | ");
    crate::texte::ajouter_car(o, &texte_ou_defaut(&u.pub_key, ""));
    ajouter(o, " | ");
    crate::texte::ajouter_car(o, &texte_ou_defaut(&u.updated_at, ""));
    ajouter(o, "\n");
    assert(o@ =~= a + ligne_utilisateur(*u));
}

/// Écrit l'annuaire texte répliqué entre les nœuds et le signe.
pub fn generer_annuaire(
    sorte: SorteAnnuaire,
    now: &str,
    pairs: &[PairAnnuaire],
    utilisateurs: &[UtilisateurAnnuaire],
    node_id: &str,
    cle: &[u8; 32],
) -> (r: String)
    ensures
        r@ == annuaire(sorte, now@, pairs@, utilisateurs@, node_id@, cle@),
{
    let mut o: Vec<char> = Vec::new();
    match sorte {
        SorteAnnuaire::Complet => {
            ajouter(&mut o, "# VEX AnonNet — Annuaire des nœuds\n# Généré le ");
            ajouter(&mut o, now);
            ajouter(
                &mut o,
                "\n# Ce fichier est répliqué entre tous les nœuds du réseau.\n# Les IPs réelles sont anonymisées — seule l'adresse Tor ou ANONYME est visible.\n\n[NODES]\n# NODE_ID | VEX_URL | TOR_OU_ANONYME | PUB_KEY | STATUT | VU_LE | VERSION\n",
            );
        },
        SorteAnnuaire::Nouveautes => {
            ajouter(&mut o, "# VEX AnonNet — Nouveautés (dernières 24h)\n# ");
            ajouter(&mut o, now);
            ajouter(&mut o, "\n\n[NODES]\n# NODE_ID | VEX_URL | TOR_OU_ANONYME | PUB_KEY | STATUT | VU_LE | VERSION\n");
        },
    }
    assert(o@ =~= entete(sorte, now@));
    let ghost e = o@;
    let mut i: usize = 0;
    assert(pairs@.subrange(0, 0) =~= Seq::<PairAnnuaire>::empty());
    while i < pairs.len()
        invariant
            i <= pairs.len(),
            o@ =~= e + lignes_pairs(pairs@.subrange(0, i as int)),
        decreases pairs.len() - i,
    {
        assert(pairs@.subrange(0, i + 1).drop_last() =~= pairs@.subrange(0, i as int));
        ajouter_ligne_pair(&mut o, &pairs[i]);
        i += 1;
    }
    assert(pairs@.subrange(0, pairs@.len() as int) =~= pairs@);
    ajouter(&mut o, "\n[USERS]\n# USER_ID@NODE_ID | NOM | PUB_KEY | MIS_A_JOUR\n");
    let ghost f = o@;
    let mut j: usize = 0;
    assert(utilisateurs@.subrange(0, 0) =~= Seq::<UtilisateurAnnuaire>::empty());
    while j < utilisateurs.len()
        invariant
            j <= utilisateurs.len(),
            o@ =~= f + lignes_utilisateurs(utilisateurs@.subrange(0, j as int)),
        decreases utilisateurs.len() - j,
    {
        assert(utilisateurs@.subrange(0, j + 1).drop_last() =~= utilisateurs@.subrange(0, j as int));
        ajouter_ligne_utilisateur(&mut o, &utilisateurs[j]);
        j += 1;
    }
    assert(utilisateurs@.subrange(0, utilisateurs@.len() as int) =~= utilisateurs@);
    assert(o@ =~= corps_annuaire(sorte, now@, pairs@, utilisateurs@));
    let corps = chaine_de(&o);
    let sig = signer(cle, corps.as_str().as_bytes());
    ajouter(&mut o, "\n[SIGNATURE]\n");
    ajouter(&mut o, node_id);
    ajouter(&mut o, ":");
    ajouter(&mut o, sig.as_str());
    ajouter(&mut o, "\n");
    chaine_de(&o)
}

// ══════════════════════════════════════════════════════════════════
// Lecture d'un annuaire reçu
// ══════════════════════════════════════════════════════════════════

/// Section courante de l'annuaire lu.
#[derive(PartialEq, Eq, Structural, Clone, Copy, Debug)]
pub enum Section {
    Aucune,
    Noeuds,
    Utilisateurs,
    Signature,
}

/// Mise à jour à porter en base d'après l'annuaire d'un pair.
pub enum MajAnnuaire {
    /// Nœud en ligne : enregistré (adresse réelle inconnue).
    Pair { node_id: String, vex_url: String, tor: Option<String>, pub_key: String, version: String },
    /// Utilisateur publié.
    Utilisateur { user_id: i64, node_id: String, nom: String, pub_key: String },
}

/// Vue d'une mise à jour.
pub enum VueMaj {
    Pair(Seq<char>, Seq<char>, Option<Seq<char>>, Seq<char>, Seq<char>),
    Utilisateur(i64, Seq<char>, Seq<char>, Seq<char>),
}

/// Vue d'une mise à jour.
pub open spec fn vue_maj(m: MajAnnuaire) -> VueMaj {
    match m {
        MajAnnuaire::Pair { node_id, vex_url, tor, pub_key, version } => VueMaj::Pair(
            node_id@,
            vex_url@,
            match tor {
                Some(t) => Some(t@),
                None => None,
            },
            pub_key@,
            version@,
        ),
        MajAnnuaire::Utilisateur { user_id, node_id, nom, pub_key } => VueMaj::Utilisateur(
            user_id,
            node_id@,
            nom@,
            pub_key@,
        ),
    }
}

/// `s.splitn(n, " | ")` : au plus `n` morceaux, le dernier gardant le reste.
pub open spec fn coupe_n(s: Seq<char>, n: nat) -> Seq<Seq<char>>
    decreases n,
{
    let i = premier_motif(s, " | "@);
    if n <= 1 || i < 0 {
        seq![s]
    } else {
        proof {
            lemme_premier_motif(s, " | "@);
        }
        seq![s.subrange(0, i)] + coupe_n(s.subrange(i + 3, s.len() as int), (n - 1) as nat)
    }
}

/// `s.splitn(n, " | ")`.
pub fn couper_n(s: &[char], n: usize) -> (r: Vec<Vec<char>>)
    ensures
        vues(r@) == coupe_n(s@, n as nat),
    decreases n,
{
    let sep = caracteres(" | ");
    proof {
        reveal_strlit(" | ");
        lemme_premier_motif(s@, " | "@);
    }
    let i = trouver_motif(s, &sep);
    let mut r: Vec<Vec<char>> = Vec::new();
    if n <= 1 || i.is_none() {
        r.push(tranche(s, 0, s.len()));
        assert(s@.subrange(0, s@.len() as int) =~= s@);
        assert(vues(r@) =~= seq![s@]);
        return r;
    }
    let i = i.unwrap();
    assert(i + 3 <= s@.len());
    r.push(tranche(s, 0, i));
    let reste = tranche(s, i + 3, s.len());
    let suite = couper_n(&reste, n - 1);
    let ghost a = vues(r@);
    let mut suite = suite;
    r.append(&mut suite);
    assert(vues(r@) =~= coupe_n(s@, n as nat));
    r
}

/// Traitement d'une ligne (rognée) dans la section courante : nouvelle
/// section et mise à jour éventuelle. Les lignes vides ou de commentaire
/// sont ignorées ; un nœud n'est retenu que s'il est `online`.
pub open spec fn ligne_lue(sec: Section, brut: Seq<char>) -> (Section, Option<VueMaj>) {
    let l = rogner(brut);
    if l.len() == 0 || l[0] == '#' {
        (sec, None)
    } else if l == "[NODES]"@ {
        (Section::Noeuds, None)
    } else if l == "[USERS]"@ {
        (Section::Utilisateurs, None)
    } else if l == "[SIGNATURE]"@ {
        (Section::Signature, None)
    } else {
        match sec {
            Section::Noeuds => {
                let p = coupe_n(l, 7);
                if p.len() < 7 || p[4] != "online"@ {
                    (sec, None)
                } else {
                    (sec, Some(VueMaj::Pair(p[0], p[1], if p[2] == "ANONYME"@ { None } else { Some(p[2]) }, p[3], p[6])))
                }
            },
            Section::Utilisateurs => {
                let p = coupe_n(l, 4);
                let j = crate::texte::premier(p[0], '@');
                if p.len() < 3 || j < 0 {
                    (sec, None)
                } else {
                    (
                        sec,
                        Some(
                            VueMaj::Utilisateur(
                                match i64_ecrit(p[0].subrange(0, j)) {
                                    Some(n) => n,
                                    None => 0,
                                },
                                p[0].subrange(j + 1, p[0].len() as int),
                                p[1],
                                p[2],
                            ),
                        ),
                    )
                }
            },
            _ => (sec, None),
        }
    }
}

/// Lecture des lignes dans l'ordre : section finale et mises à jour.
pub open spec fn lignes_lues(l: Seq<Seq<char>>) -> (Section, Seq<VueMaj>)
    decreases l.len(),
{
    if l.len() == 0 {
        (Section::Aucune, Seq::empty())
    } else {
        let (sec, m) = lignes_lues(l.drop_last());
        let (sec2, o) = ligne_lue(sec, l.last());
        (
            sec2,
            match o {
                Some(x) => m.push(x),
                None => m,
            },
        )
    }
}

/// Mises à jour tirées d'un annuaire texte, dans l'ordre des lignes.
pub open spec fn fusion(texte: Seq<char>) -> Seq<VueMaj> {
    lignes_lues(decouper(texte, '\n')).1
}

fn lire_ligne(sec: Section, brut: &[char]) -> (r: (Section, Option<MajAnnuaire>))
    ensures
        r.0 == ligne_lue(sec, brut@).0,
        match r.1 {
            Some(m) => ligne_lue(sec, brut@).1 == Some(vue_maj(m)),
            None => ligne_lue(sec, brut@).1 is None,
        },
{
    let l = rogne(brut);
    if l.len() == 0 || l[0] == '#' {
        return (sec, None);
    }
    if egale_lit(&l, "[NODES]") {
        return (Section::Noeuds, None);
    }
    if egale_lit(&l, "[USERS]") {
        return (Section::Utilisateurs, None);
    }
    if egale_lit(&l, "[SIGNATURE]") {
        return (Section::Signature, None);
    }
    match sec {
        Section::Noeuds => {
            let p = couper_n(&l, 7);
            let ghost vp = vues(p@);
            if p.len() < 7 {
                return (sec, None);
            }
            assert(vp[4] == p@[4]@);
            if !egale_lit(&p[4], "online") {
                return (sec, None);
            }
            assert(vp[0] == p@[0]@ && vp[1] == p@[1]@ && vp[2] == p@[2]@ && vp[3] == p@[3]@ && vp[6] == p@[6]@);
            let tor = if egale_lit(&p[2], "ANONYME") { None } else { Some(chaine_de(&p[2])) };
            (
                sec,
                Some(
                    MajAnnuaire::Pair {
                        node_id: chaine_de(&p[0]),
                        vex_url: chaine_de(&p[1]),
                        tor,
                        pub_key: chaine_de(&p[3]),
                        version: chaine_de(&p[6]),
                    },
                ),
            )
        },
        Section::Utilisateurs => {
            let p = couper_n(&l, 4);
            let ghost vp = vues(p@);
            assert(vp.len() >= 1) by {
                reveal_with_fuel(coupe_n, 1);
            }
            assert(vp[0] == p@[0]@);
            if p.len() < 3 {
                return (sec, None);
            }
            let j = match crate::texte::trouver(&p[0], '@') {
                Some(j) => j,
                None => return (sec, None),
            };
            proof {
                crate::texte::lemme_premier(p@[0]@, '@');
            }
            assert(vp[1] == p@[1]@ && vp[2] == p@[2]@);
            let id = tranche(&p[0], 0, j);
            let user_id: i64 = match analyser_i64(&id) {
                Some(n) => n,
                None => 0,
            };
            let noeud = tranche(&p[0], j + 1, p[0].len());
            (
                sec,
                Some(
                    MajAnnuaire::Utilisateur {
                        user_id,
                        node_id: chaine_de(&noeud),
                        nom: chaine_de(&p[1]),
                        pub_key: chaine_de(&p[2]),
                    },
                ),
            )
        },
        _ => (sec, None),
    }
}

/// Lit l'annuaire texte reçu d'un pair : mises à jour à porter en base,
/// dans l'ordre des lignes.
pub fn fusionner_annuaire(texte: &str) -> (r: Vec<MajAnnuaire>)
    ensures
        r@.map_values(|m: MajAnnuaire| vue_maj(m)) == fusion(texte@),
{
    let c = caracteres(texte);
    let lignes = decoupe(&c, '\n');
    let ghost vl = vues(lignes@);
    let mut sec = Section::Aucune;
    let mut r: Vec<MajAnnuaire> = Vec::new();
    let mut i: usize = 0;
    assert(vl.subrange(0, 0) =~= Seq::<Seq<char>>::empty());
    while i < lignes.len()
        invariant
            i <= lignes.len(),
            vl == vues(lignes@),
            vl == decouper(texte@, '\n'),
            sec == lignes_lues(vl.subrange(0, i as int)).0,
            r@.map_values(|m: MajAnnuaire| vue_maj(m)) =~= lignes_lues(vl.subrange(0, i as int)).1,
        decreases lignes.len() - i,
    {
        assert(vl.subrange(0, i + 1).drop_last() =~= vl.subrange(0, i as int));
        assert(vl[i as int] == lignes@[i as int]@);
        let (s2, o) = lire_ligne(sec, &lignes[i]);
        match o {
            Some(m) => {
                let ghost a = r@.map_values(|m: MajAnnuaire| vue_maj(m));
                let ghost vm = vue_maj(m);
                r.push(m);
                assert(r@.map_values(|m: MajAnnuaire| vue_maj(m)) =~= a.push(vm));
            },
            None => {},
        }
        sec = s2;
        i += 1;
    }
    assert(vl.subrange(0, lignes.len() as int) =~= vl);
    r
}

// ══════════════════════════════════════════════════════════════════
// API d'administration
// ══════════════════════════════════════════════════════════════════

/// Action demandée à l'API d'administration P2P.
#[derive(PartialEq, Eq, Structural, Clone, Copy, Debug)]
pub enum ActionAdminP2p {
    /// `/p2p` : tableau de bord du nœud.
    Tableau,
    /// `/p2p/peers` : pairs connus.
    Pairs,
    /// `/p2p/users` : utilisateurs publiés.
    Utilisateurs,
    /// `/p2p/annuaire` : texte de l'annuaire.
    Annuaire,
    /// `/p2p/sync_now` : synchronisation immédiate avec l'amorçage.
    SyncMaintenant,
    /// `/p2p/kick` : suppression du pair `peer_id` (0 s'il est illisible).
    Exclure { peer_id: i64 },
    /// `/p2p/transfers` : transferts de l'utilisateur s'il est désigné
    /// (identifiant strictement positif), sinon les 100 derniers.
    Transferts { user_id: Option<i64> },
    Inconnue,
}

/// Entier du paramètre `k` (`parse::<i64>`), 0 s'il manque ou est illisible.
pub open spec fn param_entier(p: Map<Seq<char>, Seq<char>>, k: Seq<char>) -> i64 {
    if p.contains_key(k) {
        match i64_ecrit(p[k]) {
            Some(n) => n,
            None => 0,
        }
    } else {
        0
    }
}

/// Action de l'API d'administration P2P pour la sous-route `sub` et les
/// paramètres du corps.
pub open spec fn action_admin(sub: Seq<char>, body: Map<Seq<char>, Seq<char>>) -> ActionAdminP2p {
    if sub == "/p2p"@ {
        ActionAdminP2p::Tableau
    } else if sub == "/p2p/peers"@ {
        ActionAdminP2p::Pairs
    } else if sub == "/p2p/users"@ {
        ActionAdminP2p::Utilisateurs
    } else if sub == "/p2p/annuaire"@ {
        ActionAdminP2p::Annuaire
    } else if sub == "/p2p/sync_now"@ {
        ActionAdminP2p::SyncMaintenant
    } else if sub == "/p2p/kick"@ {
        ActionAdminP2p::Exclure { peer_id: param_entier(body, "peer_id"@) }
    } else if sub == "/p2p/transfers"@ {
        let u = param_entier(body, "user_id"@);
        ActionAdminP2p::Transferts { user_id: if u > 0 { Some(u) } else { None } }
    } else {
        ActionAdminP2p::Inconnue
    }
}

fn lire_entier(body: &crate::utils::Parametres, k: &str) -> (r: i64)
    ensures
        r == param_entier(body@, k@),
{
    match body.get(k) {
        Some(v) => match analyser_i64(&caracteres(v.as_str())) {
            Some(n) => n,
            None => 0,
        },
        None => 0,
    }
}

/// Aiguillage de l'API d'administration P2P (voir `action_admin`) ; les
/// lectures et écritures en base qui suivent sont faites par l'appelant.
pub fn admin_handle_api(sub: &str, body: &crate::utils::Parametres) -> (r: ActionAdminP2p)
    ensures
        r == action_admin(sub@, body@),
{
    let c = caracteres(sub);
    if egale_lit(&c, "/p2p") {
        ActionAdminP2p::Tableau
    } else if egale_lit(&c, "/p2p/peers") {
        ActionAdminP2p::Pairs
    } else if egale_lit(&c, "/p2p/users") {
        ActionAdminP2p::Utilisateurs
    } else if egale_lit(&c, "/p2p/annuaire") {
        ActionAdminP2p::Annuaire
    } else if egale_lit(&c, "/p2p/sync_now") {
        ActionAdminP2p::SyncMaintenant
    } else if egale_lit(&c, "/p2p/kick") {
        ActionAdminP2p::Exclure { peer_id: lire_entier(body, "peer_id") }
    } else if egale_lit(&c, "/p2p/transfers") {
        let u = lire_entier(body, "user_id");
        ActionAdminP2p::Transferts { user_id: if u > 0 { Some(u) } else { None } }
    } else {
        ActionAdminP2p::Inconnue
    }
}

/// Nombre de statuts `online`.
pub open spec fn nb_en_ligne(s: Seq<Option<String>>) -> nat
    decreases s.len(),
{
    if s.len() == 0 {
        0
    } else {
        nb_en_ligne(s.drop_last()) + match s.last() {
            Some(x) => if x@ == "online"@ { 1nat } else { 0nat },
            None => 0nat,
        }
    }
}

/// Nombre de pairs en ligne, d'après leurs statuts.
pub fn pairs_en_ligne(statuts: &[Option<String>]) -> (n: usize)
    ensures
        n == nb_en_ligne(statuts@),
{
    let mut n: usize = 0;
    let mut i: usize = 0;
    while i < statuts.len()
        invariant
            i <= statuts.len(),
            n == nb_en_ligne(statuts@.subrange(0, i as int)),
            n <= i,
        decreases statuts.len() - i,
    {
        assert(statuts@.subrange(0, i + 1).drop_last() =~= statuts@.subrange(0, i as int));
        match &statuts[i] {
            Some(x) => if egale_lit(&caracteres(x.as_str()), "online") {
                n += 1;
            },
            None => {},
        }
        i += 1;
    }
    assert(statuts@.subrange(0, statuts@.len() as int) =~= statuts@);
    n
}

// ══════════════════════════════════════════════════════════════════
// Requêtes entre nœuds
// ══════════════════════════════════════════════════════════════════

/// Route d'une requête P2P.
#[derive(PartialEq, Eq, Structural, Clone, Copy, Debug)]
pub enum RouteP2p {
    Ping,
    Annuaire,
    Nouveautes,
    Enregistrer,
    Sync,
    InitTransfert,
    Morceau,
    EtatTransfert,
    Inconnue,
}

/// Route désignée par le chemin (sans la requête `?…`).
pub open spec fn route_p2p_de(c: Seq<char>) -> RouteP2p {
    if c == "/p2p/ping"@ {
        RouteP2p::Ping
    } else if c == "/p2p/annuaire"@ || c == "/neut/annuaire"@ {
        RouteP2p::Annuaire
    } else if c == "/p2p/nouveautes"@ || c == "/neut/nouveautes"@ {
        RouteP2p::Nouveautes
    } else if c == "/p2p/register"@ || c == "/neut/register"@ {
        RouteP2p::Enregistrer
    } else if c == "/p2p/sync"@ || c == "/neut/sync"@ {
        RouteP2p::Sync
    } else if c == "/p2p/transfer/init"@ {
        RouteP2p::InitTransfert
    } else if c == "/p2p/transfer/chunk"@ {
        RouteP2p::Morceau
    } else if c == "/p2p/transfer/status"@ {
        RouteP2p::EtatTransfert
    } else {
        RouteP2p::Inconnue
    }
}

/// Route d'une requête P2P d'URL `url` (voir `route_p2p_de`).
pub fn route_p2p(url: &str) -> (r: RouteP2p)
    ensures
        r == route_p2p_de(decouper(url@, '?')[0]),
{
    let u = caracteres(url);
    let m = decoupe(&u, '?');
    proof {
        crate::texte::lemme_decouper_non_vide(u@, '?');
        assert(vues(m@)[0] == m@[0]@);
    }
    let c = &m[0];
    if egale_lit(c, "/p2p/ping") {
        RouteP2p::Ping
    } else if egale_lit(c, "/p2p/annuaire") || egale_lit(c, "/neut/annuaire") {
        RouteP2p::Annuaire
    } else if egale_lit(c, "/p2p/nouveautes") || egale_lit(c, "/neut/nouveautes") {
        RouteP2p::Nouveautes
    } else if egale_lit(c, "/p2p/register") || egale_lit(c, "/neut/register") {
        RouteP2p::Enregistrer
    } else if egale_lit(c, "/p2p/sync") || egale_lit(c, "/neut/sync") {
        RouteP2p::Sync
    } else if egale_lit(c, "/p2p/transfer/init") {
        RouteP2p::InitTransfert
    } else if egale_lit(c, "/p2p/transfer/chunk") {
        RouteP2p::Morceau
    } else if egale_lit(c, "/p2p/transfer/status") {
        RouteP2p::EtatTransfert
    } else {
        RouteP2p::Inconnue
    }
}

/// Refus d'une requête P2P.
#[derive(PartialEq, Eq, Structural, Clone, Copy, Debug)]
pub enum RefusP2p {
    ChampsManquants,
    SignatureInvalide,
    NoeudInconnu,
    SignatureMorceauInvalide,
    DonneesInvalides,
    HashInvalide,
    TransfertManquant,
}

impl RefusP2p {
    /// Message d'erreur renvoyé au pair.
    pub fn message(&self) -> (r: &'static str)
        ensures
            r@ == match *self {
                RefusP2p::ChampsManquants => "Champs manquants"@,
                RefusP2p::SignatureInvalide => "Signature invalide"@,
                RefusP2p::NoeudInconnu => "Nœud émetteur inconnu"@,
                RefusP2p::SignatureMorceauInvalide => "Signature chunk invalide"@,
                RefusP2p::DonneesInvalides => "Données invalides"@,
                RefusP2p::HashInvalide => "Hash chunk invalide"@,
                RefusP2p::TransfertManquant => "transfer_id manquant"@,
            },
    {
        match self {
            RefusP2p::ChampsManquants => "Champs manquants",
            RefusP2p::SignatureInvalide => "Signature invalide",
            RefusP2p::NoeudInconnu => "Nœud émetteur inconnu",
            RefusP2p::SignatureMorceauInvalide => "Signature chunk invalide",
            RefusP2p::DonneesInvalides => "Données invalides",
            RefusP2p::HashInvalide => "Hash chunk invalide",
            RefusP2p::TransfertManquant => "transfer_id manquant",
        }
    }
}

/// Texte du paramètre `k`, vide s'il manque.
pub open spec fn param_texte(p: Map<Seq<char>, Seq<char>>, k: Seq<char>) -> Seq<char> {
    if p.contains_key(k) { p[k] } else { Seq::empty() }
}

fn lire_texte(p: &crate::utils::Parametres, k: &str) -> (r: String)
    ensures
        r@ == param_texte(p@, k@),
{
    match p.get(k) {
        Some(v) => chaine_de(&caracteres(v.as_str())),
        None => chaine_de(&Vec::new()),
    }
}

/// Nœud qui demande son enregistrement.
pub struct PairEnregistre {
    pub node_id: String,
    pub vex_url: String,
    pub pub_key: String,
    pub version: String,
    /// Port P2P annoncé (7700 s'il est absent ou illisible).
    pub port: u16,
    pub tor_addr: Option<String>,
}

/// Port annoncé : entier de 0 à 65535, 7700 à défaut.
pub open spec fn port_annonce(p: Map<Seq<char>, Seq<char>>) -> int {
    if p.contains_key("port"@) {
        match naturel_borne(p["port"@], 65535) {
            Some(n) => n as int,
            None => 7700,
        }
    } else {
        7700
    }
}

/// Enregistrement accepté : identifiant et clé publique non vides, et
/// signature valide de l'identifiant par cette clé.
pub open spec fn enregistrement_accepte(p: Map<Seq<char>, Seq<char>>) -> Result<(), RefusP2p> {
    let id = param_texte(p, "node_id"@);
    let cle = param_texte(p, "pub_key"@);
    if id.len() == 0 || cle.len() == 0 {
        Err(RefusP2p::ChampsManquants)
    } else if !signature_valide(cle, vstd::utf8::encode_utf8(id), param_texte(p, "sig"@)) {
        Err(RefusP2p::SignatureInvalide)
    } else {
        Ok(())
    }
}

/// Contrôle d'une demande d'enregistrement (voir `enregistrement_accepte`) ;
/// le nœud lu, dont l'adresse réelle n'est pas publiée.
pub fn controler_enregistrement(body: &crate::utils::Parametres) -> (r: Result<PairEnregistre, RefusP2p>)
    ensures
        match r {
            Ok(e) => {
                &&& enregistrement_accepte(body@) is Ok
                &&& e.node_id@ == param_texte(body@, "node_id"@)
                &&& e.vex_url@ == param_texte(body@, "vex_url"@)
                &&& e.pub_key@ == param_texte(body@, "pub_key"@)
                &&& e.version@ == param_texte(body@, "version"@)
                &&& e.port as int == port_annonce(body@)
                &&& match e.tor_addr {
                    Some(t) => body@.contains_key("tor_addr"@) && t@ == body@["tor_addr"@],
                    None => !body@.contains_key("tor_addr"@),
                }
            },
            Err(x) => enregistrement_accepte(body@) == Err::<(), RefusP2p>(x),
        },
{
    let node_id = lire_texte(body, "node_id");
    let pub_key = lire_texte(body, "pub_key");
    let sig = lire_texte(body, "sig");
    if caracteres(node_id.as_str()).len() == 0 || caracteres(pub_key.as_str()).len() == 0 {
        return Err(RefusP2p::ChampsManquants);
    }
    if !verifier_signature(pub_key.as_str(), node_id.as_str().as_bytes(), sig.as_str()) {
        return Err(RefusP2p::SignatureInvalide);
    }
    proof {
        reveal_strlit("port");
    }
    let port: u16 = match body.get("port") {
        Some(v) => match analyser_naturel(&caracteres(v.as_str()), 65535) {
            Some(n) => n as u16,
            None => 7700,
        },
        None => 7700,
    };
    let tor_addr = match body.get("tor_addr") {
        Some(t) => Some(chaine_de(&caracteres(t.as_str()))),
        None => None,
    };
    Ok(PairEnregistre {
        node_id,
        vex_url: lire_texte(body, "vex_url"),
        pub_key,
        version: lire_texte(body, "version"),
        port,
        tor_addr,
    })
}

/// Message signé pour le morceau `idx` du transfert `tid` : `tid:idx`.
pub open spec fn message_morceau(tid: Seq<char>, idx: nat) -> Seq<char> {
    tid + ":"@ + decimal(idx)
}

/// Morceau accepté : signature valide du message par le nœud émetteur s'il
/// est connu (sinon pas de contrôle de signature, comme à la réception),
/// données en base64 standard, SHA-256 hexadécimal égal au hash annoncé ;
/// ses octets.
pub open spec fn morceau_accepte(
    tid: Seq<char>,
    idx: nat,
    data_b64: Seq<char>,
    hash: Seq<char>,
    sig: Seq<char>,
    cle_emetteur: Option<Seq<char>>,
) -> Result<Seq<u8>, RefusP2p> {
    if tid.len() == 0 {
        Err(RefusP2p::TransfertManquant)
    } else if cle_emetteur is Some && !signature_valide(
        cle_emetteur->0,
        vstd::utf8::encode_utf8(message_morceau(tid, idx)),
        sig,
    ) {
        Err(RefusP2p::SignatureMorceauInvalide)
    } else {
        match crate::crypto::base64_standard(data_b64) {
            None => Err(RefusP2p::DonneesInvalides),
            Some(d) => if hex_octets(crate::crypto::sha256_spec(d)) != hash {
                Err(RefusP2p::HashInvalide)
            } else {
                Ok(d)
            },
        }
    }
}

/// Contrôle d'un morceau reçu (voir `morceau_accepte`). `cle_emetteur` est
/// la clé publique du nœud émetteur du transfert, s'il est connu ; le
/// transfert lui-même a été trouvé par l'appelant.
pub fn controler_morceau(
    tid: &str,
    idx: usize,
    data_b64: &str,
    hash: &str,
    sig: &str,
    cle_emetteur: Option<&str>,
) -> (r: Result<Vec<u8>, RefusP2p>)
    ensures
        match r {
            Ok(d) => morceau_accepte(tid@, idx as nat, data_b64@, hash@, sig@, match cle_emetteur {
                Some(k) => Some(k@),
                None => None,
            }) == Ok::<Seq<u8>, RefusP2p>(d@),
            Err(x) => morceau_accepte(tid@, idx as nat, data_b64@, hash@, sig@, match cle_emetteur {
                Some(k) => Some(k@),
                None => None,
            }) == Err::<Seq<u8>, RefusP2p>(x),
        },
{
    if caracteres(tid).len() == 0 {
        return Err(RefusP2p::TransfertManquant);
    }
    match cle_emetteur {
        Some(k) => {
            let mut m: Vec<char> = Vec::new();
            ajouter(&mut m, tid);
            ajouter(&mut m, ":");
            ajouter_decimal(&mut m, idx as u128);
            let msg = chaine_de(&m);
            if !verifier_signature(k, msg.as_str().as_bytes(), sig) {
                return Err(RefusP2p::SignatureMorceauInvalide);
            }
        },
        None => {},
    }
    let d = match decoder_base64_standard(data_b64) {
        Some(d) => d,
        None => return Err(RefusP2p::DonneesInvalides),
    };
    let h = hex_encode(&sha256(&d));
    if !egales(&caracteres(h.as_str()), &caracteres(hash)) {
        return Err(RefusP2p::HashInvalide);
    }
    Ok(d)
}

/// Le transfert est complet quand tous ses morceaux sont arrivés.
pub fn transfert_complet(chunks_ok: i64, chunks_total: i64) -> (r: bool)
    ensures
        r == (chunks_ok >= chunks_total),
{
    chunks_ok >= chunks_total
}

/// Octets d'un UUID de version 4 bâti sur 16 octets : version 4 dans les
/// quatre bits hauts de l'octet 6, variante RFC 4122 (`10`) dans les deux
/// bits hauts de l'octet 8.
pub open spec fn octets_uuid_v4(b: Seq<u8>) -> Seq<u8> {
    b.update(6, (b[6] & 0x0fu8) | 0x40u8).update(8, (b[8] & 0x3fu8) | 0x80u8)
}

/// Texte à tirets (8-4-4-4-12 chiffres hexadécimaux minuscules) de l'UUID
/// de version 4 bâti sur 16 octets.
pub open spec fn uuid_v4_texte(octets: Seq<u8>) -> Seq<char> {
    let o = octets_uuid_v4(octets);
    hex_octets(o.subrange(0, 4)) + seq!['-'] + hex_octets(o.subrange(4, 6)) + seq!['-'] + hex_octets(
        o.subrange(6, 8),
    ) + seq!['-'] + hex_octets(o.subrange(8, 10)) + seq!['-'] + hex_octets(o.subrange(10, 16))
}

/// `uuid::Builder::from_random_bytes(octets).into_uuid().to_string()` :
/// UUID de version 4 (`with_variant(RFC4122)` puis `with_version(Random)`
/// sur les octets donnés), écrit en hexadécimal minuscule avec ses tirets.
/// Contrat : le résultat est `uuid_v4_texte` des octets.
#[verifier::external_body]
fn uuid_depuis_octets(octets: &[u8; 16]) -> (r: String)
    ensures
        r@ == uuid_v4_texte(octets@),
{
    uuid::Builder::from_random_bytes(*octets).into_uuid().to_string()
}

/// Identifiant de transfert tiré au hasard : UUID v4 sur 16 octets du
/// générateur du système, `None` si le tirage échoue.
fn uuid_v4() -> (r: Option<String>)
    ensures
        r matches Some(t) ==> exists|b: Seq<u8>| b.len() == 16 && t@ == uuid_v4_texte(b),
{
    let b = match octets_aleatoires(16) {
        Some(b) => b,
        None => return None,
    };
    let k: [u8; 16] = [b[0], b[1], b[2], b[3], b[4], b[5], b[6], b[7], b[8], b[9], b[10], b[11], b[12], b[13], b[14], b[15]];
    assert(k@ =~= b@);
    let t = uuid_depuis_octets(&k);
    assert(k@.len() == 16 && t@ == uuid_v4_texte(k@));
    Some(t)
}

/// Entier du paramètre `k` s'il s'écrit comme un `i32`.
pub open spec fn param_i32(p: Map<Seq<char>, Seq<char>>, k: Seq<char>) -> Option<i32> {
    if p.contains_key(k) {
        match i64_ecrit(p[k]) {
            Some(v) => if i32::MIN <= v <= i32::MAX { Some(v as i32) } else { None },
            None => None,
        }
    } else {
        None
    }
}

/// Entier du paramètre `k` s'il s'écrit comme un `i64`.
pub open spec fn param_i64(p: Map<Seq<char>, Seq<char>>, k: Seq<char>) -> Option<i64> {
    if p.contains_key(k) { i64_ecrit(p[k]) } else { None }
}

/// Demande d'ouverture d'un transfert entrant.
pub struct InitTransfert {
    pub transfer_id: String,
    pub from_node: String,
    pub to_user: i64,
    pub file_name: String,
    pub file_size: i64,
    pub chunk_size: i64,
    pub chunks_total: i32,
    pub sig: String,
}

fn lire_i64(p: &crate::utils::Parametres, k: &str) -> (r: Option<i64>)
    ensures
        r == param_i64(p@, k@),
{
    match p.get(k) {
        Some(v) => analyser_i64(&caracteres(v.as_str())),
        None => None,
    }
}

/// La demande d'ouverture `r` est celle qu'écrit le corps `p` : identifiant
/// donné (sinon un UUID v4 tiré au hasard), entiers illisibles remplacés par
/// leurs valeurs par défaut (destinataire et taille 0, morceaux de 1 Mo, un
/// seul morceau).
pub open spec fn lecture_init(p: Map<Seq<char>, Seq<char>>, r: InitTransfert) -> bool {
    &&& if p.contains_key("transfer_id"@) {
        r.transfer_id@ == p["transfer_id"@]
    } else {
        exists|b: Seq<u8>| b.len() == 16 && r.transfer_id@ == uuid_v4_texte(b)
    }
    &&& r.from_node@ == param_texte(p, "from_node"@)
    &&& r.to_user == (match param_i64(p, "to_user"@) {
        Some(v) => v,
        None => 0,
    })
    &&& r.file_name@ == param_texte(p, "file_name"@)
    &&& r.file_size == (match param_i64(p, "file_size"@) {
        Some(v) => v,
        None => 0,
    })
    &&& r.chunk_size == (match param_i64(p, "chunk_size"@) {
        Some(v) => v,
        None => 1048576,
    })
    &&& r.chunks_total == (match param_i32(p, "chunks_total"@) {
        Some(v) => v,
        None => 1,
    })
    &&& r.sig@ == param_texte(p, "sig"@)
}

/// Demande d'ouverture lue du corps (voir `lecture_init`). `None` seulement
/// s'il faut tirer un identifiant et que le générateur du système échoue.
pub fn lire_init_transfert(body: &crate::utils::Parametres) -> (r: Option<InitTransfert>)
    ensures
        body@.contains_key("transfer_id"@) ==> r is Some,
        r matches Some(x) ==> lecture_init(body@, x),
{
    proof {
        reveal_strlit("transfer_id");
        reveal_strlit("chunks_total");
    }
    let transfer_id = match body.get("transfer_id") {
        Some(t) => chaine_de(&caracteres(t.as_str())),
        None => match uuid_v4() {
            Some(t) => t,
            None => return None,
        },
    };
    let chunks_total: i32 = match lire_i64(body, "chunks_total") {
        Some(v) => if -2147483648 <= v && v <= 2147483647 { v as i32 } else { 1 },
        None => 1,
    };
    Some(InitTransfert {
        transfer_id,
        from_node: lire_texte(body, "from_node"),
        to_user: match lire_i64(body, "to_user") {
            Some(v) => v,
            None => 0,
        },
        file_name: lire_texte(body, "file_name"),
        file_size: match lire_i64(body, "file_size") {
            Some(v) => v,
            None => 0,
        },
        chunk_size: match lire_i64(body, "chunk_size") {
            Some(v) => v,
            None => 1048576,
        },
        chunks_total,
        sig: lire_texte(body, "sig"),
    })
}

/// Ouverture acceptée : nœud émetteur connu et signature valide de
/// l'identifiant du transfert par sa clé.
pub fn verifier_init_transfert(init: &InitTransfert, cle_emetteur: Option<&str>) -> (r: Result<(), RefusP2p>)
    ensures
        r == match cle_emetteur {
            None => Err::<(), RefusP2p>(RefusP2p::NoeudInconnu),
            Some(k) => if signature_valide(k@, vstd::utf8::encode_utf8(init.transfer_id@), init.sig@) {
                Ok::<(), RefusP2p>(())
            } else {
                Err(RefusP2p::SignatureInvalide)
            },
        },
{
    match cle_emetteur {
        None => Err(RefusP2p::NoeudInconnu),
        Some(k) => if verifier_signature(k, init.transfer_id.as_str().as_bytes(), init.sig.as_str()) {
            Ok(())
        } else {
            Err(RefusP2p::SignatureInvalide)
        },
    }
}

// ══════════════════════════════════════════════════════════════════
// Envoi d'un fichier
// ══════════════════════════════════════════════════════════════════

/// Morceau `idx` des données découpées en morceaux de `taille` octets
/// (`chunks`) : le dernier peut être plus court.
pub open spec fn morceau_spec(d: Seq<u8>, taille: nat, idx: nat) -> Seq<u8> {
    let debut: int = (idx * taille) as int;
    let fin: int = if debut + taille <= d.len() { debut + taille } else { d.len() as int };
    d.subrange(debut, fin)
}

/// Morceau `idx` des données (voir `morceau_spec`) ; `idx` désigne un
/// morceau existant.
pub fn morceau(d: &[u8], taille: usize, idx: usize) -> (r: Vec<u8>)
    requires
        taille > 0,
        idx * taille < d@.len(),
    ensures
        r@ == morceau_spec(d@, taille as nat, idx as nat),
{
    let n = d.len();
    assert(idx * taille < n);
    let debut = idx * taille;
    let fin = if n - debut >= taille { debut + taille } else { n };
    let mut r: Vec<u8> = Vec::new();
    let mut j = debut;
    while j < fin
        invariant
            debut <= j <= fin <= d@.len(),
            r@ == d@.subrange(debut as int, j as int),
        decreases fin - j,
    {
        r.push(d[j]);
        j += 1;
    }
    r
}

/// Morceau prêt à envoyer : données en base64, SHA-256 en hexadécimal,
/// signature de `tid:idx` par la clé du nœud.
pub struct MorceauSortant {
    pub data_b64: String,
    pub hash: String,
    pub sig: String,
}

/// Prépare l'envoi du morceau `idx` du transfert `tid`. Ce qu'un nœud
/// envoie ainsi, le nœud qui le reçoit l'accepte (`morceau_accepte`) et en
/// tire exactement les mêmes octets, dès que le transfert a un identifiant
/// et que la clé publique connue de l'émetteur est la sienne.
pub fn preparer_morceau(ns: &NodeState, tid: &str, idx: usize, donnees: &[u8]) -> (r: MorceauSortant)
    ensures
        r.data_b64@ == base64_standard_enc(donnees@),
        r.hash@ == hex_octets(crate::crypto::sha256_spec(donnees@)),
        r.sig@ == signature_b64(ns.signing_key@, vstd::utf8::encode_utf8(message_morceau(tid@, idx as nat))),
        ns.coherent() && tid@.len() > 0 ==> morceau_accepte(
            tid@,
            idx as nat,
            r.data_b64@,
            r.hash@,
            r.sig@,
            Some(base64_standard_enc(ns.verifying_key@)),
        ) == Ok::<Seq<u8>, RefusP2p>(donnees@),
{
    let data_b64 = encoder_base64_standard(donnees);
    let hash = hex_encode(&sha256(donnees));
    let mut m: Vec<char> = Vec::new();
    ajouter(&mut m, tid);
    ajouter(&mut m, ":");
    ajouter_decimal(&mut m, idx as u128);
    let msg = chaine_de(&m);
    let s = signer_ed25519(&ns.signing_key, msg.as_str().as_bytes());
    let sig = encoder_base64_standard(&s);
    let cle = encoder_base64_standard(&ns.verifying_key);
    proof {
        let k = ns.verifying_key@;
        assert(base64_standard(cle@) == Some(k));
        assert(k.len() == 32);
        assert(base64_standard(sig@) == Some(s@));
        assert(cle@ == base64_standard_enc(k));
    }
    MorceauSortant { data_b64, hash, sig }
}


/// Corps de la demande d'ouverture d'un transfert chez le destinataire :
/// identifiant, nœud émetteur, destinataire, nom, taille, taille des
/// morceaux, nombre de morceaux et signature de l'identifiant.
pub open spec fn corps_init(
    tid: Seq<char>,
    from_node: Seq<char>,
    to_user: i64,
    file_name: Seq<char>,
    file_size: nat,
    chunk_size: nat,
    n_chunks: nat,
    sig: Seq<char>,
) -> Seq<char> {
    "transfer_id="@ + encode_url(tid) + "&from_node="@ + encode_url(from_node) + "&to_user="@
        + decimal_signe(to_user as int) + "&file_name="@ + encode_url(file_name) + "&file_size="@ + decimal(
        file_size,
    ) + "&chunk_size="@ + decimal(chunk_size) + "&chunks_total="@ + decimal(n_chunks) + "&sig="@ + encode_url(sig)
}

/// Demande d'ouverture du transfert `tid`, signée par le nœud.
pub fn demande_init(
    ns: &NodeState,
    tid: &str,
    to_user: i64,
    file_name: &str,
    file_size: usize,
    chunk_size: usize,
    n_chunks: usize,
) -> (r: String)
    ensures
        r@ == corps_init(
            tid@,
            ns.node_id@,
            to_user,
            file_name@,
            file_size as nat,
            chunk_size as nat,
            n_chunks as nat,
            signature_b64(ns.signing_key@, vstd::utf8::encode_utf8(tid@)),
        ),
{
    let sig = ns.signer(tid.as_bytes());
    let mut o: Vec<char> = Vec::new();
    ajouter(&mut o, "transfer_id=");
    ajouter(&mut o, urlenc(tid).as_str());
    ajouter(&mut o, "&from_node=");
    ajouter(&mut o, urlenc(ns.node_id.as_str()).as_str());
    ajouter(&mut o, "&to_user=");
    ajouter_decimal_signe(&mut o, to_user);
    ajouter(&mut o, "&file_name=");
    ajouter(&mut o, urlenc(file_name).as_str());
    ajouter(&mut o, "&file_size=");
    ajouter_decimal(&mut o, file_size as u128);
    ajouter(&mut o, "&chunk_size=");
    ajouter_decimal(&mut o, chunk_size as u128);
    ajouter(&mut o, "&chunks_total=");
    ajouter_decimal(&mut o, n_chunks as u128);
    ajouter(&mut o, "&sig=");
    ajouter(&mut o, urlenc(sig.as_str()).as_str());
    chaine_de(&o)
}

/// Corps de l'envoi d'un morceau : identifiant, rang, données base64,
/// SHA-256 hexadécimal et signature de `tid:idx`, encodés pour un
/// formulaire.
pub open spec fn corps_morceau(tid: Seq<char>, idx: nat, m: MorceauSortant) -> Seq<char> {
    "transfer_id="@ + encode_url(tid) + "&chunk_idx="@ + decimal(idx) + "&data="@ + encode_url(m.data_b64@)
        + "&hash="@ + encode_url(m.hash@) + "&sig="@ + encode_url(m.sig@)
}

/// Corps de l'envoi du morceau `idx` (voir `preparer_morceau`).
pub fn demande_morceau(ns: &NodeState, tid: &str, idx: usize, donnees: &[u8]) -> (r: String)
    ensures
        exists|m: MorceauSortant|
            {
                &&& m.data_b64@ == base64_standard_enc(donnees@)
                &&& m.hash@ == hex_octets(crate::crypto::sha256_spec(donnees@))
                &&& m.sig@ == signature_b64(ns.signing_key@, vstd::utf8::encode_utf8(message_morceau(tid@, idx as nat)))
                &&& r@ == corps_morceau(tid@, idx as nat, m)
            },
{
    let m = preparer_morceau(ns, tid, idx, donnees);
    let mut o: Vec<char> = Vec::new();
    ajouter(&mut o, "transfer_id=");
    ajouter(&mut o, urlenc(tid).as_str());
    ajouter(&mut o, "&chunk_idx=");
    ajouter_decimal(&mut o, idx as u128);
    ajouter(&mut o, "&data=");
    ajouter(&mut o, urlenc(m.data_b64.as_str()).as_str());
    ajouter(&mut o, "&hash=");
    ajouter(&mut o, urlenc(m.hash.as_str()).as_str());
    ajouter(&mut o, "&sig=");
    ajouter(&mut o, urlenc(m.sig.as_str()).as_str());
    let r = chaine_de(&o);
    assert(r@ == corps_morceau(tid@, idx as nat, m));
    r
}

/// Où en est l'envoi des morceaux : rang du morceau en cours, essais déjà
/// échoués pour lui, nombre de morceaux à envoyer.
pub struct EnvoiMorceaux {
    pub idx: usize,
    pub echecs: u8,
    pub total: usize,
}

/// Ce que l'envoi demande ensuite.
pub enum ActionEnvoi {
    /// Envoyer (ou renvoyer) le morceau `idx`.
    Envoyer { idx: usize },
    /// Attendre `secondes` puis renvoyer le morceau `idx`.
    Reessayer { idx: usize, secondes: u64 },
    /// Tous les morceaux sont passés.
    Termine,
    /// Le morceau `idx` a échoué trois fois : le transfert est abandonné.
    Abandon { idx: usize },
}

/// Nombre de morceaux que le découpage d'un fichier de `taille` octets
/// produit réellement : aucun pour un fichier vide.
pub open spec fn morceaux_a_envoyer(taille: nat, chunk_size: nat) -> nat {
    if taille == 0 { 0 } else { morceaux_necessaires(taille, chunk_size) }
}

/// Premier pas de l'envoi des morceaux d'un fichier de `taille` octets.
pub fn debut_envoi(taille: usize, chunk_size: usize) -> (r: (EnvoiMorceaux, ActionEnvoi))
    requires
        chunk_size > 0,
        taille + (chunk_size - 1) <= usize::MAX,
    ensures
        r.0.idx == 0 && r.0.echecs == 0,
        r.0.total == morceaux_a_envoyer(taille as nat, chunk_size as nat),
        r.1 == (if r.0.total == 0 { ActionEnvoi::Termine } else { ActionEnvoi::Envoyer { idx: 0 } }),
{
    let total = if taille == 0 { 0 } else { nombre_chunks(taille, chunk_size) };
    let e = EnvoiMorceaux { idx: 0, echecs: 0, total };
    if total == 0 {
        (e, ActionEnvoi::Termine)
    } else {
        (e, ActionEnvoi::Envoyer { idx: 0 })
    }
}

/// Pas suivant de l'envoi, sachant si l'envoi du morceau en cours a réussi :
/// morceau suivant (ou fin) après un succès ; après un échec, nouvel essai
/// au bout de 2 secondes, sauf au troisième échec qui abandonne.
pub open spec fn pas_envoi(e: EnvoiMorceaux, reussi: bool) -> (EnvoiMorceaux, ActionEnvoi) {
    if reussi {
        let suivant = EnvoiMorceaux { idx: (e.idx + 1) as usize, echecs: 0, total: e.total };
        if e.idx + 1 >= e.total {
            (suivant, ActionEnvoi::Termine)
        } else {
            (suivant, ActionEnvoi::Envoyer { idx: (e.idx + 1) as usize })
        }
    } else if e.echecs >= 2 {
        (e, ActionEnvoi::Abandon { idx: e.idx })
    } else {
        (EnvoiMorceaux { idx: e.idx, echecs: (e.echecs + 1) as u8, total: e.total }, ActionEnvoi::Reessayer {
            idx: e.idx,
            secondes: 2,
        })
    }
}

/// Pas suivant de l'envoi (voir `pas_envoi`).
pub fn apres_envoi(e: &EnvoiMorceaux, reussi: bool) -> (r: (EnvoiMorceaux, ActionEnvoi))
    requires
        e.idx < e.total,
        e.echecs <= 2,
    ensures
        r == pas_envoi(*e, reussi),
        r.0.idx <= r.0.total && r.0.echecs <= 2,
{
    if reussi {
        let suivant = EnvoiMorceaux { idx: e.idx + 1, echecs: 0, total: e.total };
        if e.idx + 1 >= e.total {
            (suivant, ActionEnvoi::Termine)
        } else {
            (suivant, ActionEnvoi::Envoyer { idx: e.idx + 1 })
        }
    } else if e.echecs >= 2 {
        (EnvoiMorceaux { idx: e.idx, echecs: e.echecs, total: e.total }, ActionEnvoi::Abandon { idx: e.idx })
    } else {
        (EnvoiMorceaux { idx: e.idx, echecs: e.echecs + 1, total: e.total }, ActionEnvoi::Reessayer {
            idx: e.idx,
            secondes: 2,
        })
    }
}


/// Les `n` premiers morceaux mis bout à bout.
pub open spec fn recousu(d: Seq<u8>, taille: nat, n: nat) -> Seq<u8>
    decreases n,
{
    if n == 0 {
        Seq::empty()
    } else {
        recousu(d, taille, (n - 1) as nat) + morceau_spec(d, taille, (n - 1) as nat)
    }
}

proof fn lemme_recousu(d: Seq<u8>, t: nat, k: nat)
    requires
        t > 0,
        k == 0 || (k - 1) * t < d.len(),
    ensures
        recousu(d, t, k) == d.subrange(0, if k * t <= d.len() { (k * t) as int } else { d.len() as int }),
    decreases k,
{
    if k == 0 {
        assert(d.subrange(0, 0) =~= Seq::<u8>::empty());
    } else {
        let j = (k - 1) as nat;
        assert(j * t + t == k * t) by (nonlinear_arith)
            requires
                j == k - 1,
        ;
        if j > 0 {
            assert((j - 1) * t <= j * t) by (nonlinear_arith)
                requires
                    j > 0,
            ;
        }
        lemme_recousu(d, t, j);
        let fin: int = if k * t <= d.len() { (k * t) as int } else { d.len() as int };
        assert(d.subrange(0, (j * t) as int) + d.subrange((j * t) as int, fin) =~= d.subrange(0, fin));
    }
}

/// Envoyer un fichier ne perd ni ne répète rien : les morceaux prévus
/// (`morceaux_a_envoyer`, aucun pour un fichier vide, sinon le nombre
/// annoncé `morceaux_necessaires`), pris dans l'ordre des rangs et mis bout
/// à bout, redonnent exactement le fichier.
pub proof fn loi_morceaux_recousus(d: Seq<u8>, taille: nat)
    requires
        taille > 0,
    ensures
        d.len() > 0 ==> morceaux_a_envoyer(d.len(), taille) == morceaux_necessaires(d.len(), taille),
        recousu(d, taille, morceaux_a_envoyer(d.len(), taille)) == d,
{
    let n = morceaux_a_envoyer(d.len(), taille);
    if d.len() == 0 {
        assert(recousu(d, taille, 0) =~= d);
    } else {
        let l = d.len();
        assert((n - 1) * taille < l <= n * taille && n >= 1) by (nonlinear_arith)
            requires
                n == (l + taille - 1) / (taille as int),
                taille > 0,
                l > 0,
        {
            let a: int = l + taille - 1;
            let c: int = taille as int;
            assert(a == (a / c) * c + a % c);
        }
        lemme_recousu(d, taille, n);
        assert(d.subrange(0, l as int) =~= d);
    }
}

} // verus!
