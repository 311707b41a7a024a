//! Réplication de l'annuaire entre les nœuds : l'annuaire qu'écrit un nœud,
//! lu par un autre, redonne ses nœuds en ligne et ses utilisateurs.

use vstd::prelude::*;
use crate::p2p::{
    annuaire, coupe_n, corps_annuaire, entete, fusion, ligne_lue, ligne_pair, ligne_utilisateur, lignes_lues,
    lignes_pairs, lignes_utilisateurs, ou, signature_b64, PairAnnuaire, Section, SorteAnnuaire, UtilisateurAnnuaire,
    VueMaj,
};
use crate::texte::{
    avec_fin, commence_par, decimal, decimal_signe, decouper, espaces_queue, espaces_tete, est_espace, i64_ecrit,
    lemme_decimal_chiffres, lemme_decouper_lignes, lemme_espaces_queue, lemme_espaces_tete,
    lemme_premier_motif_prefixe, lemme_rogner_propre, premier, premier_motif, rogner, rogner_fin,
};

verus! {

// ══════════════════════════════════════════════════════════════════
// Lecture d'une suite de lignes
// ══════════════════════════════════════════════════════════════════

/// Lecture des lignes à partir de la section `sec` : section finale et
/// mises à jour.
pub open spec fn lire_depuis(sec: Section, l: Seq<Seq<char>>) -> (Section, Seq<VueMaj>)
    decreases l.len(),
{
    if l.len() == 0 {
        (sec, Seq::empty())
    } else {
        let (s, m) = lire_depuis(sec, l.drop_last());
        let (s2, o) = ligne_lue(s, l.last());
        (
            s2,
            match o {
                Some(x) => m.push(x),
                None => m,
            },
        )
    }
}

proof fn lemme_lignes_lues(l: Seq<Seq<char>>)
    ensures
        lignes_lues(l) == lire_depuis(Section::Aucune, l),
    decreases l.len(),
{
    if l.len() > 0 {
        lemme_lignes_lues(l.drop_last());
    }
}

proof fn lemme_lire_concat(sec: Section, a: Seq<Seq<char>>, b: Seq<Seq<char>>)
    ensures
        lire_depuis(sec, a + b) == ({
            let (s1, m1) = lire_depuis(sec, a);
            let (s2, m2) = lire_depuis(s1, b);
            (s2, m1 + m2)
        }),
    decreases b.len(),
{
    if b.len() == 0 {
        assert(a + b =~= a);
        let (s1, m1) = lire_depuis(sec, a);
        assert(m1 + Seq::<VueMaj>::empty() =~= m1);
    } else {
        assert((a + b).drop_last() =~= a + b.drop_last());
        assert((a + b).last() == b.last());
        lemme_lire_concat(sec, a, b.drop_last());
        let (s1, m1) = lire_depuis(sec, a);
        let (s2, m2) = lire_depuis(s1, b.drop_last());
        let (s3, o) = ligne_lue(s2, b.last());
        match o {
            Some(x) => {
                assert((m1 + m2).push(x) =~= m1 + m2.push(x));
            },
            None => {},
        }
    }
}

// ══════════════════════════════════════════════════════════════════
// Lignes et champs
// ══════════════════════════════════════════════════════════════════

/// Le séparateur `" | "` n'apparaît dans `f` suivi du séparateur qu'à la
/// jonction : le champ se relit tel quel.
pub open spec fn champ_libre(f: Seq<char>) -> bool {
    premier_motif(f + " | "@, " | "@) == f.len()
}

proof fn lemme_coupe(f: Seq<char>, reste: Seq<char>, n: nat)
    requires
        n >= 2,
        champ_libre(f),
    ensures
        coupe_n(f + " | "@ + reste, n) == seq![f] + coupe_n(reste, (n - 1) as nat),
{
    reveal_strlit(" | ");
    lemme_premier_motif_prefixe(f + " | "@, reste, " | "@);
    let s = f + " | "@ + reste;
    assert(s.subrange(0, f.len() as int) =~= f);
    assert(s.subrange(f.len() as int + 3, s.len() as int) =~= reste);
}

/// Un texte non vide qui ne commence pas par une espace garde son premier
/// caractère au rognage.
proof fn lemme_rogner_debut(s: Seq<char>)
    requires
        s.len() > 0,
        !est_espace(s[0]),
    ensures
        rogner(s).len() > 0,
        rogner(s)[0] == s[0],
{
    lemme_espaces_tete(s);
    assert(espaces_tete(s) == 0);
    assert(s.subrange(0, s.len() as int) =~= s);
    lemme_espaces_queue(s);
    if espaces_queue(s) == s.len() {
        assert(est_espace(s[0]));
    }
}

/// Une ligne de commentaire (commençant par `#`) ne change rien.
proof fn lemme_commentaire(sec: Section, l: Seq<char>)
    requires
        l.len() > 0,
        l[0] == '#',
    ensures
        ligne_lue(sec, l) == (sec, None::<VueMaj>),
{
    lemme_rogner_debut(l);
}

/// Une ligne vide ne change rien.
proof fn lemme_vide(sec: Section)
    ensures
        ligne_lue(sec, Seq::<char>::empty()) == (sec, None::<VueMaj>),
{
    assert(rogner(Seq::<char>::empty()).len() == 0) by {
        assert(espaces_tete(Seq::<char>::empty()) == 0);
    }
}


// ══════════════════════════════════════════════════════════════════
// Lignes des nœuds
// ══════════════════════════════════════════════════════════════════

/// Champs écrits pour un nœud, dans l'ordre.
pub open spec fn champs_pair(p: PairAnnuaire) -> Seq<Seq<char>> {
    let tor = ou(p.tor_addr, ""@);
    seq![
        ou(p.node_id, ""@),
        ou(p.vex_url, ""@),
        if tor.len() == 0 { "ANONYME"@ } else { tor },
        ou(p.pub_key, ""@),
        ou(p.status, "offline"@),
        ou(p.last_seen, ""@),
        ou(p.version, "?"@),
    ]
}

/// Ligne d'un nœud, sans son saut de ligne.
pub open spec fn texte_pair(p: PairAnnuaire) -> Seq<char> {
    let f = champs_pair(p);
    f[0] + " | "@ + f[1] + " | "@ + f[2] + " | "@ + f[3] + " | "@ + f[4] + " | "@ + f[5] + " | "@ + f[6]
}

/// Un nœud dont la ligne se relit : aucun saut de ligne, chaque champ sauf
/// le dernier libre du séparateur, un identifiant non vide qui ne commence
/// ni par une espace ni par `#`, une version non vide qui ne finit pas par
/// une espace.
pub open spec fn pair_relisible(p: PairAnnuaire) -> bool {
    let f = champs_pair(p);
    &&& !texte_pair(p).contains('\n')
    &&& forall|i: int| 0 <= i < 6 ==> champ_libre(#[trigger] f[i])
    &&& f[0].len() > 0 && !est_espace(f[0][0]) && f[0][0] != '#'
    &&& f[6].len() > 0 && !est_espace(f[6].last())
}

/// Ce qu'un nœud lu apporte : rien s'il n'est pas `online`, sinon son
/// identifiant, son adresse, son adresse Tor (aucune pour `ANONYME`), sa
/// clé et sa version.
pub open spec fn maj_pair(p: PairAnnuaire) -> Option<VueMaj> {
    let f = champs_pair(p);
    if f[4] == "online"@ {
        Some(VueMaj::Pair(f[0], f[1], if f[2] == "ANONYME"@ { None } else { Some(f[2]) }, f[3], f[6]))
    } else {
        None
    }
}

proof fn lemme_coupe_fin(a: Seq<char>, b: Seq<char>)
    requires
        champ_libre(a),
    ensures
        coupe_n(a + " | "@ + b, 2) == seq![a, b],
{
    lemme_coupe(a, b, 2);
    assert(coupe_n(b, 1) == seq![b]);
    assert(seq![a] + seq![b] =~= seq![a, b]);
}

proof fn lemme_coupe_suite(a: Seq<char>, reste: Seq<char>, n: nat, suite: Seq<Seq<char>>)
    requires
        n >= 2,
        champ_libre(a),
        coupe_n(reste, (n - 1) as nat) == suite,
    ensures
        coupe_n(a + " | "@ + reste, n) == seq![a] + suite,
{
    lemme_coupe(a, reste, n);
}

proof fn lemme_coupe7(f: Seq<Seq<char>>)
    requires
        f.len() == 7,
        forall|i: int| 0 <= i < 6 ==> champ_libre(#[trigger] f[i]),
    ensures
        coupe_n(
            f[0] + " | "@ + f[1] + " | "@ + f[2] + " | "@ + f[3] + " | "@ + f[4] + " | "@ + f[5] + " | "@ + f[6],
            7,
        ) == f,
{
    let sep = " | "@;
    assert(champ_libre(f[0]) && champ_libre(f[1]) && champ_libre(f[2]) && champ_libre(f[3]) && champ_libre(f[4])
        && champ_libre(f[5]));
    let r5 = f[5] + sep + f[6];
    let r4 = f[4] + sep + r5;
    let r3 = f[3] + sep + r4;
    let r2 = f[2] + sep + r3;
    let r1 = f[1] + sep + r2;
    lemme_coupe_fin(f[5], f[6]);
    lemme_coupe_suite(f[4], r5, 3, seq![f[5], f[6]]);
    lemme_coupe_suite(f[3], r4, 4, seq![f[4]] + seq![f[5], f[6]]);
    lemme_coupe_suite(f[2], r3, 5, seq![f[3]] + (seq![f[4]] + seq![f[5], f[6]]));
    lemme_coupe_suite(f[1], r2, 6, seq![f[2]] + (seq![f[3]] + (seq![f[4]] + seq![f[5], f[6]])));
    lemme_coupe_suite(f[0], r1, 7, seq![f[1]] + (seq![f[2]] + (seq![f[3]] + (seq![f[4]] + seq![f[5], f[6]]))));
    assert(f[0] + sep + f[1] + sep + f[2] + sep + f[3] + sep + f[4] + sep + f[5] + sep + f[6] =~= f[0] + sep + r1);
    assert(seq![f[0]] + (seq![f[1]] + (seq![f[2]] + (seq![f[3]] + (seq![f[4]] + seq![f[5], f[6]])))) =~= f);
}

proof fn lemme_coupe_pair(p: PairAnnuaire)
    requires
        pair_relisible(p),
    ensures
        coupe_n(texte_pair(p), 7) == champs_pair(p),
{
    lemme_coupe7(champs_pair(p));
}

proof fn lemme_ligne_pair(p: PairAnnuaire)
    requires
        pair_relisible(p),
    ensures
        ligne_lue(Section::Noeuds, texte_pair(p)) == (Section::Noeuds, maj_pair(p)),
{
    let f = champs_pair(p);
    let l = texte_pair(p);
    reveal_strlit(" | ");
    assert(l.len() >= 20);
    assert(l[0] == f[0][0]);
    assert(l.last() == f[6].last());
    lemme_rogner_propre(l);
    reveal_strlit("[NODES]");
    reveal_strlit("[USERS]");
    reveal_strlit("[SIGNATURE]");
    lemme_coupe_pair(p);
}

/// Lignes des nœuds, sans sauts de ligne.
pub open spec fn textes_pairs(p: Seq<PairAnnuaire>) -> Seq<Seq<char>> {
    p.map_values(|x: PairAnnuaire| texte_pair(x))
}

/// Ce qu'apportent les nœuds lus, dans l'ordre.
pub open spec fn majs_pairs(p: Seq<PairAnnuaire>) -> Seq<VueMaj>
    decreases p.len(),
{
    if p.len() == 0 {
        Seq::empty()
    } else {
        match maj_pair(p.last()) {
            Some(m) => majs_pairs(p.drop_last()).push(m),
            None => majs_pairs(p.drop_last()),
        }
    }
}

proof fn lemme_pairs(p: Seq<PairAnnuaire>)
    requires
        forall|i: int| 0 <= i < p.len() ==> pair_relisible(#[trigger] p[i]),
    ensures
        lire_depuis(Section::Noeuds, textes_pairs(p)) == (Section::Noeuds, majs_pairs(p)),
    decreases p.len(),
{
    if p.len() > 0 {
        let q = p.drop_last();
        assert forall|i: int| 0 <= i < q.len() implies pair_relisible(#[trigger] q[i]) by {
            assert(q[i] == p[i]);
        }
        lemme_pairs(q);
        let t = textes_pairs(p);
        assert(t.drop_last() =~= textes_pairs(q));
        assert(t.last() == texte_pair(p.last()));
        assert(pair_relisible(p[p.len() - 1]));
        lemme_ligne_pair(p.last());
    } else {
        assert(textes_pairs(p) =~= Seq::<Seq<char>>::empty());
    }
}

proof fn lemme_lignes_pairs(p: Seq<PairAnnuaire>)
    ensures
        lignes_pairs(p) == avec_fin(textes_pairs(p), '\n'),
    decreases p.len(),
{
    if p.len() > 0 {
        lemme_lignes_pairs(p.drop_last());
        let t = textes_pairs(p);
        assert(t.drop_last() =~= textes_pairs(p.drop_last()));
        assert(t.last() == texte_pair(p.last()));
        reveal_strlit("\n");
        assert(ligne_pair(p.last()) =~= texte_pair(p.last()) + seq!['\n']);
    } else {
        assert(textes_pairs(p) =~= Seq::<Seq<char>>::empty());
    }
}


// ══════════════════════════════════════════════════════════════════
// Lignes des utilisateurs
// ══════════════════════════════════════════════════════════════════

/// Identifiant écrit pour un utilisateur (0 s'il manque).
pub open spec fn uid_de(u: UtilisateurAnnuaire) -> i64 {
    match u.user_id {
        Some(n) => n,
        None => 0,
    }
}

/// Champs écrits pour un utilisateur, dans l'ordre.
pub open spec fn champs_utilisateur(u: UtilisateurAnnuaire) -> Seq<Seq<char>> {
    seq![
        decimal_signe(uid_de(u) as int) + "@"@ + ou(u.node_id, ""@),
        ou(u.nom, ""@),
        ou(u.pub_key, ""@),
        ou(u.updated_at, ""@),
    ]
}

/// Ligne d'un utilisateur, sans son saut de ligne.
pub open spec fn texte_utilisateur(u: UtilisateurAnnuaire) -> Seq<char> {
    let f = champs_utilisateur(u);
    f[0] + " | "@ + f[1] + " | "@ + f[2] + " | "@ + f[3]
}

/// Un utilisateur dont la ligne se relit : aucun saut de ligne, chaque
/// champ sauf le dernier libre du séparateur, une date de mise à jour non
/// vide qui ne finit pas par une espace.
pub open spec fn utilisateur_relisible(u: UtilisateurAnnuaire) -> bool {
    let f = champs_utilisateur(u);
    &&& !texte_utilisateur(u).contains('\n')
    &&& champ_libre(f[0]) && champ_libre(f[1]) && champ_libre(f[2])
    &&& f[3].len() > 0 && !est_espace(f[3].last())
}

/// Ce qu'un utilisateur lu apporte : son identifiant, son nœud, son nom et
/// sa clé.
pub open spec fn maj_utilisateur(u: UtilisateurAnnuaire) -> VueMaj {
    VueMaj::Utilisateur(uid_de(u), ou(u.node_id, ""@), ou(u.nom, ""@), ou(u.pub_key, ""@))
}

proof fn lemme_coupe4(f: Seq<Seq<char>>)
    requires
        f.len() == 4,
        champ_libre(f[0]) && champ_libre(f[1]) && champ_libre(f[2]),
    ensures
        coupe_n(f[0] + " | "@ + f[1] + " | "@ + f[2] + " | "@ + f[3], 4) == f,
{
    let sep = " | "@;
    let r2 = f[2] + sep + f[3];
    let r1 = f[1] + sep + r2;
    lemme_coupe_fin(f[2], f[3]);
    lemme_coupe_suite(f[1], r2, 3, seq![f[2], f[3]]);
    lemme_coupe_suite(f[0], r1, 4, seq![f[1]] + seq![f[2], f[3]]);
    assert(f[0] + sep + f[1] + sep + f[2] + sep + f[3] =~= f[0] + sep + r1);
    assert(seq![f[0]] + (seq![f[1]] + seq![f[2], f[3]]) =~= f);
}

proof fn lemme_chiffres_signes(n: i64)
    ensures
        decimal_signe(n as int).len() > 0,
        forall|i: int| 0 <= i < decimal_signe(n as int).len() ==> {
            let c = #[trigger] decimal_signe(n as int)[i];
            c == '-' || ('0' <= c <= '9')
        },
{
    let m: nat = if n < 0 { (-n) as nat } else { n as nat };
    lemme_decimal_chiffres(m);
    let d = decimal_signe(n as int);
    assert forall|i: int| 0 <= i < d.len() implies {
        let c = #[trigger] d[i];
        c == '-' || ('0' <= c <= '9')
    } by {
        if n < 0 && i > 0 {
            assert(d[i] == decimal(m)[i - 1]);
        }
    }
}

proof fn lemme_ligne_utilisateur(u: UtilisateurAnnuaire)
    requires
        utilisateur_relisible(u),
    ensures
        ligne_lue(Section::Utilisateurs, texte_utilisateur(u)) == (Section::Utilisateurs, Some(maj_utilisateur(u))),
{
    let f = champs_utilisateur(u);
    let l = texte_utilisateur(u);
    let d = decimal_signe(uid_de(u) as int);
    let noeud = ou(u.node_id, ""@);
    reveal_strlit(" | ");
    reveal_strlit("@");
    lemme_chiffres_signes(uid_de(u));
    assert(l.len() >= 12);
    assert(l[0] == d[0]);
    assert(l.last() == f[3].last());
    lemme_rogner_propre(l);
    reveal_strlit("[NODES]");
    reveal_strlit("[USERS]");
    reveal_strlit("[SIGNATURE]");
    lemme_coupe4(f);
    let p0 = f[0];
    assert(p0 =~= d + seq!['@'] + noeud);
    assert forall|j: int| 0 <= j < p0.len() && (d.len() < 0 || j < d.len()) implies p0[j] != '@' by {
        assert(p0[j] == d[j]);
    }
    crate::texte::lemme_premier_en(p0, '@', d.len() as int);
    assert(p0.subrange(0, d.len() as int) =~= d);
    assert(p0.subrange(d.len() as int + 1, p0.len() as int) =~= noeud);
    crate::texte::loi_relire_entier(uid_de(u));
}

/// Lignes des utilisateurs, sans sauts de ligne.
pub open spec fn textes_utilisateurs(u: Seq<UtilisateurAnnuaire>) -> Seq<Seq<char>> {
    u.map_values(|x: UtilisateurAnnuaire| texte_utilisateur(x))
}

/// Ce qu'apportent les utilisateurs lus, dans l'ordre.
pub open spec fn majs_utilisateurs(u: Seq<UtilisateurAnnuaire>) -> Seq<VueMaj> {
    u.map_values(|x: UtilisateurAnnuaire| maj_utilisateur(x))
}

proof fn lemme_utilisateurs(u: Seq<UtilisateurAnnuaire>)
    requires
        forall|i: int| 0 <= i < u.len() ==> utilisateur_relisible(#[trigger] u[i]),
    ensures
        lire_depuis(Section::Utilisateurs, textes_utilisateurs(u)) == (Section::Utilisateurs, majs_utilisateurs(u)),
    decreases u.len(),
{
    if u.len() > 0 {
        let q = u.drop_last();
        assert forall|i: int| 0 <= i < q.len() implies utilisateur_relisible(#[trigger] q[i]) by {
            assert(q[i] == u[i]);
        }
        lemme_utilisateurs(q);
        let t = textes_utilisateurs(u);
        assert(t.drop_last() =~= textes_utilisateurs(q));
        assert(t.last() == texte_utilisateur(u.last()));
        assert(utilisateur_relisible(u[u.len() - 1]));
        lemme_ligne_utilisateur(u.last());
        assert(majs_utilisateurs(u) =~= majs_utilisateurs(q).push(maj_utilisateur(u.last())));
    } else {
        assert(textes_utilisateurs(u) =~= Seq::<Seq<char>>::empty());
        assert(majs_utilisateurs(u) =~= Seq::<VueMaj>::empty());
    }
}

proof fn lemme_lignes_utilisateurs(u: Seq<UtilisateurAnnuaire>)
    ensures
        lignes_utilisateurs(u) == avec_fin(textes_utilisateurs(u), '\n'),
    decreases u.len(),
{
    if u.len() > 0 {
        lemme_lignes_utilisateurs(u.drop_last());
        let t = textes_utilisateurs(u);
        assert(t.drop_last() =~= textes_utilisateurs(u.drop_last()));
        assert(t.last() == texte_utilisateur(u.last()));
        reveal_strlit("\n");
        assert(ligne_utilisateur(u.last()) =~= texte_utilisateur(u.last()) + seq!['\n']);
    } else {
        assert(textes_utilisateurs(u) =~= Seq::<Seq<char>>::empty());
    }
}


// ══════════════════════════════════════════════════════════════════
// En-têtes, sections, signature
// ══════════════════════════════════════════════════════════════════

/// Lignes de l'en-tête d'un annuaire daté de `now`.
pub open spec fn lignes_entete(sorte: SorteAnnuaire, now: Seq<char>) -> Seq<Seq<char>> {
    match sorte {
        SorteAnnuaire::Complet => seq![
            "# VEX AnonNet — Annuaire des nœuds"@,
            "# Généré le "@ + now,
            "# Ce fichier est répliqué entre tous les nœuds du réseau."@,
            "# Les IPs réelles sont anonymisées — seule l'adresse Tor ou ANONYME est visible."@,
            Seq::empty(),
            "[NODES]"@,
            "# NODE_ID | VEX_URL | TOR_OU_ANONYME | PUB_KEY | STATUT | VU_LE | VERSION"@,
        ],
        SorteAnnuaire::Nouveautes => seq![
            "# VEX AnonNet — Nouveautés (dernières 24h)"@,
            "# "@ + now,
            Seq::empty(),
            "[NODES]"@,
            "# NODE_ID | VEX_URL | TOR_OU_ANONYME | PUB_KEY | STATUT | VU_LE | VERSION"@,
        ],
    }
}

/// Lignes qui ouvrent la section des utilisateurs.
pub open spec fn lignes_milieu() -> Seq<Seq<char>> {
    seq![Seq::empty(), "[USERS]"@, "# USER_ID@NODE_ID | NOM | PUB_KEY | MIS_A_JOUR"@]
}

/// Lignes de la signature.
pub open spec fn lignes_signature(t: Seq<char>) -> Seq<Seq<char>> {
    seq![Seq::empty(), "[SIGNATURE]"@, t]
}

proof fn lemme_avec_fin_concat(a: Seq<Seq<char>>, b: Seq<Seq<char>>, c: char)
    ensures
        avec_fin(a + b, c) == avec_fin(a, c) + avec_fin(b, c),
    decreases b.len(),
{
    if b.len() == 0 {
        assert(a + b =~= a);
        assert(avec_fin(a, c) + avec_fin(b, c) =~= avec_fin(a, c));
    } else {
        assert((a + b).drop_last() =~= a + b.drop_last());
        assert((a + b).last() == b.last());
        lemme_avec_fin_concat(a, b.drop_last(), c);
        assert(avec_fin(a + b, c) =~= avec_fin(a, c) + avec_fin(b, c));
    }
}

proof fn lemme_texte_entete(sorte: SorteAnnuaire, now: Seq<char>)
    ensures
        entete(sorte, now) == avec_fin(lignes_entete(sorte, now), '\n'),
{
    reveal_with_fuel(avec_fin, 8);
    reveal_strlit("# VEX AnonNet — Annuaire des nœuds\n# Généré le ");
    reveal_strlit("\n# Ce fichier est répliqué entre tous les nœuds du réseau.\n# Les IPs réelles sont anonymisées — seule l'adresse Tor ou ANONYME est visible.\n\n[NODES]\n# NODE_ID | VEX_URL | TOR_OU_ANONYME | PUB_KEY | STATUT | VU_LE | VERSION\n");
    reveal_strlit("# VEX AnonNet — Nouveautés (dernières 24h)\n# ");
    reveal_strlit("\n\n[NODES]\n# NODE_ID | VEX_URL | TOR_OU_ANONYME | PUB_KEY | STATUT | VU_LE | VERSION\n");
    reveal_strlit("# VEX AnonNet — Annuaire des nœuds");
    reveal_strlit("# Généré le ");
    reveal_strlit("# Ce fichier est répliqué entre tous les nœuds du réseau.");
    reveal_strlit("# Les IPs réelles sont anonymisées — seule l'adresse Tor ou ANONYME est visible.");
    reveal_strlit("[NODES]");
    reveal_strlit("# NODE_ID | VEX_URL | TOR_OU_ANONYME | PUB_KEY | STATUT | VU_LE | VERSION");
    reveal_strlit("# VEX AnonNet — Nouveautés (dernières 24h)");
    reveal_strlit("# ");
    let l = lignes_entete(sorte, now);
    assert(entete(sorte, now) =~= avec_fin(l, '\n'));
}

proof fn lemme_texte_milieu()
    ensures
        "\n[USERS]\n# USER_ID@NODE_ID | NOM | PUB_KEY | MIS_A_JOUR\n"@ == avec_fin(lignes_milieu(), '\n'),
{
    reveal_with_fuel(avec_fin, 4);
    reveal_strlit("\n[USERS]\n# USER_ID@NODE_ID | NOM | PUB_KEY | MIS_A_JOUR\n");
    reveal_strlit("[USERS]");
    reveal_strlit("# USER_ID@NODE_ID | NOM | PUB_KEY | MIS_A_JOUR");
    assert("\n[USERS]\n# USER_ID@NODE_ID | NOM | PUB_KEY | MIS_A_JOUR\n"@ =~= avec_fin(lignes_milieu(), '\n'));
}

proof fn lemme_texte_signature(t: Seq<char>)
    ensures
        "\n[SIGNATURE]\n"@ + t + "\n"@ == avec_fin(lignes_signature(t), '\n'),
{
    reveal_with_fuel(avec_fin, 4);
    reveal_strlit("\n[SIGNATURE]\n");
    reveal_strlit("[SIGNATURE]");
    reveal_strlit("\n");
    assert("\n[SIGNATURE]\n"@ + t + "\n"@ =~= avec_fin(lignes_signature(t), '\n'));
}

proof fn lemme_marqueur(sec: Section, m: Seq<char>)
    requires
        m == "[NODES]"@ || m == "[USERS]"@ || m == "[SIGNATURE]"@,
    ensures
        ligne_lue(sec, m) == (
            if m == "[NODES]"@ {
                Section::Noeuds
            } else if m == "[USERS]"@ {
                Section::Utilisateurs
            } else {
                Section::Signature
            },
            None::<VueMaj>,
        ),
{
    reveal_strlit("[NODES]");
    reveal_strlit("[USERS]");
    reveal_strlit("[SIGNATURE]");
    lemme_rogner_propre(m);
}

proof fn lemme_rogner_garde(s: Seq<char>, k: int)
    requires
        0 <= k < s.len(),
        !est_espace(s[k]),
    ensures
        rogner(s).contains(s[k]),
{
    lemme_espaces_tete(s);
    let a = espaces_tete(s);
    assert(a <= k) by {
        if a > k {
            assert(est_espace(s[k]));
        }
    }
    let s2 = s.subrange(a as int, s.len() as int);
    lemme_espaces_queue(s2);
    let q = espaces_queue(s2);
    assert(k - a < s2.len() - q) by {
        if k - a >= s2.len() - q {
            assert(est_espace(s2[k - a]));
        }
    }
    assert(rogner(s)[k - a] == s[k]);
}

proof fn lemme_ligne_signature(t: Seq<char>, k: int)
    requires
        0 <= k < t.len(),
        t[k] == ':',
    ensures
        ligne_lue(Section::Signature, t) == (Section::Signature, None::<VueMaj>),
{
    lemme_rogner_garde(t, k);
    reveal_strlit("[NODES]");
    reveal_strlit("[USERS]");
    reveal_strlit("[SIGNATURE]");
    let l = rogner(t);
    let j = choose|j: int| 0 <= j < l.len() && l[j] == ':';
    assert(l != "[NODES]"@) by {
        if l == "[NODES]"@ {
            assert(l[j] == "[NODES]"@[j]);
        }
    }
    assert(l != "[USERS]"@) by {
        if l == "[USERS]"@ {
            assert(l[j] == "[USERS]"@[j]);
        }
    }
    assert(l != "[SIGNATURE]"@) by {
        if l == "[SIGNATURE]"@ {
            assert(l[j] == "[SIGNATURE]"@[j]);
        }
    }
}


proof fn lemme_lire_entete(sorte: SorteAnnuaire, now: Seq<char>)
    ensures
        lire_depuis(Section::Aucune, lignes_entete(sorte, now)) == (Section::Noeuds, Seq::<VueMaj>::empty()),
{
    reveal_with_fuel(lire_depuis, 8);
    reveal_strlit("# VEX AnonNet — Annuaire des nœuds");
    reveal_strlit("# Généré le ");
    reveal_strlit("# Ce fichier est répliqué entre tous les nœuds du réseau.");
    reveal_strlit("# Les IPs réelles sont anonymisées — seule l'adresse Tor ou ANONYME est visible.");
    reveal_strlit("# NODE_ID | VEX_URL | TOR_OU_ANONYME | PUB_KEY | STATUT | VU_LE | VERSION");
    reveal_strlit("# VEX AnonNet — Nouveautés (dernières 24h)");
    reveal_strlit("# ");
    let l = lignes_entete(sorte, now);
    match sorte {
        SorteAnnuaire::Complet => {
            lemme_commentaire(Section::Aucune, l[0]);
            lemme_commentaire(Section::Aucune, l[1]);
            lemme_commentaire(Section::Aucune, l[2]);
            lemme_commentaire(Section::Aucune, l[3]);
            lemme_vide(Section::Aucune);
            lemme_marqueur(Section::Aucune, l[5]);
            lemme_commentaire(Section::Noeuds, l[6]);
        },
        SorteAnnuaire::Nouveautes => {
            lemme_commentaire(Section::Aucune, l[0]);
            lemme_commentaire(Section::Aucune, l[1]);
            lemme_vide(Section::Aucune);
            lemme_marqueur(Section::Aucune, l[3]);
            lemme_commentaire(Section::Noeuds, l[4]);
        },
    }
}

proof fn lemme_lire_pousse(sec: Section, a: Seq<Seq<char>>, x: Seq<char>)
    ensures
        lire_depuis(sec, a.push(x)) == ({
            let (s, m) = lire_depuis(sec, a);
            let (s2, o) = ligne_lue(s, x);
            (
                s2,
                match o {
                    Some(v) => m.push(v),
                    None => m,
                },
            )
        }),
{
    assert(a.push(x).drop_last() =~= a);
}

proof fn lemme_lire_milieu()
    ensures
        lire_depuis(Section::Noeuds, lignes_milieu()) == (Section::Utilisateurs, Seq::<VueMaj>::empty()),
{
    reveal_strlit("# USER_ID@NODE_ID | NOM | PUB_KEY | MIS_A_JOUR");
    reveal_strlit("[NODES]");
    reveal_strlit("[USERS]");
    assert("[USERS]"@ != "[NODES]"@) by {
        assert("[USERS]"@[1] != "[NODES]"@[1]);
    }
    let l = lignes_milieu();
    let e = Seq::<Seq<char>>::empty();
    assert(l =~= e.push(l[0]).push(l[1]).push(l[2]));
    lemme_vide(Section::Noeuds);
    lemme_marqueur(Section::Noeuds, l[1]);
    lemme_commentaire(Section::Utilisateurs, l[2]);
    lemme_lire_pousse(Section::Noeuds, e, l[0]);
    lemme_lire_pousse(Section::Noeuds, e.push(l[0]), l[1]);
    lemme_lire_pousse(Section::Noeuds, e.push(l[0]).push(l[1]), l[2]);
}

proof fn lemme_lire_signature(t: Seq<char>, k: int)
    requires
        0 <= k < t.len(),
        t[k] == ':',
    ensures
        lire_depuis(Section::Utilisateurs, lignes_signature(t).push(Seq::empty())) == (
            Section::Signature,
            Seq::<VueMaj>::empty(),
        ),
{
    reveal_strlit("[NODES]");
    reveal_strlit("[USERS]");
    reveal_strlit("[SIGNATURE]");
    assert("[SIGNATURE]"@ != "[NODES]"@) by {
        assert("[SIGNATURE]"@[1] != "[NODES]"@[1]);
    }
    assert("[SIGNATURE]"@ != "[USERS]"@) by {
        assert("[SIGNATURE]"@[1] != "[USERS]"@[1]);
    }
    let l = lignes_signature(t).push(Seq::empty());
    let e = Seq::<Seq<char>>::empty();
    assert(l =~= e.push(l[0]).push(l[1]).push(l[2]).push(l[3]));
    lemme_vide(Section::Utilisateurs);
    lemme_marqueur(Section::Utilisateurs, l[1]);
    lemme_ligne_signature(t, k);
    lemme_vide(Section::Signature);
    lemme_lire_pousse(Section::Utilisateurs, e, l[0]);
    lemme_lire_pousse(Section::Utilisateurs, e.push(l[0]), l[1]);
    lemme_lire_pousse(Section::Utilisateurs, e.push(l[0]).push(l[1]), l[2]);
    lemme_lire_pousse(Section::Utilisateurs, e.push(l[0]).push(l[1]).push(l[2]), l[3]);
}


// ══════════════════════════════════════════════════════════════════
// La loi de réplication
// ══════════════════════════════════════════════════════════════════

/// Toutes les lignes d'un annuaire dont la ligne de signature est `t`.
pub open spec fn lignes_annuaire(
    sorte: SorteAnnuaire,
    now: Seq<char>,
    p: Seq<PairAnnuaire>,
    u: Seq<UtilisateurAnnuaire>,
    t: Seq<char>,
) -> Seq<Seq<char>> {
    lignes_entete(sorte, now) + textes_pairs(p) + lignes_milieu() + textes_utilisateurs(u) + lignes_signature(t)
}

proof fn lemme_texte_annuaire(
    sorte: SorteAnnuaire,
    now: Seq<char>,
    p: Seq<PairAnnuaire>,
    u: Seq<UtilisateurAnnuaire>,
    node_id: Seq<char>,
    cle: Seq<u8>,
)
    ensures
        annuaire(sorte, now, p, u, node_id, cle) == avec_fin(
            lignes_annuaire(
                sorte,
                now,
                p,
                u,
                node_id + ":"@ + signature_b64(cle, vstd::utf8::encode_utf8(corps_annuaire(sorte, now, p, u))),
            ),
            '\n',
        ),
{
    let corps = corps_annuaire(sorte, now, p, u);
    let t = node_id + ":"@ + signature_b64(cle, vstd::utf8::encode_utf8(corps));
    let e = lignes_entete(sorte, now);
    let lp = textes_pairs(p);
    let m = lignes_milieu();
    let lu = textes_utilisateurs(u);
    let sg = lignes_signature(t);
    lemme_texte_entete(sorte, now);
    lemme_lignes_pairs(p);
    lemme_texte_milieu();
    lemme_lignes_utilisateurs(u);
    lemme_texte_signature(t);
    lemme_avec_fin_concat(e, lp, '\n');
    lemme_avec_fin_concat(e + lp, m, '\n');
    lemme_avec_fin_concat(e + lp + m, lu, '\n');
    lemme_avec_fin_concat(e + lp + m + lu, sg, '\n');
    assert(annuaire(sorte, now, p, u, node_id, cle) =~= avec_fin(e, '\n') + avec_fin(lp, '\n') + avec_fin(m, '\n')
        + avec_fin(lu, '\n') + avec_fin(sg, '\n'));
}

proof fn lemme_entete_sans_nl(sorte: SorteAnnuaire, now: Seq<char>)
    requires
        !now.contains('\n'),
    ensures
        forall|i: int| 0 <= i < lignes_entete(sorte, now).len() ==> !(#[trigger] lignes_entete(sorte, now)[i]).contains('\n'),
{
    reveal_strlit("# VEX AnonNet — Annuaire des nœuds");
    reveal_strlit("# Généré le ");
    reveal_strlit("# Ce fichier est répliqué entre tous les nœuds du réseau.");
    reveal_strlit("# Les IPs réelles sont anonymisées — seule l'adresse Tor ou ANONYME est visible.");
    reveal_strlit("[NODES]");
    reveal_strlit("# NODE_ID | VEX_URL | TOR_OU_ANONYME | PUB_KEY | STATUT | VU_LE | VERSION");
    reveal_strlit("# VEX AnonNet — Nouveautés (dernières 24h)");
    reveal_strlit("# ");
    let e = lignes_entete(sorte, now);
    assert forall|i: int| 0 <= i < e.len() implies !(#[trigger] e[i]).contains('\n') by {
        if e[i].contains('\n') {
            let j = choose|j: int| 0 <= j < e[i].len() && e[i][j] == '\n';
            match sorte {
                SorteAnnuaire::Complet => {
                    if i == 1 && j >= 12 {
                        assert(now[j - 12] == e[i][j]);
                    }
                },
                SorteAnnuaire::Nouveautes => {
                    if i == 1 && j >= 2 {
                        assert(now[j - 2] == e[i][j]);
                    }
                },
            }
        }
    }
}

proof fn lemme_lignes_sans_nl(
    sorte: SorteAnnuaire,
    now: Seq<char>,
    p: Seq<PairAnnuaire>,
    u: Seq<UtilisateurAnnuaire>,
    t: Seq<char>,
)
    requires
        !now.contains('\n'),
        !t.contains('\n'),
        forall|i: int| 0 <= i < p.len() ==> pair_relisible(#[trigger] p[i]),
        forall|i: int| 0 <= i < u.len() ==> utilisateur_relisible(#[trigger] u[i]),
    ensures
        forall|i: int|
            0 <= i < lignes_annuaire(sorte, now, p, u, t).len() ==> !(#[trigger] lignes_annuaire(
                sorte,
                now,
                p,
                u,
                t,
            )[i]).contains('\n'),
{
    reveal_strlit("[USERS]");
    reveal_strlit("# USER_ID@NODE_ID | NOM | PUB_KEY | MIS_A_JOUR");
    reveal_strlit("[SIGNATURE]");
    let e = lignes_entete(sorte, now);
    let lp = textes_pairs(p);
    let m = lignes_milieu();
    let lu = textes_utilisateurs(u);
    let sg = lignes_signature(t);
    let tout = lignes_annuaire(sorte, now, p, u, t);
    lemme_entete_sans_nl(sorte, now);
    assert forall|i: int| 0 <= i < tout.len() implies !(#[trigger] tout[i]).contains('\n') by {
        if i < e.len() {
            assert(tout[i] == e[i]);
        } else if i < e.len() + lp.len() {
            assert(tout[i] == lp[i - e.len()]);
            assert(pair_relisible(p[i - e.len()]));
        } else if i < e.len() + lp.len() + m.len() {
            assert(tout[i] == m[i - e.len() - lp.len()]);
        } else if i < e.len() + lp.len() + m.len() + lu.len() {
            assert(tout[i] == lu[i - e.len() - lp.len() - m.len()]);
            assert(utilisateur_relisible(u[i - e.len() - lp.len() - m.len()]));
        } else {
            assert(tout[i] == sg[i - e.len() - lp.len() - m.len() - lu.len()]);
        }
    }
}

proof fn lemme_lecture(
    sorte: SorteAnnuaire,
    now: Seq<char>,
    p: Seq<PairAnnuaire>,
    u: Seq<UtilisateurAnnuaire>,
    t: Seq<char>,
    k: int,
)
    requires
        0 <= k < t.len(),
        t[k] == ':',
        forall|i: int| 0 <= i < p.len() ==> pair_relisible(#[trigger] p[i]),
        forall|i: int| 0 <= i < u.len() ==> utilisateur_relisible(#[trigger] u[i]),
    ensures
        lire_depuis(Section::Aucune, lignes_annuaire(sorte, now, p, u, t).push(Seq::empty())).1 == majs_pairs(p)
            + majs_utilisateurs(u),
{
    let e = lignes_entete(sorte, now);
    let lp = textes_pairs(p);
    let m = lignes_milieu();
    let lu = textes_utilisateurs(u);
    let sg = lignes_signature(t);
    assert(lignes_annuaire(sorte, now, p, u, t).push(Seq::empty()) =~= e + lp + m + lu + sg.push(Seq::empty()));
    lemme_lire_concat(Section::Aucune, e + lp + m + lu, sg.push(Seq::empty()));
    lemme_lire_concat(Section::Aucune, e + lp + m, lu);
    lemme_lire_concat(Section::Aucune, e + lp, m);
    lemme_lire_concat(Section::Aucune, e, lp);
    lemme_lire_entete(sorte, now);
    lemme_pairs(p);
    lemme_lire_milieu();
    lemme_utilisateurs(u);
    lemme_lire_signature(t, k);
    let v = Seq::<VueMaj>::empty();
    assert(v + majs_pairs(p) + v + majs_utilisateurs(u) + v =~= majs_pairs(p) + majs_utilisateurs(u));
}

/// L'annuaire qu'un nœud écrit, lu par un autre nœud, redonne exactement,
/// dans l'ordre, les nœuds `online` qu'il publie (identifiant, adresse,
/// adresse Tor sauf `ANONYME`, clé, version) puis tous ses utilisateurs
/// (identifiant, nœud, nom, clé) ; rien d'autre n'est tiré de l'en-tête, des
/// sections ni de la signature. Cela vaut quand la date, l'identifiant du
/// nœud et la signature n'ont pas de saut de ligne, et que chaque nœud et
/// chaque utilisateur a une ligne relisible.
pub proof fn loi_annuaire_relu(
    sorte: SorteAnnuaire,
    now: Seq<char>,
    p: Seq<PairAnnuaire>,
    u: Seq<UtilisateurAnnuaire>,
    node_id: Seq<char>,
    cle: Seq<u8>,
)
    requires
        !now.contains('\n'),
        !node_id.contains('\n'),
        !signature_b64(cle, vstd::utf8::encode_utf8(corps_annuaire(sorte, now, p, u))).contains('\n'),
        forall|i: int| 0 <= i < p.len() ==> pair_relisible(#[trigger] p[i]),
        forall|i: int| 0 <= i < u.len() ==> utilisateur_relisible(#[trigger] u[i]),
    ensures
        fusion(annuaire(sorte, now, p, u, node_id, cle)) == majs_pairs(p) + majs_utilisateurs(u),
{
    let sig = signature_b64(cle, vstd::utf8::encode_utf8(corps_annuaire(sorte, now, p, u)));
    let t = node_id + ":"@ + sig;
    reveal_strlit(":");
    assert(t[node_id.len() as int] == ':');
    assert(!t.contains('\n')) by {
        if t.contains('\n') {
            let j = choose|j: int| 0 <= j < t.len() && t[j] == '\n';
            if j < node_id.len() {
                assert(node_id[j] == t[j]);
            } else if j > node_id.len() {
                assert(sig[j - node_id.len() - 1] == t[j]);
            }
        }
    }
    let tout = lignes_annuaire(sorte, now, p, u, t);
    lemme_texte_annuaire(sorte, now, p, u, node_id, cle);
    lemme_lignes_sans_nl(sorte, now, p, u, t);
    assert(avec_fin(tout, '\n') =~= avec_fin(tout, '\n') + Seq::<char>::empty());
    lemme_decouper_lignes(tout, Seq::<char>::empty(), '\n');
    lemme_lignes_lues(tout.push(Seq::empty()));
    lemme_lecture(sorte, now, p, u, t, node_id.len() as int);
}

} // verus!
