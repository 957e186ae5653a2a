//! The legal-move index: the authoritative legal-move list grouped by the
//! (from, to) square pair each move's notation denotes.
//!
//! A group holds the positions, in list order, of every legal move that
//! shares one (from, to) pair; more than one candidate appears only when
//! several promotion choices land on the same square.  The index is rebuilt
//! from scratch after every applied move, never updated in place.

use vstd::prelude::*;
use vstd::seq_lib::lemma_flatten_concat;
use vstd::seq_lib::lemma_multiset_commutative;
use vstd::seq_lib::group_to_multiset_ensures;
use crate::codec::{spec_cordinate, is_move_core, move_core, parse_move};
use crate::wire::{ProtocolError, WireMove};

verus! {

/// The (from-row, from-col, to-row, to-col) key a move notation denotes.
pub open spec fn spec_key(s: Seq<char>) -> (int, int, int, int) {
    (spec_cordinate(s[1]), spec_cordinate(s[0]), spec_cordinate(s[3]), spec_cordinate(s[2]))
}

/// One keyed group of the index: a (from, to) square pair and the
/// positions, in list order, of the legal moves that decode to it.
#[derive(Clone, PartialEq, Eq, Debug)]
pub struct MoveGroup {
    pub from_row: usize,
    pub from_col: usize,
    pub to_row: usize,
    pub to_col: usize,
    pub candidates: Vec<usize>,
}

impl MoveGroup {
    /// The group's key as a spec-level tuple.
    pub open spec fn spec_key(&self) -> (int, int, int, int) {
        (self.from_row as int, self.from_col as int, self.to_row as int, self.to_col as int)
    }
}

/// The candidate lists of a group sequence.
pub open spec fn cand_seqs(gs: Seq<MoveGroup>) -> Seq<Seq<usize>> {
    gs.map_values(|g: MoveGroup| g.candidates@)
}

/// The union of all candidate lists, group by group.
pub open spec fn all_candidates(gs: Seq<MoveGroup>) -> Seq<usize> {
    cand_seqs(gs).flatten()
}

/// The sequence 0, 1, ..., n-1: one position for each move of the list.
pub open spec fn index_seq(n: nat) -> Seq<usize> {
    Seq::new(n, |i: int| i as usize)
}

/// A single group is coherent with the notation list `ns`, all its
/// candidate positions below `m`: the key squares are on the board, the
/// group is nonempty, every candidate position carries a notation that
/// decodes to the group's key, and the positions are strictly increasing,
/// so list order is kept.
pub open spec fn group_ok(g: MoveGroup, ns: Seq<Seq<char>>, m: int) -> bool {
    &&& g.from_row < 8 && g.from_col < 8 && g.to_row < 8 && g.to_col < 8
    &&& g.candidates@.len() > 0
    &&& forall|j: int| 0 <= j < g.candidates@.len() ==> 0 <= (#[trigger] g.candidates@[j]) < m
    &&& forall|j: int|
        0 <= j < g.candidates@.len() ==> is_move_core(ns[(#[trigger] g.candidates@[j]) as int])
            && spec_key(ns[g.candidates@[j] as int]) == g.spec_key()
    &&& forall|j1: int, j2: int|
        0 <= j1 < j2 < g.candidates@.len() ==> g.candidates@[j1] < g.candidates@[j2]
}

/// Every group is coherent with `ns` up to position `m`, and no two groups
/// share a key.
pub open spec fn groups_ok(gs: Seq<MoveGroup>, ns: Seq<Seq<char>>, m: int) -> bool {
    &&& forall|g: int| 0 <= g < gs.len() ==> group_ok(#[trigger] gs[g], ns, m)
    &&& forall|g1: int, g2: int|
        0 <= g1 < g2 < gs.len() ==> gs[g1].spec_key() != gs[g2].spec_key()
}

/// The legal-move index over one legal-move list.
#[derive(Clone, PartialEq, Eq, Debug)]
pub struct MoveIndex {
    pub groups: Vec<MoveGroup>,
}

impl MoveIndex {
    /// The index is exactly the grouping of the notation list `ns` by
    /// (from, to) key: coherent disjoint groups whose candidate lists,
    /// taken together, hold each position of the list exactly once.
    pub open spec fn matches(&self, ns: Seq<Seq<char>>) -> bool {
        &&& groups_ok(self.groups@, ns, ns.len() as int)
        &&& all_candidates(self.groups@).to_multiset() == index_seq(ns.len()).to_multiset()
    }
}

/// Pushing one position onto the candidate list of group `j` inserts
/// exactly that position into the union of all candidate lists.
proof fn lemma_flatten_update_push(cs: Seq<Seq<usize>>, j: int, x: usize)
    requires
        0 <= j < cs.len(),
    ensures
        cs.update(j, cs[j].push(x)).flatten().to_multiset() == cs.flatten().to_multiset().insert(
            x,
        ),
{
    broadcast use group_to_multiset_ensures;
    broadcast use lemma_multiset_commutative;

    let pre = cs.subrange(0, j);
    let mid = seq![cs[j]];
    let mid2 = seq![cs[j].push(x)];
    let suf = cs.subrange(j + 1, cs.len() as int);
    let cs2 = cs.update(j, cs[j].push(x));
    assert(cs =~= (pre + mid) + suf);
    assert(cs2 =~= (pre + mid2) + suf);
    lemma_flatten_concat(pre + mid, suf);
    lemma_flatten_concat(pre, mid);
    lemma_flatten_concat(pre + mid2, suf);
    lemma_flatten_concat(pre, mid2);
    mid.lemma_flatten_singleton();
    mid2.lemma_flatten_singleton();
    assert(cs.flatten() == (pre.flatten() + cs[j]) + suf.flatten());
    assert(cs2.flatten() == (pre.flatten() + cs[j].push(x)) + suf.flatten());
    assert(cs[j].push(x).to_multiset() =~= cs[j].to_multiset().insert(x));
    assert(cs2.flatten().to_multiset() =~= cs.flatten().to_multiset().insert(x));
}

/// Builds the legal-move index from the legal-move notation list: each
/// position of the list is filed under the (from, to) key its notation
/// decodes to, in list order.  Fails exactly when some notation lacks a
/// well-formed four-character coordinate core.
pub fn parse_moves(notations: &Vec<String>) -> (r: Result<MoveIndex, ProtocolError>)
    ensures
        match r {
            Ok(idx) => idx.matches(notations.deep_view()),
            Err(e) => {
                &&& e == ProtocolError::MalformedNotation
                &&& exists|i: int|
                    0 <= i < notations.deep_view().len() && !is_move_core(
                        #[trigger] notations.deep_view()[i],
                    )
            },
        },
{
    let ghost ns = notations.deep_view();
    proof {
        assert(ns.len() == notations@.len());
    }
    let mut groups: Vec<MoveGroup> = Vec::new();
    let mut i: usize = 0;
    proof {
        broadcast use group_to_multiset_ensures;

        assert(cand_seqs(groups@) =~= Seq::<Seq<usize>>::empty());
        assert(all_candidates(groups@) =~= Seq::<usize>::empty());
        assert(index_seq(0) =~= Seq::<usize>::empty());
    }
    while i < notations.len()
        invariant
            i <= notations@.len(),
            ns == notations.deep_view(),
            ns.len() == notations@.len(),
            groups_ok(groups@, ns, i as int),
            all_candidates(groups@).to_multiset() == index_seq(i as nat).to_multiset(),
        decreases notations@.len() - i,
    {
        proof {
            assert(ns[i as int] == notations@[i as int]@);
        }
        if !move_core(notations[i].as_str()) {
            return Err(ProtocolError::MalformedNotation);
        }
        let ((fr, fc), (tr, tc)) = parse_move(notations[i].as_str());
        let glen = groups.len();
        let mut found: usize = glen;
        let mut j: usize = 0;
        while j < glen && found == glen
            invariant
                glen == groups@.len(),
                j <= glen,
                found <= glen,
                found == glen ==> forall|k: int|
                    0 <= k < j ==> (#[trigger] groups@[k]).spec_key() != (
                    fr as int,
                    fc as int,
                    tr as int,
                    tc as int,
                ),
                found < glen ==> groups@[found as int].spec_key() == (
                    fr as int,
                    fc as int,
                    tr as int,
                    tc as int,
                ),
            decreases glen - j,
        {
            let g = &groups[j];
            if g.from_row == fr && g.from_col == fc && g.to_row == tr && g.to_col == tc {
                found = j;
            }
            j += 1;
        }
        let ghost old_groups = groups@;
        if found < glen {
            let mut g = groups.remove(found);
            g.candidates.push(i);
            groups.insert(found, g);
            proof {
                broadcast use group_to_multiset_ensures;

                let f = found as int;
                let gnew = g;
                assert(groups@ =~= old_groups.update(f, gnew));
                assert(gnew.candidates@ == old_groups[f].candidates@.push(i));
                assert(cand_seqs(groups@) =~= cand_seqs(old_groups).update(
                    f,
                    cand_seqs(old_groups)[f].push(i),
                ));
                lemma_flatten_update_push(cand_seqs(old_groups), f, i);
                assert(index_seq((i + 1) as nat) =~= index_seq(i as nat).push(i));
                assert(all_candidates(groups@).to_multiset() == index_seq(
                    (i + 1) as nat,
                ).to_multiset());
                assert(group_ok(gnew, ns, i as int + 1));
                assert(groups_ok(groups@, ns, i as int + 1));
            }
        } else {
            let mut cands: Vec<usize> = Vec::new();
            cands.push(i);
            let g = MoveGroup {
                from_row: fr,
                from_col: fc,
                to_row: tr,
                to_col: tc,
                candidates: cands,
            };
            groups.push(g);
            proof {
                broadcast use group_to_multiset_ensures;
                broadcast use lemma_multiset_commutative;

                assert(cand_seqs(groups@) =~= cand_seqs(old_groups) + seq![g.candidates@]);
                lemma_flatten_concat(cand_seqs(old_groups), seq![g.candidates@]);
                seq![g.candidates@].lemma_flatten_singleton();
                assert(all_candidates(groups@) == all_candidates(old_groups) + g.candidates@);
                assert(g.candidates@ =~= Seq::<usize>::empty().push(i));
                assert forall|x: usize| Seq::<usize>::empty().to_multiset().count(x) == 0 by {
                    assert(!Seq::<usize>::empty().contains(x));
                }
                assert(g.candidates@.to_multiset() =~= Seq::<usize>::empty().to_multiset().insert(
                    i,
                ));
                assert(all_candidates(groups@).to_multiset() =~= all_candidates(
                    old_groups,
                ).to_multiset().insert(i));
                assert(index_seq((i + 1) as nat) =~= index_seq(i as nat).push(i));
                assert(group_ok(g, ns, i as int + 1));
                assert(groups_ok(groups@, ns, i as int + 1));
            }
        }
        i += 1;
    }
    Ok(MoveIndex { groups })
}

impl MoveIndex {
    /// The candidate positions filed under one (from, to) square pair, in
    /// list order: the moves to enumerate once a destination is picked,
    /// disambiguated among themselves only by promotion piece.  `None`
    /// exactly when no legal move decodes to that pair.
    pub fn candidates_for(&self, from_row: usize, from_col: usize, to_row: usize, to_col: usize)
        -> (r: Option<Vec<usize>>)
        ensures
            match r {
                Some(v) => exists|g: int|
                    0 <= g < self.groups@.len() && (#[trigger] self.groups@[g]).spec_key() == (
                        from_row as int,
                        from_col as int,
                        to_row as int,
                        to_col as int,
                    ) && v@ == self.groups@[g].candidates@,
                None => forall|g: int|
                    0 <= g < self.groups@.len() ==> (#[trigger] self.groups@[g]).spec_key() != (
                        from_row as int,
                        from_col as int,
                        to_row as int,
                        to_col as int,
                    ),
            },
    {
        let glen = self.groups.len();
        let mut j: usize = 0;
        while j < glen
            invariant
                glen == self.groups@.len(),
                j <= glen,
                forall|k: int|
                    0 <= k < j ==> (#[trigger] self.groups@[k]).spec_key() != (
                    from_row as int,
                    from_col as int,
                    to_row as int,
                    to_col as int,
                ),
            decreases glen - j,
        {
            let g = &self.groups[j];
            if g.from_row == from_row && g.from_col == from_col && g.to_row == to_row && g.to_col
                == to_col {
                let mut out: Vec<usize> = Vec::new();
                let mut k: usize = 0;
                let clen = g.candidates.len();
                while k < clen
                    invariant
                        clen == g.candidates@.len(),
                        k <= clen,
                        out@ == g.candidates@.subrange(0, k as int),
                    decreases clen - k,
                {
                    out.push(g.candidates[k]);
                    proof {
                        assert(out@ =~= g.candidates@.subrange(0, k as int + 1));
                    }
                    k += 1;
                }
                proof {
                    assert(out@ =~= g.candidates@);
                }
                return Some(out);
            }
            j += 1;
        }
        None
    }
}

/// The wire records a list of positions picks out of a translated
/// legal-move list, position by position.
pub open spec fn translated(u: Seq<usize>, wires: Seq<WireMove>) -> Seq<WireMove> {
    Seq::new(u.len(), |j: int| wires[u[j] as int])
}

/// Legal-move index completeness: the union of all (from, to) keyed
/// candidate lists holds each position of the legal-move list exactly once,
/// so it has the same cardinality as the full list and, translated
/// position-wise to wire records, the same members.
pub proof fn lemma_index_completeness(idx: MoveIndex, ns: Seq<Seq<char>>, wires: Seq<WireMove>)
    requires
        idx.matches(ns),
        wires.len() == ns.len(),
        ns.len() <= usize::MAX,
    ensures
        all_candidates(idx.groups@).len() == ns.len(),
        translated(all_candidates(idx.groups@), wires).to_set() == wires.to_set(),
{
    broadcast use group_to_multiset_ensures;

    let u = all_candidates(idx.groups@);
    let ix = index_seq(ns.len());
    assert(u.to_multiset().len() == ix.to_multiset().len());
    assert(u.len() == ns.len());
    let mapped = translated(u, wires);
    assert forall|m: WireMove| mapped.to_set().contains(m) implies wires.to_set().contains(m) by {
        let j = choose|j: int| 0 <= j < mapped.len() && mapped[j] == m;
        assert(u.contains(u[j]));
        assert(u.to_multiset().count(u[j]) > 0);
        assert(ix.to_multiset().count(u[j]) > 0);
        assert(ix.contains(u[j]));
        let k = choose|k: int| 0 <= k < ix.len() && ix[k] == u[j];
        assert(0 <= u[j] < wires.len());
        assert(wires[u[j] as int] == m);
        assert(wires.contains(m));
    }
    assert forall|m: WireMove| wires.to_set().contains(m) implies mapped.to_set().contains(m) by {
        let i = choose|i: int| 0 <= i < wires.len() && wires[i] == m;
        assert(ix[i] == i as usize);
        assert(ix.contains(i as usize));
        assert(ix.to_multiset().count(i as usize) > 0);
        assert(u.to_multiset().count(i as usize) > 0);
        assert(u.contains(i as usize));
        let j = choose|j: int| 0 <= j < u.len() && u[j] == i as usize;
        assert(mapped[j] == m);
        assert(mapped.contains(m));
    }
    assert(mapped.to_set() =~= wires.to_set());
}

} // verus!
