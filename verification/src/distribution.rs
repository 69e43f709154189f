//! Resolved distributions and the canonical order in which they are hashed.

use vstd::prelude::*;
use vstd::relations::{sorted_by, total_ordering};
use vstd::seq_lib::{lemma_sorted_unique, to_multiset_build, to_multiset_insert};
use vstd::utf8::{encode_utf8, encode_utf8_decode_utf8};

use crate::lexical::{
    lemma_lex_le_antisymmetric, lemma_lex_le_reflexive, lemma_lex_le_total,
    lemma_lex_le_transitive, lex_le, lex_rank, rank_bytes, Rank,
};

verus! {

/// One resolved distribution: a package pinned to a version that comes from
/// a given source (an index, a URL, a path, a repository).
#[derive(Clone, Debug, PartialEq, Eq)]
pub struct Distribution {
    pub name: String,
    pub version: String,
    pub source: String,
}

/// What identifies a distribution: its name, version and source as text.
pub struct DistributionId {
    pub name: Seq<char>,
    pub version: Seq<char>,
    pub source: Seq<char>,
}

impl View for Distribution {
    type V = DistributionId;

    open spec fn view(&self) -> DistributionId {
        DistributionId { name: self.name@, version: self.version@, source: self.source@ }
    }
}

/// The identities of a list of distributions, in the list's order.
pub open spec fn ids(dists: Seq<Distribution>) -> Seq<DistributionId> {
    dists.map_values(|d: Distribution| d@)
}

/// The identities of a list of borrowed distributions, in the list's order.
pub open spec fn ref_ids(dists: Seq<&Distribution>) -> Seq<DistributionId> {
    dists.map_values(|d: &Distribution| d@)
}

/// `a` comes no later than `b`: distributions are ordered by name, equal
/// names by version, and equal names and versions by source, each compared
/// as `str` compares, byte by byte in UTF-8.
pub open spec fn dist_le(a: DistributionId, b: DistributionId) -> bool {
    if a.name != b.name {
        lex_le(encode_utf8(a.name), encode_utf8(b.name))
    } else if a.version != b.version {
        lex_le(encode_utf8(a.version), encode_utf8(b.version))
    } else {
        lex_le(encode_utf8(a.source), encode_utf8(b.source))
    }
}

/// The rank of `a` against `b` in the order of distributions.
pub open spec fn dist_rank(a: DistributionId, b: DistributionId) -> Rank {
    if a == b {
        Rank::Same
    } else if dist_le(a, b) {
        Rank::Before
    } else {
        Rank::After
    }
}

/// The order of distributions as a relation.
pub open spec fn dist_order() -> spec_fn(DistributionId, DistributionId) -> bool {
    |a: DistributionId, b: DistributionId| dist_le(a, b)
}

/// The canonical order of a set of distributions: the same distributions,
/// sorted.
pub open spec fn canonical(dists: Seq<DistributionId>) -> Seq<DistributionId> {
    dists.sort_by(dist_order())
}

/// Texts with the same UTF-8 encoding are the same text.
pub proof fn lemma_encoding_injective(a: Seq<char>, b: Seq<char>)
    requires
        encode_utf8(a) == encode_utf8(b),
    ensures
        a == b,
{
    encode_utf8_decode_utf8(a);
    encode_utf8_decode_utf8(b);
}

/// The order of distributions is total: reflexive, antisymmetric, transitive,
/// and any two distributions are comparable.
pub proof fn lemma_dist_order_total()
    ensures
        total_ordering(dist_order()),
{
    let r = dist_order();
    assert forall|x: DistributionId| #[trigger] r(x, x) by {
        lemma_lex_le_reflexive(encode_utf8(x.source));
    }
    assert forall|x: DistributionId, y: DistributionId| #[trigger] r(x, y) && #[trigger] r(y, x)
        implies x == y by {
        lemma_dist_le_antisymmetric(x, y);
    }
    assert forall|x: DistributionId, y: DistributionId, z: DistributionId| #[trigger]
        r(x, y) && #[trigger] r(y, z) implies r(x, z) by {
        lemma_dist_le_transitive(x, y, z);
    }
    assert forall|x: DistributionId, y: DistributionId| #[trigger] r(x, y) || #[trigger] r(y, x) by {
        lemma_dist_le_total(x, y);
    }
}

/// Two distributions that are each no later than the other are the same.
pub proof fn lemma_dist_le_antisymmetric(x: DistributionId, y: DistributionId)
    requires
        dist_le(x, y),
        dist_le(y, x),
    ensures
        x == y,
{
    if x.name != y.name {
        lemma_lex_le_antisymmetric(encode_utf8(x.name), encode_utf8(y.name));
        lemma_encoding_injective(x.name, y.name);
    } else if x.version != y.version {
        lemma_lex_le_antisymmetric(encode_utf8(x.version), encode_utf8(y.version));
        lemma_encoding_injective(x.version, y.version);
    } else {
        lemma_lex_le_antisymmetric(encode_utf8(x.source), encode_utf8(y.source));
        lemma_encoding_injective(x.source, y.source);
    }
}

/// Texts that compare both ways are the same text.
proof fn lemma_text_antisymmetric(a: Seq<char>, b: Seq<char>)
    requires
        lex_le(encode_utf8(a), encode_utf8(b)),
        lex_le(encode_utf8(b), encode_utf8(a)),
    ensures
        a == b,
{
    lemma_lex_le_antisymmetric(encode_utf8(a), encode_utf8(b));
    lemma_encoding_injective(a, b);
}

/// The order of distributions is transitive.
pub proof fn lemma_dist_le_transitive(x: DistributionId, y: DistributionId, z: DistributionId)
    requires
        dist_le(x, y),
        dist_le(y, z),
    ensures
        dist_le(x, z),
{
    let (xn, yn, zn) = (encode_utf8(x.name), encode_utf8(y.name), encode_utf8(z.name));
    let (xv, yv, zv) = (encode_utf8(x.version), encode_utf8(y.version), encode_utf8(z.version));
    let (xs, ys, zs) = (encode_utf8(x.source), encode_utf8(y.source), encode_utf8(z.source));
    lemma_lex_le_reflexive(xn);
    lemma_lex_le_reflexive(yn);
    lemma_lex_le_reflexive(xv);
    lemma_lex_le_reflexive(yv);
    // The names are in order in any case.
    assert(lex_le(xn, yn) && lex_le(yn, zn));
    lemma_lex_le_transitive(xn, yn, zn);
    if x.name != z.name {
    } else {
        // x and z share a name, so y shares it too.
        lemma_text_antisymmetric(x.name, y.name);
        assert(lex_le(xv, yv) && lex_le(yv, zv));
        lemma_lex_le_transitive(xv, yv, zv);
        if x.version != z.version {
        } else {
            lemma_text_antisymmetric(x.version, y.version);
            lemma_lex_le_transitive(xs, ys, zs);
        }
    }
}

/// Of two distributions one is no later than the other.
pub proof fn lemma_dist_le_total(x: DistributionId, y: DistributionId)
    ensures
        dist_le(x, y) || dist_le(y, x),
{
    lemma_lex_le_total(encode_utf8(x.name), encode_utf8(y.name));
    lemma_lex_le_total(encode_utf8(x.version), encode_utf8(y.version));
    lemma_lex_le_total(encode_utf8(x.source), encode_utf8(y.source));
}

impl Distribution {
    /// A distribution of the given name, version and source.
    pub fn new(name: &str, version: &str, source: &str) -> (dist: Distribution)
        ensures
            dist@ == (DistributionId { name: name@, version: version@, source: source@ }),
    {
        Distribution {
            name: name.to_owned(),
            version: version.to_owned(),
            source: source.to_owned(),
        }
    }

    /// The package's name.
    pub fn name(&self) -> (name: &str)
        ensures
            name@ == self@.name,
    {
        self.name.as_str()
    }

    /// The rank of this distribution against another in the order of
    /// distributions.
    pub fn rank(&self, other: &Distribution) -> (rank: Rank)
        ensures
            rank == dist_rank(self@, other@),
    {
        let by_name = rank_bytes(self.name.as_str().as_bytes(), other.name.as_str().as_bytes());
        proof {
            if by_name == Rank::Same {
                lemma_encoding_injective(self.name@, other.name@);
            }
        }
        match by_name {
            Rank::Same => {},
            _ => {
                return by_name;
            },
        }
        let by_version = rank_bytes(
            self.version.as_str().as_bytes(),
            other.version.as_str().as_bytes(),
        );
        proof {
            if by_version == Rank::Same {
                lemma_encoding_injective(self.version@, other.version@);
            }
        }
        match by_version {
            Rank::Same => {},
            _ => {
                return by_version;
            },
        }
        let by_source = rank_bytes(
            self.source.as_str().as_bytes(),
            other.source.as_str().as_bytes(),
        );
        proof {
            if by_source == Rank::Same {
                lemma_encoding_injective(self.source@, other.source@);
            }
        }
        by_source
    }
}

/// Puts distributions into their canonical order. The result borrows the
/// distributions it was given.
pub fn sort_distributions<'a>(dists: &'a [Distribution]) -> (sorted: Vec<&'a Distribution>)
    ensures
        ref_ids(sorted@) == canonical(ids(dists@)),
{
    let mut sorted: Vec<&'a Distribution> = Vec::new();
    let mut i: usize = 0;
    proof {
        assert(ref_ids(sorted@) =~= Seq::<DistributionId>::empty());
        assert(ids(dists@.take(0)) =~= Seq::<DistributionId>::empty());
    }
    while i < dists.len()
        invariant
            i <= dists.len(),
            sorted_by(ref_ids(sorted@), dist_order()),
            ref_ids(sorted@).to_multiset() == ids(dists@.take(i as int)).to_multiset(),
        decreases dists.len() - i,
    {
        let item: &'a Distribution = &dists[i];
        let mut at: usize = 0;
        while at < sorted.len() && !matches!(item.rank(sorted[at]), Rank::Before)
            invariant
                at <= sorted.len(),
                forall|j: int| 0 <= j < at ==> dist_le(#[trigger] sorted@[j]@, item@),
            decreases sorted.len() - at,
        {
            proof {
                lemma_dist_le_total(sorted@[at as int]@, item@);
            }
            at = at + 1;
        }
        let ghost before = ref_ids(sorted@);
        sorted.insert(at, item);
        proof {
            let after = ref_ids(sorted@);
            assert(after =~= before.insert(at as int, item@));
            to_multiset_insert(before, at as int, item@);
            let seen = ids(dists@.take(i as int));
            assert(ids(dists@.take(i + 1)) =~= seen.push(item@));
            to_multiset_build(seen, item@);
            assert forall|j: int, k: int| 0 <= j < k < after.len() implies dist_le(
                after[j],
                after[k],
            ) by {
                if k < at {
                    assert(dist_order()(before[j], before[k]));
                } else if k == at {
                    assert(before[j] == sorted@[j]@);
                } else if j < at {
                    assert(dist_order()(before[j], before[k - 1]));
                } else if j == at {
                    // `item` comes before the element that was found at `at`,
                    // which comes no later than every element behind it.
                    assert(dist_rank(item@, before[at as int]) == Rank::Before);
                    if k - 1 > at {
                        assert(dist_order()(before[at as int], before[k - 1]));
                        lemma_dist_le_transitive(item@, before[at as int], before[k - 1]);
                    }
                } else {
                    assert(dist_order()(before[j - 1], before[k - 1]));
                }
            }
        }
        i = i + 1;
    }
    proof {
        assert(dists@.take(i as int) =~= dists@);
        lemma_dist_order_total();
        ids(dists@).lemma_sort_by_ensures(dist_order());
        lemma_sorted_unique(ref_ids(sorted@), canonical(ids(dists@)), dist_order());
    }
    sorted
}

} // verus!
