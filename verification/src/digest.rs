//! The two digests that address a cached environment.

use vstd::prelude::*;
use vstd::relations::sorted_by;
use vstd::seq_lib::lemma_sorted_unique;

use crate::distribution::{
    canonical, dist_order, ids, lemma_dist_order_total, ref_ids, sort_distributions, Distribution,
    DistributionId,
};

verus! {

/// The digest that `uv_cache_key::hash_digest` gives for a list of
/// `(name, version, source)` triples.
pub uninterp spec fn hash_digest_of(items: Seq<(Seq<char>, Seq<char>, Seq<char>)>) -> Seq<char>;

/// The digest that `uv_cache_key::cache_digest` gives for a path.
pub uninterp spec fn path_digest_of(path: Seq<char>) -> Seq<char>;

/// A lower-case hexadecimal digit.
pub open spec fn is_hex_digit(c: char) -> bool {
    ('0' <= c && c <= '9') || ('a' <= c && c <= 'f')
}

/// The shape of a digest: sixteen lower-case hexadecimal digits, which
/// spell a 64-bit hash.
pub open spec fn is_digest(text: Seq<char>) -> bool {
    &&& text.len() == 16
    &&& forall|i: int| 0 <= i < text.len() ==> is_hex_digit(#[trigger] text[i])
}

/// The `(name, version, source)` triples of a list of distributions: what
/// the hash is fed.
pub open spec fn triples(dists: Seq<DistributionId>) -> Seq<(Seq<char>, Seq<char>, Seq<char>)> {
    dists.map_values(|d: DistributionId| (d.name, d.version, d.source))
}

/// The digest of a resolution: the hash of its distributions in canonical
/// order.
pub open spec fn resolution_digest_of(dists: Seq<DistributionId>) -> Seq<char> {
    hash_digest_of(triples(canonical(dists)))
}

/// Calls `uv_cache_key::hash_digest` on the distributions' `(name, version,
/// source)` triples, in the order given. Trusted: the result is the hash of
/// exactly those triples in that order, written as sixteen lower-case
/// hexadecimal digits.
#[verifier::external_body]
fn hash_digest(items: &Vec<&Distribution>) -> (digest: String)
    ensures
        digest@ == hash_digest_of(triples(ref_ids(items@))),
        is_digest(digest@),
{
    let fed: Vec<(&str, &str, &str)> = items
        .iter()
        .map(|d| (d.name.as_str(), d.version.as_str(), d.source.as_str()))
        .collect();
    uv_cache_key::hash_digest(&fed)
}

/// Calls `uv_cache_key::cache_digest` on a path. Trusted: the result is the
/// stable hash of that path, written as sixteen lower-case hexadecimal
/// digits.
#[verifier::external_body]
fn cache_digest(path: &str) -> (digest: String)
    ensures
        digest@ == path_digest_of(path@),
        is_digest(digest@),
{
    uv_cache_key::cache_digest(&std::path::PathBuf::from(path))
}

/// The digest of a resolution. The order in which the distributions are
/// given does not matter: they are hashed in canonical order.
///
/// A distribution is hashed by its name, version and source as they are
/// written. Where a source is a path or a repository whose content can change
/// while its text stays the same, the digest stays the same too.
pub fn resolution_digest(dists: &[Distribution]) -> (digest: String)
    ensures
        digest@ == resolution_digest_of(ids(dists@)),
        is_digest(digest@),
{
    let sorted = sort_distributions(dists);
    hash_digest(&sorted)
}

/// The digest of an interpreter, taken from the canonical path of its
/// executable.
pub fn interpreter_digest(canonical_executable: &str) -> (digest: String)
    ensures
        digest@ == path_digest_of(canonical_executable@),
        is_digest(digest@),
{
    cache_digest(canonical_executable)
}

/// Two lists that hold the same distributions, each as often as the other,
/// have the same canonical order.
pub proof fn lemma_canonical_ignores_order(a: Seq<DistributionId>, b: Seq<DistributionId>)
    requires
        a.to_multiset() == b.to_multiset(),
    ensures
        canonical(a) == canonical(b),
{
    lemma_dist_order_total();
    a.lemma_sort_by_ensures(dist_order());
    b.lemma_sort_by_ensures(dist_order());
    lemma_sorted_unique(canonical(a), canonical(b), dist_order());
}

/// The digest of a resolution does not depend on the order of its
/// distributions: two resolutions that hold the same distributions have the
/// same digest.
pub proof fn lemma_digest_ignores_order(a: Seq<DistributionId>, b: Seq<DistributionId>)
    requires
        a.to_multiset() == b.to_multiset(),
    ensures
        resolution_digest_of(a) == resolution_digest_of(b),
{
    lemma_canonical_ignores_order(a, b);
}

/// The canonical order loses nothing: resolutions that differ in a
/// distribution's name, version or source, or in how often one occurs, are
/// hashed from different input.
pub proof fn lemma_hashed_input_tells_resolutions_apart(
    a: Seq<DistributionId>,
    b: Seq<DistributionId>,
)
    requires
        a.to_multiset() != b.to_multiset(),
    ensures
        triples(canonical(a)) != triples(canonical(b)),
{
    lemma_dist_order_total();
    a.lemma_sort_by_ensures(dist_order());
    b.lemma_sort_by_ensures(dist_order());
    if triples(canonical(a)) == triples(canonical(b)) {
        lemma_triples_injective(canonical(a), canonical(b));
    }
}

/// Lists of distributions with the same triples are the same list.
pub proof fn lemma_triples_injective(a: Seq<DistributionId>, b: Seq<DistributionId>)
    requires
        triples(a) == triples(b),
    ensures
        a == b,
{
    assert(a.len() == triples(a).len());
    assert(b.len() == triples(b).len());
    assert forall|i: int| 0 <= i < a.len() implies a[i] == b[i] by {
        assert(triples(a)[i] == (a[i].name, a[i].version, a[i].source));
        assert(triples(b)[i] == (b[i].name, b[i].version, b[i].source));
    }
    assert(a =~= b);
}

/// The canonical order of a resolution is sorted and holds the same
/// distributions as the resolution.
pub proof fn lemma_canonical_is_sorted_permutation(dists: Seq<DistributionId>)
    ensures
        sorted_by(canonical(dists), dist_order()),
        canonical(dists).to_multiset() == dists.to_multiset(),
{
    lemma_dist_order_total();
    dists.lemma_sort_by_ensures(dist_order());
}

} // verus!
