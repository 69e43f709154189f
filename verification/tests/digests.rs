use environment_cache::digest::{interpreter_digest, resolution_digest};
use environment_cache::distribution::{sort_distributions, Distribution};
use environment_cache::lexical::{rank_bytes, Rank};

fn dist(name: &str, version: &str) -> Distribution {
    Distribution::new(name, version, "https://pypi.org/simple")
}

fn is_digest(text: &str) -> bool {
    text.len() == 16 && text.bytes().all(|b| b.is_ascii_digit() || (b'a'..=b'f').contains(&b))
}

#[test]
fn rank_bytes_orders_as_str_does() {
    assert_eq!(rank_bytes(b"", b""), Rank::Same);
    assert_eq!(rank_bytes(b"", b"a"), Rank::Before);
    assert_eq!(rank_bytes(b"a", b""), Rank::After);
    assert_eq!(rank_bytes(b"abc", b"abd"), Rank::Before);
    assert_eq!(rank_bytes(b"abd", b"abc"), Rank::After);
    assert_eq!(rank_bytes(b"ab", b"abc"), Rank::Before);
    assert_eq!(rank_bytes(b"abc", b"abc"), Rank::Same);
    assert_eq!(rank_bytes("é".as_bytes(), "z".as_bytes()), Rank::After);
}

#[test]
fn distributions_rank_by_name_then_version_then_source() {
    let a = Distribution::new("a", "2.0", "index");
    let b = Distribution::new("b", "1.0", "index");
    assert_eq!(a.rank(&b), Rank::Before);
    assert_eq!(b.rank(&a), Rank::After);
    assert_eq!(a.rank(&a), Rank::Same);
    let a1 = Distribution::new("a", "1.0", "index");
    assert_eq!(a1.rank(&a), Rank::Before);
    let a_other = Distribution::new("a", "2.0", "path");
    assert_eq!(a.rank(&a_other), Rank::Before);
    assert_eq!(a_other.rank(&a), Rank::After);
}

#[test]
fn sort_puts_distributions_in_name_order() {
    let dists = vec![dist("b", "1.0"), dist("c", "0.1"), dist("a", "2.0")];
    let sorted = sort_distributions(&dists);
    let names: Vec<&str> = sorted.iter().map(|d| d.name()).collect();
    assert_eq!(names, vec!["a", "b", "c"]);
    assert_eq!(sort_distributions(&[]).len(), 0);
}

#[test]
fn resolution_digest_ignores_order() {
    let one = vec![dist("b", "1.0"), dist("a", "2.0")];
    let two = vec![dist("a", "2.0"), dist("b", "1.0")];
    assert_eq!(resolution_digest(&one), resolution_digest(&two));
}

#[test]
fn resolution_digest_is_the_hash_of_the_sorted_triples() {
    let dists = vec![dist("b", "1.0"), dist("a", "2.0")];
    let expected = uv_cache_key::hash_digest(&vec![
        ("a", "2.0", "https://pypi.org/simple"),
        ("b", "1.0", "https://pypi.org/simple"),
    ]);
    assert_eq!(resolution_digest(&dists), expected);
    let unsorted = uv_cache_key::hash_digest(&vec![
        ("b", "1.0", "https://pypi.org/simple"),
        ("a", "2.0", "https://pypi.org/simple"),
    ]);
    assert_ne!(expected, unsorted);
}

#[test]
fn resolution_digest_tells_resolutions_apart() {
    let base = resolution_digest(&[dist("a", "2.0"), dist("b", "1.0")]);
    let other_name = resolution_digest(&[dist("a", "2.0"), dist("c", "1.0")]);
    let other_version = resolution_digest(&[dist("a", "2.1"), dist("b", "1.0")]);
    let other_source = resolution_digest(&[
        dist("a", "2.0"),
        Distribution::new("b", "1.0", "file:///srv/b"),
    ]);
    let fewer = resolution_digest(&[dist("a", "2.0")]);
    let empty = resolution_digest(&[]);
    let all = [&base, &other_name, &other_version, &other_source, &fewer, &empty];
    for (i, x) in all.iter().enumerate() {
        assert!(is_digest(x));
        for y in all.iter().skip(i + 1) {
            assert_ne!(x, y);
        }
    }
}

#[test]
fn interpreter_digest_is_the_cache_digest_of_the_path() {
    let path = "/usr/local/bin/python3.12";
    let expected = uv_cache_key::cache_digest(&std::path::PathBuf::from(path));
    let digest = interpreter_digest(path);
    assert_eq!(digest, expected);
    assert!(is_digest(&digest));
    assert_ne!(digest, path);
    assert_ne!(digest, interpreter_digest("/usr/bin/python3"));
    assert_eq!(digest, interpreter_digest(path));
}

#[test]
fn digests_have_their_known_values() {
    let resolution = resolution_digest(&[dist("b", "1.0"), dist("a", "2.0")]);
    assert_eq!(resolution, "c10f8162d600fb13");
    assert_eq!(resolution_digest(&[]), "5f796da452e5de1c");
    assert_eq!(interpreter_digest("/usr/bin/python3"), "05f7b0856e340464");
}

#[test]
fn resolution_digest_counts_repeated_distributions() {
    let once = resolution_digest(&[dist("a", "2.0")]);
    let twice = resolution_digest(&[dist("a", "2.0"), dist("a", "2.0")]);
    assert_ne!(once, twice);
}

#[test]
fn resolution_digest_ignores_order_of_many() {
    let names = ["numpy", "anyio", "idna", "sniffio", "zipp", "attrs", "certifi"];
    let forward: Vec<Distribution> = names.iter().map(|n| dist(n, "1.0")).collect();
    let backward: Vec<Distribution> = names.iter().rev().map(|n| dist(n, "1.0")).collect();
    let mut rotated = forward.clone();
    rotated.rotate_left(3);
    let digest = resolution_digest(&forward);
    assert_eq!(digest, resolution_digest(&backward));
    assert_eq!(digest, resolution_digest(&rotated));
    let sorted = sort_distributions(&backward);
    let order: Vec<&str> = sorted.iter().map(|d| d.name()).collect();
    assert_eq!(order, vec!["anyio", "attrs", "certifi", "idna", "numpy", "sniffio", "zipp"]);
}

#[test]
fn sort_breaks_ties_by_version_then_source() {
    let dists = vec![
        Distribution::new("a", "2.0", "path"),
        Distribution::new("a", "2.0", "index"),
        Distribution::new("a", "10.0", "index"),
    ];
    let sorted = sort_distributions(&dists);
    let order: Vec<(&str, &str)> =
        sorted.iter().map(|d| (d.version.as_str(), d.source.as_str())).collect();
    assert_eq!(order, vec![("10.0", "index"), ("2.0", "index"), ("2.0", "path")]);
}
