use environment_cache::digest::{interpreter_digest, resolution_digest};
use environment_cache::distribution::Distribution;
use environment_cache::entry::{CacheBucket, CacheEntry};

#[test]
fn entry_holds_bucket_and_digests() {
    let entry = CacheEntry::new("0123456789abcdef".to_string(), "fedcba9876543210".to_string());
    assert_eq!(entry.bucket(), CacheBucket::Environments);
    assert_eq!(entry.bucket().name(), "Environments");
    assert_eq!(entry.interpreter_digest(), "0123456789abcdef");
    assert_eq!(entry.resolution_digest(), "fedcba9876543210");
}

#[test]
fn entry_logical_path_is_bucket_then_digests() {
    let entry = CacheEntry::new("0123456789abcdef".to_string(), "fedcba9876543210".to_string());
    assert_eq!(entry.logical_path(), "Environments/0123456789abcdef/fedcba9876543210");
}

#[test]
fn same_pair_same_entry_other_pair_other_entry() {
    let a = CacheEntry::new("0123456789abcdef".to_string(), "fedcba9876543210".to_string());
    let b = CacheEntry::new("0123456789abcdef".to_string(), "fedcba9876543210".to_string());
    let swapped = CacheEntry::new("fedcba9876543210".to_string(), "0123456789abcdef".to_string());
    let other = CacheEntry::new("0123456789abcdef".to_string(), "0000000000000000".to_string());
    assert_eq!(a, b);
    assert_eq!(a.logical_path(), b.logical_path());
    assert_ne!(a, swapped);
    assert_ne!(a.logical_path(), swapped.logical_path());
    assert_ne!(a, other);
    assert_ne!(a.logical_path(), other.logical_path());
}

#[test]
fn entry_duplicate_is_equal() {
    let a = CacheEntry::new("0123456789abcdef".to_string(), "fedcba9876543210".to_string());
    assert_eq!(a.duplicate(), a);
}

#[test]
fn entry_of_real_digests() {
    let interpreter = interpreter_digest("/usr/bin/python3");
    let resolution = resolution_digest(&[Distribution::new("a", "2.0", "index")]);
    let entry = CacheEntry::new(interpreter.clone(), resolution.clone());
    assert_eq!(entry.logical_path(), format!("Environments/{interpreter}/{resolution}"));
    assert_eq!(entry.logical_path().len(), 46);
}
