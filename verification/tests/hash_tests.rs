use hdk::hash::{afs_hash, AfsHash};

#[test]
fn hash_of_simple_string() {
    // ((0*37 + 'a')*37 + 'b')*37 + 'c'
    assert_eq!(afs_hash("abc"), 136518);
}

#[test]
fn hash_ignores_case() {
    assert_eq!(afs_hash("ABC"), 136518);
    assert_eq!(afs_hash("AbC"), afs_hash("abc"));
}

#[test]
fn hash_treats_backslash_as_slash() {
    assert_eq!(afs_hash("a\\b"), afs_hash("a/b"));
    assert_eq!(afs_hash("a\\b"), 134630);
}

#[test]
fn hash_of_empty_string_is_zero() {
    assert_eq!(afs_hash(""), 0);
}

#[test]
fn hash_of_single_slash() {
    assert_eq!(afs_hash("/"), 47);
}

#[test]
fn hash_wraps_on_long_input() {
    assert_eq!(afs_hash("zzzzzzzzzzzzzzzz"), 1285449312);
    assert_eq!(afs_hash("data/models/hero.mdl"), -963444515);
}

#[test]
fn hash_from_str_constructor() {
    assert_eq!(AfsHash::new_from_str("ABC"), AfsHash(136518));
}

#[test]
fn hash_from_path_matches_str() {
    let p = std::path::Path::new("Data\\Models/HERO.mdl");
    assert_eq!(
        AfsHash::new_from_path(p),
        AfsHash::new_from_str("data/models/hero.mdl")
    );
}
