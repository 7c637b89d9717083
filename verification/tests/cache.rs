use campus_lms_cli::cache::{cache_lookup, key, profile_key, CacheLookup};
use campus_lms_cli::moodle::assignments::detail_cache_key;

#[test]
fn cache_key_is_name_and_sha256() {
    assert_eq!(
        key("courses", "abc"),
        "courses-ba7816bf8f01cfea414140de5dae2223b00361a396177a9cb410ff61f20015ad.json"
    );
    assert_eq!(profile_key("x", "ns", "abc"), key("x", "ns:abc"));
    assert_eq!(detail_cache_key("ns", 42), key("assignment-show", "ns:v4:42"));
}

#[test]
fn cache_rules() {
    assert_eq!(cache_lookup(true, false, true, 0, 0, 300, "/p").unwrap(), CacheLookup::Skip);
    assert_eq!(cache_lookup(false, false, false, 0, 0, 300, "/p").unwrap(), CacheLookup::Skip);
    let err = cache_lookup(false, true, false, 0, 0, 300, "/p").unwrap_err();
    assert_eq!(err.display_text(), "cache error: offline cache entry not found: /p");
    assert_eq!(cache_lookup(false, false, true, 300, 1, 300, "/p").unwrap(), CacheLookup::Skip);
    assert_eq!(cache_lookup(false, false, true, 300, 0, 300, "/p").unwrap(), CacheLookup::Read { stale: false });
    assert_eq!(cache_lookup(false, true, true, 900, 0, 300, "/p").unwrap(), CacheLookup::Read { stale: true });
}
