use rustpod::paths::{
    bundle_dir, container_id, image_dir, images_root, join_path, netns_name, netns_path, resolve_home,
};
use rustpod::text::{contains_char, decimal_string, find_char, str_eq};

#[test]
fn join_adds_one_separator() {
    assert_eq!(join_path("/a", "b"), "/a/b");
    assert_eq!(join_path("/a/", "b"), "/a/b");
    assert_eq!(join_path("", "b"), "b");
    assert_eq!(join_path("/a", ""), "/a/");
}

#[test]
fn join_with_an_absolute_part_replaces() {
    assert_eq!(join_path("/run/rustpod/bundles", "/etc"), "/etc");
}

#[test]
fn join_agrees_with_std_paths() {
    for (base, part) in [("/a", "b"), ("/a/", "b"), ("", "b"), ("/a", ""), ("/x", "/y"), ("rel", "c/d")] {
        let std_joined = std::path::Path::new(base).join(part);
        assert_eq!(join_path(base, part), std_joined.to_str().unwrap());
    }
}

#[test]
fn image_store_locations() {
    assert_eq!(images_root("/root"), "/root/.rustpod/images");
    assert_eq!(image_dir("/home/u", "hello-world", "latest"), "/home/u/.rustpod/images/hello-world/latest");
    assert_eq!(image_dir("/home/u/", "bitnami/redis", "7"), "/home/u/.rustpod/images/bitnami/redis/7");
}

#[test]
fn home_defaults_to_root() {
    assert_eq!(resolve_home(None), "/root");
    assert_eq!(resolve_home(Some("/home/me".to_string())), "/home/me");
}

#[test]
fn container_locations() {
    assert_eq!(bundle_dir("rustpod-17"), "/run/rustpod/bundles/rustpod-17");
    assert_eq!(netns_name("rustpod-17"), "rustpod-rustpod-17");
    assert_eq!(netns_path("rustpod-17"), "/var/run/netns/rustpod-rustpod-17");
}

#[test]
fn container_ids_use_decimal_seconds() {
    assert_eq!(container_id(0), "rustpod-0");
    assert_eq!(container_id(1700000000), "rustpod-1700000000");
    assert_eq!(container_id(u64::MAX), "rustpod-18446744073709551615");
    assert_ne!(container_id(10), container_id(1));
}

#[test]
fn decimal_matches_display() {
    for n in [0u64, 7, 9, 10, 99, 100, 12345, u64::MAX] {
        assert_eq!(decimal_string(n), n.to_string());
    }
}

#[test]
fn character_search() {
    assert_eq!(find_char("a:b", ':'), 1);
    assert_eq!(find_char("ab", ':'), 2);
    assert_eq!(find_char("héllo:x", ':'), 5);
    assert!(contains_char("a/b", '/'));
    assert!(!contains_char("ab", '/'));
    assert!(str_eq("abc", "abc"));
    assert!(!str_eq("abc", "abd"));
    assert!(!str_eq("abc", "ab"));
}
