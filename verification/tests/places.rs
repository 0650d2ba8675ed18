use media_proxy::names::{object_name, remote_path};
use media_proxy::storage::{base_path, directories, latest_path, url, variant_path};
use media_proxy::text::{contains, push_decimal, same_text};

#[test]
fn names_fold_paths_into_one_segment() {
    assert_eq!(object_name("Qm1", None), "Qm1");
    assert_eq!(object_name("Qm1", Some("a/b.png")), "Qm1-_-a-_-b.png");
    assert_eq!(object_name("Qm1", Some("")), "Qm1-_-");
    assert_eq!(object_name("", Some("/")), "-_--_-");
}

#[test]
fn names_hold_a_slash_only_if_the_image_does() {
    for path in ["/", "a//b/", "../../c", "-_/-", "日/本"] {
        assert!(!object_name("Qm1", Some(path)).contains('/'));
        assert!(object_name("Qm1/x", Some(path)).contains('/'));
    }
    assert_eq!(object_name("Qm1", Some("../../c")), "Qm1-_-..-_-..-_-c");
    assert!(!object_name("Qm1", None).contains('/'));
    assert!(object_name("/", None).contains('/'));
}

#[test]
fn clean_paths_come_back() {
    for (image, path) in [("Qm1", "a/b.png"), ("é", "日/本"), ("x", ""), ("x-", "_-/-"), ("x", "a-_")] {
        let name = object_name(image, Some(path));
        assert_eq!(remote_path(&name), format!("{}/{}", image, path));
    }
}

#[test]
fn unclean_paths_do_not_come_back() {
    for (image, path) in [("a-_", "b"), ("a-_-b", "c"), ("a", "b-_-c"), ("a", "b-_/c")] {
        let name = object_name(image, Some(path));
        assert_ne!(remote_path(&name), format!("{}/{}", image, path));
    }
    assert_eq!(remote_path("-_-_-"), "/_-");
}

#[test]
fn plain_names_stay() {
    assert_eq!(remote_path("Qm1.png"), "Qm1.png");
    assert_eq!(remote_path("a-_b"), "a-_b");
    assert_eq!(remote_path("a-_-b-_-c"), "a/b/c");
}

#[test]
fn paths_in_storage() {
    assert_eq!(base_path("st", "ipfs", "Qm1"), "st/base/ipfs/Qm1");
    assert_eq!(variant_path("st", "ipfs", 300, "Qm1"), "st/mod/ipfs/300/Qm1");
    assert_eq!(variant_path("st", "ipfs", 0, "Qm1"), "st/mod/ipfs/0/Qm1");
    assert_eq!(latest_path("st", "ipfs", "Qm1"), "st/mod/latest/ipfs/Qm1");
    assert_eq!(
        directories("st", "ipfs", 4294967295),
        vec!["st/base/ipfs", "st/mod/latest/ipfs", "st/mod/ipfs/4294967295"]
    );
}

#[test]
fn files_of_an_object_are_distinct() {
    let dirs = directories("st", "latest", 300);
    assert_eq!(base_path("st", "latest", "n"), format!("{}/n", dirs[0]));
    assert_eq!(latest_path("st", "latest", "n"), format!("{}/n", dirs[1]));
    assert_eq!(variant_path("st", "latest", 300, "n"), format!("{}/n", dirs[2]));
    assert_ne!(latest_path("st", "latest", "n"), variant_path("st", "latest", 300, "n"));
    assert_ne!(base_path("st", "latest", "n"), variant_path("st", "latest", 300, "n"));
    assert_ne!(variant_path("st", "a", 12, "n"), variant_path("st", "a", 120, "n"));
}

#[test]
fn addresses_at_a_service() {
    assert_eq!(url("https://ipfs.io/ipfs", "Qm1"), "https://ipfs.io/ipfs/Qm1");
    assert_eq!(url("https://ipfs.io/ipfs", "Qm1-_-a-_-b"), "https://ipfs.io/ipfs/Qm1/a/b");
    assert_eq!(url("", ""), "/");
}

#[test]
fn text_operations() {
    assert!(contains("a buffer here", "buffer"));
    assert!(contains("buffer", "buffer"));
    assert!(contains("x", ""));
    assert!(!contains("buffe", "buffer"));
    assert!(!contains("", "buffer"));
    assert!(same_text("", ""));
    assert!(same_text("é", "é"));
    assert!(!same_text("a", "ab"));
    let mut out = String::from("n");
    push_decimal(&mut out, 1090);
    assert_eq!(out, "n1090");
}

#[test]
fn images_are_asked_for_as_they_are_forwarded() {
    let cfg = media_proxy::config::AppConfig::default();
    let endpoint = &cfg.services[0].endpoint;
    let forwarded = |image: &str| media_proxy::forward::forward(&cfg, "ipfs", image).unwrap().url;
    assert_eq!(url(endpoint, &object_name("Qm1", None)), forwarded("Qm1"));
    assert_ne!(url(endpoint, &object_name("a-_-b", None)), forwarded("a-_-b"));
    assert_eq!(url(endpoint, &object_name("Qm1", Some("a/b"))), "https://ipfs.io/ipfs/Qm1/a/b");
}
