use media_proxy::config::{config_path, AppConfig, CacheConfig, Service, TwitterConfig};

fn service(name: &str, endpoint: &str, max_age: Option<u32>) -> Service {
    Service {
        name: name.to_string(),
        endpoint: endpoint.to_string(),
        cache: max_age.map(|max_age| CacheConfig { max_age }),
    }
}

#[test]
fn defaults_are_complete() {
    let cfg = AppConfig::default();
    assert_eq!(cfg.port, 3030);
    assert_eq!(cfg.workers, 8);
    assert_eq!(cfg.req_timeout, 15);
    assert!(cfg.skip_list.is_none());
    assert_eq!(cfg.max_body_size_bytes, 60000000);
    assert_eq!(cfg.log_level, "debug");
    assert_eq!(cfg.storage_path, "storage");
    assert!(cfg.allowed_sizes.is_none());
    assert!(cfg.twitter.is_none());
    assert_eq!(cfg.health_endpoint, "/health");
    assert_eq!(cfg.user_agent, "media_proxy/0.1.0");
    assert_eq!(cfg.services.len(), 1);
    assert_eq!(cfg.services[0].name, "ipfs");
    assert_eq!(cfg.services[0].endpoint, "https://ipfs.io/ipfs");
    assert_eq!(cfg.services[0].max_age(), 31536000);
}

#[test]
fn age_of_a_service_falls_back_to_a_year() {
    assert_eq!(service("a", "http://a", Some(60)).max_age(), 60);
    assert_eq!(service("a", "http://a", None).max_age(), 31536000);
}

#[test]
fn first_service_of_a_name_is_found() {
    let mut cfg = AppConfig::default();
    cfg.services = vec![
        service("a", "http://first", None),
        service("b", "http://b", None),
        service("a", "http://second", None),
    ];
    assert_eq!(cfg.find_service("a").unwrap().endpoint, "http://first");
    assert_eq!(cfg.find_service("b").unwrap().endpoint, "http://b");
    assert!(cfg.find_service("A").is_none());
    assert!(cfg.find_service("").is_none());
}

#[test]
fn sizes_are_checked_against_the_list() {
    let mut cfg = AppConfig::default();
    assert!(cfg.allows_size(0));
    assert!(cfg.allows_size(12345));
    cfg.allowed_sizes = Some(vec![100, 200]);
    assert!(cfg.allows_size(0));
    assert!(cfg.allows_size(100));
    assert!(cfg.allows_size(200));
    assert!(!cfg.allows_size(150));
    cfg.allowed_sizes = Some(vec![]);
    assert!(!cfg.allows_size(0));
    assert!(!cfg.allows_size(100));
}

#[test]
fn skip_list_holds_names() {
    let mut cfg = AppConfig::default();
    assert!(!cfg.skips("x"));
    cfg.skip_list = Some(vec!["x".to_string(), "y".to_string()]);
    assert!(cfg.skips("x"));
    assert!(cfg.skips("y"));
    assert!(!cfg.skips("xy"));
}

#[test]
fn profile_lookup_has_its_own_age() {
    let mut cfg = AppConfig::default();
    assert_eq!(cfg.twitter_max_age(), 31536000);
    cfg.twitter = Some(TwitterConfig { cache: CacheConfig { max_age: 5 } });
    assert_eq!(cfg.twitter_max_age(), 5);
}

#[test]
fn config_file_is_given_or_in_the_working_directory() {
    assert_eq!(config_path(None, "/srv"), "/srv/config.toml");
    assert_eq!(config_path(Some("/etc/p.toml".to_string()), "/srv"), "/etc/p.toml");
}
