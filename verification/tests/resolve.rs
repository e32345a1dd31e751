use bucket_gateway::resolve::{extract_tenant, index_document_name, normalize_path, resolve, ResolvedKey};

fn key_of(host: Option<&str>, raw_path: &str) -> String {
    resolve(host, raw_path).key()
}

#[test]
fn empty_path_without_host_is_default_document() {
    assert_eq!(key_of(None, ""), "index.html");
    assert_eq!(key_of(None, "index.html"), "index.html");
    assert_eq!(resolve(None, ""), resolve(None, "index.html"));
    assert_eq!(resolve(None, "").tenant, "");
}

#[test]
fn empty_path_with_host_keeps_tenant() {
    assert_eq!(key_of(Some("acme.example.com"), ""), "acme/index.html");
}

#[test]
fn extensionless_path_is_directory() {
    assert_eq!(key_of(Some("acme.example.com"), "about"), "acme/about/index.html");
}

#[test]
fn trailing_slash_is_directory() {
    assert_eq!(key_of(Some("acme.example.com"), "about/"), "acme/about/index.html");
}

#[test]
fn file_path_is_untouched() {
    assert_eq!(key_of(Some("acme.example.com"), "style.css"), "acme/style.css");
}

#[test]
fn no_tenant_prefix_without_host() {
    assert_eq!(key_of(None, "a/b/c.js"), "a/b/c.js");
    assert_eq!(key_of(Some(""), "a/b/c.js"), "a/b/c.js");
}

#[test]
fn path_is_decoded_before_normalization() {
    let resolved = resolve(None, "foo%20bar");
    assert_eq!(resolved.object_path, "foo bar/index.html");
    assert_eq!(key_of(Some("acme.example.com"), "foo%20bar"), "acme/foo bar/index.html");
}

#[test]
fn escaped_dot_counts_as_dot() {
    assert_eq!(key_of(None, "style%2Ecss"), "style.css");
    assert_eq!(key_of(None, "style%2ecss"), "style.css");
}

#[test]
fn escaped_slash_at_end_names_directory() {
    assert_eq!(key_of(None, "docs%2F"), "docs/index.html");
}

#[test]
fn undecodable_path_counts_as_empty() {
    assert_eq!(key_of(None, "/%FF"), "index.html");
    assert_eq!(key_of(Some("acme.example.com"), "/a%C3"), "acme/index.html");
}

#[test]
fn one_leading_slash_is_dropped() {
    assert_eq!(key_of(None, "/"), "index.html");
    assert_eq!(key_of(None, "/about"), "about/index.html");
    assert_eq!(key_of(None, "/a/b/c.js"), "a/b/c.js");
    assert_eq!(key_of(Some("acme.example.com"), "/style.css"), "acme/style.css");
    assert_eq!(key_of(None, "//about"), "/about/index.html");
}

#[test]
fn resolve_is_deterministic() {
    let hosts = [None, Some(""), Some("acme.example.com"), Some(".example.com"), Some("localhost")];
    let paths = ["", "/", "/about", "/about/", "/style.css", "/foo%20bar", "/%FF", "/v1"];
    for host in hosts {
        for path in paths {
            assert_eq!(resolve(host, path), resolve(host, path));
            assert_eq!(key_of(host, path), key_of(host, path));
        }
    }
}

#[test]
fn tenant_is_first_label() {
    assert_eq!(extract_tenant(Some("acme.example.com")), "acme");
    assert_eq!(extract_tenant(Some("localhost")), "localhost");
    assert_eq!(extract_tenant(Some("localhost:5000")), "localhost:5000");
    assert_eq!(extract_tenant(Some("a.b")), "a");
    assert_eq!(extract_tenant(Some("b\u{e9}ta.example.com")), "b\u{e9}ta");
}

#[test]
fn tenant_is_empty_without_first_label() {
    assert_eq!(extract_tenant(None), "");
    assert_eq!(extract_tenant(Some("")), "");
    assert_eq!(extract_tenant(Some(".example.com")), "");
    assert_eq!(extract_tenant(Some(".")), "");
}

#[test]
fn tenant_is_computed_when_path_is_empty() {
    let resolved = resolve(Some("acme.example.com"), "");
    assert_eq!(resolved.tenant, "acme");
    assert_eq!(resolved.object_path, "index.html");
}

#[test]
fn normalize_path_rules_in_order() {
    assert_eq!(normalize_path(""), "index.html");
    assert_eq!(normalize_path("index.html"), "index.html");
    assert_eq!(normalize_path("about/"), "about/index.html");
    assert_eq!(normalize_path("a.b/"), "a.b/index.html");
    assert_eq!(normalize_path("/"), "/index.html");
    assert_eq!(normalize_path("about"), "about/index.html");
    assert_eq!(normalize_path("v1"), "v1/index.html");
    assert_eq!(normalize_path("a/b"), "a/b/index.html");
    assert_eq!(normalize_path("style.css"), "style.css");
    assert_eq!(normalize_path("a.b/c"), "a.b/c");
    assert_eq!(normalize_path(".hidden"), ".hidden");
    assert_eq!(normalize_path("docs/index.html"), "docs/index.html");
}

#[test]
fn normalizing_twice_changes_nothing() {
    for path in ["", "index.html", "about", "about/", "style.css", "a.b/c", "/", "caf\u{e9}"] {
        let once = normalize_path(path);
        assert_eq!(normalize_path(&once), once);
        assert!(!once.is_empty());
        assert!(!once.ends_with('/'));
        assert!(once.contains('.'));
    }
}

#[test]
fn key_joins_tenant_and_object_path() {
    let with_tenant = ResolvedKey { tenant: "acme".to_string(), object_path: "a/b.txt".to_string() };
    assert_eq!(with_tenant.key(), "acme/a/b.txt");
    let without = ResolvedKey { tenant: String::new(), object_path: "a/b.txt".to_string() };
    assert_eq!(without.key(), "a/b.txt");
}

#[test]
fn default_document_name() {
    assert_eq!(index_document_name(), "index.html");
}
