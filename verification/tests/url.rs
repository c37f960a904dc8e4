use surf_disco::Address;

fn url(text: &str) -> Address {
    Address::parse(text).unwrap()
}

#[test]
fn parsing_gives_the_normal_form() {
    assert_eq!(url("HTTP://Example.COM:80").as_str(), "http://example.com/");
    assert_eq!(url(" http://example.com/a b ").as_str(), "http://example.com/a%20b");
    assert_eq!(url("http://example.com/").as_str(), "http://example.com/");
    assert_eq!(url("http://example.com").len(), 19);
    assert_eq!(url("http://example.com").clone().as_str(), "http://example.com/");
}

#[test]
fn texts_that_are_no_urls_are_refused() {
    assert_eq!(Address::parse("").unwrap_err().description, "relative URL without a base");
    assert_eq!(Address::parse("http://").unwrap_err().clone().description, "empty host");
    assert_eq!(
        Address::parse("http://localhost:x").unwrap_err().description,
        "invalid port number"
    );
}

#[test]
fn joining_resolves_against_the_base() {
    let base = url("http://localhost/a/b");
    assert_eq!(base.join("c").unwrap().as_str(), "http://localhost/a/c");
    assert_eq!(base.join("/c").unwrap().as_str(), "http://localhost/c");
    assert_eq!(base.join("../c").unwrap().as_str(), "http://localhost/c");
    assert_eq!(base.join("https://other/").unwrap().as_str(), "https://other/");
    let dir = url("http://localhost/a/b/");
    assert_eq!(dir.join("c").unwrap().as_str(), "http://localhost/a/b/c");
    assert_eq!(
        url("mailto:x").join("c").unwrap_err().description,
        "relative URL with a cannot-be-a-base base"
    );
}

#[test]
fn the_parts_of_a_url() {
    assert_eq!(url("https://u:p@host:1/a/b?q#f").scheme(), "https");
    assert_eq!(url("https://u:p@host:1/a/b?q#f").path(), "/a/b");
    assert_eq!(url("mailto:someone").scheme(), "mailto");
    assert_eq!(url("mailto:someone").path(), "someone");
    assert_eq!(url("foo:/.//bar").path(), "//bar");
    assert_eq!(url("foo://host").path(), "");
    assert_eq!(url("foo:").path(), "");
}

#[test]
fn setting_the_path_keeps_the_rest() {
    let mut u = url("ws://localhost:5000/a?q=1#f");
    u.set_path("/b/c d");
    assert_eq!(u.as_str(), "ws://localhost:5000/b/c%20d?q=1#f");
    u.set_path("e?x");
    assert_eq!(u.as_str(), "ws://localhost:5000/e%3Fx?q=1#f");
    u.set_path("http://other/g");
    assert_eq!(u.as_str(), "ws://localhost:5000/http://other/g?q=1#f");
    u.set_path("/a//b-_9/");
    assert_eq!(u.as_str(), "ws://localhost:5000/a//b-_9/?q=1#f");
    u.set_path("");
    assert_eq!(u.as_str(), "ws://localhost:5000/?q=1#f");
}

#[test]
fn directories_end_with_a_slash() {
    let cases = [
        ("http://localhost", "http://localhost/"),
        ("http://localhost/a", "http://localhost/a/"),
        ("http://localhost/a/", "http://localhost/a/"),
        ("http://localhost/a?q", "http://localhost/a/?q"),
        ("foo://host", "foo://host/"),
        ("foo:/.//bar", "foo:/.//bar/"),
        ("foo:bar", "foo:bar/"),
        ("foo:", "foo:%2F"),
        ("file:///x", "file:///x/"),
        ("file:///C:", "file:///C:/"),
        ("file:///C|/x", "file:///C:/x/"),
        ("file:///C|/x?q#f", "file:///C:/x/?q#f"),
        ("file://host/x y?q", "file://host/x%20y/?q"),
        ("file:/C:\t..", "file:///C:/"),
        ("file:", "file:///"),
        ("foo:a #f", "foo:a /#f"),
        ("foo:/a", "foo:/a/"),
        ("foo:/.x", "foo:/.x/"),
        ("foo:////x", "foo:////x/"),
    ];
    for (before, after) in cases {
        let mut u = url(before);
        u.make_directory();
        assert_eq!(u.as_str(), after);
    }
}

#[test]
fn a_directory_is_its_own_directory() {
    for text in ["http://localhost", "foo:/.//bar", "foo:bar", "ws://h/a?q#f"] {
        let mut u = url(text);
        u.make_directory();
        let once = u.as_str().to_string();
        u.make_directory();
        assert_eq!(u.as_str(), once);
    }
    // An opaque URL without a path is the exception.
    let mut u = url("foo:");
    u.make_directory();
    u.make_directory();
    assert_eq!(u.as_str(), "foo:%2F/");
}

#[test]
fn upgrading_changes_the_scheme_only() {
    let cases = [
        ("http://localhost:5000/a?q#f", "ws://localhost:5000/a?q#f"),
        ("https://localhost/a", "wss://localhost/a"),
        ("ws://localhost/a", "ws://localhost/a"),
        ("foo:bar", "foo:bar"),
        ("foo:", "foo:"),
        ("foo:/.//bar", "foo:/.//bar"),
        ("foo://host:80/", "foo://host:80/"),
        ("ftp://host/a", "ftp://host/a"),
        ("http://host:443/", "ws://host:443/"),
    ];
    for (before, after) in cases {
        let mut u = url(before);
        u.upgrade();
        assert_eq!(u.as_str(), after);
        u.upgrade();
        assert_eq!(u.as_str(), after);
    }
}

#[test]
fn plain_routes_go_where_they_say() {
    for base in ["http://h/", "https://u:p@h:1/a/b/", "ws://[::1]/a/", "wss://h/x%20y/"] {
        for route in ["a", "a/b", "a//b/", "A-_9"] {
            let joined = url(base).join(route).unwrap();
            assert_eq!(joined.as_str(), format!("{}{}", base, route));
            let joined = url(&format!("{}?q=1#f", base)).join(route).unwrap();
            assert_eq!(joined.as_str(), format!("{}{}", base, route));
        }
    }
    for route in ["a", "a/b", "/", "/a"] {
        assert!(Address::parse(route).is_err());
    }
    for base in ["http://h/a?q#f", "http://h"] {
        for route in ["/", "/a", "/a//b/"] {
            let joined = url(base).join(route).unwrap();
            assert_eq!(joined.as_str(), format!("http://h{}", route));
        }
    }
    for base in ["foo://host", "foo:/a", "foo:/.//a", "file:///x", "ftp://h/"] {
        assert!(url(base).join("a/b").is_ok());
        assert!(url(base).join("/a/b").is_ok());
    }
}

#[test]
fn urls_are_held_as_they_were_made() {
    // One label of a thousand ideographs makes a host that is not parsed again.
    let label: String =
        (0..1000u32).map(|i| char::from_u32(0x4e00 + 20 * i).unwrap()).collect();
    let mut long = url(&format!("http://{}/a", label));
    assert!(Address::parse(long.as_str()).is_err());
    assert_eq!(long.scheme(), "http");
    assert_eq!(long.path(), "/a");
    long.make_directory();
    let below = long.join("b").unwrap();
    assert_eq!(below.path(), "/a/b");
    assert_eq!(below.as_surf().as_str(), below.as_str());
    long.upgrade();
    long.set_path("/c");
    assert!(long.as_str().starts_with("ws://xn--"));
    assert_eq!(long.path(), "/c");
    assert_eq!(long.clone().as_str(), long.as_str());
    let reference = format!("//{}/b", label);
    let other = url("http://localhost").join(&reference).unwrap();
    assert_eq!(other.path(), "/b");
}

#[test]
fn file_urls_need_not_be_in_normal_form() {
    let dots = url("file:/C:\t..");
    assert_eq!(dots.as_str(), "file:///C:/..");
    assert_eq!(dots.path(), "/C:/..");
    assert_eq!(url(dots.as_str()).as_str(), "file:///C:/");
    let mut drive = url("file://host/dir/?q").join("../C:/x?y#z").unwrap();
    assert_eq!(drive.as_str(), "file://host/C:/x?y#z");
    assert_eq!(drive.scheme(), "file");
    assert_eq!(drive.path(), "/C:/x");
    drive.make_directory();
    assert_eq!(drive.as_str(), "file://host/C:/x/?y#z");
    assert_eq!(drive.join("y").unwrap().as_str(), "file://host/C:/x/y");
    assert_eq!(url("file:///a/b").path(), "/a/b");
}

#[test]
fn urls_are_parsed_to_themselves() {
    let texts = [
        "http://EXAMPLE.com/%7Ea/../b",
        "foo:a b #f",
        "foo: ?q",
        "file:///C|/x",
        "http://0x7f.1/",
        "http://b\u{fc}cher.example/",
        "foo:/..//a",
    ];
    for text in texts {
        let once = url(text);
        assert_eq!(url(once.as_str()).as_str(), once.as_str());
    }
}
