use degit::grammar::{check_full_form, check_name, check_short_form, CharClass};

#[test]
fn character_classes() {
    for c in ['a', 'z', 'A', 'Z', '0', '9', '_'] {
        assert!(CharClass::Word.holds(c));
        assert!(CharClass::Name.holds(c));
        assert!(CharClass::Host.holds(c));
    }
    assert!(CharClass::Name.holds('-'));
    assert!(!CharClass::Word.holds('-'));
    assert!(!CharClass::Host.holds('-'));
    assert!(CharClass::Host.holds('.'));
    assert!(CharClass::Host.holds('@'));
    assert!(!CharClass::Name.holds('.'));
    for c in ['/', ':', ',', ' ', '\n', 'é', '`', '{', '[', '^'] {
        assert!(!CharClass::Word.holds(c));
        assert!(!CharClass::Name.holds(c));
        assert!(!CharClass::Host.holds(c));
    }
    assert!(CharClass::Word.holds_all(""));
    assert!(CharClass::Word.holds_all("abc_09"));
    assert!(!CharClass::Word.holds_all("abc-09"));
    assert!(CharClass::Host.holds_all("git@gitlab.example.org"));
}

#[test]
fn names() {
    assert!(check_name("Rich-Harris"));
    assert!(check_name("degit-test-repo"));
    assert!(check_name("_"));
    assert!(!check_name(""));
    assert!(!check_name("a,b"));
    assert!(!check_name("a b"));
    assert!(!check_name("a/b"));
    assert!(!check_name("a.git"));
}

#[test]
fn full_form_covers_the_whole_string() {
    for src in [
        "https://github.com/a/b",
        "https://github.com/a/b/",
        "https://github.com/a/b.git",
        "https://github.com/a/b.git/",
        "git@github.com:a/b",
        "git@github.com:a/b.git",
        "git@github.com/a/b",
        "https://github.com:a/b/",
    ] {
        assert!(check_full_form(src, "github.com", "a", "b"));
    }
    for src in [
        "https://github.com/a/b ",
        " https://github.com/a/b",
        "https://github.com/a/b.gi",
        "https://github.com/a/b/.git",
        "http://github.com/a/b",
        "github.com/a/b",
        "https://github.com/a/c",
        "https://github.com/a/",
        "",
    ] {
        assert!(!check_full_form(src, "github.com", "a", "b"));
    }
    assert!(!check_full_form("https:///a/b", "", "a", "b"));
    assert!(!check_full_form("https://git hub/a/b", "git hub", "a", "b"));
    assert!(!check_full_form("https://github.com//b", "github.com", "", "b"));
    assert!(!check_full_form("https://github.com/a/b.c", "github.com", "a", "b.c"));
}

#[test]
fn short_form_covers_the_whole_string() {
    assert!(check_short_form("a/b", None, "a", "b"));
    assert!(check_short_form("github:a/b", Some("github"), "a", "b"));
    assert!(check_short_form(":a/b", Some(""), "a", "b"));
    assert!(!check_short_form(":a/b", None, "a", "b"));
    assert!(!check_short_form("a/b", Some(""), "a", "b"));
    assert!(!check_short_form("github:a/b", Some("gitlab"), "a", "b"));
    assert!(!check_short_form("a/b/", None, "a", "b"));
    assert!(!check_short_form("a/b", None, "a", ""));
    assert!(!check_short_form("git.hub:a/b", Some("git.hub"), "a", "b"));
    assert!(!check_short_form("a b/c", None, "a b", "c"));
}
