use degit::archive::archive_url;
use degit::reference::{
    parse, resolve_full, resolve_short, select_provider, validate_src, Host, ParseError, Repo,
    FULL_URL_GRAMMAR, SHORT_GRAMMAR,
};

fn groups(items: &[Option<&str>]) -> Vec<Option<String>> {
    items.iter().map(|g| g.map(|s| s.to_string())).collect()
}

#[test]
fn gitlab_test() {
    let repo = Repo {
        host: Host::Gitlab("gitlab.com".to_string()),
        owner: "Rich-Harris".to_string(),
        project: "degit-test-repo".to_string(),
    };

    assert_eq!(parse("gitlab:Rich-Harris/degit-test-repo").unwrap(), repo);
    assert_eq!(
        parse("https://gitlab.com/Rich-Harris/degit-test-repo.git").unwrap(),
        repo
    );
    assert_eq!(
        parse("git@gitlab.com:Rich-Harris/degit-test-repo.git").unwrap(),
        repo
    );
    assert_eq!(
        archive_url(&repo),
        "https://gitlab.com/Rich-Harris/degit-test-repo/repository/archive.tar.gz"
    );
}

#[test]
fn github_test() {
    let repo = Repo {
        host: Host::Github,
        owner: "sveltejs".to_string(),
        project: "template".to_string(),
    };

    assert_eq!(parse("sveltejs/template").unwrap(), repo);
    assert_eq!(parse("github:sveltejs/template").unwrap(), repo);
    assert_eq!(
        parse("https://github.com/sveltejs/template.git").unwrap(),
        repo
    );
    assert_eq!(parse("git@github.com:sveltejs/template.git").unwrap(), repo);
    assert_eq!(
        archive_url(&repo),
        "https://github.com/sveltejs/template/archive/HEAD.tar.gz"
    );
}

#[test]
fn gitlab_hosted() {
    let repo = Repo {
        host: Host::Gitlab("gitlab.gnome.org".to_string()),
        owner: "bilelmoussaoui".to_string(),
        project: "gtk-rust-template".to_string(),
    };

    assert_eq!(
        parse("https://gitlab.gnome.org/bilelmoussaoui/gtk-rust-template").unwrap(),
        repo
    );
    assert_eq!(
        parse("git@gitlab.gnome.org:bilelmoussaoui/gtk-rust-template.git").unwrap(),
        repo
    );
    assert_eq!(
        archive_url(&repo),
        "https://gitlab.gnome.org/bilelmoussaoui/gtk-rust-template/repository/archive.tar.gz"
    );
}

#[test]
fn unrecognized_host_is_unsupported() {
    assert_eq!(
        parse("sourcehut:owner/project"),
        Err(ParseError::UnsupportedProvider)
    );
    assert_eq!(
        parse("https://git.sr.ht/owner/project"),
        Err(ParseError::UnsupportedProvider)
    );
}

#[test]
fn no_slash_is_unparsable() {
    assert_eq!(parse("sveltejs"), Err(ParseError::UnparsableReference));
    assert_eq!(parse(""), Err(ParseError::UnparsableReference));
    assert_eq!(parse("/template"), Err(ParseError::UnparsableReference));
    assert_eq!(parse("sveltejs/"), Err(ParseError::UnparsableReference));
}

#[test]
fn all_forms_resolve_alike() {
    let repo = Repo {
        host: Host::Github,
        owner: "sveltejs".to_string(),
        project: "template".to_string(),
    };
    for form in [
        "https://github.com/sveltejs/template",
        "https://github.com/sveltejs/template/",
        "https://github.com/sveltejs/template.git",
        "https://github.com/sveltejs/template.git/",
        "git@github.com:sveltejs/template",
        "git@github.com:sveltejs/template.git",
        "github:sveltejs/template",
        "sveltejs/template",
    ] {
        assert_eq!(parse(form), Ok(repo.clone()));
    }
    let bitbucket = Repo {
        host: Host::BitBucket,
        owner: "atlassian".to_string(),
        project: "aui".to_string(),
    };
    for form in [
        "https://bitbucket.org/atlassian/aui",
        "git@bitbucket.org:atlassian/aui.git",
        "bitbucket:atlassian/aui",
    ] {
        assert_eq!(parse(form), Ok(bitbucket.clone()));
    }
}

#[test]
fn self_hosted_gitlab_keeps_its_domain() {
    assert_eq!(
        parse("https://gitlab.example.org/alice/proj"),
        Ok(Repo {
            host: Host::Gitlab("gitlab.example.org".to_string()),
            owner: "alice".to_string(),
            project: "proj".to_string(),
        })
    );
}

#[test]
fn host_token_is_found_anywhere_in_the_host() {
    assert_eq!(
        parse("https://www.github.com/a/b").unwrap().host,
        Host::Github
    );
    assert_eq!(
        parse("https://mygitlabserver.net/a/b").unwrap().host,
        Host::Gitlab("mygitlabserver.net".to_string())
    );
    assert_eq!(
        parse("https://GitHub.com/a/b"),
        Err(ParseError::UnsupportedProvider)
    );
}

#[test]
fn full_url_is_tried_first() {
    // Not a short reference: the host holds `@` and dots. The full-URL form
    // is asked first and decides.
    assert_eq!(
        parse("git@gitlab.com:a/b").unwrap().host,
        Host::Gitlab("gitlab.com".to_string())
    );
    // A short reference whose token happens to be a protocol name.
    assert_eq!(parse("https:a/b"), Err(ParseError::UnsupportedProvider));
}

#[test]
fn owner_and_project_charset() {
    let repo = parse("a_b-c9/d-e_f0").unwrap();
    assert_eq!(repo.owner, "a_b-c9");
    assert_eq!(repo.project, "d-e_f0");
    for refused in [
        "own er/proj",
        "a b",
        "a,b/c",
        "foo bar/baz qux",
        "a/b c",
        " a/b",
        "a/b\n",
        "a.b/c",
        "a/b.c",
        "é/b",
        "a/ü",
        "a//b",
        "a/b/c",
    ] {
        assert_eq!(parse(refused), Err(ParseError::UnparsableReference));
    }
}

#[test]
fn whole_string_must_fit() {
    for refused in [
        "https://github.com/owner/",
        "https://github.com/owner",
        "https://github.com//project",
        "https://github.com/",
        "see https://github.com/a/b",
        "https://github.com/a/b/c",
        "https://github.com/a/b.git.git",
        "https://github.com/a/b.gitx",
        "https://github.com/a/b//",
        "http://github.com/a/b",
        "git@github.com",
        "xgithub:a/b c",
    ] {
        assert_eq!(parse(refused), Err(ParseError::UnparsableReference));
    }
}

#[test]
fn owner_may_begin_with_a_provider_name() {
    assert_eq!(
        parse("githubtraining/hellogitworld"),
        Ok(Repo {
            host: Host::Github,
            owner: "githubtraining".to_string(),
            project: "hellogitworld".to_string(),
        })
    );
    assert_eq!(
        parse("gitlab-org/gitlab"),
        Ok(Repo {
            host: Host::Github,
            owner: "gitlab-org".to_string(),
            project: "gitlab".to_string(),
        })
    );
    assert_eq!(
        parse("bitbucket/x").unwrap().owner,
        "bitbucket"
    );
}

#[test]
fn token_before_colon_selects_provider() {
    assert_eq!(parse(":a/b"), Err(ParseError::UnsupportedProvider));
    assert_eq!(parse("hub:a/b"), Err(ParseError::UnsupportedProvider));
    assert_eq!(parse("mygithub:a/b").unwrap().host, Host::Github);
    assert_eq!(
        parse("gitlab:a/b").unwrap().host,
        Host::Gitlab("gitlab.com".to_string())
    );
    assert_eq!(parse("git-hub:a/b"), Err(ParseError::UnparsableReference));
}

#[test]
fn select_provider_by_containment() {
    assert_eq!(select_provider("github", "x"), Some(Host::Github));
    assert_eq!(select_provider("api.github.com", "x"), Some(Host::Github));
    assert_eq!(
        select_provider("gitlab", "gitlab.com"),
        Some(Host::Gitlab("gitlab.com".to_string()))
    );
    assert_eq!(select_provider("bitbucket.org", "x"), Some(Host::BitBucket));
    assert_eq!(select_provider("", "x"), None);
    assert_eq!(select_provider("githu", "x"), None);
    assert_eq!(select_provider("sourcehut", "x"), None);
    // `github` is looked for first.
    assert_eq!(select_provider("gitlab.github.io", "x"), Some(Host::Github));
}

#[test]
fn resolve_full_from_groups() {
    let src = "https://github.com/a/b";
    let g = groups(&[Some(src), Some("github.com"), Some("a"), Some("b")]);
    assert_eq!(
        resolve_full(src, &g),
        Ok(Repo { host: Host::Github, owner: "a".to_string(), project: "b".to_string() })
    );
    assert_eq!(resolve_full("git@github.com:a/b.git/", &g).unwrap().owner, "a");
    assert_eq!(resolve_full("git@github.com/a/b.git", &g).unwrap().project, "b");
    // Groups that are not the parts of the string do not count.
    assert_eq!(resolve_full("https://github.com/a/bb", &g), Err(ParseError::UnparsableReference));
    assert_eq!(resolve_full("x https://github.com/a/b", &g), Err(ParseError::UnparsableReference));
    assert_eq!(resolve_full("a/b", &g), Err(ParseError::UnparsableReference));

    let g = groups(&[Some("x"), Some("example.org"), Some("a"), Some("b")]);
    assert_eq!(
        resolve_full("git@example.org:a/b", &g),
        Err(ParseError::UnsupportedProvider)
    );
    let g = groups(&[Some("x"), Some("github.com"), Some(""), Some("b")]);
    assert_eq!(
        resolve_full("https://github.com//b", &g),
        Err(ParseError::UnparsableReference)
    );
    let g = groups(&[Some("x"), Some("github.com"), Some("a,b c"), Some("d/e")]);
    assert_eq!(
        resolve_full("https://github.com/a,b c/d/e", &g),
        Err(ParseError::UnparsableReference)
    );
    let g = groups(&[Some("x"), Some("github.com"), Some("a")]);
    assert_eq!(resolve_full(src, &g), Err(ParseError::UnparsableReference));
    let g = groups(&[Some("x"), None, Some("a"), Some("b")]);
    assert_eq!(resolve_full(src, &g), Err(ParseError::UnparsableReference));
    assert_eq!(resolve_full(src, &Vec::new()), Err(ParseError::UnparsableReference));
}

#[test]
fn resolve_short_from_groups() {
    let g = groups(&[Some("a/b"), None, Some("a"), Some("b")]);
    assert_eq!(
        resolve_short("a/b", &g),
        Ok(Repo { host: Host::Github, owner: "a".to_string(), project: "b".to_string() })
    );
    assert_eq!(resolve_short("xa/b", &g), Err(ParseError::UnparsableReference));
    assert_eq!(resolve_short(":a/b", &g), Err(ParseError::UnparsableReference));

    let g = groups(&[Some("gitlab:a/b"), Some("gitlab"), Some("a"), Some("b")]);
    assert_eq!(
        resolve_short("gitlab:a/b", &g).unwrap().host,
        Host::Gitlab("gitlab.com".to_string())
    );
    assert_eq!(resolve_short("a/b", &g), Err(ParseError::UnparsableReference));

    let g = groups(&[Some(":a/b"), Some(""), Some("a"), Some("b")]);
    assert_eq!(resolve_short(":a/b", &g), Err(ParseError::UnsupportedProvider));
    let g = groups(&[Some("x"), Some("git.hub"), Some("a"), Some("b")]);
    assert_eq!(resolve_short("git.hub:a/b", &g), Err(ParseError::UnparsableReference));
    let g = groups(&[Some("x"), Some("github"), Some("a"), Some("")]);
    assert_eq!(resolve_short("github:a/", &g), Err(ParseError::UnparsableReference));
    let g = groups(&[Some("x"), Some("github"), Some("a")]);
    assert_eq!(resolve_short("github:a/b", &g), Err(ParseError::UnparsableReference));
}

#[test]
fn grammars_compile_and_capture() {
    let full = regex::Regex::new(FULL_URL_GRAMMAR).unwrap();
    assert_eq!(full.captures_len(), 4);
    let caps = full.captures("git@github.com:a/b.git").unwrap();
    assert_eq!(&caps[1], "github.com");
    assert_eq!(&caps[2], "a");
    assert_eq!(&caps[3], "b");
    let short = regex::Regex::new(SHORT_GRAMMAR).unwrap();
    assert_eq!(short.captures_len(), 4);
    assert!(short.captures("no-slash").is_none());
    let caps = short.captures("githubtraining/x").unwrap();
    assert!(caps.get(1).is_none());
    assert_eq!(&caps[2], "githubtraining");
}

#[test]
fn validate_src_messages() {
    assert_eq!(validate_src("sveltejs/template".to_string()), Ok(()));
    assert_eq!(
        validate_src("sourcehut:owner/project".to_string()),
        Err("Git provider not supported.".to_string())
    );
    assert_eq!(
        validate_src("nothing".to_string()),
        Err("Could not parse repository".to_string())
    );
    assert_eq!(
        ParseError::UnparsableReference.message(),
        "Could not parse repository"
    );
    assert_eq!(
        ParseError::UnsupportedProvider.message(),
        "Git provider not supported."
    );
}

#[test]
fn repo_label() {
    let repo = parse("gitlab:Rich-Harris/degit-test-repo").unwrap();
    assert_eq!(repo.label(), "Rich-Harris/degit-test-repo from GitLab");
    assert_eq!(parse("a/b").unwrap().label(), "a/b from GitHub");
    assert_eq!(parse("bitbucket:a/b").unwrap().label(), "a/b from BitBucket");
    assert_eq!(Host::Github.display_name(), "GitHub");
}

#[test]
fn empty_owner_or_project_is_unparsable() {
    for refused in [
        "a/",
        "/b",
        "/",
        "github:a/",
        "github:/b",
        ":/",
        "https://github.com/owner/",
        "https://github.com/owner/.git",
        "https://github.com/owner//",
        "https://github.com//project",
        "git@github.com:/project.git",
        "git@gitlab.com:owner/",
    ] {
        assert_eq!(parse(refused), Err(ParseError::UnparsableReference));
    }
}

#[test]
fn stranger_never_resolves() {
    for stranger in [
        "https://example.org/a/b",
        "https://example.org/a/b.git",
        "git@sr.ht:a/b.git/",
        "git@codeberg.org:a/b",
        "sourcehut:a/b",
        "codeberg:a/b",
        ":a/b",
    ] {
        assert_eq!(parse(stranger), Err(ParseError::UnsupportedProvider));
    }
}
