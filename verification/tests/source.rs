use polk::{Source, SourceSpec};

fn github(username: &str, repository: Option<&str>) -> SourceSpec {
    SourceSpec::GitHub {
        username: username.to_owned(),
        repository: repository.map(|r| r.to_owned()),
    }
}

#[test]
fn canonical_builds_the_github_url() {
    assert_eq!(
        github("jenny", Some("cfg")).canonical(),
        Source::Git { url: "https://github.com/jenny/cfg.git".to_owned() }
    );
    assert_eq!(
        github("jenny", None).canonical(),
        Source::Git { url: "https://github.com/jenny/dotfiles.git".to_owned() }
    );
    assert_eq!(
        SourceSpec::Url("file:///tmp/repo".to_owned()).canonical(),
        Source::Git { url: "file:///tmp/repo".to_owned() }
    );
}

#[test]
fn description_is_in_words() {
    assert_eq!(
        github("jenny", Some("cfg")).description(),
        "the GitHub repository owned by 'jenny' named 'cfg'"
    );
    assert_eq!(
        github("jenny", None).description(),
        "the GitHub repository owned by 'jenny' , assuming repository named 'dotfiles'"
    );
    assert_eq!(SourceSpec::Url("http://x".to_owned()).description(), "the url at http://x");
}

#[test]
fn to_string_writes_the_shorthand() {
    assert_eq!(github("jenny", Some("cfg")).to_string(), "github:jenny/cfg");
    assert_eq!(github("jenny", None).to_string(), "github:jenny");
    assert_eq!(SourceSpec::Url("http://x".to_owned()).to_string(), "http://x");
}

#[test]
fn from_str_reads_the_shorthand() {
    assert_eq!(SourceSpec::from_str("github:jenny/cfg"), Ok(github("jenny", Some("cfg"))));
    assert_eq!(SourceSpec::from_str("github:jenny"), Ok(github("jenny", None)));
    assert_eq!(SourceSpec::from_str("github:jenny/"), Ok(github("jenny", None)));
    assert_eq!(
        SourceSpec::from_str("https://example.com/x.git"),
        Ok(SourceSpec::Url("https://example.com/x.git".to_owned()))
    );
    assert_eq!(SourceSpec::from_str(""), Ok(SourceSpec::Url(String::new())));
}

#[test]
fn from_str_undoes_to_string() {
    for spec in [github("a", Some("b")), github("a", None), SourceSpec::Url("u".to_owned())] {
        assert_eq!(SourceSpec::from_str(&spec.to_string()), Ok(spec.duplicate()));
    }
}

#[test]
fn from_groups_decides_by_the_match() {
    let spec = SourceSpec::from_groups(
        "github:a/b",
        Some("github:a/b".to_owned()),
        Some("a".to_owned()),
        Some("b".to_owned()),
    );
    assert_eq!(spec, github("a", Some("b")));
    let spec = SourceSpec::from_groups("x", None, None, None);
    assert_eq!(spec, SourceSpec::Url("x".to_owned()));
    let spec = SourceSpec::from_groups("x", Some("x".to_owned()), None, Some("b".to_owned()));
    assert_eq!(spec, SourceSpec::Url("x".to_owned()));
}
