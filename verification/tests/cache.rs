use polk::cache::{LinkStep, Opening, SetupPhase, UserEntry, UserManifest};
use polk::shell::{Config as ShellConfig, Shell};
use polk::symlink::Config;
use polk::errors::ErrorKind;
use polk::{Cache, Dotfile, Error, FeatureSet, SourceSpec};

fn cache() -> Cache {
    Cache::open("/home/jenny/.polk".to_owned(), true, true)
}

fn dotfile(name: &str) -> Dotfile {
    Dotfile {
        full_path: format!("/home/jenny/.polk/users/jenny/dotfiles/{}", name),
        relative_path: name.to_owned(),
    }
}

#[test]
fn paths_follow_the_layout() {
    let cache = cache();
    assert_eq!(cache.users_path(), "/home/jenny/.polk/users");
    let user = cache.user("jenny".to_owned());
    assert_eq!(user.username, "jenny");
    assert_eq!(user.base_path(), "/home/jenny/.polk/users/jenny");
    assert_eq!(user.manifest_path(), "/home/jenny/.polk/users/jenny/manifest.toml");
    assert_eq!(user.dotfiles_path(), "/home/jenny/.polk/users/jenny/dotfiles");
    assert_eq!(user.home_path(), "/home/jenny/.polk/users/jenny/home");
}

#[test]
fn at_opens_or_creates() {
    let (cache, opening) = Cache::at("/c".to_owned(), true, true);
    assert_eq!(cache.path, "/c");
    assert_eq!(opening, Opening::Open);
    let (cache, opening) = Cache::at("/c".to_owned(), false, false);
    assert_eq!(cache.path, "/c");
    assert_eq!(opening, Opening::Create);
    assert_eq!(Cache::create("/d".to_owned(), false).path, "/d");
}

#[test]
fn grab_plans_the_fetch() {
    let cache = cache();
    let user = cache.user("jenny".to_owned());
    let source = SourceSpec::GitHub { username: "jenny".to_owned(), repository: None };
    let plan = user.grab(&source, false);
    assert_eq!(plan.create_parent, Some("/home/jenny/.polk/users/jenny".to_owned()));
    assert_eq!(plan.protect, "/home/jenny/.polk/users/jenny/dotfiles");
    assert_eq!(plan.manifest_path, "/home/jenny/.polk/users/jenny/manifest.toml");
    assert_eq!(plan.manifest, UserManifest { source: source.duplicate() });
    assert_eq!(plan.fetch_into, "/home/jenny/.polk/users/jenny/dotfiles");
    assert_eq!(
        plan.fetch_from,
        polk::Source::Git { url: "https://github.com/jenny/dotfiles.git".to_owned() }
    );
    assert_eq!(user.grab(&source, true).create_parent, None);
    assert_eq!(user.setup(&source, true), user.grab(&source, true));
}

#[test]
fn update_needs_a_grab() {
    let cache = cache();
    let user = cache.user("jenny".to_owned());
    let error = user.update(false).unwrap_err();
    assert_eq!(error.to_string(), "cannot update, there are no dotfiles grabbed for this user");
    let plan = user.update(true).unwrap();
    assert_eq!(plan.manifest_path, "/home/jenny/.polk/users/jenny/manifest.toml");
    assert_eq!(plan.repository, "/home/jenny/.polk/users/jenny/dotfiles");
}

#[test]
fn link_ext_plans_each_dotfile() {
    let cache = cache();
    let user = cache.user("jenny".to_owned());
    let features = FeatureSet::new(vec!["linux", "unix", "x86"]);
    let dotfiles = vec![dotfile(".vimrc"), dotfile(".tmux.windows.conf"), dotfile(".tmux.linux.conf")];
    let config = Config { home_path: "/home/jenny".to_owned() };
    let steps = user.link_ext(&features, &dotfiles, &config);
    assert_eq!(
        steps,
        vec![
            LinkStep::Build { dotfile: dotfile(".vimrc"), path: "/home/jenny/.vimrc".to_owned() },
            LinkStep::Ignore { dotfile: dotfile(".tmux.windows.conf") },
            LinkStep::Build {
                dotfile: Dotfile {
                    full_path: "/home/jenny/.polk/users/jenny/dotfiles/.tmux.linux.conf".to_owned(),
                    relative_path: ".tmux.os.conf".to_owned(),
                },
                path: "/home/jenny/.tmux.os.conf".to_owned(),
            },
        ]
    );
    assert_eq!(user.link(&features, &dotfiles, "/home/jenny".to_owned()), steps);
    assert!(user.link_ext(&features, &Vec::new(), &config).is_empty());
}

#[test]
fn unlink_names_the_links_that_are_there() {
    let cache = cache();
    let user = cache.user("jenny".to_owned());
    let features = FeatureSet::new(vec!["linux", "unix", "x86"]);
    let dotfiles = vec![dotfile(".vimrc"), dotfile(".bashrc"), dotfile(".zshrc")];
    let config = Config { home_path: "/home/jenny".to_owned() };
    let targets = user.unlink(&features, &dotfiles, &vec![true, false, true], &config);
    assert_eq!(targets, vec!["/home/jenny/.vimrc".to_owned(), "/home/jenny/.zshrc".to_owned()]);
    assert!(user.unlink(&features, &dotfiles, &vec![false, false, false], &config).is_empty());
}

#[test]
fn unlink_looks_where_link_put_the_link() {
    let cache = cache();
    let user = cache.user("jenny".to_owned());
    let features = FeatureSet::new(vec!["linux", "unix", "x86"]);
    let config = Config { home_path: "/home/jenny".to_owned() };
    assert_eq!(
        user.link_path(&features, &dotfile(".tmux.linux.conf"), &config),
        "/home/jenny/.tmux.os.conf"
    );
    assert_eq!(
        user.link_path(&features, &dotfile(".tmux.macos.conf"), &config),
        "/home/jenny/.tmux.macos.conf"
    );
    assert_eq!(user.link_path(&features, &dotfile(".vimrc"), &config), "/home/jenny/.vimrc");
    let dotfiles = vec![dotfile(".tmux.linux.conf"), dotfile(".tmux.macos.conf")];
    assert_eq!(
        user.unlink(&features, &dotfiles, &vec![true, true], &config),
        vec!["/home/jenny/.tmux.os.conf".to_owned(), "/home/jenny/.tmux.macos.conf".to_owned()]
    );
}

#[test]
fn dotfiles_of_a_missing_directory_are_none() {
    let cache = cache();
    let user = cache.user("jenny".to_owned());
    assert!(user.dotfiles(false, &Vec::new()).is_empty());
    assert!(user.dotfiles(true, &Vec::new()).is_empty());
}

#[test]
fn manifest_adds_context_to_a_failure() {
    let cache = cache();
    let user = cache.user("jenny".to_owned());
    let manifest = UserManifest { source: SourceSpec::Url("u".to_owned()) };
    assert_eq!(user.manifest(Ok(manifest)), Ok(UserManifest { source: SourceSpec::Url("u".to_owned()) }));
    let error = user.manifest(Err(Error::msg("No such file"))).unwrap_err();
    assert_eq!(error.messages, vec!["reading user manifest".to_owned(), "No such file".to_owned()]);
}

#[test]
fn shell_runs_in_the_users_home() {
    let cache = cache();
    let user = cache.user("jenny".to_owned());
    assert_eq!(ShellConfig::new(None).shell_path, "/bin/sh");
    assert_eq!(ShellConfig::new(Some("/bin/zsh".to_owned())).shell_path, "/bin/zsh");
    let (shell, missing) = Shell::create(&user, ShellConfig::new(None), false);
    assert_eq!(missing, Some("/home/jenny/.polk/users/jenny/home".to_owned()));
    let launch = shell.exec();
    assert_eq!(launch.program, "/bin/sh");
    assert_eq!(launch.directory, "/home/jenny/.polk/users/jenny/home");
    assert_eq!(launch.home, "/home/jenny/.polk/users/jenny/home");
    let features = FeatureSet::new(vec!["linux"]);
    let steps = shell.build_symlinks(&features, &vec![dotfile(".vimrc")]);
    assert_eq!(
        steps,
        vec![LinkStep::Build {
            dotfile: dotfile(".vimrc"),
            path: "/home/jenny/.polk/users/jenny/home/.vimrc".to_owned(),
        }]
    );
    let (_, missing) = Shell::create(&user, ShellConfig::new(None), true);
    assert_eq!(missing, None);
    let error = Shell::exec_failure(Error::msg("no such program"));
    assert_eq!(error.to_string(), "could not exec into shell");
}

#[test]
fn user_caches_are_the_directories() {
    let cache = cache();
    let entries = vec![
        UserEntry { path: "/home/jenny/.polk/users/jenny".to_owned(), is_dir: true },
        UserEntry { path: "/home/jenny/.polk/users/notes.txt".to_owned(), is_dir: false },
        UserEntry { path: "/home/jenny/.polk/users/sam".to_owned(), is_dir: true },
    ];
    let users = cache.user_caches(true, &entries);
    let names: Vec<&str> = users.iter().map(|u| u.username.as_str()).collect();
    assert_eq!(names, vec!["jenny", "sam"]);
    assert_eq!(users[1].base_path(), "/home/jenny/.polk/users/sam");
    assert!(cache.user_caches(false, &entries).is_empty());
    assert!(cache.user_caches(true, &Vec::new()).is_empty());
}

#[test]
fn forget_removes_the_cache_that_is_there() {
    assert_eq!(cache().forget(true), Some("/home/jenny/.polk".to_owned()));
    assert_eq!(cache().forget(false), None);
    assert_eq!(
        Cache::forget_unlink_failure(Error::msg("x")).messages,
        vec!["could not forget symlinks".to_owned(), "x".to_owned()]
    );
    assert_eq!(
        Cache::forget_remove_failure(Error::msg("x")).messages,
        vec!["could not remote cache".to_owned(), "x".to_owned()]
    );
}

#[test]
fn manifest_is_a_toml_document() {
    let manifest = UserManifest::load("source = \"github:jenny/cfg\"\n").unwrap();
    assert_eq!(
        manifest.source,
        SourceSpec::GitHub { username: "jenny".to_owned(), repository: Some("cfg".to_owned()) }
    );
    assert_eq!(manifest.save(), Ok("source = \"github:jenny/cfg\"\n".to_owned()));
    let url = UserManifest::load("other = 1\nsource = 'https://example.com/d.git'\n").unwrap();
    assert_eq!(url.source, SourceSpec::Url("https://example.com/d.git".to_owned()));
}

#[test]
fn manifest_survives_writing_and_reading() {
    for source in [
        SourceSpec::Url("file:///tmp/\"quoted\"\\path".to_owned()),
        SourceSpec::GitHub { username: "a".to_owned(), repository: None },
        SourceSpec::GitHub { username: "a".to_owned(), repository: Some("b".to_owned()) },
    ] {
        let manifest = UserManifest { source };
        let text = manifest.save().unwrap();
        assert_eq!(UserManifest::load(&text), Ok(manifest));
    }
}

#[test]
fn unreadable_manifest_is_an_error() {
    let parse = Error::msg("could not parse user manifest");
    assert_eq!(UserManifest::load("source = "), Err(Error::msg("could not parse user manifest")));
    assert_eq!(UserManifest::load(""), Err(Error::msg("could not parse user manifest")));
    assert_eq!(UserManifest::load("source = 3"), Err(Error::msg("could not parse user manifest")));
    assert_eq!(UserManifest::load("sauce = \"x\""), Err(parse));
    assert_eq!(UserManifest::from_entry(None), Err(Error::msg("could not parse user manifest")));
    assert_eq!(
        UserManifest::from_entry(Some("github:a".to_owned())),
        Ok(UserManifest {
            source: SourceSpec::GitHub { username: "a".to_owned(), repository: None }
        })
    );
    assert_eq!(UserManifest::to_file(Some("x".to_owned())), Ok("x".to_owned()));
    assert_eq!(
        UserManifest::to_file(None),
        Err(Error::msg("failed to create manifest toml"))
    );
}

#[test]
fn errors_chain_outermost_first() {
    let error = Error::msg("root");
    assert_eq!(error.messages, vec!["root".to_owned()]);
    assert_eq!(error.to_string(), "root");
    let chained = error.chain_err("outer");
    assert_eq!(chained.messages, vec!["outer".to_owned(), "root".to_owned()]);
    assert_eq!(chained.to_string(), "outer");
    assert_eq!(Error { kind: ErrorKind::Msg, messages: Vec::new() }.to_string(), "");
    let io = Error::new(ErrorKind::Io, "disk full").chain_err("could not save");
    assert_eq!(io.kind, ErrorKind::Io);
    assert_eq!(io.messages, vec!["could not save".to_owned(), "disk full".to_owned()]);
    assert_eq!(Error::msg("x").kind, ErrorKind::Msg);
}

#[test]
fn forgetting_a_user_unlinks_then_removes() {
    let cache = cache();
    let user = cache.user("jenny".to_owned());
    let features = FeatureSet::new(vec!["linux"]);
    let config = Config { home_path: "/home/jenny".to_owned() };
    let dotfiles = vec![dotfile(".vimrc"), dotfile(".bashrc")];
    let plan = user.forget(&features, &dotfiles, &vec![false, true], &config, true);
    assert_eq!(plan.destroy, vec!["/home/jenny/.bashrc".to_owned()]);
    assert_eq!(plan.remove, Some("/home/jenny/.polk/users/jenny".to_owned()));
    let plan = user.forget(&features, &Vec::new(), &Vec::new(), &config, false);
    assert!(plan.destroy.is_empty());
    assert_eq!(plan.remove, None);
}

#[test]
fn setup_failures_say_which_part_failed() {
    assert_eq!(
        polk::UserCache::setup_failure(SetupPhase::Grab, Error::msg("x")).messages,
        vec!["failed to grab dotfiles".to_owned(), "x".to_owned()]
    );
    assert_eq!(
        polk::UserCache::setup_failure(SetupPhase::Link, Error::msg("x")).messages,
        vec!["could not build symlinks".to_owned(), "x".to_owned()]
    );
    assert_eq!(
        polk::UserCache::manifest_save_failure(Error::msg("x")).messages,
        vec!["could not save user cache manifest".to_owned(), "x".to_owned()]
    );
}
