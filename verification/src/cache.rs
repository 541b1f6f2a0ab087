//! The cache of dotfiles and what is done with one user's part of it.
//!
//! The cache is a directory with one subdirectory per user, which holds a
//! manifest and the user's dotfiles. The operations here decide; the caller
//! reads the disk before and writes to it after.

use vstd::prelude::*;
use vstd::string::*;
use crate::dotfile::Dotfile;
use crate::errors::Error;
use crate::feature::{substituted_path, supported_by, FeatureSet};
use crate::index::{dotfile_pred, relative_to, scan, under, WalkEntry};
use crate::paths::{file_name, file_name_of, join_path, joined, parent, parent_of};
use crate::source::{github_pattern, opt_view, regex_group, Source, SourceSpec};
use crate::symlink::Config;
use crate::text::views;

verus! {

/// The main cache directory.
#[derive(Debug)]
pub struct Cache {
    /// The directory that contains the cache.
    pub path: String,
}

/// Cache for a particular user.
#[derive(Debug)]
pub struct UserCache<'a> {
    /// The cache that this is a part of.
    pub cache: &'a Cache,
    /// The name of the user.
    pub username: String,
}

/// A manifest file for a user cache.
#[derive(Clone, Debug, PartialEq, Eq)]
pub struct UserManifest {
    /// The source of the dotfiles.
    pub source: SourceSpec,
}

/// One entry of the `users` directory as the caller read it.
#[derive(Debug, PartialEq, Eq)]
pub struct UserEntry {
    /// The path of the entry.
    pub path: String,
    /// Whether the entry is a directory.
    pub is_dir: bool,
}

/// The predicate that picks the directories among the entries.
pub open spec fn directory_pred() -> spec_fn(UserEntry) -> bool {
    |entry: UserEntry| entry.is_dir
}

/// What opening a cache asks of the caller.
#[derive(Clone, Copy, Debug, PartialEq, Eq, Structural)]
pub enum Opening {
    /// The directory is there: nothing to do.
    Open,
    /// The directory has to be created, with its parents.
    Create,
}

/// What is to be done with one dotfile when linking.
#[derive(Debug, PartialEq, Eq)]
pub enum LinkStep {
    /// Build the link at `path` for the dotfile, whose relative path is
    /// the name that the link shows.
    Build { dotfile: Dotfile, path: String },
    /// Leave the dotfile out: this machine lacks a feature it asks for.
    Ignore { dotfile: Dotfile },
}

/// What grabbing asks of the caller, in this order: create the parent
/// directory where one is named; then, protected by a transaction around
/// `protect`, write the manifest and fetch the source.
#[derive(Debug, PartialEq, Eq)]
pub struct GrabPlan {
    /// The directory to create first, if it is missing.
    pub create_parent: Option<String>,
    /// The path that the transaction protects.
    pub protect: String,
    /// Where the manifest is written.
    pub manifest_path: String,
    /// The manifest to write.
    pub manifest: UserManifest,
    /// Where the source is fetched to.
    pub fetch_into: String,
    /// Where the source is fetched from.
    pub fetch_from: Source,
}

/// What forgetting a user asks of the caller, in this order: destroy the
/// links, then remove the user's directory with all that is in it.
#[derive(Debug, PartialEq, Eq)]
pub struct ForgetPlan {
    /// The links to destroy.
    pub destroy: Vec<String>,
    /// The directory to remove, if it is there.
    pub remove: Option<String>,
}

/// What updating asks of the caller: read the manifest, open the
/// repository and bring it up to date.
#[derive(Debug, PartialEq, Eq)]
pub struct UpdatePlan {
    /// Where the manifest is read.
    pub manifest_path: String,
    /// The repository to update.
    pub repository: String,
}

/// The two parts of setting up.
#[derive(Clone, Copy, Debug, PartialEq, Eq, Structural)]
pub enum SetupPhase {
    /// Fetching the dotfiles.
    Grab,
    /// Linking them.
    Link,
}

/// The context that a failure of a part of setting up is reported with.
pub open spec fn setup_context(phase: SetupPhase) -> Seq<char> {
    match phase {
        SetupPhase::Grab => "failed to grab dotfiles"@,
        SetupPhase::Link => "could not build symlinks"@,
    }
}

/// The directory of the cache that holds the users.
pub open spec fn users_path_of(cache: Seq<char>) -> Seq<char> {
    joined(cache, "users"@)
}

/// Whether `step` is what linking does with `dotfile`.
pub open spec fn is_step_for(
    enabled: Set<Seq<char>>,
    home: Seq<char>,
    dotfile: Dotfile,
    step: LinkStep,
) -> bool {
    if supported_by(enabled, dotfile.relative_path@) {
        &&& step matches LinkStep::Build { dotfile: shown, path }
        &&& shown.full_path@ == dotfile.full_path@
        &&& shown.relative_path@ == substituted_path(enabled, dotfile.relative_path@)
        &&& dotfile.wf() ==> shown.wf()
        &&& path@ == joined(home, shown.relative_path@)
    } else {
        &&& step matches LinkStep::Ignore { dotfile: same }
        &&& same.full_path@ == dotfile.full_path@
        &&& same.relative_path@ == dotfile.relative_path@
    }
}

/// The name under which the link of a dotfile is looked for: the name
/// that linking gives it where the machine supports the dotfile, its own
/// relative path otherwise.
pub open spec fn link_name_of(enabled: Set<Seq<char>>, rel: Seq<char>) -> Seq<char> {
    if supported_by(enabled, rel) {
        substituted_path(enabled, rel)
    } else {
        rel
    }
}

/// The path at which the link of a dotfile is looked for.
pub open spec fn link_path_of(enabled: Set<Seq<char>>, home: Seq<char>, rel: Seq<char>) -> Seq<
    char,
> {
    joined(home, link_name_of(enabled, rel))
}

/// The links to destroy when unlinking: the link paths of the dotfiles
/// whose link is there, in the order of the dotfiles.
pub open spec fn unlink_targets(
    enabled: Set<Seq<char>>,
    home: Seq<char>,
    dotfiles: Seq<Dotfile>,
    linked: Seq<bool>,
) -> Seq<Seq<char>>
    decreases dotfiles.len(),
{
    if dotfiles.len() == 0 || linked.len() != dotfiles.len() {
        Seq::<Seq<char>>::empty()
    } else {
        let rest = unlink_targets(enabled, home, dotfiles.drop_last(), linked.drop_last());
        if linked.last() {
            rest.push(link_path_of(enabled, home, dotfiles.last().relative_path@))
        } else {
            rest
        }
    }
}

/// Unlinking looks for every link where linking put it.
pub proof fn lemma_unlink_finds_what_link_built(
    enabled: Set<Seq<char>>,
    home: Seq<char>,
    dotfile: Dotfile,
    step: LinkStep,
)
    requires
        is_step_for(enabled, home, dotfile, step),
    ensures
        step matches LinkStep::Build { dotfile: shown, path } ==> path@ == link_path_of(
            enabled,
            home,
            dotfile.relative_path@,
        ),
        step is Build <==> supported_by(enabled, dotfile.relative_path@),
{
}

/// Every link that linking asks for lies below the home directory, where
/// the dotfile's relative path is fit for a dotfile.
pub proof fn lemma_links_stay_under_home(
    enabled: Set<Seq<char>>,
    home: Seq<char>,
    dotfile: Dotfile,
    step: LinkStep,
)
    requires
        dotfile.wf(),
        is_step_for(enabled, home, dotfile, step),
    ensures
        step matches LinkStep::Build { dotfile: shown, path } ==> under(home, path@)
            && relative_to(home, path@) == shown.relative_path@,
{
    if let LinkStep::Build { dotfile: shown, path } = step {
        crate::symlink::lemma_link_is_under_home(home, shown.relative_path@);
    }
}

/// Where every link is there, unlinking destroys the link of every
/// dotfile: none is left out.
pub proof fn lemma_unlink_destroys_all(
    enabled: Set<Seq<char>>,
    home: Seq<char>,
    dotfiles: Seq<Dotfile>,
    linked: Seq<bool>,
)
    requires
        linked.len() == dotfiles.len(),
        forall|i: int| 0 <= i < linked.len() ==> linked[i],
    ensures
        unlink_targets(enabled, home, dotfiles, linked).len() == dotfiles.len(),
        forall|i: int|
            0 <= i < dotfiles.len() ==> #[trigger] unlink_targets(enabled, home, dotfiles, linked)[i]
                == link_path_of(enabled, home, dotfiles[i].relative_path@),
    decreases dotfiles.len(),
{
    if dotfiles.len() > 0 {
        lemma_unlink_destroys_all(enabled, home, dotfiles.drop_last(), linked.drop_last());
    }
}

impl Cache {
    /// Opens the cache directory at `path`, or asks for it to be created
    /// where nothing is there.
    pub fn at(path: String, present: bool, is_dir: bool) -> (opened: (Cache, Opening))
        requires
            present ==> is_dir,
        ensures
            opened.0.path == path,
            opened.1 == if present {
                Opening::Open
            } else {
                Opening::Create
            },
    {
        if present {
            (Cache::open(path, present, is_dir), Opening::Open)
        } else {
            (Cache::create(path, present), Opening::Create)
        }
    }

    /// Opens an existing cache directory.
    pub fn open(path: String, present: bool, is_dir: bool) -> (cache: Cache)
        requires
            present,
            is_dir,
        ensures
            cache.path == path,
    {
        Cache { path }
    }

    /// The cache whose directory the caller is about to create.
    pub fn create(path: String, present: bool) -> (cache: Cache)
        requires
            !present,
        ensures
            cache.path == path,
    {
        Cache { path }
    }

    /// What forgetting the cache asks of the caller once every user's
    /// links are destroyed: the directory to remove with all that is in
    /// it, if it is there.
    pub fn forget(self, present: bool) -> (remove: Option<String>)
        ensures
            remove is Some <==> present,
            present ==> remove.unwrap() == self.path,
    {
        if present {
            Some(self.path)
        } else {
            None
        }
    }

    /// The error to report when a user's links could not be destroyed
    /// while forgetting.
    pub fn forget_unlink_failure(cause: Error) -> (error: Error)
        ensures
            error@ == seq!["could not forget symlinks"@] + cause@,
            error.kind == cause.kind,
    {
        cause.chain_err("could not forget symlinks")
    }

    /// The error to report when the cache directory could not be removed.
    pub fn forget_remove_failure(cause: Error) -> (error: Error)
        ensures
            error@ == seq!["could not remote cache"@] + cause@,
            error.kind == cause.kind,
    {
        cause.chain_err("could not remote cache")
    }

    /// The caches of all users: one for each directory in the `users`
    /// directory, named by the directory. Where the `users` directory is
    /// missing there is none.
    pub fn user_caches(&self, users_present: bool, entries: &Vec<UserEntry>) -> (users: Vec<
        UserCache<'_>,
    >)
        ensures
            !users_present ==> users@.len() == 0,
            users_present ==> users@.len() == entries@.filter(directory_pred()).len(),
            forall|i: int|
                0 <= i < users@.len() ==> {
                    &&& (#[trigger] users@[i]).cache == self
                    &&& users@[i].username@ == file_name_of(
                        entries@.filter(directory_pred())[i].path@,
                    )
                },
    {
        let mut users: Vec<UserCache<'_>> = Vec::new();
        if !users_present {
            return users;
        }
        let mut i: usize = 0;
        proof {
            reveal(Seq::filter);
            assert(entries@.take(0) =~= Seq::<UserEntry>::empty());
        }
        while i < entries.len()
            invariant
                i <= entries.len(),
                users@.len() == entries@.take(i as int).filter(directory_pred()).len(),
                forall|k: int|
                    0 <= k < users@.len() ==> {
                        &&& (#[trigger] users@[k]).cache == self
                        &&& users@[k].username@ == file_name_of(
                            entries@.take(i as int).filter(directory_pred())[k].path@,
                        )
                    },
            decreases entries.len() - i,
        {
            proof {
                reveal(Seq::filter);
                let t = entries@.take(i as int + 1);
                assert(t.drop_last() =~= entries@.take(i as int));
                assert(t.last() == entries@[i as int]);
            }
            if entries[i].is_dir {
                let name = file_name(entries[i].path.as_str());
                users.push(self.user(name));
            }
            i = i + 1;
        }
        assert(entries@.take(entries@.len() as int) =~= entries@);
        users
    }

    /// Gets a user-specific cache.
    pub fn user(&self, username: String) -> (user: UserCache<'_>)
        ensures
            user.cache == self,
            user.username == username,
    {
        UserCache { cache: self, username }
    }

    /// Gets the `users` directory path.
    pub fn users_path(&self) -> (path: String)
        ensures
            path@ == users_path_of(self.path@),
    {
        join_path(self.path.as_str(), "users")
    }
}

impl<'a> UserCache<'a> {
    /// The root of the user cache.
    pub open spec fn base(&self) -> Seq<char> {
        joined(users_path_of(self.cache.path@), self.username@)
    }

    /// The dotfiles directory of the user cache.
    pub open spec fn dotfiles_root(&self) -> Seq<char> {
        joined(self.base(), "dotfiles"@)
    }

    /// The manifest file of the user cache.
    pub open spec fn manifest_file(&self) -> Seq<char> {
        joined(self.base(), "manifest.toml"@)
    }

    /// The path to the root of the user cache.
    pub fn base_path(&self) -> (path: String)
        ensures
            path@ == self.base(),
    {
        let users = self.cache.users_path();
        join_path(users.as_str(), self.username.as_str())
    }

    /// Gets the path to the manifest file.
    pub fn manifest_path(&self) -> (path: String)
        ensures
            path@ == self.manifest_file(),
    {
        let base = self.base_path();
        join_path(base.as_str(), "manifest.toml")
    }

    /// The path to the dotfiles subdirectory inside the cache.
    pub fn dotfiles_path(&self) -> (path: String)
        ensures
            path@ == self.dotfiles_root(),
    {
        let base = self.base_path();
        join_path(base.as_str(), "dotfiles")
    }

    /// The home directory for custom shells.
    pub fn home_path(&self) -> (path: String)
        ensures
            path@ == joined(self.base(), "home"@),
    {
        let base = self.base_path();
        join_path(base.as_str(), "home")
    }

    /// What fetching the dotfiles and linking them asks of the caller
    /// first: the grab. Linking follows once the dotfiles are there.
    pub fn setup(&self, source: &SourceSpec, parent_exists: bool) -> (plan: GrabPlan)
        ensures
            self.grabs(source, parent_exists, plan),
    {
        self.grab(source, parent_exists)
    }

    /// Whether `plan` is the grab of `source` for this user.
    pub open spec fn grabs(&self, source: &SourceSpec, parent_exists: bool, plan: GrabPlan) -> bool {
        &&& plan.create_parent is None <==> parent_exists
        &&& !parent_exists ==> plan.create_parent.unwrap()@ == parent_of(self.dotfiles_root())
        &&& plan.protect@ == self.dotfiles_root()
        &&& plan.manifest_path@ == self.manifest_file()
        &&& plan.manifest.source.written() == source.written()
        &&& plan.fetch_into@ == self.dotfiles_root()
        &&& plan.fetch_from matches Source::Git { url }
        &&& url@ == source.canonical_url()
    }

    /// What downloading the dotfiles, without linking them, asks of the
    /// caller.
    pub fn grab(&self, source: &SourceSpec, parent_exists: bool) -> (plan: GrabPlan)
        ensures
            self.grabs(source, parent_exists, plan),
    {
        let dotfiles = self.dotfiles_path();
        let create_parent = if parent_exists {
            None
        } else {
            Some(parent(dotfiles.as_str()))
        };
        let manifest = UserManifest { source: source.duplicate() };
        let fetch_from = manifest.source.canonical();
        GrabPlan {
            create_parent,
            protect: dotfiles.clone(),
            manifest_path: self.manifest_path(),
            manifest,
            fetch_into: dotfiles,
            fetch_from,
        }
    }

    /// The error to report when the manifest could not be written while
    /// grabbing.
    pub fn manifest_save_failure(cause: Error) -> (error: Error)
        ensures
            error@ == seq!["could not save user cache manifest"@] + cause@,
            error.kind == cause.kind,
    {
        cause.chain_err("could not save user cache manifest")
    }

    /// The error to report when setting up failed in `phase`.
    pub fn setup_failure(phase: SetupPhase, cause: Error) -> (error: Error)
        ensures
            error@ == seq![setup_context(phase)] + cause@,
            error.kind == cause.kind,
    {
        match phase {
            SetupPhase::Grab => cause.chain_err("failed to grab dotfiles"),
            SetupPhase::Link => cause.chain_err("could not build symlinks"),
        }
    }

    /// What updating the dotfiles asks of the caller. Nothing can be
    /// updated before dotfiles were grabbed, and a grab always leaves a
    /// manifest: `manifest_exists` says whether one is there.
    pub fn update(&self, manifest_exists: bool) -> (plan: Result<UpdatePlan, Error>)
        ensures
            plan is Ok <==> manifest_exists,
            plan is Ok ==> plan->Ok_0.manifest_path@ == self.manifest_file()
                && plan->Ok_0.repository@ == self.dotfiles_root(),
            plan is Err ==> plan->Err_0@ == seq![
                "cannot update, there are no dotfiles grabbed for this user"@,
            ],
    {
        if !manifest_exists {
            return Err(Error::msg("cannot update, there are no dotfiles grabbed for this user"));
        }
        Ok(UpdatePlan { manifest_path: self.manifest_path(), repository: self.dotfiles_path() })
    }

    /// What is to be done with each dotfile to link it into `home_path`.
    pub fn link(&self, features: &FeatureSet, dotfiles: &Vec<Dotfile>, home_path: String) -> (steps:
        Vec<LinkStep>)
        ensures
            steps@.len() == dotfiles@.len(),
            forall|i: int|
                0 <= i < dotfiles@.len() ==> is_step_for(
                    features.enabled(),
                    home_path@,
                    dotfiles@[i],
                    #[trigger] steps@[i],
                ),
    {
        let config = Config { home_path };
        self.link_ext(features, dotfiles, &config)
    }

    /// What is to be done with each dotfile to link it: a dotfile that the
    /// machine supports gets a link under the name that shows the
    /// namespaces of its enabled features, any other is left out.
    pub fn link_ext(
        &self,
        features: &FeatureSet,
        dotfiles: &Vec<Dotfile>,
        symlink_config: &Config,
    ) -> (steps: Vec<LinkStep>)
        ensures
            steps@.len() == dotfiles@.len(),
            forall|i: int|
                0 <= i < dotfiles@.len() ==> is_step_for(
                    features.enabled(),
                    symlink_config.home_path@,
                    dotfiles@[i],
                    #[trigger] steps@[i],
                ),
    {
        let mut steps: Vec<LinkStep> = Vec::new();
        let mut i: usize = 0;
        while i < dotfiles.len()
            invariant
                i <= dotfiles.len(),
                steps@.len() == i,
                forall|k: int|
                    0 <= k < i ==> is_step_for(
                        features.enabled(),
                        symlink_config.home_path@,
                        dotfiles@[k],
                        #[trigger] steps@[k],
                    ),
            decreases dotfiles.len() - i,
        {
            let mut dotfile = dotfiles[i].duplicate();
            if features.supports(&dotfile) {
                features.substitute_enabled_feature_names(&mut dotfile);
                let path = crate::symlink::path(&dotfile, symlink_config);
                steps.push(LinkStep::Build { dotfile, path });
            } else {
                steps.push(LinkStep::Ignore { dotfile });
            }
            i = i + 1;
        }
        steps
    }

    /// The path at which the link of a dotfile is looked for: where
    /// linking puts it for a dotfile that the machine supports, under the
    /// dotfile's own relative path otherwise.
    pub fn link_path(&self, features: &FeatureSet, dotfile: &Dotfile, symlink_config: &Config) -> (path:
        String)
        ensures
            path@ == link_path_of(
                features.enabled(),
                symlink_config.home_path@,
                dotfile.relative_path@,
            ),
    {
        let mut shown = dotfile.duplicate();
        if features.supports(&shown) {
            features.substitute_enabled_feature_names(&mut shown);
        }
        crate::symlink::path(&shown, symlink_config)
    }

    /// The links to destroy: for each dotfile whose link is there, the
    /// path of the link. `linked` says for each dotfile whether the link at
    /// its `link_path` is there.
    pub fn unlink(
        &self,
        features: &FeatureSet,
        dotfiles: &Vec<Dotfile>,
        linked: &Vec<bool>,
        symlink_config: &Config,
    ) -> (targets: Vec<String>)
        requires
            linked@.len() == dotfiles@.len(),
        ensures
            views(targets@) == unlink_targets(
                features.enabled(),
                symlink_config.home_path@,
                dotfiles@,
                linked@,
            ),
    {
        let mut targets: Vec<String> = Vec::new();
        let mut i: usize = 0;
        assert(dotfiles@.take(0) =~= Seq::<Dotfile>::empty());
        assert(views(targets@) =~= Seq::<Seq<char>>::empty());
        while i < dotfiles.len()
            invariant
                i <= dotfiles.len(),
                linked@.len() == dotfiles@.len(),
                views(targets@) == unlink_targets(
                    features.enabled(),
                    symlink_config.home_path@,
                    dotfiles@.take(i as int),
                    linked@.take(i as int),
                ),
            decreases dotfiles.len() - i,
        {
            let ghost before = views(targets@);
            proof {
                let d = dotfiles@.take(i as int + 1);
                let l = linked@.take(i as int + 1);
                assert(d.drop_last() =~= dotfiles@.take(i as int));
                assert(l.drop_last() =~= linked@.take(i as int));
                assert(d.last() == dotfiles@[i as int]);
                assert(l.last() == linked@[i as int]);
            }
            if linked[i] {
                let path = self.link_path(features, &dotfiles[i], symlink_config);
                targets.push(path);
                assert(views(targets@) =~= before.push(path@));
            }
            i = i + 1;
        }
        proof {
            assert(dotfiles@.take(dotfiles@.len() as int) =~= dotfiles@);
            assert(linked@.take(linked@.len() as int) =~= linked@);
        }
        targets
    }

    /// What forgetting the user asks of the caller: every link that is
    /// there is destroyed as by `unlink`, then the user's part of the
    /// cache is removed, if it is there.
    pub fn forget(
        &self,
        features: &FeatureSet,
        dotfiles: &Vec<Dotfile>,
        linked: &Vec<bool>,
        symlink_config: &Config,
        present: bool,
    ) -> (plan: ForgetPlan)
        requires
            linked@.len() == dotfiles@.len(),
        ensures
            views(plan.destroy@) == unlink_targets(
                features.enabled(),
                symlink_config.home_path@,
                dotfiles@,
                linked@,
            ),
            plan.remove is Some <==> present,
            present ==> plan.remove.unwrap()@ == self.base(),
    {
        let destroy = self.unlink(features, dotfiles, linked, symlink_config);
        let remove = if present {
            Some(self.base_path())
        } else {
            None
        };
        ForgetPlan { destroy, remove }
    }

    /// The dotfiles in the cache, given what a walk of the dotfiles
    /// directory came across. A directory that is not there yet holds no
    /// dotfiles.
    pub fn dotfiles(&self, root_exists: bool, entries: &Vec<WalkEntry>) -> (dotfiles: Vec<Dotfile>)
        ensures
            !root_exists ==> dotfiles@.len() == 0,
            root_exists ==> dotfiles@.len() == entries@.filter(
                dotfile_pred(self.dotfiles_root()),
            ).len(),
            forall|i: int|
                0 <= i < dotfiles@.len() ==> {
                    &&& (#[trigger] dotfiles@[i]).full_path@ == entries@.filter(
                        dotfile_pred(self.dotfiles_root()),
                    )[i].path@
                    &&& dotfiles@[i].relative_path@ == relative_to(
                        self.dotfiles_root(),
                        dotfiles@[i].full_path@,
                    )
                    &&& dotfiles@[i].wf()
                },
    {
        if !root_exists {
            return Vec::new();
        }
        let root = self.dotfiles_path();
        scan(root.as_str(), entries)
    }

    /// The manifest as read by the caller, or why it could not be read.
    pub fn manifest(&self, loaded: Result<UserManifest, Error>) -> (manifest: Result<
        UserManifest,
        Error,
    >)
        ensures
            loaded is Ok ==> manifest == loaded,
            loaded is Err ==> manifest is Err && manifest->Err_0@ == seq!["reading user manifest"@]
                + loaded->Err_0@ && manifest->Err_0.kind == loaded->Err_0.kind,
    {
        match loaded {
            Ok(manifest) => Ok(manifest),
            Err(cause) => Err(cause.chain_err("reading user manifest")),
        }
    }
}

/// The string that the TOML document `text` holds under `key` at its top
/// level; nothing where `text` is no TOML document, where it has no such
/// key, or where what it holds there is no string.
pub uninterp spec fn toml_string_entry(text: Seq<char>, key: Seq<char>) -> Option<Seq<char>>;

/// The TOML document that holds the string `value` under `key` and nothing
/// else, as it is written out; nothing where it cannot be written.
pub uninterp spec fn toml_document(key: Seq<char>, value: Seq<char>) -> Option<Seq<char>>;

/// Reads `text` as a `toml::Table` and hands out the string that
/// `Map::get` finds under `key`. The contract only gives that result its
/// name.
#[verifier::external_body]
fn read_string_entry(text: &str, key: &str) -> (entry: Option<String>)
    ensures
        opt_view(entry) == toml_string_entry(text@, key@),
{
    let table = match text.parse::<toml::Table>() {
        Ok(table) => table,
        Err(_) => return None,
    };
    match table.get(key) {
        Some(toml::Value::String(value)) => Some(value.clone()),
        _ => None,
    }
}

/// Writes a `toml::Table` with the one string `value` under `key` by
/// `toml::to_string`. The contract only gives that result its name.
#[verifier::external_body]
fn write_string_entry(key: &str, value: &str) -> (text: Option<String>)
    ensures
        opt_view(text) == toml_document(key@, value@),
{
    let mut table = toml::Table::new();
    table.insert(key.to_owned(), toml::Value::String(value.to_owned()));
    toml::to_string(&table).ok()
}

impl UserManifest {
    /// Whether `loaded` is what reading a manifest gives, where `entry` is
    /// the string that the manifest file holds under `source`: the
    /// manifest of the source that the string names, or a failure where
    /// there is no such string.
    pub open spec fn reads(entry: Option<Seq<char>>, loaded: Result<UserManifest, Error>) -> bool {
        match entry {
            None => loaded is Err && loaded->Err_0@ == seq!["could not parse user manifest"@],
            Some(text) => loaded is Ok && loaded->Ok_0.source.names(
                text,
                regex_group(github_pattern(), text, 0),
                regex_group(github_pattern(), text, 1),
                regex_group(github_pattern(), text, 2),
            ),
        }
    }

    /// The manifest that the `source` entry of a manifest file stands for.
    pub fn from_entry(entry: Option<String>) -> (loaded: Result<UserManifest, Error>)
        ensures
            UserManifest::reads(opt_view(entry), loaded),
    {
        match entry {
            None => Err(Error::msg("could not parse user manifest")),
            Some(text) => match SourceSpec::from_str(text.as_str()) {
                Ok(source) => Ok(UserManifest { source }),
                Err(reason) => Err(Error::msg(reason)),
            },
        }
    }

    /// Reads the manifest from the text of a manifest file.
    pub fn load(text: &str) -> (loaded: Result<UserManifest, Error>)
        ensures
            UserManifest::reads(toml_string_entry(text@, "source"@), loaded),
    {
        UserManifest::from_entry(read_string_entry(text, "source"))
    }

    /// The text of the manifest file, given the document that was written
    /// for the source.
    pub fn to_file(document: Option<String>) -> (text: Result<String, Error>)
        ensures
            document is Some ==> text == Ok::<String, Error>(document.unwrap()),
            document is None ==> text is Err && text->Err_0@ == seq![
                "failed to create manifest toml"@,
            ],
    {
        match document {
            Some(text) => Ok(text),
            None => Err(Error::msg("failed to create manifest toml")),
        }
    }

    /// Writes the manifest as the text of a manifest file: a document
    /// with the source, as the user writes it, under `source`.
    pub fn save(&self) -> (text: Result<String, Error>)
        ensures
            text is Ok <==> toml_document("source"@, self.source.written()) is Some,
            text is Ok ==> Some(text->Ok_0@) == toml_document("source"@, self.source.written()),
            text is Err ==> text->Err_0@ == seq!["failed to create manifest toml"@],
    {
        let source = self.source.to_string();
        UserManifest::to_file(write_string_entry("source", source.as_str()))
    }
}

} // verus!
