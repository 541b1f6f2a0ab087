//! Machine features and the dotfiles that ask for them.
//!
//! A feature is a token naming one platform dimension: an operating system,
//! a platform family or a processor architecture. A dotfile asks for a
//! feature by carrying its token as a dot-separated component of its file
//! name.

use vstd::prelude::*;
use vstd::string::*;
use crate::dotfile::{is_contained, Dotfile};
use crate::paths::{components, file_name, file_name_of, with_file_name, with_file_name_of};
use crate::text::{
    free_of, join, join_strs, lacks, lemma_join_lacks, lemma_join_split, lemma_join_starts,
    lemma_split_free, lemma_split_join, lemma_split_lacks, lemma_split_nonempty, position, split,
    split_str, str_views, views,
};

verus! {

/// The operating system tokens, in their listed order.
pub open spec fn os_tokens() -> Seq<Seq<char>> {
    seq![
        "linux"@,
        "macos"@,
        "ios"@,
        "freebsd"@,
        "dragonfly"@,
        "bitrig"@,
        "netbsd"@,
        "openbsd"@,
        "solaris"@,
        "android"@,
        "windows"@,
    ]
}

/// The platform family tokens, in their listed order.
pub open spec fn family_tokens() -> Seq<Seq<char>> {
    seq!["unix"@, "windows"@]
}

/// The architecture tokens, in their listed order.
pub open spec fn arch_tokens() -> Seq<Seq<char>> {
    seq![
        "x86"@,
        "x86_64"@,
        "arm"@,
        "aarch64"@,
        "mips"@,
        "mips64"@,
        "powerpc"@,
        "powerpc64"@,
        "s390x"@,
        "sparc64"@,
    ]
}

/// Every token of every namespace: operating systems, then families, then
/// architectures.
pub open spec fn all_tokens() -> Seq<Seq<char>> {
    os_tokens() + family_tokens() + arch_tokens()
}

/// Whether `token` belongs to one of the three namespaces.
pub open spec fn is_feature(token: Seq<char>) -> bool {
    all_tokens().contains(token)
}

/// The name of the namespace that a token belongs to. A token listed in
/// two namespaces takes the name of the first.
pub open spec fn namespace_of(token: Seq<char>) -> Seq<char> {
    if os_tokens().contains(token) {
        "os"@
    } else if family_tokens().contains(token) {
        "family"@
    } else {
        "arch"@
    }
}

/// The predicate that picks the feature tokens out of a sequence.
pub open spec fn feature_pred() -> spec_fn(Seq<char>) -> bool {
    |token: Seq<char>| is_feature(token)
}

/// The features that a file name asks for: its dot-separated components
/// that are feature tokens, in order of appearance.
pub open spec fn required_of(name: Seq<char>) -> Seq<Seq<char>> {
    split(name, '.').filter(feature_pred())
}

/// Whether a set of enabled features holds every feature that the file
/// name of `path` asks for.
pub open spec fn supported_by(enabled: Set<Seq<char>>, path: Seq<char>) -> bool {
    required_of(file_name_of(path)).to_set().subset_of(enabled)
}

/// The operating system tokens.
pub fn os_names() -> (names: Vec<&'static str>)
    ensures
        str_views(names@) == os_tokens(),
{
    let names = vec![
        "linux",
        "macos",
        "ios",
        "freebsd",
        "dragonfly",
        "bitrig",
        "netbsd",
        "openbsd",
        "solaris",
        "android",
        "windows",
    ];
    assert(str_views(names@) =~= os_tokens());
    names
}

/// The platform family tokens.
pub fn families() -> (names: Vec<&'static str>)
    ensures
        str_views(names@) == family_tokens(),
{
    let names = vec!["unix", "windows"];
    assert(str_views(names@) =~= family_tokens());
    names
}

/// The architecture tokens.
pub fn arch_names() -> (names: Vec<&'static str>)
    ensures
        str_views(names@) == arch_tokens(),
{
    let names = vec![
        "x86",
        "x86_64",
        "arm",
        "aarch64",
        "mips",
        "mips64",
        "powerpc",
        "powerpc64",
        "s390x",
        "sparc64",
    ];
    assert(str_views(names@) =~= arch_tokens());
    names
}

/// Every token of every namespace.
pub fn all_features() -> (names: Vec<&'static str>)
    ensures
        str_views(names@) == all_tokens(),
{
    let mut names = os_names();
    let mut second = families();
    let mut third = arch_names();
    let ghost a = names@;
    let ghost b = second@;
    let ghost c = third@;
    names.append(&mut second);
    names.append(&mut third);
    assert(str_views(names@) =~= str_views(a) + str_views(b) + str_views(c));
    names
}

/// Whether `feature` belongs to one of the three namespaces.
pub fn validate_feature(feature: &str) -> (known: bool)
    ensures
        known == is_feature(feature@),
{
    let all = all_features();
    position(&all, feature).is_some()
}

/// The name of the namespace that the feature `value` belongs to.
pub fn feature_name(value: &str) -> (name: &'static str)
    requires
        is_feature(value@),
    ensures
        name@ == namespace_of(value@),
{
    let os = os_names();
    let fam = families();
    if position(&os, value).is_some() {
        "os"
    } else if position(&fam, value).is_some() {
        "family"
    } else {
        "arch"
    }
}

/// The features that a dotfile asks for through its file name, in order
/// of appearance.
pub fn required_features(dotfile: &Dotfile) -> (required: Vec<&'static str>)
    ensures
        str_views(required@) == required_of(file_name_of(dotfile.relative_path@)),
{
    let name = file_name(dotfile.relative_path.as_str());
    let parts = split_str(name.as_str(), '.');
    let all = all_features();
    let mut required: Vec<&'static str> = Vec::new();
    let mut i: usize = 0;
    proof {
        reveal(Seq::filter);
        assert(views(parts@).take(0) =~= Seq::<Seq<char>>::empty());
        assert(str_views(required@) =~= Seq::<Seq<char>>::empty());
    }
    while i < parts.len()
        invariant
            i <= parts.len(),
            str_views(all@) == all_tokens(),
            str_views(required@) == views(parts@).take(i as int).filter(feature_pred()),
        decreases parts.len() - i,
    {
        let ghost before = str_views(required@);
        proof {
            reveal(Seq::filter);
            let t = views(parts@).take(i as int + 1);
            assert(t.drop_last() =~= views(parts@).take(i as int));
            assert(t.last() == parts@[i as int]@);
        }
        match position(&all, parts[i].as_str()) {
            Some(k) => {
                required.push(all[k]);
                assert(str_views(required@) =~= before.push(parts@[i as int]@));
            },
            None => {},
        }
        i = i + 1;
    }
    assert(views(parts@).take(parts.len() as int) =~= views(parts@));
    required
}


/// The predicate that picks what is not in `enabled`.
pub open spec fn disabled_pred(enabled: Set<Seq<char>>) -> spec_fn(Seq<char>) -> bool {
    |token: Seq<char>| !enabled.contains(token)
}

/// A file name component as a link shows it: an enabled feature token
/// becomes the name of its namespace, anything else stays.
pub open spec fn substitute_component(enabled: Set<Seq<char>>, part: Seq<char>) -> Seq<char> {
    if enabled.contains(part) && is_feature(part) {
        namespace_of(part)
    } else {
        part
    }
}

/// Every component of `parts` as a link shows it.
pub open spec fn substitute_all(enabled: Set<Seq<char>>, parts: Seq<Seq<char>>) -> Seq<Seq<char>> {
    Seq::new(parts.len(), |i: int| substitute_component(enabled, parts[i]))
}

/// A file name as a link shows it: split at the dots, each component
/// substituted, and joined again.
pub open spec fn substituted_name(enabled: Set<Seq<char>>, name: Seq<char>) -> Seq<char> {
    join(substitute_all(enabled, split(name, '.')), '.')
}

/// A path whose file name is shown as a link shows it.
pub open spec fn substituted_path(enabled: Set<Seq<char>>, path: Seq<char>) -> Seq<char> {
    with_file_name_of(path, substituted_name(enabled, file_name_of(path)))
}

/// A set of enabled features.
#[derive(Debug)]
pub struct FeatureSet {
    /// The enabled feature tokens.
    pub enabled_features: Vec<&'static str>,
}

impl FeatureSet {
    /// The enabled tokens as a set.
    pub open spec fn enabled(&self) -> Set<Seq<char>> {
        str_views(self.enabled_features@).to_set()
    }

    /// Every enabled token belongs to a namespace, and none is held twice.
    pub open spec fn wf(&self) -> bool {
        &&& forall|i: int|
            0 <= i < self.enabled_features@.len() ==> is_feature(
                #[trigger] self.enabled_features@[i]@,
            )
        &&& str_views(self.enabled_features@).no_duplicates()
    }

    /// The feature set of a machine with the given operating system,
    /// platform family and architecture.
    pub fn current_system(os: &'static str, family: &'static str, arch: &'static str) -> (set:
        FeatureSet)
        requires
            is_feature(os@),
            is_feature(family@),
            is_feature(arch@),
        ensures
            set.wf(),
            set.enabled() == set![os@, family@, arch@],
    {
        let tokens = vec![os, family, arch];
        let set = FeatureSet::new(tokens);
        proof {
            assert(str_views(tokens@) =~= seq![os@, family@, arch@]);
            assert(str_views(tokens@)[0] == os@);
            assert(str_views(tokens@)[1] == family@);
            assert(str_views(tokens@)[2] == arch@);
            assert(set.enabled() =~= set![os@, family@, arch@]);
        }
        set
    }

    /// Creates a feature set that enables exactly the given tokens.
    pub fn new(enabled_features: Vec<&'static str>) -> (set: FeatureSet)
        requires
            forall|i: int|
                0 <= i < enabled_features@.len() ==> is_feature(#[trigger] enabled_features@[i]@),
        ensures
            set.wf(),
            set.enabled() == str_views(enabled_features@).to_set(),
    {
        let mut kept: Vec<&'static str> = Vec::new();
        let mut i: usize = 0;
        while i < enabled_features.len()
            invariant
                i <= enabled_features.len(),
                forall|k: int|
                    0 <= k < enabled_features@.len() ==> is_feature(
                        #[trigger] enabled_features@[k]@,
                    ),
                forall|k: int| 0 <= k < kept@.len() ==> is_feature(#[trigger] kept@[k]@),
                str_views(kept@).no_duplicates(),
                forall|k: int|
                    0 <= k < kept@.len() ==> str_views(enabled_features@).contains(
                        #[trigger] str_views(kept@)[k],
                    ),
                forall|k: int|
                    0 <= k < i ==> str_views(kept@).contains(
                        #[trigger] str_views(enabled_features@)[k],
                    ),
            decreases enabled_features.len() - i,
        {
            let token = enabled_features[i];
            let ghost before = kept@;
            assert(str_views(enabled_features@)[i as int] == token@);
            if position(&kept, token).is_none() {
                kept.push(token);
                proof {
                    assert(str_views(kept@) =~= str_views(before).push(token@));
                    assert forall|k: int| 0 <= k < i + 1 implies str_views(kept@).contains(
                        #[trigger] str_views(enabled_features@)[k],
                    ) by {
                        if k < i {
                            let t = str_views(enabled_features@)[k];
                            let w = choose|w: int|
                                0 <= w < str_views(before).len() && str_views(before)[w] == t;
                            assert(str_views(kept@)[w] == t);
                        } else {
                            assert(str_views(kept@)[before.len() as int] == token@);
                        }
                    }
                }
            }
            i = i + 1;
        }
        let set = FeatureSet { enabled_features: kept };
        proof {
            assert forall|t: Seq<char>| set.enabled().contains(t) == str_views(
                enabled_features@,
            ).to_set().contains(t) by {
                if str_views(kept@).contains(t) {
                    let w = choose|w: int| 0 <= w < str_views(kept@).len() && str_views(kept@)[w] == t;
                    assert(str_views(enabled_features@).contains(str_views(kept@)[w]));
                }
                if str_views(enabled_features@).contains(t) {
                    let w = choose|w: int|
                        0 <= w < str_views(enabled_features@).len() && str_views(
                            enabled_features@,
                        )[w] == t;
                    assert(str_views(kept@).contains(str_views(enabled_features@)[w]));
                }
            }
            assert(set.enabled() =~= str_views(enabled_features@).to_set());
        }
        set
    }

    /// Whether every feature that the dotfile asks for is enabled.
    pub fn supports(&self, dotfile: &Dotfile) -> (supported: bool)
        ensures
            supported == supported_by(self.enabled(), dotfile.relative_path@),
    {
        let required = required_features(dotfile);
        let ghost req = str_views(required@);
        let mut i: usize = 0;
        while i < required.len()
            invariant
                i <= required.len(),
                req == str_views(required@),
                req == required_of(file_name_of(dotfile.relative_path@)),
                forall|k: int| 0 <= k < i ==> self.enabled().contains(#[trigger] req[k]),
            decreases required.len() - i,
        {
            if position(&self.enabled_features, required[i]).is_none() {
                proof {
                    assert(req[i as int] == required@[i as int]@);
                    assert(req.to_set().contains(req[i as int]));
                    assert(!self.enabled().contains(req[i as int]));
                }
                return false;
            }
            assert(req[i as int] == required@[i as int]@);
            i = i + 1;
        }
        proof {
            assert forall|t: Seq<char>| req.to_set().contains(t) implies self.enabled().contains(
                t,
            ) by {
                let w = choose|w: int| 0 <= w < req.len() && req[w] == t;
                assert(self.enabled().contains(req[w]));
            }
        }
        true
    }

    /// Rewrites the dotfile's relative path for linking: in its file name,
    /// every dot-separated component that is an enabled feature token gives
    /// way to the name of its namespace.
    pub fn substitute_enabled_feature_names(&self, dotfile: &mut Dotfile)
        ensures
            final(dotfile).full_path == old(dotfile).full_path,
            final(dotfile).relative_path@ == substituted_path(
                self.enabled(),
                old(dotfile).relative_path@,
            ),
            old(dotfile).wf() ==> final(dotfile).wf(),
    {
        proof {
            if dotfile.wf() {
                lemma_substitution_keeps_contained(self.enabled(), dotfile.relative_path@);
            }
        }
        let name = file_name(dotfile.relative_path.as_str());
        let parts = split_str(name.as_str(), '.');
        let mut shown: Vec<String> = Vec::new();
        let mut i: usize = 0;
        while i < parts.len()
            invariant
                i <= parts.len(),
                views(shown@) == substitute_all(self.enabled(), views(parts@)).take(i as int),
            decreases parts.len() - i,
        {
            let ghost before = views(shown@);
            let part = parts[i].as_str();
            if position(&self.enabled_features, part).is_some() && validate_feature(part) {
                shown.push(String::from_str(feature_name(part)));
            } else {
                shown.push(parts[i].clone());
            }
            proof {
                let all = substitute_all(self.enabled(), views(parts@));
                assert(views(shown@) =~= before.push(all[i as int]));
                assert(all.take(i as int + 1) =~= all.take(i as int).push(all[i as int]));
            }
            i = i + 1;
        }
        proof {
            reveal_strlit(".");
            let all = substitute_all(self.enabled(), views(parts@));
            assert(all.take(parts.len() as int) =~= all);
        }
        let new_name = join_strs(&shown, ".");
        dotfile.relative_path = with_file_name(dotfile.relative_path.as_str(), new_name.as_str());
    }

    /// Every known token that is not enabled, in the order of the
    /// namespaces' lists. A token listed in two namespaces appears twice.
    pub fn disabled(&self) -> (tokens: Vec<&'static str>)
        ensures
            str_views(tokens@) == all_tokens().filter(disabled_pred(self.enabled())),
    {
        let all = all_features();
        let mut tokens: Vec<&'static str> = Vec::new();
        let mut i: usize = 0;
        proof {
            reveal(Seq::filter);
            assert(str_views(all@).take(0) =~= Seq::<Seq<char>>::empty());
            assert(str_views(tokens@) =~= Seq::<Seq<char>>::empty());
        }
        while i < all.len()
            invariant
                i <= all.len(),
                str_views(tokens@) == str_views(all@).take(i as int).filter(
                    disabled_pred(self.enabled()),
                ),
            decreases all.len() - i,
        {
            let ghost before = str_views(tokens@);
            proof {
                reveal(Seq::filter);
                let t = str_views(all@).take(i as int + 1);
                assert(t.drop_last() =~= str_views(all@).take(i as int));
                assert(t.last() == all@[i as int]@);
            }
            if position(&self.enabled_features, all[i]).is_none() {
                tokens.push(all[i]);
                assert(str_views(tokens@) =~= before.push(all@[i as int]@));
            }
            i = i + 1;
        }
        assert(str_views(all@).take(all.len() as int) =~= str_views(all@));
        tokens
    }
}


/// A file whose name asks for no feature is supported by every machine.
pub proof fn lemma_plain_file_supported_everywhere(enabled: Set<Seq<char>>, path: Seq<char>)
    requires
        required_of(file_name_of(path)).len() == 0,
    ensures
        supported_by(enabled, path),
{
}

/// A machine with more features supports every file that a machine with
/// fewer supports.
pub proof fn lemma_support_grows_with_features(
    fewer: Set<Seq<char>>,
    more: Set<Seq<char>>,
    path: Seq<char>,
)
    requires
        fewer.subset_of(more),
        supported_by(fewer, path),
    ensures
        supported_by(more, path),
{
}

/// Every known token is either enabled or listed as disabled, never both.
pub proof fn lemma_disabled_is_the_rest(enabled: Set<Seq<char>>, token: Seq<char>)
    requires
        is_feature(token),
    ensures
        all_tokens().filter(disabled_pred(enabled)).contains(token) <==> !enabled.contains(token),
{
    let listed = all_tokens().filter(disabled_pred(enabled));
    broadcast use vstd::seq_lib::group_filter_ensures;

    if listed.contains(token) {
        let i = choose|i: int| 0 <= i < listed.len() && listed[i] == token;
        assert(disabled_pred(enabled)(listed[i]));
    }
    if !enabled.contains(token) {
        let i = choose|i: int| 0 <= i < all_tokens().len() && all_tokens()[i] == token;
        assert(disabled_pred(enabled)(all_tokens()[i]));
        assert(listed.contains(all_tokens()[i]));
    }
}

/// The names of the three namespaces.
pub open spec fn is_namespace_name(name: Seq<char>) -> bool {
    name == "os"@ || name == "family"@ || name == "arch"@
}

/// The names of the namespaces are not feature tokens, and hold neither a
/// dot nor a slash.
pub proof fn lemma_namespace_names(name: Seq<char>)
    requires
        is_namespace_name(name),
    ensures
        !is_feature(name),
        lacks(name, '.'),
        lacks(name, '/'),
        name.len() >= 2,
{
    reveal_strlit("os");
    reveal_strlit("family");
    reveal_strlit("arch");
    reveal_strlit("linux");
    reveal_strlit("macos");
    reveal_strlit("ios");
    reveal_strlit("freebsd");
    reveal_strlit("dragonfly");
    reveal_strlit("bitrig");
    reveal_strlit("netbsd");
    reveal_strlit("openbsd");
    reveal_strlit("solaris");
    reveal_strlit("android");
    reveal_strlit("windows");
    reveal_strlit("unix");
    reveal_strlit("x86");
    reveal_strlit("x86_64");
    reveal_strlit("arm");
    reveal_strlit("aarch64");
    reveal_strlit("mips");
    reveal_strlit("mips64");
    reveal_strlit("powerpc");
    reveal_strlit("powerpc64");
    reveal_strlit("s390x");
    reveal_strlit("sparc64");
    let all = all_tokens();
    assert(all.len() == 23);
    assert forall|i: int| 0 <= i < all.len() implies all[i] != name by {
        let t = all[i];
        assert(t.len() >= 3);
        assert(t.len() == 6 ==> t[0] != 'f');
        assert(t.len() == 4 ==> t[0] != 'a');
    }
}

/// Substituting a component a second time changes nothing.
pub proof fn lemma_substitute_component_idempotent(enabled: Set<Seq<char>>, part: Seq<char>)
    ensures
        substitute_component(enabled, substitute_component(enabled, part)) == substitute_component(
            enabled,
            part,
        ),
{
    if enabled.contains(part) && is_feature(part) {
        lemma_namespace_names(namespace_of(part));
    }
}

/// Substitution keeps a character out of a component that lacked it, when
/// the character is a dot or a slash.
proof fn lemma_substitute_all_lacks(enabled: Set<Seq<char>>, parts: Seq<Seq<char>>, c: char)
    requires
        free_of(parts, c),
        c == '.' || c == '/',
    ensures
        free_of(substitute_all(enabled, parts), c),
{
    let shown = substitute_all(enabled, parts);
    assert forall|i: int, j: int|
        0 <= i < shown.len() && 0 <= j < shown[i].len() implies #[trigger] shown[i][j] != c by {
        if enabled.contains(parts[i]) && is_feature(parts[i]) {
            lemma_namespace_names(namespace_of(parts[i]));
        } else {
            assert(shown[i][j] == parts[i][j]);
        }
    }
}

/// Substituting in a file name twice gives what substituting once gives.
pub proof fn lemma_substituted_name_idempotent(enabled: Set<Seq<char>>, name: Seq<char>)
    ensures
        substituted_name(enabled, substituted_name(enabled, name)) == substituted_name(
            enabled,
            name,
        ),
{
    let parts = split(name, '.');
    let shown = substitute_all(enabled, parts);
    lemma_split_nonempty(name, '.');
    lemma_split_free(name, '.');
    lemma_substitute_all_lacks(enabled, parts, '.');
    lemma_split_join(shown, '.');
    assert(substitute_all(enabled, shown) =~= shown) by {
        assert forall|i: int| 0 <= i < shown.len() implies substitute_component(
            enabled,
            shown[i],
        ) == shown[i] by {
            lemma_substitute_component_idempotent(enabled, parts[i]);
        }
    }
}

/// What splitting a substituted path gives: the components of the path,
/// the last of them substituted.
proof fn lemma_substituted_components(enabled: Set<Seq<char>>, path: Seq<char>)
    ensures
        components(substituted_path(enabled, path)) == components(path).drop_last().push(
            substituted_name(enabled, file_name_of(path)),
        ),
        lacks(substituted_name(enabled, file_name_of(path)), '/'),
        split(substituted_name(enabled, file_name_of(path)), '.') == substitute_all(
            enabled,
            split(file_name_of(path), '.'),
        ),
{
    let comps = components(path);
    let name = file_name_of(path);
    let shown_name = substituted_name(enabled, name);
    let shown_comps = comps.drop_last().push(shown_name);
    lemma_split_nonempty(path, '/');
    lemma_split_free(path, '/');
    assert(lacks(name, '/')) by {
        assert forall|j: int| 0 <= j < name.len() implies name[j] != '/' by {
            assert(comps[comps.len() - 1][j] != '/');
        }
    }
    lemma_split_lacks(name, '.', '/');
    lemma_substitute_all_lacks(enabled, split(name, '.'), '/');
    lemma_join_lacks(substitute_all(enabled, split(name, '.')), '.', '/');
    assert(free_of(shown_comps, '/')) by {
        assert forall|i: int, j: int|
            0 <= i < shown_comps.len() && 0 <= j < shown_comps[i].len() implies
            #[trigger] shown_comps[i][j] != '/' by {
            if i < comps.len() - 1 {
                assert(shown_comps[i][j] == comps[i][j]);
            } else {
                assert(shown_comps[i][j] == shown_name[j]);
            }
        }
    }
    lemma_split_join(shown_comps, '/');
    lemma_split_nonempty(name, '.');
    lemma_split_free(name, '.');
    lemma_substitute_all_lacks(enabled, split(name, '.'), '.');
    lemma_split_join(substitute_all(enabled, split(name, '.')), '.');
}

/// A file name that substitution turns into nothing or into two dots was
/// that already.
proof fn lemma_substituted_name_keeps_shape(enabled: Set<Seq<char>>, name: Seq<char>)
    ensures
        substituted_name(enabled, name).len() == 0 ==> name.len() == 0,
        substituted_name(enabled, name) == ".."@ ==> name == ".."@,
{
    let parts = split(name, '.');
    let shown = substitute_all(enabled, parts);
    let shown_name = substituted_name(enabled, name);
    let nothing = Seq::<char>::empty();
    lemma_split_nonempty(name, '.');
    lemma_split_free(name, '.');
    lemma_substitute_all_lacks(enabled, parts, '.');
    lemma_split_join(shown, '.');
    lemma_join_split(name, '.');
    assert forall|i: int| 0 <= i < parts.len() && shown[i].len() == 0 implies parts[i].len()
        == 0 by {
        if enabled.contains(parts[i]) && is_feature(parts[i]) {
            lemma_namespace_names(namespace_of(parts[i]));
        }
    }
    reveal_with_fuel(split, 4);
    reveal_with_fuel(join, 4);
    if shown_name.len() == 0 {
        assert(shown_name =~= nothing);
        assert(shown =~= seq![nothing]);
        assert(parts =~= seq![nothing]) by {
            assert(shown[0].len() == 0);
        }
    }
    if shown_name == ".."@ {
        reveal_strlit("..");
        let two = ".."@;
        assert(two.drop_last() =~= seq!['.']);
        assert(two.drop_last().drop_last() =~= nothing);
        assert(split(two.drop_last(), '.') =~= seq![nothing, nothing]);
        assert(split(two, '.') =~= seq![nothing, nothing, nothing]);
        assert(shown =~= seq![nothing, nothing, nothing]);
        assert(parts =~= seq![nothing, nothing, nothing]) by {
            assert(shown[0].len() == 0);
            assert(shown[1].len() == 0);
            assert(shown[2].len() == 0);
        }
        let three = seq![nothing, nothing, nothing];
        assert(three.drop_last() =~= seq![nothing, nothing]);
        assert(three.drop_last().drop_last() =~= seq![nothing]);
        assert(join(three.drop_last(), '.') =~= seq!['.']);
        assert(join(three, '.') =~= two);
    }
}

/// Substitution keeps a relative path fit for a dotfile: it stays
/// non-empty, relative, and free of steps upward.
pub proof fn lemma_substitution_keeps_contained(enabled: Set<Seq<char>>, path: Seq<char>)
    requires
        is_contained(path),
    ensures
        is_contained(substituted_path(enabled, path)),
{
    let comps = components(path);
    let name = file_name_of(path);
    let shown_name = substituted_name(enabled, name);
    let shown_comps = comps.drop_last().push(shown_name);
    let shown = substituted_path(enabled, path);
    lemma_split_nonempty(path, '/');
    lemma_split_free(path, '/');
    lemma_join_split(path, '/');
    lemma_substituted_components(enabled, path);
    lemma_substituted_name_keeps_shape(enabled, name);
    lemma_join_starts(comps, '/');
    lemma_join_starts(shown_comps, '/');
    assert(comps.contains(name));
    assert(shown_name != ".."@);
    assert(!shown_comps.contains(".."@)) by {
        if shown_comps.contains(".."@) {
            let i = choose|i: int| 0 <= i < shown_comps.len() && shown_comps[i] == ".."@;
            assert(i < comps.len() - 1);
            assert(comps[i] == ".."@);
        }
    }
    if comps.len() == 1 {
        assert(path == name);
        assert(shown == shown_name);
    } else {
        assert(shown_comps[0] == comps[0]);
        if comps[0].len() == 0 {
            assert(path[0] == '/');
        } else {
            assert(shown.subrange(0, comps[0].len() as int)[0] == comps[0][0]);
            assert(comps[0][0] != '/');
        }
    }
}

/// Substituting the enabled feature names in a path twice in a row gives
/// the same path as substituting once.
pub proof fn lemma_substitution_idempotent(enabled: Set<Seq<char>>, path: Seq<char>)
    ensures
        substituted_path(enabled, substituted_path(enabled, path)) == substituted_path(
            enabled,
            path,
        ),
{
    let name = file_name_of(path);
    let shown_name = substituted_name(enabled, name);
    let shown_comps = components(path).drop_last().push(shown_name);
    lemma_substituted_components(enabled, path);
    lemma_substituted_name_idempotent(enabled, name);
    assert(shown_comps.drop_last().push(shown_name) =~= shown_comps);
}

} // verus!
