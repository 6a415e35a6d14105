//! What a plugin's `require` resolves to, and which libraries a plugin gets.
use vstd::prelude::*;
use vstd::string::*;
use crate::data::plugin::PluginDependency;
use crate::text::str_equals;

verus! {

/// The name under which a dependency's library is offered to `require`, for
/// the dependencies that the mod provides a library for.
pub open spec fn library_of(dependency: PluginDependency) -> Option<Seq<char>> {
    match dependency {
        PluginDependency::Dangerous => Some("dangerous"@),
        PluginDependency::Game => Some("game"@),
        PluginDependency::Input => Some("input"@),
        PluginDependency::UI => Some("ui"@),
        _ => None,
    }
}

/// The library name of a dependency, if the mod provides one.
pub fn library_name(dependency: &PluginDependency) -> (r: Option<String>)
    ensures
        match library_of(*dependency) {
            Some(n) => r matches Some(s) && s@ == n,
            None => r is None,
        },
{
    match dependency {
        PluginDependency::Dangerous => Some(String::from_str("dangerous")),
        PluginDependency::Game => Some(String::from_str("game")),
        PluginDependency::Input => Some(String::from_str("input")),
        PluginDependency::UI => Some(String::from_str("ui")),
        _ => None,
    }
}

/// Whether `name` occurs in `names`.
pub open spec fn names_contain(names: Seq<String>, name: Seq<char>) -> bool {
    exists|i: int| 0 <= i < names.len() && #[trigger] names[i]@ == name
}

/// Whether no name occurs twice.
pub open spec fn names_distinct(names: Seq<String>) -> bool {
    forall|i: int, j: int| 0 <= i < j < names.len() ==> #[trigger] names[i]@ != #[trigger] names[j]@
}

/// The position of `name` in `names`, if it occurs.
fn position_of(names: &Vec<String>, name: &str) -> (r: Option<usize>)
    ensures
        match r {
            Some(i) => i < names@.len() && names@[i as int]@ == name@ && forall|j: int|
                0 <= j < i ==> #[trigger] names@[j]@ != name@,
            None => !names_contain(names@, name@),
        },
{
    let mut i: usize = 0;
    while i < names.len()
        invariant
            i <= names@.len(),
            forall|j: int| 0 <= j < i ==> #[trigger] names@[j]@ != name@,
        decreases names@.len() - i,
    {
        if str_equals(names[i].as_str(), name) {
            return Some(i);
        }
        i = i + 1;
    }
    None
}

/// The libraries a plugin with these dependencies is offered, each once, in
/// the order the dependencies first name them.
pub fn library_names(dependencies: &Vec<PluginDependency>) -> (names: Vec<String>)
    ensures
        names_distinct(names@),
        forall|n: Seq<char>|
            names_contain(names@, n) <==> exists|i: int|
                0 <= i < dependencies@.len() && #[trigger] library_of(dependencies@[i]) == Some(n),
{
    let mut names: Vec<String> = Vec::new();
    let mut k: usize = 0;
    while k < dependencies.len()
        invariant
            k <= dependencies@.len(),
            names_distinct(names@),
            forall|n: Seq<char>|
                names_contain(names@, n) <==> exists|i: int|
                    0 <= i < k && #[trigger] library_of(dependencies@[i]) == Some(n),
        decreases dependencies@.len() - k,
    {
        let dependency = dependencies[k];
        let ghost old_names = names@;
        match library_name(&dependency) {
            Some(name) => {
                match position_of(&names, name.as_str()) {
                    Some(p) => {
                        proof {
                            assert(names@[p as int]@ == name@);
                        }
                    },
                    None => {
                        names.push(name);
                        proof {
                            assert forall|n: Seq<char>| names_contain(names@, n) <==> (
                                names_contain(old_names, n) || n == name@) by {
                                if names_contain(names@, n) {
                                    let i = choose|i: int| 0 <= i < names@.len() && #[trigger] names@[i]@ == n;
                                    if i < old_names.len() {
                                        assert(old_names[i]@ == n);
                                    }
                                }
                                if names_contain(old_names, n) {
                                    let i = choose|i: int| 0 <= i < old_names.len() && #[trigger] old_names[i]@ == n;
                                    assert(names@[i]@ == n);
                                }
                                if n == name@ {
                                    assert(names@[old_names.len() as int]@ == n);
                                }
                            }
                        }
                    },
                }
            },
            None => {},
        }
        proof {
            assert forall|n: Seq<char>| names_contain(names@, n) <==> (names_contain(old_names, n)
                || library_of(dependencies@[k as int]) == Some(n)) by {
            }
            assert forall|n: Seq<char>| names_contain(names@, n) <==> exists|i: int|
                0 <= i < k + 1 && #[trigger] library_of(dependencies@[i]) == Some(n) by {
                if library_of(dependencies@[k as int]) == Some(n) {
                    assert(names_contain(names@, n));
                }
                if names_contain(old_names, n) {
                    assert(exists|i: int| 0 <= i < k && #[trigger] library_of(dependencies@[i]) == Some(n));
                    let i = choose|i: int| 0 <= i < k && #[trigger] library_of(dependencies@[i]) == Some(n);
                    assert(0 <= i < k + 1 && library_of(dependencies@[i]) == Some(n));
                }
                if exists|i: int| 0 <= i < k + 1 && #[trigger] library_of(dependencies@[i]) == Some(n) {
                    let i = choose|i: int| 0 <= i < k + 1 && #[trigger] library_of(dependencies@[i]) == Some(n);
                    if i < k {
                        assert(names_contain(old_names, n));
                    }
                }
            }
        }
        k = k + 1;
    }
    names
}

/// What a plugin's `require` of a name is answered with first.
pub enum RequireTarget {
    /// The library at this position of the plugin's libraries.
    Library(usize),
    /// No library has the name: the name is a file of the plugin, at this
    /// path relative to the plugin's folder.
    File(String),
}

/// `path` with its extension set to `extension` (`Path::with_extension`, read back as text),
/// following the path rules of the platform the mod is built for.
pub uninterp spec fn path_with_extension_of(path: Seq<char>, extension: Seq<char>) -> Seq<char>;

/// Whether `path` lies inside `base`, component by component (`Path::starts_with`).
pub uninterp spec fn path_within(path: Seq<char>, base: Seq<char>) -> bool;

/// Whether two paths name the same path, component by component (`Path`'s `==`).
pub uninterp spec fn same_path(a: Seq<char>, b: Seq<char>) -> bool;

/// `path` with its extension set to `extension` (`Path::with_extension`, then
/// `to_string_lossy`; both parts are text, so nothing is lost). `Path::with_extension`
/// panics when the extension holds a path separator, so such an extension is not admitted.
#[verifier::external_body]
fn path_with_extension(path: &str, extension: &str) -> (r: String)
    requires
        forall|i: int| 0 <= i < extension@.len() ==> #[trigger] extension@[i] != '/' && extension@[i] != '\\',
    ensures
        r@ == path_with_extension_of(path@, extension@),
{
    std::path::Path::new(path).with_extension(extension).to_string_lossy().into_owned()
}

/// Whether `path` starts with the components of `base` (`Path::starts_with`).
#[verifier::external_body]
fn starts_with_path(path: &str, base: &str) -> (r: bool)
    ensures
        r == path_within(path@, base@),
{
    std::path::Path::new(path).starts_with(base)
}

/// Whether two paths are equal component by component (`Path`'s `==`); `Path` implements
/// `Eq`, so a path equals itself.
#[verifier::external_body]
fn paths_equal(a: &str, b: &str) -> (r: bool)
    ensures
        r == same_path(a@, b@),
        a@ == b@ ==> r,
{
    std::path::Path::new(a) == std::path::Path::new(b)
}

/// Resolves what a `require` of `name` loads: a library of the plugin's when
/// one has that name, else the plugin's file `name` with extension `lua`.
pub fn resolve_require(name: &str, libraries: &Vec<String>) -> (r: RequireTarget)
    ensures
        match r {
            RequireTarget::Library(i) => i < libraries@.len() && libraries@[i as int]@ == name@
                && forall|j: int| 0 <= j < i ==> #[trigger] libraries@[j]@ != name@,
            RequireTarget::File(path) => !names_contain(libraries@, name@) && path@
                == path_with_extension_of(name@, "lua"@),
        },
{
    match position_of(libraries, name) {
        Some(i) => RequireTarget::Library(i),
        None => {
            proof {
                reveal_strlit("lua");
            }
            RequireTarget::File(path_with_extension(name, "lua"))
        },
    }
}

/// What happens to the `require` of a plugin file.
pub enum RequireOutcome {
    /// The file was loaded before: the cached table at this position is returned.
    Cached(usize),
    /// The file lies outside the plugin's folder and is refused.
    OutsidePlugin,
    /// The file doesn't exist.
    Missing,
    /// The file is read and run in an environment of its own.
    Load,
}

/// Whether a cached path equals `path`.
pub open spec fn cache_holds(cached_paths: Seq<String>, path: Seq<char>) -> bool {
    exists|i: int| 0 <= i < cached_paths.len() && same_path(#[trigger] cached_paths[i]@, path)
}

/// Whether `r` answers the `require` of the file at the canonical path `absolute_path`, for a
/// plugin in `plugin_path` that already loaded the files at `cached_paths`, where `exists`
/// tells whether the file exists: a cached file is returned from the cache; otherwise a
/// file outside the plugin's folder is refused, a missing one is reported, and any other is
/// loaded.
pub open spec fn require_decided(
    absolute_path: Seq<char>,
    plugin_path: Seq<char>,
    cached_paths: Seq<String>,
    exists: bool,
    r: RequireOutcome,
) -> bool {
    match r {
        RequireOutcome::Cached(i) => i < cached_paths.len() && same_path(cached_paths[i as int]@, absolute_path),
        RequireOutcome::OutsidePlugin => !cache_holds(cached_paths, absolute_path) && !path_within(
            absolute_path,
            plugin_path,
        ),
        RequireOutcome::Missing => !cache_holds(cached_paths, absolute_path) && path_within(
            absolute_path,
            plugin_path,
        ) && !exists,
        RequireOutcome::Load => !cache_holds(cached_paths, absolute_path) && path_within(absolute_path, plugin_path)
            && exists,
    }
}

/// Decides the `require` of a plugin file whose canonical path is `absolute_path`, for a
/// plugin in `plugin_path` that has already loaded the files at the canonical paths
/// `cached_paths`: a file loaded before is returned as it is, so no file runs twice;
/// otherwise a file is only loaded when it lies inside the plugin's folder and exists.
pub fn require_file_outcome(
    absolute_path: &str,
    plugin_path: &str,
    cached_paths: &Vec<String>,
    exists: bool,
) -> (r: RequireOutcome)
    ensures
        require_decided(absolute_path@, plugin_path@, cached_paths@, exists, r),
        (exists|i: int| 0 <= i < cached_paths@.len() && #[trigger] cached_paths@[i]@ == absolute_path@)
            ==> r is Cached,
{
    let mut i: usize = 0;
    while i < cached_paths.len()
        invariant
            i <= cached_paths@.len(),
            forall|j: int| 0 <= j < i ==> !same_path(#[trigger] cached_paths@[j]@, absolute_path@),
            forall|j: int| 0 <= j < i ==> #[trigger] cached_paths@[j]@ != absolute_path@,
        decreases cached_paths@.len() - i,
    {
        if paths_equal(cached_paths[i].as_str(), absolute_path) {
            return RequireOutcome::Cached(i);
        }
        i = i + 1;
    }
    if !starts_with_path(absolute_path, plugin_path) {
        RequireOutcome::OutsidePlugin
    } else if !exists {
        RequireOutcome::Missing
    } else {
        RequireOutcome::Load
    }
}

/// The files a plugin has required so far: the canonical path of each, and the table of
/// globals it left, which later `require`s of the same file return.
pub struct RequireCache {
    paths: Vec<String>,
    tables: Vec<mlua::OwnedTable>,
}

impl RequireCache {
    #[verifier::type_invariant]
    closed spec fn paths_match_tables(&self) -> bool {
        self.paths@.len() == self.tables@.len()
    }

    /// The canonical paths of the files required so far, oldest first.
    pub closed spec fn spec_paths(&self) -> Seq<String> {
        self.paths@
    }

    /// The tables the required files left, in the order of [`RequireCache::spec_paths`].
    pub closed spec fn spec_tables(&self) -> Seq<mlua::OwnedTable> {
        self.tables@
    }

    /// A cache of a plugin that has required no file yet.
    pub fn new() -> (c: Self)
        ensures
            c.spec_paths().len() == 0,
            c.spec_tables().len() == 0,
    {
        RequireCache { paths: Vec::new(), tables: Vec::new() }
    }

    /// The number of files required so far.
    pub fn len(&self) -> (n: usize)
        ensures
            n == self.spec_paths().len(),
            n == self.spec_tables().len(),
    {
        proof {
            use_type_invariant(self);
        }
        self.paths.len()
    }

    /// Decides the `require` of the file whose canonical path is `absolute_path`, for a
    /// plugin in `plugin_path`, as [`require_file_outcome`] does with the files required so far.
    pub fn outcome(&self, absolute_path: &str, plugin_path: &str, exists: bool) -> (r: RequireOutcome)
        ensures
            require_decided(absolute_path@, plugin_path@, self.spec_paths(), exists, r),
            r matches RequireOutcome::Cached(i) ==> i < self.spec_tables().len(),
            (exists|i: int| 0 <= i < self.spec_paths().len() && #[trigger] self.spec_paths()[i]@ == absolute_path@)
                ==> r is Cached,
    {
        proof {
            use_type_invariant(self);
        }
        require_file_outcome(absolute_path, plugin_path, &self.paths, exists)
    }

    /// The table that the `i`-th required file left.
    pub fn table(&self, i: usize) -> (t: &mlua::OwnedTable)
        requires
            i < self.spec_tables().len(),
        ensures
            *t == self.spec_tables()[i as int],
    {
        &self.tables[i]
    }

    /// Records that the file at the canonical path `path` was run and left `table`, so that
    /// it is not run again.
    pub fn record(&mut self, path: String, table: mlua::OwnedTable)
        ensures
            final(self).spec_paths() == old(self).spec_paths().push(path),
            final(self).spec_tables() == old(self).spec_tables().push(table),
    {
        let mut taken = RequireCache::new();
        std::mem::swap(&mut taken, self);
        proof {
            use_type_invariant(&taken);
        }
        let RequireCache { mut paths, mut tables } = taken;
        paths.push(path);
        tables.push(table);
        *self = RequireCache { paths, tables };
    }
}

/// Once a file was recorded in the cache, a later `require` of the same canonical path is
/// answered from the cache, and the file does not run again.
pub proof fn lemma_recorded_file_is_cached(before: RequireCache, after: RequireCache, path: String)
    requires
        after.spec_paths() == before.spec_paths().push(path),
    ensures
        exists|i: int| 0 <= i < after.spec_paths().len() && #[trigger] after.spec_paths()[i]@ == path@,
{
    assert(after.spec_paths()[before.spec_paths().len() as int]@ == path@);
}

/// The error text with which a refused `require` fails.
pub open spec fn require_error_text(outcome: RequireOutcome) -> Option<Seq<char>> {
    match outcome {
        RequireOutcome::OutsidePlugin => Some(
            "Permission denied: Requiring a file outside of the plugin folder is not allowed"@,
        ),
        RequireOutcome::Missing => Some("Required file doesn't exist"@),
        _ => None,
    }
}

impl RequireOutcome {
    /// The error text with which the `require` fails, if it is refused.
    pub fn error_message(&self) -> (r: Option<String>)
        ensures
            match require_error_text(*self) {
                Some(t) => r matches Some(s) && s@ == t,
                None => r is None,
            },
    {
        match self {
            RequireOutcome::OutsidePlugin => Some(
                String::from_str(
                    "Permission denied: Requiring a file outside of the plugin folder is not allowed",
                ),
            ),
            RequireOutcome::Missing => Some(String::from_str("Required file doesn't exist")),
            _ => None,
        }
    }
}

} // verus!
