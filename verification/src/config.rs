//! The configuration snapshot and the repository registry.

use vstd::prelude::*;
use vstd::string::*;

verus! {

/// An upstream repository: the name it is requested under and its base URL.
#[derive(Clone)]
pub struct Repository {
    pub name: String,
    pub url: String,
}

/// What a [`Repository`] holds.
pub struct RepositoryView {
    pub name: Seq<char>,
    pub url: Seq<char>,
}

impl View for Repository {
    type V = RepositoryView;

    open spec fn view(&self) -> RepositoryView {
        RepositoryView { name: self.name@, url: self.url@ }
    }
}

/// The configuration snapshot: built once, read everywhere.
#[derive(Clone)]
pub struct Config {
    pub repositories: Vec<Repository>,
    pub cache_directory: String,
    /// Time to live of a cache entry, in minutes.
    pub cache_ttl: u64,
}

/// What a [`Config`] holds.
pub struct ConfigView {
    pub repositories: Seq<RepositoryView>,
    pub cache_directory: Seq<char>,
    pub cache_ttl: u64,
}

impl View for Config {
    type V = ConfigView;

    open spec fn view(&self) -> ConfigView {
        ConfigView {
            repositories: Seq::new(self.repositories@.len(), |i: int| self.repositories@[i]@),
            cache_directory: self.cache_directory@,
            cache_ttl: self.cache_ttl,
        }
    }
}

/// The cache directory of a configuration that names none.
pub open spec fn default_cache_directory_text() -> Seq<char> {
    "cache"@
}

/// The text ends in a slash.
pub open spec fn ends_in_slash(text: Seq<char>) -> bool {
    text.len() > 0 && text.last() == '/'
}

/// A base URL with the trailing slash it needs: one is added unless the URL
/// already ends in one.
pub open spec fn normalized_url(url: Seq<char>) -> Seq<char> {
    if ends_in_slash(url) {
        url
    } else {
        url.push('/')
    }
}

/// The directory that holds the cache entries of one repository.
pub open spec fn repository_directory(cache_directory: Seq<char>, name: Seq<char>) -> Seq<char> {
    cache_directory + seq!['/'] + name
}

/// What an optional repository holds.
pub open spec fn repository_view_of(repository: Option<&Repository>) -> Option<RepositoryView> {
    match repository {
        Some(repository) => Some(repository@),
        None => None,
    }
}

/// The text of an optional string.
pub open spec fn text_of(s: Option<String>) -> Option<Seq<char>> {
    match s {
        Some(s) => Some(s@),
        None => None,
    }
}

impl RepositoryView {
    /// The repository with its base URL normalized.
    pub open spec fn normalized(self) -> RepositoryView {
        RepositoryView { name: self.name, url: normalized_url(self.url) }
    }
}

impl ConfigView {
    /// Some repository carries this name.
    pub open spec fn has_repository(self, name: Seq<char>) -> bool {
        exists|i: int| 0 <= i < self.repositories.len() && self.repositories[i].name == name
    }

    /// `i` is the first position whose repository carries this name.
    pub open spec fn is_first_match(self, name: Seq<char>, i: int) -> bool {
        &&& 0 <= i < self.repositories.len()
        &&& self.repositories[i].name == name
        &&& forall|j: int| 0 <= j < i ==> self.repositories[j].name != name
    }

    /// The position of the first repository that carries this name.
    pub open spec fn position(self, name: Seq<char>) -> int {
        choose|i: int| self.is_first_match(name, i)
    }

    /// The registry's answer: the first repository of that name, if there is one.
    pub open spec fn lookup(self, name: Seq<char>) -> Option<RepositoryView> {
        if self.has_repository(name) {
            Some(self.repositories[self.position(name)])
        } else {
            None
        }
    }

    /// No two repositories share a name.
    pub open spec fn names_unique(self) -> bool {
        forall|i: int, j: int|
            0 <= i < j < self.repositories.len() ==> self.repositories[i].name
                != self.repositories[j].name
    }

    /// Every base URL ends in a slash.
    pub open spec fn urls_normalized(self) -> bool {
        forall|i: int|
            0 <= i < self.repositories.len() ==> ends_in_slash(
                (#[trigger] self.repositories[i]).url,
            )
    }

    /// The cache directory after an override given at startup: the
    /// override, where there is one, whatever directory was configured.
    pub open spec fn effective_cache_directory(self, cache_path: Option<Seq<char>>) -> Seq<char> {
        match cache_path {
            Some(p) => p,
            None => self.cache_directory,
        }
    }

    /// The snapshot as the rest of the program sees it: the override applied
    /// and every base URL normalized.
    pub open spec fn initialized(self, cache_path: Option<Seq<char>>) -> ConfigView {
        ConfigView {
            repositories: Seq::new(
                self.repositories.len(),
                |i: int| self.repositories[i].normalized(),
            ),
            cache_directory: self.effective_cache_directory(cache_path),
            cache_ttl: self.cache_ttl,
        }
    }

    /// The directories that must exist before the first request: the cache
    /// root, then one directory per repository, in configuration order.
    pub open spec fn directories(self) -> Seq<Seq<char>> {
        Seq::new(
            self.repositories.len() + 1,
            |i: int|
                if i == 0 {
                    self.cache_directory
                } else {
                    repository_directory(self.cache_directory, self.repositories[i - 1].name)
                },
        )
    }
}

/// The cache directory used when the configuration names none.
pub fn default_cache_directory() -> (directory: String)
    ensures
        directory@ == default_cache_directory_text(),
{
    "cache".to_owned()
}

/// The time to live used when the configuration names none: one day, in minutes.
pub fn default_cache_ttl() -> (minutes: u64)
    ensures
        minutes == 1440,
{
    60 * 24
}

/// The file the configuration is read from: the one named at startup, or
/// `config.toml`.
pub fn config_path(named: Option<String>) -> (path: String)
    ensures
        path@ == match named {
            Some(path) => path@,
            None => "config.toml"@,
        },
{
    match named {
        Some(path) => path,
        None => "config.toml".to_owned(),
    }
}

/// The address the server listens on: the one named at startup, or port 8000
/// of the local host.
pub fn listen_address(named: Option<String>) -> (address: String)
    ensures
        address@ == match named {
            Some(address) => address@,
            None => "127.0.0.1:8000"@,
        },
{
    match named {
        Some(address) => address,
        None => "127.0.0.1:8000".to_owned(),
    }
}

/// Whether the text ends in a slash.
fn ends_with_slash(text: &str) -> (yes: bool)
    ensures
        yes == ends_in_slash(text@),
{
    let n: usize = text.unicode_len();
    n > 0 && text.get_char(n - 1) == '/'
}

/// The base URL with a trailing slash added unless it has one.
pub fn normalize_url(url: &str) -> (normalized: String)
    ensures
        normalized@ == normalized_url(url@),
{
    if ends_with_slash(url) {
        url.to_owned()
    } else {
        proof {
            reveal_strlit("/");
        }
        let normalized = url.to_owned().concat("/");
        assert(normalized@ =~= url@.push('/'));
        normalized
    }
}

/// The path of the directory that holds one repository's cache entries.
pub fn repository_cache_directory(cache_directory: &str, name: &str) -> (path: String)
    ensures
        path@ == repository_directory(cache_directory@, name@),
{
    proof {
        reveal_strlit("/");
    }
    let path = cache_directory.to_owned().concat("/").concat(name);
    assert("/"@ =~= seq!['/']);
    path
}

impl Config {
    /// Looks a repository up by its exact name. Of several with one name the
    /// first is returned.
    pub fn get_repository(&self, name: &str) -> (found: Option<&Repository>)
        ensures
            found is Some <==> self@.has_repository(name@),
            found is Some ==> {
                &&& self@.is_first_match(name@, self@.position(name@))
                &&& *found.unwrap() == self.repositories@[self@.position(name@)]
            },
            repository_view_of(found) == self@.lookup(name@),
    {
        let wanted = name.to_owned();
        let mut i: usize = 0;
        while i < self.repositories.len()
            invariant
                0 <= i <= self.repositories@.len(),
                wanted@ == name@,
                forall|j: int| 0 <= j < i ==> self@.repositories[j].name != name@,
            decreases self.repositories@.len() - i,
        {
            if self.repositories[i].name == wanted {
                assert(self@.is_first_match(name@, i as int));
                return Some(&self.repositories[i]);
            }
            i += 1;
        }
        None
    }

    /// Whether no two repositories share a name, as the registry requires.
    pub fn has_unique_names(&self) -> (unique: bool)
        ensures
            unique == self@.names_unique(),
    {
        let mut j: usize = 0;
        while j < self.repositories.len()
            invariant
                0 <= j <= self.repositories@.len(),
                forall|a: int, b: int|
                    0 <= a < b < j ==> self@.repositories[a].name != self@.repositories[b].name,
            decreases self.repositories@.len() - j,
        {
            let mut i: usize = 0;
            while i < j
                invariant
                    0 <= i <= j < self.repositories@.len(),
                    forall|a: int|
                        0 <= a < i ==> self@.repositories[a].name
                            != self@.repositories[j as int].name,
                decreases j - i,
            {
                if self.repositories[i].name == self.repositories[j].name {
                    assert(self@.repositories[i as int].name == self@.repositories[j as int].name);
                    return false;
                }
                i += 1;
            }
            j += 1;
        }
        true
    }

    /// Completes a freshly parsed configuration. `cache_path` is the override
    /// of the cache directory given at startup, if there is one: it replaces
    /// the configured directory. Returns the directories that must exist
    /// before the first request is served.
    pub fn initialize(&mut self, cache_path: Option<String>) -> (directories: Vec<String>)
        ensures
            final(self)@ == old(self)@.initialized(text_of(cache_path)),
            final(self)@.urls_normalized(),
            directories.deep_view() == final(self)@.directories(),
    {
        if let Some(path) = cache_path {
            self.cache_directory = path;
        }
        let mut repositories: Vec<Repository> = Vec::new();
        let mut directories: Vec<String> = Vec::new();
        directories.push(self.cache_directory.clone());
        let mut i: usize = 0;
        while i < self.repositories.len()
            invariant
                0 <= i <= self.repositories@.len(),
                self.repositories == old(self).repositories,
                self.cache_ttl == old(self).cache_ttl,
                self.cache_directory@ == old(self)@.effective_cache_directory(text_of(cache_path)),
                repositories@.len() == i,
                directories@.len() == i + 1,
                directories@[0]@ == self.cache_directory@,
                forall|j: int|
                    0 <= j < i ==> (#[trigger] repositories@[j])@ == old(
                        self,
                    )@.repositories[j].normalized(),
                forall|j: int|
                    1 <= j <= i ==> (#[trigger] directories@[j])@ == repository_directory(
                        self.cache_directory@,
                        old(self)@.repositories[j - 1].name,
                    ),
            decreases self.repositories@.len() - i,
        {
            let repository = &self.repositories[i];
            directories.push(
                repository_cache_directory(self.cache_directory.as_str(), repository.name.as_str()),
            );
            repositories.push(
                Repository {
                    name: repository.name.clone(),
                    url: normalize_url(repository.url.as_str()),
                },
            );
            i += 1;
        }
        self.repositories = repositories;
        assert(self@.repositories =~= old(self)@.initialized(text_of(cache_path)).repositories);
        proof {
            initialization_keeps_the_names(old(self)@, text_of(cache_path), Seq::empty());
        }
        assert(directories.deep_view() =~= self@.directories());
        directories
    }
}

/// Lookup is by exact name: it succeeds exactly when some repository
/// carries the name, and then returns the first that does.
pub proof fn lookup_finds_the_first_match(config: ConfigView, name: Seq<char>)
    ensures
        config.lookup(name) is Some <==> config.has_repository(name),
        config.has_repository(name) ==> {
            &&& config.is_first_match(name, config.position(name))
            &&& config.lookup(name) == Some(config.repositories[config.position(name)])
            &&& config.lookup(name).unwrap().name == name
        },
{
    if config.has_repository(name) {
        first_match_exists(config, name, config.repositories.len() as int);
    }
}

/// Among the first `n` repositories, if one carries the name then there is a
/// first one that does.
proof fn first_match_exists(config: ConfigView, name: Seq<char>, n: int)
    requires
        0 <= n <= config.repositories.len(),
    ensures
        (exists|i: int| 0 <= i < n && config.repositories[i].name == name) ==> exists|i: int|
            0 <= i < n && config.is_first_match(name, i),
        n == config.repositories.len() && config.has_repository(name) ==> config.is_first_match(
            name,
            config.position(name),
        ),
    decreases n,
{
    if n > 0 {
        first_match_exists(config, name, n - 1);
        if exists|i: int| 0 <= i < n - 1 && config.repositories[i].name == name {
            let i = choose|i: int| 0 <= i < n - 1 && config.is_first_match(name, i);
            assert(0 <= i < n && config.is_first_match(name, i));
        } else if config.repositories[n - 1].name == name {
            assert(config.is_first_match(name, n - 1));
        }
    }
}

/// Where no two repositories share a name, every repository is found under
/// its own name.
pub proof fn unique_name_finds_its_repository(config: ConfigView, i: int)
    requires
        config.names_unique(),
        0 <= i < config.repositories.len(),
    ensures
        config.lookup(config.repositories[i].name) == Some(config.repositories[i]),
{
    let name = config.repositories[i].name;
    lookup_finds_the_first_match(config, name);
    let first = config.position(name);
    if first < i {
        assert(config.repositories[first].name != config.repositories[i].name);
    }
}

/// A normalized URL ends in a slash, and normalizing it again changes
/// nothing.
pub proof fn normalized_url_ends_in_slash(url: Seq<char>)
    ensures
        ends_in_slash(normalized_url(url)),
        normalized_url(normalized_url(url)) == normalized_url(url),
        ends_in_slash(url) ==> normalized_url(url) == url,
        !ends_in_slash(url) ==> normalized_url(url) == url + seq!['/'],
{
    assert(url.push('/') =~= url + seq!['/']);
}

/// Initialization keeps the registry's names and their order, so the same
/// names are found before and after, at the same positions.
pub proof fn initialization_keeps_the_names(
    config: ConfigView,
    cache_path: Option<Seq<char>>,
    name: Seq<char>,
)
    ensures
        config.initialized(cache_path).has_repository(name) == config.has_repository(name),
        config.initialized(cache_path).names_unique() == config.names_unique(),
        config.initialized(cache_path).urls_normalized(),
        config.has_repository(name) ==> config.initialized(cache_path).lookup(name) == Some(
            config.lookup(name).unwrap().normalized(),
        ),
{
    let after = config.initialized(cache_path);
    assert forall|i: int| 0 <= i < after.repositories.len() implies (
    #[trigger] after.repositories[i]).name == config.repositories[i].name by {}
    if config.names_unique() {
        assert forall|i: int, j: int|
            0 <= i < j < after.repositories.len() implies after.repositories[i].name
            != after.repositories[j].name by {
            assert(config.repositories[i].name != config.repositories[j].name);
        }
    }
    if after.names_unique() {
        assert forall|i: int, j: int|
            0 <= i < j < config.repositories.len() implies config.repositories[i].name
            != config.repositories[j].name by {
            assert(after.repositories[i].name != after.repositories[j].name);
        }
    }
    assert forall|i: int| 0 <= i < after.repositories.len() implies ends_in_slash(
        (#[trigger] after.repositories[i]).url,
    ) by {
        normalized_url_ends_in_slash(config.repositories[i].url);
    }
    if config.has_repository(name) {
        lookup_finds_the_first_match(config, name);
        let i = config.position(name);
        assert(after.repositories[i].name == name);
        assert(after.is_first_match(name, i)) by {
            assert forall|j: int| 0 <= j < i implies after.repositories[j].name != name by {
                assert(after.repositories[j].name == config.repositories[j].name);
            }
        }
        lookup_finds_the_first_match(after, name);
    } else if after.has_repository(name) {
        let i = choose|i: int|
            0 <= i < after.repositories.len() && after.repositories[i].name == name;
        assert(config.repositories[i].name == name);
    }
}

/// Initializing twice, with the same override, is initializing once.
pub proof fn initialization_is_idempotent(config: ConfigView, cache_path: Option<Seq<char>>)
    ensures
        config.initialized(cache_path).initialized(cache_path) == config.initialized(cache_path),
{
    let once = config.initialized(cache_path);
    let twice = once.initialized(cache_path);
    assert forall|i: int| 0 <= i < once.repositories.len() implies twice.repositories[i]
        == once.repositories[i] by {
        normalized_url_ends_in_slash(config.repositories[i].url);
    }
    assert(twice.repositories =~= once.repositories);
}

} // verus!
