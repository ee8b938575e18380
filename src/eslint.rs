use vstd::prelude::*;
use vstd::string::*;

use crate::binary::{eslint_arguments_spec, eslint_server_binary_arguments, BinaryModel, LanguageServerBinary};
use crate::error::{CacheMiss, InstallError, VersionLookupError};
use crate::paths::{join, join_spec};

verus! {

/// The repository whose releases carry the server's sources.
pub const RELEASE_REPO: &'static str = "microsoft/vscode-eslint";

/// What the name of a version's destination directory starts with.
pub const DESTINATION_PREFIX: &'static str = "vscode-eslint-";

/// The fixed name that the unpacked source tree is given.
pub const REPO_ROOT_NAME: &'static str = "vscode-eslint";

/// The built entry script, relative to the source tree.
pub const SERVER_PATH_IN_REPO: &'static str = "server/out/eslintServer.js";

/// The built entry script, relative to a version's destination directory.
pub const SERVER_PATH: &'static str = "vscode-eslint/server/out/eslintServer.js";

/// A release as the release feed reports it.
#[derive(Clone, Debug)]
pub struct GithubRelease {
    pub name: String,
    pub tarball_url: String,
}

/// The version to install: the release's display name and the address of its
/// source archive.
#[derive(Clone, Debug)]
pub struct GitHubLspBinaryVersion {
    pub name: String,
    pub url: String,
}

/// The work that replaces stale versions by a freshly downloaded one.
#[derive(Clone, Debug)]
pub struct FetchPlan {
    /// Entries of the container directory to delete first, in this order.
    pub remove: Vec<String>,
    /// The archive to download.
    pub url: String,
    /// The directory to unpack the archive into.
    pub destination: String,
}

/// A rename that gives the unpacked source tree its fixed name.
#[derive(Clone, Debug)]
pub struct Rename {
    pub from: String,
    pub to: String,
}

/// A package-manager subcommand run inside a directory.
#[derive(Clone, Debug)]
pub struct NpmCommand {
    pub directory: String,
    pub subcommand: String,
    pub arguments: Vec<String>,
}

/// An entry of a directory listing.
#[derive(Clone, Debug)]
pub struct DirEntry {
    pub name: String,
    pub is_dir: bool,
}

pub open spec fn destination_name_spec(version_name: Seq<char>) -> Seq<char> {
    DESTINATION_PREFIX@ + version_name
}

pub open spec fn destination_path_spec(container_dir: Seq<char>, version_name: Seq<char>) -> Seq<
    char,
> {
    join_spec(container_dir, destination_name_spec(version_name))
}

pub open spec fn server_path_spec(container_dir: Seq<char>, version_name: Seq<char>) -> Seq<char> {
    join_spec(destination_path_spec(container_dir, version_name), SERVER_PATH@)
}

/// The paths of the entries, among `entries`, that are not named `keep`, in
/// their order.
pub open spec fn stale_paths_spec(
    container_dir: Seq<char>,
    entries: Seq<Seq<char>>,
    keep: Seq<char>,
) -> Seq<Seq<char>>
    decreases entries.len(),
{
    if entries.len() == 0 {
        seq![]
    } else {
        let rest = stale_paths_spec(container_dir, entries.drop_last(), keep);
        if entries.last() == keep {
            rest
        } else {
            rest.push(join_spec(container_dir, entries.last()))
        }
    }
}

/// The entry script that a lookup settles on, given the first entry of the
/// container directory: that entry must be a directory.
pub open spec fn cached_server_path_spec(
    container_dir: Seq<char>,
    first: Option<(Seq<char>, bool)>,
) -> Result<Seq<char>, CacheMiss> {
    match first {
        None => Err(CacheMiss::MissingFirstFile),
        Some((name, is_dir)) => if is_dir {
            Ok(join_spec(join_spec(container_dir, name), SERVER_PATH@))
        } else {
            Err(CacheMiss::FirstEntryNotDirectory)
        },
    }
}

pub open spec fn entry_view(e: Option<DirEntry>) -> Option<(Seq<char>, bool)> {
    match e {
        None => None,
        Some(d) => Some((d.name@, d.is_dir)),
    }
}

/// The provisioning rules of the ESLint server, which is built from the
/// source archive of a release.
#[derive(Clone, Copy, Debug)]
pub struct EsLintLspAdapter {}

impl EsLintLspAdapter {
    pub fn new() -> (r: Self) {
        EsLintLspAdapter {  }
    }

    pub fn name(&self) -> (r: String)
        ensures
            r@ == "eslint"@,
    {
        "eslint".to_owned()
    }

    /// The release query: the repository, restricted to pre-releases (the
    /// last full release needs protocol extensions that are not handled).
    pub fn release_query(&self) -> (r: (String, bool))
        ensures
            r.0@ == RELEASE_REPO@,
            r.1,
    {
        (RELEASE_REPO.to_owned(), true)
    }

    /// Turns the answer of the release feed into the version to install.
    pub fn fetch_latest_server_version(&self, release: Result<GithubRelease, String>) -> (r: Result<
        GitHubLspBinaryVersion,
        VersionLookupError,
    >)
        ensures
            r is Ok <==> release is Ok,
            release is Ok ==> r->Ok_0.name@ == release->Ok_0.name@ && r->Ok_0.url@
                == release->Ok_0.tarball_url@,
            release is Err ==> r->Err_0.message@ == release->Err_0@,
    {
        match release {
            Ok(release) => Ok(GitHubLspBinaryVersion { name: release.name, url: release.tarball_url }),
            Err(message) => Err(VersionLookupError { message }),
        }
    }

    /// The name of the directory that a version is unpacked into.
    pub fn destination_name(&self, version: &GitHubLspBinaryVersion) -> (r: String)
        ensures
            r@ == destination_name_spec(version.name@),
    {
        let r = DESTINATION_PREFIX.to_owned();
        r.concat(version.name.as_str())
    }

    pub fn destination_path(&self, container_dir: &str, version: &GitHubLspBinaryVersion) -> (r:
        String)
        ensures
            r@ == destination_path_spec(container_dir@, version.name@),
    {
        let name = self.destination_name(version);
        join(container_dir, name.as_str())
    }

    /// The canonical entry script of a version.
    pub fn server_path(&self, container_dir: &str, version: &GitHubLspBinaryVersion) -> (r: String)
        ensures
            r@ == server_path_spec(container_dir@, version.name@),
    {
        let destination = self.destination_path(container_dir, version);
        join(destination.as_str(), SERVER_PATH)
    }

    /// The paths of the container directory's entries other than `keep`.
    pub fn stale_entries(&self, container_dir: &str, entries: &Vec<String>, keep: &String) -> (r:
        Vec<String>)
        ensures
            r@.map_values(|s: String| s@) == stale_paths_spec(
                container_dir@,
                entries@.map_values(|s: String| s@),
                keep@,
            ),
    {
        let mut r: Vec<String> = Vec::new();
        let mut i: usize = 0;
        while i < entries.len()
            invariant
                i <= entries@.len(),
                r@.map_values(|s: String| s@) == stale_paths_spec(
                    container_dir@,
                    entries@.map_values(|s: String| s@).take(i as int),
                    keep@,
                ),
            decreases entries@.len() - i,
        {
            let ghost names = entries@.map_values(|s: String| s@);
            assert(names.take(i + 1).drop_last() =~= names.take(i as int));
            if entries[i] != *keep {
                let p = join(container_dir, entries[i].as_str());
                r.push(p);
            }
            assert(r@.map_values(|s: String| s@) =~= stale_paths_spec(
                container_dir@,
                names.take(i + 1),
                keep@,
            ));
            i = i + 1;
        }
        assert(entries@.map_values(|s: String| s@).take(entries@.len() as int) =~= entries@.map_values(
            |s: String| s@,
        ));
        r
    }

    /// What to do to install a version, given whether its entry script is
    /// already built and the names of the container directory's entries:
    /// nothing when it is built; else delete every other entry, then download
    /// and unpack the archive into the version's destination.
    pub fn fetch_plan(
        &self,
        version: &GitHubLspBinaryVersion,
        container_dir: &str,
        server_exists: bool,
        entries: &Vec<String>,
    ) -> (r: Option<FetchPlan>)
        ensures
            r is None <==> server_exists,
            r is Some ==> r->Some_0.url@ == version.url@ && r->Some_0.destination@
                == destination_path_spec(container_dir@, version.name@)
                && r->Some_0.remove@.map_values(|s: String| s@) == stale_paths_spec(
                container_dir@,
                entries@.map_values(|s: String| s@),
                destination_name_spec(version.name@),
            ),
    {
        if server_exists {
            None
        } else {
            let keep = self.destination_name(version);
            let remove = self.stale_entries(container_dir, entries, &keep);
            let destination = join(container_dir, keep.as_str());
            Some(FetchPlan { remove, url: version.url.clone(), destination })
        }
    }

    /// The rename that gives the unpacked tree its fixed name, from the first
    /// entry found in the destination after unpacking.
    pub fn normalize_unpacked(&self, destination: &str, first_entry: Option<String>) -> (r: Result<
        Rename,
        InstallError,
    >)
        ensures
            r is Err <==> first_entry is None,
            first_entry is None ==> r == Err::<Rename, InstallError>(InstallError::MissingFirstFile),
            first_entry is Some ==> r->Ok_0.from@ == join_spec(destination@, first_entry->Some_0@)
                && r->Ok_0.to@ == join_spec(destination@, REPO_ROOT_NAME@),
    {
        match first_entry {
            None => Err(InstallError::MissingFirstFile),
            Some(name) => Ok(
                Rename { from: join(destination, name.as_str()), to: join(destination, REPO_ROOT_NAME) },
            ),
        }
    }

    /// The build steps run inside the source tree: install its dependencies,
    /// then compile it.
    pub fn build_commands(&self, repo_root: &str) -> (r: Vec<NpmCommand>)
        ensures
            r@.len() == 2,
            r@[0].directory@ == repo_root@,
            r@[0].subcommand@ == "install"@,
            r@[0].arguments@.len() == 0,
            r@[1].directory@ == repo_root@,
            r@[1].subcommand@ == "run-script"@,
            r@[1].arguments@.len() == 1,
            r@[1].arguments@[0]@ == "compile"@,
    {
        let install = NpmCommand {
            directory: repo_root.to_owned(),
            subcommand: "install".to_owned(),
            arguments: Vec::new(),
        };
        let compile = NpmCommand {
            directory: repo_root.to_owned(),
            subcommand: "run-script".to_owned(),
            arguments: vec!["compile".to_owned()],
        };
        vec![install, compile]
    }

    /// The binary that an install returns: the runtime launching the
    /// version's canonical entry script.
    pub fn fetch_server_binary(
        &self,
        node_path: &str,
        container_dir: &str,
        version: &GitHubLspBinaryVersion,
    ) -> (r: LanguageServerBinary)
        ensures
            r@ == (BinaryModel {
                path: node_path@,
                arguments: eslint_arguments_spec(server_path_spec(container_dir@, version.name@)),
            }),
    {
        let server_path = self.server_path(container_dir, version);
        let arguments = eslint_server_binary_arguments(server_path.as_str());
        LanguageServerBinary { path: node_path.to_owned(), arguments }
    }

    /// The entry script of an earlier install. The version is not known, so
    /// the first entry of the container directory is taken as its
    /// destination.
    pub fn cached_server_path(&self, container_dir: &str, first: Option<DirEntry>) -> (r: Result<
        String,
        CacheMiss,
    >)
        ensures
            match cached_server_path_spec(container_dir@, entry_view(first)) {
                Ok(p) => r is Ok && r->Ok_0@ == p,
                Err(e) => r == Err::<String, CacheMiss>(e),
            },
    {
        match first {
            None => Err(CacheMiss::MissingFirstFile),
            Some(entry) => {
                if entry.is_dir {
                    let destination = join(container_dir, entry.name.as_str());
                    Ok(join(destination.as_str(), SERVER_PATH))
                } else {
                    Err(CacheMiss::FirstEntryNotDirectory)
                }
            },
        }
    }

    /// The binary of an earlier install: the entry script itself, with no
    /// arguments; nothing when the lookup misses.
    pub fn cached_server_binary(&self, container_dir: &str, first: Option<DirEntry>) -> (r: Option<
        LanguageServerBinary,
    >)
        ensures
            match cached_server_path_spec(container_dir@, entry_view(first)) {
                Ok(p) => r is Some && r->Some_0@ == (BinaryModel { path: p, arguments: seq![] }),
                Err(_) => r is None,
            },
    {
        match self.cached_server_path(container_dir, first) {
            Ok(path) => {
                let b = LanguageServerBinary { path, arguments: Vec::new() };
                assert(b@.arguments =~= seq![]);
                Some(b)
            },
            Err(_) => None,
        }
    }
}

} // verus!
