use vstd::prelude::*;

use crate::binary::{
    typescript_arguments_spec, typescript_server_binary_arguments, BinaryModel,
    LanguageServerBinary,
};
use crate::error::{CacheMiss, VersionLookupError};
use crate::paths::{join, join_spec};

verus! {

/// Where older releases of the server kept their entry script.
pub const OLD_SERVER_PATH: &'static str = "node_modules/typescript-language-server/lib/cli.js";

/// Where the server keeps its entry script now; installs always produce it.
pub const NEW_SERVER_PATH: &'static str = "node_modules/typescript-language-server/lib/cli.mjs";

/// The npm package of the compiler.
pub const TYPESCRIPT_PACKAGE: &'static str = "typescript";

/// The npm package of the language server.
pub const SERVER_PACKAGE: &'static str = "typescript-language-server";

/// The versions of the two packages that move in lockstep.
#[derive(Clone, Debug)]
pub struct TypeScriptVersions {
    pub typescript_version: String,
    pub server_version: String,
}

/// One package to install, at a pinned version.
#[derive(Clone, Debug)]
pub struct PinnedPackage {
    pub name: String,
    pub version: String,
}

/// The package-manager work that brings a container directory up to date.
#[derive(Clone, Debug)]
pub struct NpmInstall {
    pub directory: String,
    pub packages: Vec<PinnedPackage>,
}

pub open spec fn new_server_path_spec(container_dir: Seq<char>) -> Seq<char> {
    join_spec(container_dir, NEW_SERVER_PATH@)
}

pub open spec fn old_server_path_spec(container_dir: Seq<char>) -> Seq<char> {
    join_spec(container_dir, OLD_SERVER_PATH@)
}

/// The binary that runs the server entry script at `server_path` under the
/// JavaScript runtime at `node_path`.
pub open spec fn server_binary_spec(node_path: Seq<char>, server_path: Seq<char>) -> BinaryModel {
    BinaryModel { path: node_path, arguments: typescript_arguments_spec(server_path) }
}

/// The entry script that a lookup in a container directory settles on, given
/// which of the two layouts are present: the current layout wins.
pub open spec fn cached_server_path_spec(
    container_dir: Seq<char>,
    new_exists: bool,
    old_exists: bool,
) -> Option<Seq<char>> {
    if new_exists {
        Some(new_server_path_spec(container_dir))
    } else if old_exists {
        Some(old_server_path_spec(container_dir))
    } else {
        None
    }
}

/// The provisioning rules of the TypeScript language server, whose packages
/// come from the npm registry.
#[derive(Clone, Copy, Debug)]
pub struct TypeScriptLspAdapter {}

impl TypeScriptLspAdapter {
    pub fn new() -> (r: Self) {
        TypeScriptLspAdapter {  }
    }

    pub fn name(&self) -> (r: String)
        ensures
            r@ == "typescript-language-server"@,
    {
        "typescript-language-server".to_owned()
    }

    /// Combines the two registry lookups into one resolution: both must have
    /// succeeded, or the whole resolution fails with the first failure.
    pub fn fetch_latest_server_version(
        &self,
        typescript_version: Result<String, String>,
        server_version: Result<String, String>,
    ) -> (r: Result<TypeScriptVersions, VersionLookupError>)
        ensures
            r is Ok <==> (typescript_version is Ok && server_version is Ok),
            r is Ok ==> r->Ok_0.typescript_version@ == typescript_version->Ok_0@
                && r->Ok_0.server_version@ == server_version->Ok_0@,
            typescript_version is Err ==> r is Err && r->Err_0.message@
                == typescript_version->Err_0@,
            typescript_version is Ok && server_version is Err ==> r is Err
                && r->Err_0.message@ == server_version->Err_0@,
    {
        match typescript_version {
            Err(message) => Err(VersionLookupError { message }),
            Ok(typescript_version) => match server_version {
                Err(message) => Err(VersionLookupError { message }),
                Ok(server_version) => Ok(TypeScriptVersions { typescript_version, server_version }),
            },
        }
    }

    /// The canonical entry script inside a container directory.
    pub fn server_path(&self, container_dir: &str) -> (r: String)
        ensures
            r@ == new_server_path_spec(container_dir@),
    {
        join(container_dir, NEW_SERVER_PATH)
    }

    /// The packages to install into the container directory, or nothing when
    /// the canonical entry script is already there.
    pub fn install_plan(
        &self,
        version: &TypeScriptVersions,
        container_dir: &str,
        server_exists: bool,
    ) -> (r: Option<NpmInstall>)
        ensures
            r is None <==> server_exists,
            r is Some ==> r->Some_0.directory@ == container_dir@
                && r->Some_0.packages@.len() == 2
                && r->Some_0.packages@[0].name@ == TYPESCRIPT_PACKAGE@
                && r->Some_0.packages@[0].version@ == version.typescript_version@
                && r->Some_0.packages@[1].name@ == SERVER_PACKAGE@
                && r->Some_0.packages@[1].version@ == version.server_version@,
    {
        if server_exists {
            None
        } else {
            let packages = vec![
                PinnedPackage {
                    name: TYPESCRIPT_PACKAGE.to_owned(),
                    version: version.typescript_version.clone(),
                },
                PinnedPackage {
                    name: SERVER_PACKAGE.to_owned(),
                    version: version.server_version.clone(),
                },
            ];
            Some(NpmInstall { directory: container_dir.to_owned(), packages })
        }
    }

    /// The binary that an install returns: the runtime launching the canonical
    /// entry script.
    pub fn fetch_server_binary(&self, node_path: &str, container_dir: &str) -> (r:
        LanguageServerBinary)
        ensures
            r@ == server_binary_spec(node_path@, new_server_path_spec(container_dir@)),
    {
        let server_path = self.server_path(container_dir);
        let arguments = typescript_server_binary_arguments(server_path.as_str());
        LanguageServerBinary { path: node_path.to_owned(), arguments }
    }

    /// The entry script of an earlier install, checked in priority order: the
    /// current layout first, then the legacy one.
    pub fn cached_server_path(&self, container_dir: &str, new_exists: bool, old_exists: bool) -> (r:
        Result<String, CacheMiss>)
        ensures
            match cached_server_path_spec(container_dir@, new_exists, old_exists) {
                Some(p) => r is Ok && r->Ok_0@ == p,
                None => r == Err::<String, CacheMiss>(CacheMiss::MissingExecutable),
            },
    {
        if new_exists {
            Ok(join(container_dir, NEW_SERVER_PATH))
        } else if old_exists {
            Ok(join(container_dir, OLD_SERVER_PATH))
        } else {
            Err(CacheMiss::MissingExecutable)
        }
    }

    /// The binary of an earlier install, or nothing when no layout holds one.
    pub fn cached_server_binary(
        &self,
        node_path: &str,
        container_dir: &str,
        new_exists: bool,
        old_exists: bool,
    ) -> (r: Option<LanguageServerBinary>)
        ensures
            match cached_server_path_spec(container_dir@, new_exists, old_exists) {
                Some(p) => r is Some && r->Some_0@ == server_binary_spec(node_path@, p),
                None => r is None,
            },
    {
        match self.cached_server_path(container_dir, new_exists, old_exists) {
            Ok(server_path) => {
                let arguments = typescript_server_binary_arguments(server_path.as_str());
                Some(LanguageServerBinary { path: node_path.to_owned(), arguments })
            },
            Err(_) => None,
        }
    }

    /// The kinds of code action that the server is asked for.
    pub fn code_action_kinds(&self) -> (r: Option<Vec<String>>)
        ensures
            r is Some,
            r->Some_0@.len() == 4,
            r->Some_0@[0]@ == "quickfix"@,
            r->Some_0@[1]@ == "refactor"@,
            r->Some_0@[2]@ == "refactor.extract"@,
            r->Some_0@[3]@ == "source"@,
    {
        Some(
            vec![
                "quickfix".to_owned(),
                "refactor".to_owned(),
                "refactor.extract".to_owned(),
                "source".to_owned(),
            ],
        )
    }
}

} // verus!
