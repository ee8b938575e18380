use lsp_install::binary::{eslint_server_binary_arguments, typescript_server_binary_arguments};
use lsp_install::error::{CacheMiss, InstallError};
use lsp_install::eslint::{DirEntry, EsLintLspAdapter, GitHubLspBinaryVersion, GithubRelease};
use lsp_install::paths::join;
use lsp_install::typescript::{TypeScriptLspAdapter, TypeScriptVersions};

fn strings(v: &[&str]) -> Vec<String> {
    v.iter().map(|s| s.to_string()).collect()
}

fn eslint_version(name: &str) -> GitHubLspBinaryVersion {
    GitHubLspBinaryVersion {
        name: name.to_string(),
        url: format!("https://example.com/{}.tar.gz", name),
    }
}

fn ts_versions() -> TypeScriptVersions {
    TypeScriptVersions {
        typescript_version: "5.0.4".to_string(),
        server_version: "3.3.2".to_string(),
    }
}

#[test]
fn join_adds_one_separator() {
    assert_eq!(join("/data/ts", "a/b.js"), "/data/ts/a/b.js");
    assert_eq!(join("/data/ts/", "a/b.js"), "/data/ts/a/b.js");
    assert_eq!(join("", "a/b.js"), "a/b.js");
}

#[test]
fn typescript_arguments() {
    assert_eq!(
        typescript_server_binary_arguments("/c/cli.mjs"),
        strings(&["/c/cli.mjs", "--stdio", "--tsserver-path", "node_modules/typescript/lib"])
    );
}

#[test]
fn eslint_arguments() {
    assert_eq!(eslint_server_binary_arguments("/c/s.js"), strings(&["/c/s.js", "--stdio"]));
}

#[test]
fn typescript_names() {
    let a = TypeScriptLspAdapter::new();
    assert_eq!(a.name(), "typescript-language-server");
    assert_eq!(EsLintLspAdapter::new().name(), "eslint");
}

#[test]
fn typescript_versions_need_both_lookups() {
    let a = TypeScriptLspAdapter::new();
    let ok = a
        .fetch_latest_server_version(Ok("5.0.4".to_string()), Ok("3.3.2".to_string()))
        .unwrap();
    assert_eq!(ok.typescript_version, "5.0.4");
    assert_eq!(ok.server_version, "3.3.2");
    let e = a
        .fetch_latest_server_version(Err("offline".to_string()), Ok("3.3.2".to_string()))
        .unwrap_err();
    assert_eq!(e.message, "offline");
    let e = a
        .fetch_latest_server_version(Ok("5.0.4".to_string()), Err("no such package".to_string()))
        .unwrap_err();
    assert_eq!(e.message, "no such package");
}

#[test]
fn eslint_release_lookup() {
    let a = EsLintLspAdapter::new();
    let (repo, prerelease) = a.release_query();
    assert_eq!(repo, "microsoft/vscode-eslint");
    assert!(prerelease);
    let v = a
        .fetch_latest_server_version(Ok(GithubRelease {
            name: "release/2.4.0".to_string(),
            tarball_url: "https://example.com/t.tar.gz".to_string(),
        }))
        .unwrap();
    assert_eq!(v.name, "release/2.4.0");
    assert_eq!(v.url, "https://example.com/t.tar.gz");
}

#[test]
fn version_lookup_failure_is_reported() {
    let e = EsLintLspAdapter::new()
        .fetch_latest_server_version(Err("connection refused".to_string()))
        .unwrap_err();
    assert_eq!(e.message, "connection refused");
}

#[test]
fn typescript_install_plan_when_missing() {
    let a = TypeScriptLspAdapter::new();
    let plan = a.install_plan(&ts_versions(), "/data/ts", false).unwrap();
    assert_eq!(plan.directory, "/data/ts");
    assert_eq!(plan.packages.len(), 2);
    assert_eq!(plan.packages[0].name, "typescript");
    assert_eq!(plan.packages[0].version, "5.0.4");
    assert_eq!(plan.packages[1].name, "typescript-language-server");
    assert_eq!(plan.packages[1].version, "3.3.2");
}

#[test]
fn typescript_install_is_idempotent() {
    let a = TypeScriptLspAdapter::new();
    let first = a.fetch_server_binary("/usr/bin/node", "/data/ts");
    assert!(a.install_plan(&ts_versions(), "/data/ts", true).is_none());
    let second = a.fetch_server_binary("/usr/bin/node", "/data/ts");
    assert_eq!(first.path, second.path);
    assert_eq!(first.arguments, second.arguments);
    assert_eq!(first.path, "/usr/bin/node");
    assert_eq!(
        first.arguments[0],
        "/data/ts/node_modules/typescript-language-server/lib/cli.mjs"
    );
}

#[test]
fn typescript_current_layout_wins() {
    let a = TypeScriptLspAdapter::new();
    assert_eq!(
        a.cached_server_path("/data/ts", true, true).unwrap(),
        "/data/ts/node_modules/typescript-language-server/lib/cli.mjs"
    );
    assert_eq!(
        a.cached_server_path("/data/ts", false, true).unwrap(),
        "/data/ts/node_modules/typescript-language-server/lib/cli.js"
    );
    assert_eq!(
        a.cached_server_path("/data/ts", false, false),
        Err(CacheMiss::MissingExecutable)
    );
}

#[test]
fn typescript_miss_then_install() {
    let a = TypeScriptLspAdapter::new();
    assert!(a.cached_server_binary("/usr/bin/node", "/data/ts", false, false).is_none());
    let installed = a.fetch_server_binary("/usr/bin/node", "/data/ts");
    let cached = a.cached_server_binary("/usr/bin/node", "/data/ts", true, false).unwrap();
    assert_eq!(cached.path, installed.path);
    assert_eq!(cached.arguments, installed.arguments);
}

#[test]
fn typescript_code_action_kinds() {
    assert_eq!(
        TypeScriptLspAdapter::new().code_action_kinds().unwrap(),
        strings(&["quickfix", "refactor", "refactor.extract", "source"])
    );
}

#[test]
fn eslint_paths() {
    let a = EsLintLspAdapter::new();
    let v = eslint_version("2.4.0");
    assert_eq!(a.destination_name(&v), "vscode-eslint-2.4.0");
    assert_eq!(a.destination_path("/data/eslint", &v), "/data/eslint/vscode-eslint-2.4.0");
    assert_eq!(
        a.server_path("/data/eslint", &v),
        "/data/eslint/vscode-eslint-2.4.0/vscode-eslint/server/out/eslintServer.js"
    );
}

#[test]
fn eslint_stale_cleanup() {
    let a = EsLintLspAdapter::new();
    let v2 = eslint_version("2.0");
    let plan = a
        .fetch_plan(&v2, "/data/eslint", false, &strings(&["vscode-eslint-1.0"]))
        .unwrap();
    assert_eq!(plan.remove, strings(&["/data/eslint/vscode-eslint-1.0"]));
    assert_eq!(plan.destination, "/data/eslint/vscode-eslint-2.0");
    assert_eq!(plan.url, "https://example.com/2.0.tar.gz");
}

#[test]
fn eslint_stale_cleanup_keeps_destination() {
    let a = EsLintLspAdapter::new();
    let keep = "vscode-eslint-2.0".to_string();
    let entries = strings(&["a", "vscode-eslint-2.0", "b"]);
    assert_eq!(
        a.stale_entries("/d", &entries, &keep),
        strings(&["/d/a", "/d/b"])
    );
    assert!(a.stale_entries("/d", &Vec::new(), &keep).is_empty());
}

#[test]
fn eslint_install_is_idempotent() {
    let a = EsLintLspAdapter::new();
    let v = eslint_version("2.0");
    let entries = strings(&["vscode-eslint-2.0"]);
    assert!(a.fetch_plan(&v, "/data/eslint", true, &entries).is_none());
    let first = a.fetch_server_binary("/usr/bin/node", "/data/eslint", &v);
    let second = a.fetch_server_binary("/usr/bin/node", "/data/eslint", &v);
    assert_eq!(first.path, second.path);
    assert_eq!(first.arguments, second.arguments);
    assert_eq!(
        first.arguments,
        strings(&[
            "/data/eslint/vscode-eslint-2.0/vscode-eslint/server/out/eslintServer.js",
            "--stdio"
        ])
    );
}

#[test]
fn eslint_unpack_normalization() {
    let a = EsLintLspAdapter::new();
    let v = eslint_version("2.0");
    let dest = a.destination_path("/data/eslint", &v);
    let rename = a
        .normalize_unpacked(&dest, Some("microsoft-vscode-eslint-3f2a1b".to_string()))
        .unwrap();
    assert_eq!(
        rename.from,
        "/data/eslint/vscode-eslint-2.0/microsoft-vscode-eslint-3f2a1b"
    );
    assert_eq!(rename.to, "/data/eslint/vscode-eslint-2.0/vscode-eslint");
    assert_eq!(
        join(&rename.to, "server/out/eslintServer.js"),
        a.server_path("/data/eslint", &v)
    );
}

#[test]
fn eslint_unpack_without_entries_fails() {
    let a = EsLintLspAdapter::new();
    assert!(matches!(
        a.normalize_unpacked("/data/eslint/vscode-eslint-2.0", None),
        Err(InstallError::MissingFirstFile)
    ));
}

#[test]
fn eslint_build_commands() {
    let cmds = EsLintLspAdapter::new().build_commands("/r/vscode-eslint");
    assert_eq!(cmds.len(), 2);
    assert_eq!(cmds[0].directory, "/r/vscode-eslint");
    assert_eq!(cmds[0].subcommand, "install");
    assert!(cmds[0].arguments.is_empty());
    assert_eq!(cmds[1].subcommand, "run-script");
    assert_eq!(cmds[1].arguments, strings(&["compile"]));
}

#[test]
fn eslint_miss_then_install() {
    let a = EsLintLspAdapter::new();
    assert_eq!(
        a.cached_server_path("/data/eslint", None),
        Err(CacheMiss::MissingFirstFile)
    );
    assert!(a.cached_server_binary("/data/eslint", None).is_none());
    let v = eslint_version("2.0");
    let installed = a.fetch_server_binary("/usr/bin/node", "/data/eslint", &v);
    let entry = DirEntry { name: a.destination_name(&v), is_dir: true };
    let cached = a.cached_server_binary("/data/eslint", Some(entry)).unwrap();
    assert_eq!(cached.path, installed.arguments[0]);
    assert!(cached.arguments.is_empty());
}

#[test]
fn eslint_cached_first_entry_must_be_directory() {
    let a = EsLintLspAdapter::new();
    let entry = DirEntry { name: "notes.txt".to_string(), is_dir: false };
    assert_eq!(
        a.cached_server_path("/data/eslint", Some(entry)),
        Err(CacheMiss::FirstEntryNotDirectory)
    );
}
