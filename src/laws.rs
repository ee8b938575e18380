use vstd::prelude::*;

use crate::error::CacheMiss;
use crate::eslint::{
    cached_server_path_spec as eslint_cached_spec, destination_name_spec, destination_path_spec,
    server_path_spec, stale_paths_spec, REPO_ROOT_NAME, SERVER_PATH, SERVER_PATH_IN_REPO,
};
use crate::paths::join_spec;
use crate::typescript::{cached_server_path_spec, new_server_path_spec};

verus! {

/// Joining two names in turn is joining their combination.
pub proof fn lemma_join_nested(dir: Seq<char>, a: Seq<char>, b: Seq<char>)
    requires
        a.len() > 0,
        a.last() != '/',
    ensures
        join_spec(join_spec(dir, a), b) == join_spec(dir, a + seq!['/'] + b),
{
    let j = join_spec(dir, a);
    assert(j.len() > 0 && j.last() == a.last());
    if dir.len() == 0 {
    } else if dir.last() == '/' {
        assert(join_spec(j, b) =~= join_spec(dir, a + seq!['/'] + b));
    } else {
        assert(join_spec(j, b) =~= join_spec(dir, a + seq!['/'] + b));
    }
}

/// Different names in one directory have different paths.
pub proof fn lemma_join_injective(dir: Seq<char>, a: Seq<char>, b: Seq<char>)
    requires
        join_spec(dir, a) == join_spec(dir, b),
    ensures
        a == b,
{
    let n: int = if dir.len() == 0 {
        0
    } else if dir.last() == '/' {
        dir.len() as int
    } else {
        dir.len() as int + 1
    };
    let ja = join_spec(dir, a);
    let jb = join_spec(dir, b);
    assert(ja.subrange(n, ja.len() as int) =~= a);
    assert(jb.subrange(n, jb.len() as int) =~= b);
}

/// The files of a container directory once an install of the TypeScript
/// server has returned: the package manager runs only when the canonical
/// entry script is missing, and a completed run leaves it in place.
pub open spec fn typescript_files_after_install(files: Set<Seq<char>>, container_dir: Seq<char>) -> Set<
    Seq<char>,
> {
    let p = new_server_path_spec(container_dir);
    if files.contains(p) {
        files
    } else {
        files.insert(p)
    }
}

/// Installing the TypeScript server twice: the existence check of the second
/// call finds the canonical entry script, so it plans no package-manager
/// work and leaves the files as the first call left them.
pub proof fn lemma_typescript_install_idempotent(files: Set<Seq<char>>, container_dir: Seq<char>)
    ensures
        typescript_files_after_install(files, container_dir).contains(
            new_server_path_spec(container_dir),
        ),
        typescript_files_after_install(
            typescript_files_after_install(files, container_dir),
            container_dir,
        ) == typescript_files_after_install(files, container_dir),
{
}

/// The files of a container directory once an install of an ESLint release
/// has returned: the download and build run only when the version's entry
/// script is missing, and a completed build leaves it in place.
pub open spec fn eslint_files_after_install(
    files: Set<Seq<char>>,
    container_dir: Seq<char>,
    version_name: Seq<char>,
) -> Set<Seq<char>> {
    let p = server_path_spec(container_dir, version_name);
    if files.contains(p) {
        files
    } else {
        files.insert(p)
    }
}

/// Installing an ESLint release twice: the existence check of the second
/// call finds the version's entry script, so it plans no download, and
/// leaves the files as the first call left them.
pub proof fn lemma_eslint_install_idempotent(
    files: Set<Seq<char>>,
    container_dir: Seq<char>,
    version_name: Seq<char>,
)
    ensures
        eslint_files_after_install(files, container_dir, version_name).contains(
            server_path_spec(container_dir, version_name),
        ),
        eslint_files_after_install(
            eslint_files_after_install(files, container_dir, version_name),
            container_dir,
            version_name,
        ) == eslint_files_after_install(files, container_dir, version_name),
{
}

/// Miss, then install, for the TypeScript server: a container directory with
/// neither layout gives a miss; once an install has put the canonical entry
/// script there, the lookup settles on the path that the install returned.
pub proof fn lemma_typescript_miss_then_install(container_dir: Seq<char>, old_exists: bool)
    ensures
        cached_server_path_spec(container_dir, false, false) is None,
        cached_server_path_spec(container_dir, true, old_exists) == Some(
            new_server_path_spec(container_dir),
        ),
{
}

/// Miss, then install, for the ESLint server: an empty container directory
/// gives a miss; after an install into it, the only entry is the version's
/// destination directory, and the lookup settles on the entry script that
/// the install returned.
pub proof fn lemma_eslint_miss_then_install(container_dir: Seq<char>, version_name: Seq<char>)
    ensures
        eslint_cached_spec(container_dir, None) == Err::<Seq<char>, CacheMiss>(
            CacheMiss::MissingFirstFile,
        ),
        stale_paths_spec(container_dir, seq![], destination_name_spec(version_name)) == Seq::<
            Seq<char>,
        >::empty(),
        eslint_cached_spec(container_dir, Some((destination_name_spec(version_name), true))) == Ok::<
            Seq<char>,
            CacheMiss,
        >(server_path_spec(container_dir, version_name)),
{
}

/// Unpack normalization: whatever the unpacked tree was called, once it is
/// renamed to its fixed name inside the destination, the built entry script
/// inside it is the version's canonical entry script.
pub proof fn lemma_unpack_normalized(container_dir: Seq<char>, version_name: Seq<char>)
    ensures
        join_spec(
            join_spec(destination_path_spec(container_dir, version_name), REPO_ROOT_NAME@),
            SERVER_PATH_IN_REPO@,
        ) == server_path_spec(container_dir, version_name),
{
    reveal_strlit("vscode-eslint");
    reveal_strlit("server/out/eslintServer.js");
    reveal_strlit("vscode-eslint/server/out/eslintServer.js");
    assert(REPO_ROOT_NAME@ + seq!['/'] + SERVER_PATH_IN_REPO@ =~= SERVER_PATH@);
    lemma_join_nested(
        destination_path_spec(container_dir, version_name),
        REPO_ROOT_NAME@,
        SERVER_PATH_IN_REPO@,
    );
}

/// Stale cleanup: installing one version into a container directory that
/// holds only another version's destination removes exactly that directory,
/// and it is not the new version's destination.
pub proof fn lemma_stale_version_removed(
    container_dir: Seq<char>,
    old_version: Seq<char>,
    new_version: Seq<char>,
)
    requires
        old_version != new_version,
    ensures
        stale_paths_spec(
            container_dir,
            seq![destination_name_spec(old_version)],
            destination_name_spec(new_version),
        ) == seq![destination_path_spec(container_dir, old_version)],
        destination_path_spec(container_dir, old_version) != destination_path_spec(
            container_dir,
            new_version,
        ),
{
    let old_name = destination_name_spec(old_version);
    let new_name = destination_name_spec(new_version);
    if old_name == new_name {
        assert(old_name.subrange(crate::eslint::DESTINATION_PREFIX@.len() as int, old_name.len() as int)
            =~= old_version);
        assert(new_name.subrange(crate::eslint::DESTINATION_PREFIX@.len() as int, new_name.len() as int)
            =~= new_version);
    }
    let entries = seq![old_name];
    assert(entries.drop_last() =~= Seq::<Seq<char>>::empty());
    assert(entries.last() == old_name);
    assert(stale_paths_spec(container_dir, entries.drop_last(), new_name) =~= Seq::<
        Seq<char>,
    >::empty());
    assert(stale_paths_spec(container_dir, entries, new_name) =~= seq![
        join_spec(container_dir, old_name),
    ]);
    if destination_path_spec(container_dir, old_version) == destination_path_spec(
        container_dir,
        new_version,
    ) {
        lemma_join_injective(container_dir, old_name, new_name);
    }
}

} // verus!
