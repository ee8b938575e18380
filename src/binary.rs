use vstd::prelude::*;

verus! {

/// What a caller needs to start a server: the program to launch and the
/// arguments to hand it.
#[derive(Clone, Debug)]
pub struct LanguageServerBinary {
    pub path: String,
    pub arguments: Vec<String>,
}

/// The model of a [`LanguageServerBinary`]: the text of its launcher path and
/// of each argument.
pub struct BinaryModel {
    pub path: Seq<char>,
    pub arguments: Seq<Seq<char>>,
}

pub open spec fn strings_view(v: Seq<String>) -> Seq<Seq<char>> {
    v.map_values(|s: String| s@)
}

impl View for LanguageServerBinary {
    type V = BinaryModel;

    open spec fn view(&self) -> BinaryModel {
        BinaryModel { path: self.path@, arguments: strings_view(self.arguments@) }
    }
}

/// The arguments of the TypeScript language server: its entry script, stdio
/// mode, and the location of the compiler library that it bundles.
pub open spec fn typescript_arguments_spec(server_path: Seq<char>) -> Seq<Seq<char>> {
    seq![server_path, "--stdio"@, "--tsserver-path"@, "node_modules/typescript/lib"@]
}

/// The arguments of the ESLint server: its entry script and stdio mode.
pub open spec fn eslint_arguments_spec(server_path: Seq<char>) -> Seq<Seq<char>> {
    seq![server_path, "--stdio"@]
}

pub fn typescript_server_binary_arguments(server_path: &str) -> (r: Vec<String>)
    ensures
        strings_view(r@) == typescript_arguments_spec(server_path@),
{
    let r = vec![
        server_path.to_owned(),
        "--stdio".to_owned(),
        "--tsserver-path".to_owned(),
        "node_modules/typescript/lib".to_owned(),
    ];
    assert(strings_view(r@) =~= typescript_arguments_spec(server_path@));
    r
}

pub fn eslint_server_binary_arguments(server_path: &str) -> (r: Vec<String>)
    ensures
        strings_view(r@) == eslint_arguments_spec(server_path@),
{
    let r = vec![server_path.to_owned(), "--stdio".to_owned()];
    assert(strings_view(r@) =~= eslint_arguments_spec(server_path@));
    r
}

} // verus!
