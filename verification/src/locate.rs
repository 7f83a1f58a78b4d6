//! Where the external tools, the recognizer binary and the model folder are
//! looked for. The application walks the directories and tests which of
//! these paths exist; the candidates and their order are decided here.
use vstd::prelude::*;

verus! {

/// A path of one component.
fn path1(a: &str) -> (r: Vec<String>)
    ensures
        r.deep_view() == seq![a@],
{
    let mut r: Vec<String> = Vec::new();
    r.push(a.to_owned());
    assert(r.deep_view() =~= seq![a@]);
    r
}

/// A path of two components.
fn path2(a: &str, b: &str) -> (r: Vec<String>)
    ensures
        r.deep_view() == seq![a@, b@],
{
    let mut r: Vec<String> = Vec::new();
    r.push(a.to_owned());
    r.push(b.to_owned());
    assert(r.deep_view() =~= seq![a@, b@]);
    r
}

/// A path of three components.
fn path3(a: &str, b: &str, c: &str) -> (r: Vec<String>)
    ensures
        r.deep_view() == seq![a@, b@, c@],
{
    let mut r: Vec<String> = Vec::new();
    r.push(a.to_owned());
    r.push(b.to_owned());
    r.push(c.to_owned());
    assert(r.deep_view() =~= seq![a@, b@, c@]);
    r
}

/// The file name of a tool's executable: the name and `.exe`.
pub fn tool_exe_name(name: &str) -> (r: String)
    ensures
        r@ == name@ + ".exe"@,
{
    let mut r = name.to_owned();
    r.append(".exe");
    r
}

/// A place a bundled file is looked for: path components below the
/// application's directory, or below its parent directory.
pub struct BundledCandidate {
    pub from_parent: bool,
    pub parts: Vec<String>,
}

/// The value of a bundled candidate.
pub open spec fn bundled_view(c: BundledCandidate) -> (bool, Seq<Seq<char>>) {
    (c.from_parent, c.parts.deep_view())
}

/// Where a tool missing from `PATH` is looked for, in order:
/// `tools/<exe>` and `<exe>` in the application's directory,
/// `swt/tools/<exe>` in its parent directory, and `binaries/<exe>`.
pub fn bundled_tool_candidates(exe_name: &str) -> (r: Vec<BundledCandidate>)
    ensures
        r@.map_values(|c: BundledCandidate| bundled_view(c)) == seq![
            (false, seq!["tools"@, exe_name@]),
            (false, seq![exe_name@]),
            (true, seq!["swt"@, "tools"@, exe_name@]),
            (false, seq!["binaries"@, exe_name@]),
        ],
{
    let mut r: Vec<BundledCandidate> = Vec::new();
    r.push(BundledCandidate { from_parent: false, parts: path2("tools", exe_name) });
    r.push(BundledCandidate { from_parent: false, parts: path1(exe_name) });
    r.push(BundledCandidate { from_parent: true, parts: path3("swt", "tools", exe_name) });
    r.push(BundledCandidate { from_parent: false, parts: path2("binaries", exe_name) });
    assert(r@.map_values(|c: BundledCandidate| bundled_view(c)) =~= seq![
        (false, seq!["tools"@, exe_name@]),
        (false, seq![exe_name@]),
        (true, seq!["swt"@, "tools"@, exe_name@]),
        (false, seq!["binaries"@, exe_name@]),
    ]);
    r
}

/// Where the recognizer binary is looked for in each directory from the
/// application's directory upwards, in order: the sidecar names for the
/// GNU and MSVC Windows targets, `audiocpp_server.exe` and `whisper-cli.exe`
/// under `binaries`, then a development build under `target/debug`.
pub fn sidecar_candidates() -> (r: Vec<Vec<String>>)
    ensures
        r.deep_view() == seq![
            seq!["binaries"@, "audiocpp_server-x86_64-pc-windows-gnu.exe"@],
            seq!["binaries"@, "audiocpp_server-x86_64-pc-windows-msvc.exe"@],
            seq!["binaries"@, "audiocpp_server.exe"@],
            seq!["binaries"@, "whisper-cli.exe"@],
            seq!["target"@, "debug"@, "audiocpp_server.exe"@],
        ],
{
    let mut r: Vec<Vec<String>> = Vec::new();
    r.push(path2("binaries", "audiocpp_server-x86_64-pc-windows-gnu.exe"));
    r.push(path2("binaries", "audiocpp_server-x86_64-pc-windows-msvc.exe"));
    r.push(path2("binaries", "audiocpp_server.exe"));
    r.push(path2("binaries", "whisper-cli.exe"));
    r.push(path3("target", "debug", "audiocpp_server.exe"));
    assert(r.deep_view() =~= seq![
        seq!["binaries"@, "audiocpp_server-x86_64-pc-windows-gnu.exe"@],
        seq!["binaries"@, "audiocpp_server-x86_64-pc-windows-msvc.exe"@],
        seq!["binaries"@, "audiocpp_server.exe"@],
        seq!["binaries"@, "whisper-cli.exe"@],
        seq!["target"@, "debug"@, "audiocpp_server.exe"@],
    ]);
    r
}

/// Whether a file of this many bytes can be the recognizer binary (larger
/// than 1000 bytes; smaller ones are placeholders).
pub fn is_usable_sidecar_size(len: u64) -> (r: bool)
    ensures
        r == (len > 1000),
{
    len > 1000
}

/// Where the model folder is looked for in each directory from the
/// application's directory upwards, in order: `llm`, then `swt/llm`.
pub fn model_folder_candidates() -> (r: Vec<Vec<String>>)
    ensures
        r.deep_view() == seq![seq!["llm"@], seq!["swt"@, "llm"@]],
{
    let mut r: Vec<Vec<String>> = Vec::new();
    r.push(path1("llm"));
    r.push(path2("swt", "llm"));
    assert(r.deep_view() =~= seq![seq!["llm"@], seq!["swt"@, "llm"@]]);
    r
}

/// The entries that mark the project's own directory, whose `llm` folder is
/// used when no model folder exists yet: `src-tauri` and `Cargo.toml`.
pub fn project_markers() -> (r: Vec<String>)
    ensures
        r.deep_view() == seq!["src-tauri"@, "Cargo.toml"@],
{
    path2("src-tauri", "Cargo.toml")
}

} // verus!
