//! The platform probe: for each supported host platform, the candidate
//! install locations, shell invocations and generated file contents that the
//! toolchain managers work with. Everything here is a pure function; running
//! a command or statting a path is the embedding application's part.

use vstd::prelude::*;

use crate::errors::Error;
use crate::strutil::{
    first_line, lemma_index_of_char_is, spec_contains, spec_contains_char, spec_first_line,
    spec_index_of_char, spec_trim, str_contains, trim_str,
};

verus! {

/// The host platforms the toolchain managers know.
#[derive(Clone, Copy, PartialEq, Eq, Structural)]
pub enum Platform {
    MacOs,
    Windows,
    /// Any platform without a supported version manager: runtime operations
    /// fail with `UnsupportedPlatform` rather than silently doing nothing.
    Other,
}

/// Guards a runtime-manager operation: on a platform without a supported
/// version manager it fails outright rather than silently doing nothing.
pub fn require_supported_platform(platform: Platform) -> (r: Result<(), Error>)
    ensures
        r is Ok <==> !(platform is Other),
        r is Err ==> r->Err_0 is UnsupportedPlatform,
{
    match platform {
        Platform::Other => Err(Error::UnsupportedPlatform),
        _ => Ok(()),
    }
}

/// The canned package-tool launcher path that test mode returns.
pub fn test_uvx_path() -> (r: String)
    ensures
        r@ == "/test/.local/bin/uvx"@,
{
    String::from_str("/test/.local/bin/uvx")
}

/// The canned shim path that test mode returns.
pub fn test_shim_path() -> (r: String)
    ensures
        r@ == "/test/.local/share/staten/bin/npx-staten"@,
{
    String::from_str("/test/.local/share/staten/bin/npx-staten")
}

/// The canned runtime and launcher paths that test mode returns.
pub fn test_node_paths() -> (r: (String, String))
    ensures
        r.0@ == "/test/.nvm/versions/node/v20.9.0/bin/node"@,
        r.1@ == "/test/.nvm/versions/node/v20.9.0/bin/npx"@,
{
    (
        String::from_str("/test/.nvm/versions/node/v20.9.0/bin/node"),
        String::from_str("/test/.nvm/versions/node/v20.9.0/bin/npx"),
    )
}

/// The canned version-manager version that test mode returns.
pub fn test_nvm_version() -> (r: String)
    ensures
        r@ == "0.40.1"@,
{
    String::from_str("0.40.1")
}

/// The per-platform shim location under the given base directory: the home
/// directory except on Windows, where it is the local application-data
/// directory.
pub open spec fn spec_npx_shim_path(platform: Platform, base: Seq<char>) -> Seq<char> {
    match platform {
        Platform::Windows => base + "\\staten\\bin\\npx-staten.cmd"@,
        _ => base + "/.local/share/staten/bin/npx-staten"@,
    }
}

/// Builds the shim's canonical path under `base`; see [`spec_npx_shim_path`].
pub fn npx_shim_path_under(platform: Platform, base: &str) -> (r: String)
    ensures
        r@ == spec_npx_shim_path(platform, base@),
{
    match platform {
        Platform::Windows => String::from_str(base).concat("\\staten\\bin\\npx-staten.cmd"),
        _ => String::from_str(base).concat("/.local/share/staten/bin/npx-staten"),
    }
}

/// The shim location when the host reports no base directory at all: the
/// same per-platform suffix, relative to wherever the process runs.
pub open spec fn spec_npx_shim_fallback(platform: Platform) -> Seq<char> {
    match platform {
        Platform::Windows => "staten\\bin\\npx-staten.cmd"@,
        _ => ".local/share/staten/bin/npx-staten"@,
    }
}

/// Builds the missing-base-directory shim path; see
/// [`spec_npx_shim_fallback`].
pub fn npx_shim_fallback_path(platform: Platform) -> (r: String)
    ensures
        r@ == spec_npx_shim_fallback(platform),
{
    match platform {
        Platform::Windows => String::from_str("staten\\bin\\npx-staten.cmd"),
        _ => String::from_str(".local/share/staten/bin/npx-staten"),
    }
}

/// The Windows shim path decision: keep the local-app-data path when the file
/// is already there, otherwise accept a PATH lookup's first reported line if
/// it is non-empty.
pub open spec fn spec_choose_windows_shim_path(
    local: Seq<char>,
    local_exists: bool,
    lookup: Option<Seq<char>>,
) -> Seq<char> {
    if local_exists {
        local
    } else {
        match lookup {
            Some(out) => {
                let line = spec_trim(spec_first_line(out));
                if line.len() > 0 {
                    line
                } else {
                    local
                }
            },
            None => local,
        }
    }
}

/// Picks the Windows shim path; `lookup` is the PATH lookup's standard
/// output, present only when the lookup succeeded.
pub fn choose_windows_shim_path(local: String, local_exists: bool, lookup: Option<&str>) -> (r:
    String)
    ensures
        r@ == spec_choose_windows_shim_path(
            local@,
            local_exists,
            match lookup {
                Some(out) => Some(out@),
                None => None,
            },
        ),
{
    if local_exists {
        return local;
    }
    match lookup {
        Some(out) => {
            let line = trim_str(first_line(out).as_str());
            if !line.as_str().is_empty() {
                line
            } else {
                local
            }
        },
        None => local,
    }
}

/// The well-known install locations of the package-tool launcher, in probe
/// order, under the given home directory.
pub open spec fn spec_uvx_candidate_paths(platform: Platform, home: Seq<char>) -> Seq<Seq<char>> {
    match platform {
        Platform::MacOs => seq![
            home + "/.local/bin/uvx"@,
            home + "/.cargo/bin/uvx"@,
            "/usr/local/bin/uvx"@,
            "/opt/homebrew/bin/uvx"@,
            "/usr/bin/uvx"@,
        ],
        Platform::Windows => seq![
            home + "\\.cargo\\bin\\uvx.exe"@,
            "C:\\Program Files\\uv\\uvx.exe"@,
            "C:\\uv\\uvx.exe"@,
        ],
        Platform::Other => Seq::empty(),
    }
}

/// Builds the probe list of [`spec_uvx_candidate_paths`].
pub fn uvx_candidate_paths(platform: Platform, home: &str) -> (r: Vec<String>)
    ensures
        r.deep_view() == spec_uvx_candidate_paths(platform, home@),
{
    let mut r: Vec<String> = Vec::new();
    match platform {
        Platform::MacOs => {
            r.push(String::from_str(home).concat("/.local/bin/uvx"));
            r.push(String::from_str(home).concat("/.cargo/bin/uvx"));
            r.push(String::from_str("/usr/local/bin/uvx"));
            r.push(String::from_str("/opt/homebrew/bin/uvx"));
            r.push(String::from_str("/usr/bin/uvx"));
        },
        Platform::Windows => {
            r.push(String::from_str(home).concat("\\.cargo\\bin\\uvx.exe"));
            r.push(String::from_str("C:\\Program Files\\uv\\uvx.exe"));
            r.push(String::from_str("C:\\uv\\uvx.exe"));
        },
        Platform::Other => {},
    }
    proof {
        assert(r.deep_view() =~= spec_uvx_candidate_paths(platform, home@));
    }
    r
}

/// Picks the first probed path that exists, in list order.
pub fn select_first_existing(paths: &Vec<String>, found: &Vec<bool>) -> (r: Option<String>)
    requires
        paths@.len() == found@.len(),
    ensures
        match r {
            Some(p) => exists|i: int|
                0 <= i < found@.len() && #[trigger] found@[i] && p@ == paths@[i]@ && forall|j: int|
                    0 <= j < i ==> !found@[j],
            None => forall|i: int| 0 <= i < found@.len() ==> !found@[i],
        },
{
    let n = paths.len();
    for i in 0..n
        invariant
            n == paths@.len(),
            n == found@.len(),
            forall|j: int| 0 <= j < i ==> !found@[j],
    {
        if found[i] {
            return Some(paths[i].clone());
        }
    }
    None
}

/// Extracts a path from a PATH lookup's output: its first line, trimmed;
/// nothing when that line is empty.
pub fn parse_where_output(out: &str) -> (r: Option<String>)
    ensures
        match r {
            Some(p) => p@ == spec_trim(spec_first_line(out@)) && p@.len() > 0,
            None => spec_trim(spec_first_line(out@)).len() == 0,
        },
{
    let line = trim_str(first_line(out).as_str());
    if !line.as_str().is_empty() {
        Some(line)
    } else {
        None
    }
}

/// Extracts a path from a `which` lookup's output: the whole output, trimmed.
pub fn parse_which_output(out: &str) -> (r: String)
    ensures
        r@ == spec_trim(out@),
{
    trim_str(out)
}

/// The version manager's root directory on Windows: the home-directory
/// override variable when set, else the roaming default under the home
/// directory.
pub open spec fn spec_nvm_root_windows(env_override: Option<Seq<char>>, home: Option<Seq<char>>) -> Option<
    Seq<char>,
> {
    match env_override {
        Some(dir) => Some(dir),
        None => match home {
            Some(h) => Some(h + "\\AppData\\Roaming\\nvm"@),
            None => None,
        },
    }
}

/// Resolves the Windows version-manager root; `env_override` is the
/// home-directory override variable's value, if the environment sets one.
pub fn nvm_root_windows(env_override: Option<String>, home: Option<&str>) -> (r: Option<String>)
    ensures
        ({
            let o = match env_override {
                Some(ref dir) => Some(dir@),
                None => None,
            };
            let h = match home {
                Some(h) => Some(h@),
                None => None,
            };
            match r {
                Some(p) => spec_nvm_root_windows(o, h) == Some(p@),
                None => spec_nvm_root_windows(o, h) is None,
            }
        }),
{
    match env_override {
        Some(dir) => Some(dir),
        None => match home {
            Some(h) => Some(String::from_str(h).concat("\\AppData\\Roaming\\nvm")),
            None => None,
        },
    }
}

/// A version string without its leading `v` markers.
pub open spec fn spec_strip_v(s: Seq<char>) -> Seq<char>
    decreases s.len(),
{
    if s.len() > 0 && s.first() == 'v' {
        spec_strip_v(s.drop_first())
    } else {
        s
    }
}

/// Strips the leading `v` markers off a version string.
pub fn strip_v_prefix(version: &str) -> (r: String)
    ensures
        r@ == spec_strip_v(version@),
{
    let n = version.unicode_len();
    let mut a: usize = 0;
    while a < n && version.get_char(a) == 'v'
        invariant
            n == version@.len(),
            a <= n,
            forall|k: int| 0 <= k < a ==> version@[k] == 'v',
        decreases n - a,
    {
        a = a + 1;
    }
    proof {
        lemma_strip_v_skip(version@, a as int);
    }
    let r = version.substring_char(a, n);
    String::from_str(r)
}

/// Stripping `v` markers is skipping the leading run of them.
proof fn lemma_strip_v_skip(s: Seq<char>, a: int)
    requires
        0 <= a <= s.len(),
        forall|k: int| 0 <= k < a ==> s[k] == 'v',
        a < s.len() ==> s[a] != 'v',
    ensures
        spec_strip_v(s) == s.skip(a),
    decreases a,
{
    if a == 0 {
        assert(s.skip(0) =~= s);
    } else {
        let sdf = s.drop_first();
        assert forall|k: int| 0 <= k < a - 1 implies sdf[k] == 'v' by {
            assert(sdf[k] == s[k + 1]);
        }
        assert(a - 1 < sdf.len() ==> sdf[a - 1] != 'v');
        lemma_strip_v_skip(sdf, a - 1);
        assert(sdf.skip(a - 1) =~= s.skip(a));
    }
}

/// The two places the Windows version manager puts the runtime binary: with
/// and without a `v` before the version directory.
pub open spec fn spec_node_exe_candidates(root: Seq<char>, version_no_v: Seq<char>) -> Seq<
    Seq<char>,
> {
    seq![
        root + "\\"@ + version_no_v + "\\node.exe"@,
        root + "\\v"@ + version_no_v + "\\node.exe"@,
    ]
}

/// Builds the probe list of [`spec_node_exe_candidates`].
pub fn node_exe_candidates(root: &str, version_no_v: &str) -> (r: Vec<String>)
    ensures
        r.deep_view() == spec_node_exe_candidates(root@, version_no_v@),
{
    let mut r: Vec<String> = Vec::new();
    r.push(String::from_str(root).concat("\\").concat(version_no_v).concat("\\node.exe"));
    r.push(String::from_str(root).concat("\\v").concat(version_no_v).concat("\\node.exe"));
    proof {
        assert(r.deep_view() =~= spec_node_exe_candidates(root@, version_no_v@));
    }
    r
}

/// The launcher expected beside a Windows runtime binary.
pub fn windows_npx_path(node_dir: &str) -> (r: String)
    ensures
        r@ == node_dir@ + "\\npx.cmd"@,
{
    String::from_str(node_dir).concat("\\npx.cmd")
}

/// Splits a version-manager shell query's output into the runtime path and
/// the launcher path: its first two lines, each trimmed. Each missing line is
/// a broken toolchain surfaced as `PathResolutionFailed`.
pub fn parse_node_paths_output(out: &str) -> (r: Result<(String, String), Error>)
    ensures
        r is Ok <==> out@.len() > 0 && spec_contains_char(out@, '\n') && spec_index_of_char(
            out@,
            '\n',
            0,
        ) + 1 < out@.len(),
        r is Ok ==> r->Ok_0.0@ == spec_trim(spec_first_line(out@)),
        r is Ok ==> r->Ok_0.1@ == spec_trim(
            spec_first_line(out@.skip(spec_index_of_char(out@, '\n', 0) + 1)),
        ),
        r is Err ==> r->Err_0 is PathResolutionFailed,
{
    let n = out.unicode_len();
    if n == 0 {
        return Err(Error::PathResolutionFailed(String::from_str("Failed to get node path")));
    }
    let node_line = trim_str(first_line(out).as_str());
    let mut cut: usize = 0;
    while cut < n && out.get_char(cut) != '\n'
        invariant
            n == out@.len(),
            cut <= n,
            forall|k: int| 0 <= k < cut ==> out@[k] != '\n',
        decreases n - cut,
    {
        cut = cut + 1;
    }
    proof {
        lemma_index_of_char_is(out@, '\n', cut as int);
    }
    if cut == n || cut + 1 == n {
        return Err(Error::PathResolutionFailed(String::from_str("Failed to get npx path")));
    }
    let rest = out.substring_char(cut + 1, n);
    proof {
        assert(rest@ =~= out@.skip(cut as int + 1));
    }
    let npx_line = trim_str(first_line(rest).as_str());
    Ok((node_line, npx_line))
}

/// The substring that marks a runtime binary as managed by the version
/// manager rather than a system-wide shadow installation.
pub fn node_path_is_from_nvm(path: &str) -> (r: bool)
    ensures
        r == spec_contains(path@, ".nvm/versions/node"@),
{
    proof {
        reveal_strlit(".nvm/versions/node");
    }
    str_contains(path, ".nvm/versions/node")
}

/// The shell script the Unix shim holds: it pins the resolved runtime onto
/// the PATH and forwards every argument to the resolved launcher.
pub fn shim_script_unix(node_path: &str, npx_path: &str) -> (r: String)
    ensures
        r@ == "#!/bin/sh\n# NPX shim for Staten\n\nNODE=\""@ + node_path@ + "\"\nNPX=\""@
            + npx_path@ + "\"\n\nexport PATH=\"$(dirname \"$NODE\"):$PATH\"\n\nexec \"$NPX\" \"$@\"\n"@,
{
    String::from_str("#!/bin/sh\n# NPX shim for Staten\n\nNODE=\"").concat(node_path).concat(
        "\"\nNPX=\"",
    ).concat(npx_path).concat(
        "\"\n\nexport PATH=\"$(dirname \"$NODE\"):$PATH\"\n\nexec \"$NPX\" \"$@\"\n",
    )
}

/// The batch script the Windows shim holds.
pub fn shim_script_windows(node_dir: &str, node_path: &str, npx_path: &str) -> (r: String)
    ensures
        r@ == "@echo off\n:: NPX shim for Staten on Windows\n\nset NODE_PATH="@ + node_dir@
            + "\nset NODE="@ + node_path@ + "\nset NPX="@ + npx_path@
            + "\nset PATH=%NODE_PATH%;%PATH%\n\n\"%NPX%\" %*\n"@,
{
    String::from_str("@echo off\n:: NPX shim for Staten on Windows\n\nset NODE_PATH=").concat(
        node_dir,
    ).concat("\nset NODE=").concat(node_path).concat("\nset NPX=").concat(npx_path).concat(
        "\nset PATH=%NODE_PATH%;%PATH%\n\n\"%NPX%\" %*\n",
    )
}

/// The shell snippet that sources the version manager and prints the runtime
/// and launcher paths for the pinned version, one per line.
pub fn node_paths_shell_command(version: &str) -> (r: String)
    ensures
        r@ == "export NVM_DIR=\"$HOME/.nvm\"\n[ -s \"$NVM_DIR/nvm.sh\" ] && \\. \"$NVM_DIR/nvm.sh\"\nnvm use "@
            + version@ + " > /dev/null 2>&1\nwhich node\nwhich npx\n"@,
{
    String::from_str(
        "export NVM_DIR=\"$HOME/.nvm\"\n[ -s \"$NVM_DIR/nvm.sh\" ] && \\. \"$NVM_DIR/nvm.sh\"\nnvm use ",
    ).concat(version).concat(" > /dev/null 2>&1\nwhich node\nwhich npx\n")
}

/// The shell snippet that asks the version manager whether the pinned
/// version is installed.
pub fn node_version_list_command(version: &str) -> (r: String)
    ensures
        r@ == "export NVM_DIR=\"$HOME/.nvm\"\n[ -s \"$NVM_DIR/nvm.sh\" ] && \\. \"$NVM_DIR/nvm.sh\"\nnvm list | grep -w \""@
            + version@ + "\" || true\n"@,
{
    String::from_str(
        "export NVM_DIR=\"$HOME/.nvm\"\n[ -s \"$NVM_DIR/nvm.sh\" ] && \\. \"$NVM_DIR/nvm.sh\"\nnvm list | grep -w \"",
    ).concat(version).concat("\" || true\n")
}

/// The shell snippet that prints the version manager's own version.
pub fn nvm_version_shell_command() -> (r: String)
    ensures
        r@ == "export NVM_DIR=\"$HOME/.nvm\"\n[ -s \"$NVM_DIR/nvm.sh\" ] && \\. \"$NVM_DIR/nvm.sh\"\nnvm --version\n"@,
{
    String::from_str(
        "export NVM_DIR=\"$HOME/.nvm\"\n[ -s \"$NVM_DIR/nvm.sh\" ] && \\. \"$NVM_DIR/nvm.sh\"\nnvm --version\n",
    )
}

/// The shell snippet that installs the pinned runtime version through the
/// version manager.
pub fn node_install_shell_command(version: &str) -> (r: String)
    ensures
        r@ == "export NVM_DIR=\"$HOME/.nvm\"\n[ -s \"$NVM_DIR/nvm.sh\" ] && \\. \"$NVM_DIR/nvm.sh\"\nnvm install "@
            + version@ + " --no-progress\n"@,
{
    String::from_str(
        "export NVM_DIR=\"$HOME/.nvm\"\n[ -s \"$NVM_DIR/nvm.sh\" ] && \\. \"$NVM_DIR/nvm.sh\"\nnvm install ",
    ).concat(version).concat(" --no-progress\n")
}

/// The fetch-and-run installer for the version manager on Unix.
pub fn nvm_install_shell_command() -> (r: String)
    ensures
        r@ == "curl -o- https://raw.githubusercontent.com/nvm-sh/nvm/v0.40.1/install.sh | bash\n"@,
{
    String::from_str(
        "curl -o- https://raw.githubusercontent.com/nvm-sh/nvm/v0.40.1/install.sh | bash\n",
    )
}

/// The fetch-and-run installer for the package tool on Unix.
pub fn uv_install_shell_command() -> (r: String)
    ensures
        r@ == "curl -LsSf https://astral.sh/uv/install.sh | sh\n"@,
{
    String::from_str("curl -LsSf https://astral.sh/uv/install.sh | sh\n")
}

/// The fetch-and-run installer for the package tool on Windows.
pub fn uv_install_powershell_command() -> (r: String)
    ensures
        r@ == "irm -Uri \"https://astral.sh/uv/install.ps1\" | iex\n"@,
{
    String::from_str("irm -Uri \"https://astral.sh/uv/install.ps1\" | iex\n")
}

/// The installer download location for the Windows version manager.
pub fn nvm_windows_installer_url() -> (r: String)
    ensures
        r@ == "https://github.com/coreybutler/nvm-windows/releases/download/1.1.11/nvm-setup.exe"@,
{
    String::from_str(
        "https://github.com/coreybutler/nvm-windows/releases/download/1.1.11/nvm-setup.exe",
    )
}

} // verus!
