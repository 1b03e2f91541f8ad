//! The fixed command tables of the run: environment creation and activation,
//! the platform-specific OCR tool installation, the pinned dependency
//! manifest, and the verification checks.

use vstd::prelude::*;
use crate::command::{Cmd, CmdView, CmdStatus, SetupError, cmd_ok, cmds_view, make_cmd, status_ok};
use crate::platform::Platform;

verus! {

/// The command that creates the named environment with the pinned
/// interpreter version, non-interactively.
pub open spec fn create_env_cmd() -> CmdView {
    CmdView {
        program: "conda"@,
        args: seq!["create"@, "-n"@, "H2LooP-T-data"@, "python=3.9"@, "-y"@],
    }
}

/// The command that activates the named environment.
pub open spec fn activate_env_cmd() -> CmdView {
    CmdView { program: "conda"@, args: seq!["activate"@, "H2LooP-T-data"@] }
}

/// The platform-specific OCR installation sequence: one package-manager
/// command on mac, one channel-based environment-manager command on windows,
/// and an index refresh followed by an install, both elevated, on linux.
pub open spec fn ocr_cmds(p: Platform) -> Seq<CmdView> {
    match p {
        Platform::Mac => seq![
            CmdView { program: "brew"@, args: seq!["install"@, "tesseract"@] },
        ],
        Platform::Windows => seq![
            CmdView {
                program: "conda"@,
                args: seq!["install"@, "-c"@, "conda-forge"@, "tesseract"@, "-y"@],
            },
        ],
        Platform::Linux => seq![
            CmdView { program: "sudo"@, args: seq!["apt-get"@, "update"@] },
            CmdView {
                program: "sudo"@,
                args: seq!["apt-get"@, "install"@, "-y"@, "tesseract-ocr"@],
            },
        ],
    }
}

/// How many entries the pinned dependency manifest has.
pub open spec fn req_count() -> int {
    17
}

/// The pinned dependency manifest: entry `i` of the fixed ordered list of
/// exact `name==version` specifiers.
pub open spec fn requirement(i: int) -> Seq<char> {
    if i == 0 { "python-dotenv==1.0.0"@ }
    else if i == 1 { "openai==0.27.6"@ }
    else if i == 2 { "pyfiglet==0.8.post1"@ }
    else if i == 3 { "unstructured==0.6.1"@ }
    else if i == 4 { "numpy==1.24.3"@ }
    else if i == 5 { "pandas==2.0.3"@ }
    else if i == 6 { "requests==2.31.0"@ }
    else if i == 7 { "PyMuPDF==1.22.3"@ }
    else if i == 8 { "pdf2image==1.16.3"@ }
    else if i == 9 { "pytesseract==0.3.10"@ }
    else if i == 10 { "pillow==10.0.0"@ }
    else if i == 11 { "matplotlib==3.7.1"@ }
    else if i == 12 { "torch==2.0.1"@ }
    else if i == 13 { "opencv-python==4.7.0.72"@ }
    else if i == 14 { "nltk==3.8.1"@ }
    else if i == 15 { "pdfminer.six==20221105"@ }
    else { "unstructured_inference==0.4.10"@ }
}

/// The command that installs one pinned specifier.
pub open spec fn pip_install_cmd(req: Seq<char>) -> CmdView {
    CmdView { program: "pip"@, args: seq!["install"@, req] }
}

/// How many verification checks the run makes.
pub open spec fn check_count() -> int {
    4
}

/// The tool that verification check `i` asks about.
pub open spec fn check_name(i: int) -> Seq<char> {
    if i == 0 { "python"@ }
    else if i == 1 { "conda"@ }
    else if i == 2 { "tesseract"@ }
    else { "pip"@ }
}

/// Verification check `i`: a version query for the first three tools and a
/// package listing for the last.
pub open spec fn check_cmd(i: int) -> CmdView {
    CmdView {
        program: check_name(i),
        args: if i == 3 { seq!["list"@] } else { seq!["--version"@] },
    }
}

/// The status line that verification check `i` prints: a checkmark when the
/// check succeeded, a cross when it did not.
pub open spec fn check_line(i: int, ok: bool) -> Seq<char> {
    if ok {
        "✓ "@ + check_name(i) + " is installed"@
    } else {
        "✗ "@ + check_name(i) + " is not installed or not working properly"@
    }
}

/// Plans the environment-creation command.
pub fn setup_conda_env() -> (c: Cmd)
    ensures
        c@ == create_env_cmd(),
{
    let c = make_cmd("conda", &["create", "-n", "H2LooP-T-data", "python=3.9", "-y"]);
    proof {
        assert(c@ =~~= create_env_cmd());
    }
    c
}

/// Plans the environment-activation command.
pub fn activate_env() -> (c: Cmd)
    ensures
        c@ == activate_env_cmd(),
{
    let c = make_cmd("conda", &["activate", "H2LooP-T-data"]);
    proof {
        assert(c@ =~~= activate_env_cmd());
    }
    c
}

/// How many commands the OCR installation takes on this platform.
pub fn ocr_len(p: Platform) -> (n: usize)
    ensures
        n == ocr_cmds(p).len(),
{
    match p {
        Platform::Linux => 2,
        _ => 1,
    }
}

/// Plans command `i` of the OCR installation sequence for a platform.
pub fn ocr_cmd_at(p: Platform, i: usize) -> (c: Cmd)
    requires
        i < ocr_cmds(p).len(),
    ensures
        c@ == ocr_cmds(p)[i as int],
{
    match p {
        Platform::Mac => {
            let c = make_cmd("brew", &["install", "tesseract"]);
            proof {
                assert(c@ =~~= ocr_cmds(p)[i as int]);
            }
            c
        },
        Platform::Windows => {
            let c = make_cmd("conda", &["install", "-c", "conda-forge", "tesseract", "-y"]);
            proof {
                assert(c@ =~~= ocr_cmds(p)[i as int]);
            }
            c
        },
        Platform::Linux => {
            if i == 0 {
                let c = make_cmd("sudo", &["apt-get", "update"]);
                proof {
                    assert(c@ =~~= ocr_cmds(p)[i as int]);
                }
                c
            } else {
                let c = make_cmd("sudo", &["apt-get", "install", "-y", "tesseract-ocr"]);
                proof {
                    assert(c@ =~~= ocr_cmds(p)[i as int]);
                }
                c
            }
        },
    }
}

/// Plans the OCR installation for a platform tag: the exact platform-specific
/// command sequence for a supported tag, and an unsupported-platform failure,
/// with no command planned, for any other tag.
pub fn install_tesseract(platform: &str) -> (r: Result<Vec<Cmd>, SetupError>)
    ensures
        platform@ == "mac"@ ==> (r matches Ok(v) && cmds_view(v) == ocr_cmds(Platform::Mac)),
        platform@ == "windows"@ ==> (r matches Ok(v) && cmds_view(v) == ocr_cmds(Platform::Windows)),
        platform@ == "linux"@ ==> (r matches Ok(v) && cmds_view(v) == ocr_cmds(Platform::Linux)),
        !(platform@ == "mac"@ || platform@ == "windows"@ || platform@ == "linux"@)
            ==> r == Err::<Vec<Cmd>, SetupError>(SetupError::UnsupportedPlatform),
{
    proof {
        // The three tags have pairwise different lengths, so a tag equal to
        // one of them is equal to no other.
        reveal_strlit("mac");
        reveal_strlit("windows");
        reveal_strlit("linux");
        assert("mac"@.len() == 3);
        assert("windows"@.len() == 7);
        assert("linux"@.len() == 5);
    }
    let t = String::from_str(platform);
    if t == String::from_str("mac") {
        let mut v: Vec<Cmd> = Vec::new();
        v.push(ocr_cmd_at(Platform::Mac, 0));
        proof {
            assert(cmds_view(v) =~= ocr_cmds(Platform::Mac));
        }
        Ok(v)
    } else if t == String::from_str("windows") {
        let mut v: Vec<Cmd> = Vec::new();
        v.push(ocr_cmd_at(Platform::Windows, 0));
        proof {
            assert(cmds_view(v) =~= ocr_cmds(Platform::Windows));
        }
        Ok(v)
    } else if t == String::from_str("linux") {
        let mut v: Vec<Cmd> = Vec::new();
        v.push(ocr_cmd_at(Platform::Linux, 0));
        v.push(ocr_cmd_at(Platform::Linux, 1));
        proof {
            assert(cmds_view(v) =~= ocr_cmds(Platform::Linux));
        }
        Ok(v)
    } else {
        Err(SetupError::UnsupportedPlatform)
    }
}

/// The pinned specifier at position `i` of the dependency manifest.
pub fn requirement_str(i: usize) -> (r: &'static str)
    requires
        i < req_count(),
    ensures
        r@ == requirement(i as int),
{
    match i {
        0 => "python-dotenv==1.0.0",
        1 => "openai==0.27.6",
        2 => "pyfiglet==0.8.post1",
        3 => "unstructured==0.6.1",
        4 => "numpy==1.24.3",
        5 => "pandas==2.0.3",
        6 => "requests==2.31.0",
        7 => "PyMuPDF==1.22.3",
        8 => "pdf2image==1.16.3",
        9 => "pytesseract==0.3.10",
        10 => "pillow==10.0.0",
        11 => "matplotlib==3.7.1",
        12 => "torch==2.0.1",
        13 => "opencv-python==4.7.0.72",
        14 => "nltk==3.8.1",
        15 => "pdfminer.six==20221105",
        _ => "unstructured_inference==0.4.10",
    }
}

/// The dependency manifest as a list: all seventeen pinned specifiers, in
/// their fixed order.
pub fn requirements() -> (r: Vec<String>)
    ensures
        r@.len() == req_count(),
        forall|i: int| 0 <= i < req_count() ==> r@[i]@ == requirement(i),
{
    let mut r: Vec<String> = Vec::new();
    let mut i: usize = 0;
    while i < 17
        invariant
            i <= 17,
            r@.len() == i,
            forall|j: int| 0 <= j < i ==> r@[j]@ == requirement(j),
        decreases 17 - i,
    {
        r.push(String::from_str(requirement_str(i)));
        i = i + 1;
    }
    r
}

/// Plans the install command for entry `i` of the dependency manifest.
pub fn dep_cmd_at(i: usize) -> (c: Cmd)
    requires
        i < req_count(),
    ensures
        c@ == pip_install_cmd(requirement(i as int)),
{
    let c = make_cmd("pip", &["install", requirement_str(i)]);
    proof {
        assert(c@ =~~= pip_install_cmd(requirement(i as int)));
    }
    c
}

/// Plans the full dependency installation: exactly one install command per
/// manifest entry, in manifest order.
pub fn install_python_requirements() -> (r: Vec<Cmd>)
    ensures
        r@.len() == req_count(),
        forall|i: int| 0 <= i < req_count() ==> cmds_view(r)[i] == pip_install_cmd(requirement(i)),
{
    let mut r: Vec<Cmd> = Vec::new();
    let mut i: usize = 0;
    while i < 17
        invariant
            i <= 17,
            r@.len() == i,
            forall|j: int| 0 <= j < i ==> r@[j]@ == pip_install_cmd(requirement(j)),
        decreases 17 - i,
    {
        r.push(dep_cmd_at(i));
        i = i + 1;
    }
    proof {
        assert forall|k: int| 0 <= k < req_count() implies cmds_view(r)[k] == pip_install_cmd(
            requirement(k),
        ) by {
            assert(r@[k]@ == pip_install_cmd(requirement(k)));
        }
    }
    r
}

/// Plans verification check `i`.
pub fn check_cmd_at(i: usize) -> (c: Cmd)
    requires
        i < check_count(),
    ensures
        c@ == check_cmd(i as int),
{
    let c = if i == 0 {
        make_cmd("python", &["--version"])
    } else if i == 1 {
        make_cmd("conda", &["--version"])
    } else if i == 2 {
        make_cmd("tesseract", &["--version"])
    } else {
        make_cmd("pip", &["list"])
    };
    proof {
        assert(c@ =~~= check_cmd(i as int));
    }
    c
}

/// Renders the verification report: given the outcome of each of the four
/// checks, one status line per check, in check order — a failed check is
/// reported, never propagated, so this step as a whole cannot fail.
pub fn verify_installation(outcomes: &Vec<CmdStatus>) -> (r: Vec<String>)
    requires
        outcomes@.len() == check_count(),
    ensures
        r@.len() == check_count(),
        forall|i: int| 0 <= i < check_count() ==> r@[i]@ == check_line(i, cmd_ok(outcomes@[i])),
{
    let mut r: Vec<String> = Vec::new();
    let mut i: usize = 0;
    while i < 4
        invariant
            i <= 4,
            outcomes@.len() == 4,
            r@.len() == i,
            forall|j: int| 0 <= j < i ==> r@[j]@ == check_line(j, cmd_ok(outcomes@[j])),
        decreases 4 - i,
    {
        let ok = status_ok(&outcomes[i]);
        r.push(check_line_for(i, ok));
        i = i + 1;
    }
    r
}

/// The status line for verification check `i`, from whether it succeeded.
pub fn check_line_for(i: usize, ok: bool) -> (r: String)
    requires
        i < check_count(),
    ensures
        r@ == check_line(i as int, ok),
{
    let name: &'static str = if i == 0 {
        "python"
    } else if i == 1 {
        "conda"
    } else if i == 2 {
        "tesseract"
    } else {
        "pip"
    };
    if ok {
        let mut r = String::from_str("✓ ");
        r.append(name);
        r.append(" is installed");
        proof {
            assert(r@ =~= check_line(i as int, ok));
        }
        r
    } else {
        let mut r = String::from_str("✗ ");
        r.append(name);
        r.append(" is not installed or not working properly");
        proof {
            assert(r@ =~= check_line(i as int, ok));
        }
        r
    }
}

} // verus!
