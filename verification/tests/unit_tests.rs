use ocr_bootstrap::command::{make_cmd, command_result, status_ok, CmdStatus, SetupError};
use ocr_bootstrap::platform::{detect_platform, Platform};
use ocr_bootstrap::plan::{
    setup_conda_env, activate_env, install_tesseract, requirements, install_python_requirements,
    check_cmd_at, check_line_for, verify_installation, ocr_len, ocr_cmd_at, dep_cmd_at,
};
use ocr_bootstrap::text::{pad_to_center, repeat_char, step_line, header_lines};

const REQS: [&str; 17] = [
    "python-dotenv==1.0.0",
    "openai==0.27.6",
    "pyfiglet==0.8.post1",
    "unstructured==0.6.1",
    "numpy==1.24.3",
    "pandas==2.0.3",
    "requests==2.31.0",
    "PyMuPDF==1.22.3",
    "pdf2image==1.16.3",
    "pytesseract==0.3.10",
    "pillow==10.0.0",
    "matplotlib==3.7.1",
    "torch==2.0.1",
    "opencv-python==4.7.0.72",
    "nltk==3.8.1",
    "pdfminer.six==20221105",
    "unstructured_inference==0.4.10",
];

#[test]
fn make_cmd_builds_program_and_args() {
    let c = make_cmd("prog", &["a", "b", "c"]);
    assert_eq!(c.program, "prog");
    assert_eq!(c.args, vec!["a", "b", "c"]);
}

#[test]
fn command_result_success_iff_exit_zero() {
    assert!(command_result(CmdStatus::Exited(0)).is_ok());
    assert!(command_result(CmdStatus::Exited(1)).is_err());
    assert!(command_result(CmdStatus::Exited(-9)).is_err());
    assert!(command_result(CmdStatus::SignalTerminated).is_err());
    assert!(command_result(CmdStatus::SpawnError(String::from("boom"))).is_err());
}

#[test]
fn command_result_failure_carries_code_when_available() {
    assert!(matches!(
        command_result(CmdStatus::Exited(2)),
        Err(SetupError::CommandFailed(Some(2)))
    ));
    assert!(matches!(
        command_result(CmdStatus::SignalTerminated),
        Err(SetupError::CommandFailed(None))
    ));
    assert!(matches!(
        command_result(CmdStatus::SpawnError(String::from("not found"))),
        Err(SetupError::SpawnFailed(m)) if m == "not found"
    ));
}

#[test]
fn status_ok_only_on_exit_zero() {
    assert!(status_ok(&CmdStatus::Exited(0)));
    assert!(!status_ok(&CmdStatus::Exited(3)));
    assert!(!status_ok(&CmdStatus::SignalTerminated));
    assert!(!status_ok(&CmdStatus::SpawnError(String::from("x"))));
}

#[test]
fn detect_platform_supported_tags() {
    assert!(matches!(detect_platform("windows"), Ok(Platform::Windows)));
    assert!(matches!(detect_platform("macos"), Ok(Platform::Mac)));
    assert!(matches!(detect_platform("linux"), Ok(Platform::Linux)));
}

#[test]
fn detect_platform_rejects_others() {
    assert!(matches!(
        detect_platform("freebsd"),
        Err(SetupError::UnsupportedPlatform)
    ));
    assert!(matches!(
        detect_platform(""),
        Err(SetupError::UnsupportedPlatform)
    ));
    assert!(matches!(
        detect_platform("mac"),
        Err(SetupError::UnsupportedPlatform)
    ));
}

#[test]
fn platform_tags() {
    assert_eq!(Platform::Windows.tag(), "windows");
    assert_eq!(Platform::Mac.tag(), "mac");
    assert_eq!(Platform::Linux.tag(), "linux");
}

#[test]
fn setup_conda_env_command() {
    let c = setup_conda_env();
    assert_eq!(c.program, "conda");
    assert_eq!(c.args, vec!["create", "-n", "H2LooP-T-data", "python=3.9", "-y"]);
}

#[test]
fn activate_env_command() {
    let c = activate_env();
    assert_eq!(c.program, "conda");
    assert_eq!(c.args, vec!["activate", "H2LooP-T-data"]);
}

#[test]
fn install_tesseract_mac() {
    let v = install_tesseract("mac").unwrap();
    assert_eq!(v.len(), 1);
    assert_eq!(v[0].program, "brew");
    assert_eq!(v[0].args, vec!["install", "tesseract"]);
}

#[test]
fn install_tesseract_windows() {
    let v = install_tesseract("windows").unwrap();
    assert_eq!(v.len(), 1);
    assert_eq!(v[0].program, "conda");
    assert_eq!(v[0].args, vec!["install", "-c", "conda-forge", "tesseract", "-y"]);
}

#[test]
fn install_tesseract_linux() {
    let v = install_tesseract("linux").unwrap();
    assert_eq!(v.len(), 2);
    assert_eq!(v[0].program, "sudo");
    assert_eq!(v[0].args, vec!["apt-get", "update"]);
    assert_eq!(v[1].program, "sudo");
    assert_eq!(v[1].args, vec!["apt-get", "install", "-y", "tesseract-ocr"]);
}

#[test]
fn install_tesseract_rejects_other_tags() {
    assert!(matches!(
        install_tesseract("solaris"),
        Err(SetupError::UnsupportedPlatform)
    ));
    assert!(matches!(
        install_tesseract("macos"),
        Err(SetupError::UnsupportedPlatform)
    ));
}

#[test]
fn ocr_plan_lengths() {
    assert_eq!(ocr_len(Platform::Mac), 1);
    assert_eq!(ocr_len(Platform::Windows), 1);
    assert_eq!(ocr_len(Platform::Linux), 2);
    let c = ocr_cmd_at(Platform::Linux, 1);
    assert_eq!(c.program, "sudo");
}

#[test]
fn requirements_manifest_is_the_pinned_list() {
    let r = requirements();
    assert_eq!(r.len(), 17);
    for (i, expected) in REQS.iter().enumerate() {
        assert_eq!(r[i], *expected);
    }
}

#[test]
fn install_python_requirements_one_command_per_entry_in_order() {
    let cmds = install_python_requirements();
    assert_eq!(cmds.len(), 17);
    for (i, c) in cmds.iter().enumerate() {
        assert_eq!(c.program, "pip");
        assert_eq!(c.args, vec!["install", REQS[i]]);
    }
}

#[test]
fn dep_cmd_matches_manifest_entry() {
    let c = dep_cmd_at(5);
    assert_eq!(c.program, "pip");
    assert_eq!(c.args, vec!["install", "pandas==2.0.3"]);
}

#[test]
fn verification_check_commands() {
    let expected: [(&str, Vec<&str>); 4] = [
        ("python", vec!["--version"]),
        ("conda", vec!["--version"]),
        ("tesseract", vec!["--version"]),
        ("pip", vec!["list"]),
    ];
    for i in 0..4 {
        let c = check_cmd_at(i);
        assert_eq!(c.program, expected[i].0);
        assert_eq!(c.args, expected[i].1);
    }
}

#[test]
fn check_lines_render_check_or_cross() {
    assert_eq!(check_line_for(0, true), "✓ python is installed");
    assert_eq!(
        check_line_for(1, false),
        "✗ conda is not installed or not working properly"
    );
    assert_eq!(check_line_for(2, true), "✓ tesseract is installed");
    assert_eq!(check_line_for(3, false), "✗ pip is not installed or not working properly");
}

#[test]
fn verify_installation_always_reports_all_four() {
    let outcomes = vec![
        CmdStatus::Exited(0),
        CmdStatus::Exited(127),
        CmdStatus::SpawnError(String::from("no such file")),
        CmdStatus::Exited(0),
    ];
    let lines = verify_installation(&outcomes);
    assert_eq!(lines.len(), 4);
    assert_eq!(lines[0], "✓ python is installed");
    assert_eq!(lines[1], "✗ conda is not installed or not working properly");
    assert_eq!(lines[2], "✗ tesseract is not installed or not working properly");
    assert_eq!(lines[3], "✓ pip is installed");
}

#[test]
fn pad_to_center_splits_remainder_to_the_right() {
    assert_eq!(pad_to_center("abc", 10, '='), "===abc====");
    assert_eq!(pad_to_center("ab", 6, '='), "==ab==");
    assert_eq!(pad_to_center("x", 4, '-'), "-x--");
}

#[test]
fn pad_to_center_keeps_wide_strings_unchanged() {
    assert_eq!(pad_to_center("abcdef", 6, '='), "abcdef");
    assert_eq!(pad_to_center("abcdefg", 3, '='), "abcdefg");
    assert_eq!(pad_to_center("", 0, '='), "");
}

#[test]
fn repeat_char_repeats() {
    assert_eq!(repeat_char('=', 5), "=====");
    assert_eq!(repeat_char('x', 0), "");
}

#[test]
fn step_line_prefixes() {
    assert_eq!(step_line("Verifying installation..."), ">> Verifying installation...");
}

#[test]
fn header_lines_frame_the_centered_title() {
    let lines = header_lines("Setup Complete!");
    assert_eq!(lines.len(), 5);
    assert_eq!(lines[0], "");
    assert_eq!(lines[1], "=".repeat(50));
    // " Setup Complete! " is 17 characters: 16 pads left, 17 right.
    assert_eq!(
        lines[2],
        format!("{} Setup Complete! {}", "=".repeat(16), "=".repeat(17))
    );
    assert_eq!(lines[3], "=".repeat(50));
    assert_eq!(lines[4], "");
}
