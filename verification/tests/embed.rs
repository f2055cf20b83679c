//! Tests of the embed path: planning, argument building and outcome
//! interpretation.

use photo_metadata::build_exiftool_command;
use photo_metadata::execute_exiftool;
use photo_metadata::has_metadata;
use photo_metadata::plan_embed_metadata;
use photo_metadata::validate_file;
use photo_metadata::EmbedMetadataRequest;
use photo_metadata::EmbedPlan;
use photo_metadata::SpawnOutcome;

fn request(
    file_path: &str,
    title: Option<&str>,
    description: Option<&str>,
    keywords: Option<&str>,
) -> EmbedMetadataRequest {
    EmbedMetadataRequest {
        file_path: file_path.to_string(),
        title: title.map(|s| s.to_string()),
        description: description.map(|s| s.to_string()),
        keywords: keywords.map(|s| s.to_string()),
    }
}

#[test]
fn all_absent_is_a_successful_no_op() {
    let req = request("/photos/img.jpg", None, None, None);
    assert!(!has_metadata(&req));
    match plan_embed_metadata(&req, true, true) {
        EmbedPlan::Done(res) => {
            assert!(res.success);
            assert_eq!(res.message, "No metadata provided to embed");
            assert_eq!(res.file_path, "/photos/img.jpg");
        }
        EmbedPlan::Run(_) => panic!("an all-absent request must not invoke the tool"),
    }
}

#[test]
fn title_only_builds_exactly_three_tag_arguments() {
    let req = request("/photos/img.jpg", Some("Sunset"), None, None);
    let args = build_exiftool_command(&req);
    assert_eq!(
        args,
        vec![
            "-XMP:Title=Sunset".to_string(),
            "-IPTC:ObjectName=Sunset".to_string(),
            "-EXIF:ImageDescription=Sunset".to_string(),
            "-overwrite_original".to_string(),
            "/photos/img.jpg".to_string(),
        ]
    );
}

#[test]
fn title_only_plan_runs_the_tool() {
    let req = request("/photos/img.jpg", Some("Sunset"), None, None);
    match plan_embed_metadata(&req, true, true) {
        EmbedPlan::Run(args) => {
            assert_eq!(args.len(), 5);
            assert_eq!(args[0], "-XMP:Title=Sunset");
            assert_eq!(args[4], "/photos/img.jpg");
        }
        EmbedPlan::Done(_) => panic!("a request with a title must invoke the tool"),
    }
}

#[test]
fn description_builds_its_three_tag_arguments() {
    let req = request("/p.png", None, Some("A view"), None);
    let args = build_exiftool_command(&req);
    assert_eq!(
        args,
        vec![
            "-XMP:Description=A view".to_string(),
            "-EXIF:ImageDescription=A view".to_string(),
            "-IPTC:Caption-Abstract=A view".to_string(),
            "-overwrite_original".to_string(),
            "/p.png".to_string(),
        ]
    );
}

#[test]
fn keywords_build_one_subject_argument_per_keyword() {
    let req = request("/p.png", None, None, Some("x, y"));
    let args = build_exiftool_command(&req);
    assert_eq!(
        args,
        vec![
            "-XMP:Subject=x".to_string(),
            "-XMP:Subject=y".to_string(),
            "-IPTC:Keywords=x, y".to_string(),
            "-overwrite_original".to_string(),
            "/p.png".to_string(),
        ]
    );
}

#[test]
fn blank_fields_add_no_tag_arguments() {
    let req = request("/p.png", Some("   "), Some("\t"), Some(" , ,"));
    let args = build_exiftool_command(&req);
    assert_eq!(
        args,
        vec!["-overwrite_original".to_string(), "/p.png".to_string()]
    );
}

#[test]
fn blank_fields_still_run_the_tool() {
    // present-but-blank fields count as metadata: only all-absent
    // requests short-circuit
    let req = request("/p.png", Some("   "), None, None);
    assert!(has_metadata(&req));
    match plan_embed_metadata(&req, true, true) {
        EmbedPlan::Run(args) => {
            assert_eq!(
                args,
                vec!["-overwrite_original".to_string(), "/p.png".to_string()]
            );
        }
        EmbedPlan::Done(_) => panic!("a present field must invoke the tool"),
    }
}

#[test]
fn all_fields_build_in_order() {
    let req = request("/p.png", Some("T"), Some("D"), Some("k1,k2"));
    let args = build_exiftool_command(&req);
    assert_eq!(
        args,
        vec![
            "-XMP:Title=T".to_string(),
            "-IPTC:ObjectName=T".to_string(),
            "-EXIF:ImageDescription=T".to_string(),
            "-XMP:Description=D".to_string(),
            "-EXIF:ImageDescription=D".to_string(),
            "-IPTC:Caption-Abstract=D".to_string(),
            "-XMP:Subject=k1".to_string(),
            "-XMP:Subject=k2".to_string(),
            "-IPTC:Keywords=k1,k2".to_string(),
            "-overwrite_original".to_string(),
            "/p.png".to_string(),
        ]
    );
}

#[test]
fn missing_file_reports_does_not_exist() {
    let req = request("/nope.jpg", Some("T"), None, None);
    match plan_embed_metadata(&req, false, false) {
        EmbedPlan::Done(res) => {
            assert!(!res.success);
            assert_eq!(res.message, "File does not exist: /nope.jpg");
            assert_eq!(res.file_path, "/nope.jpg");
        }
        EmbedPlan::Run(_) => panic!("a missing file must not invoke the tool"),
    }
}

#[test]
fn directory_reports_not_a_file() {
    let req = request("/tmp", Some("T"), None, None);
    match plan_embed_metadata(&req, true, false) {
        EmbedPlan::Done(res) => {
            assert!(!res.success);
            assert_eq!(res.message, "Path is not a file: /tmp");
            assert_eq!(res.file_path, "/tmp");
        }
        EmbedPlan::Run(_) => panic!("a non-regular file must not invoke the tool"),
    }
}

#[test]
fn validate_file_passes_a_regular_file() {
    assert!(validate_file("/p.png", true, true).is_none());
    let missing = validate_file("/p.png", false, true).expect("missing file must fail");
    assert_eq!(missing.message, "File does not exist: /p.png");
    let not_file = validate_file("/p.png", true, false).expect("non-file must fail");
    assert_eq!(not_file.message, "Path is not a file: /p.png");
}

#[test]
fn has_metadata_on_each_field() {
    assert!(has_metadata(&request("/p", Some("t"), None, None)));
    assert!(has_metadata(&request("/p", None, Some("d"), None)));
    assert!(has_metadata(&request("/p", None, None, Some("k"))));
    assert!(!has_metadata(&request("/p", None, None, None)));
}

#[test]
fn zero_exit_reports_success() {
    let outcome = SpawnOutcome::Completed {
        exit_ok: true,
        exit_code: Some(0),
        stdout: String::new(),
        stderr: String::new(),
    };
    let res = execute_exiftool(&outcome, "/p.png", "exiftool");
    assert!(res.success);
    assert_eq!(res.message, "Metadata successfully embedded");
    assert_eq!(res.file_path, "/p.png");
}

#[test]
fn zero_exit_with_stderr_appends_a_warning() {
    let outcome = SpawnOutcome::Completed {
        exit_ok: true,
        exit_code: Some(0),
        stdout: String::new(),
        stderr: "minor issue".to_string(),
    };
    let res = execute_exiftool(&outcome, "/p.png", "exiftool");
    assert!(res.success);
    assert_eq!(
        res.message,
        "Metadata successfully embedded Warning: minor issue"
    );
}

#[test]
fn nonzero_exit_reports_code_and_stderr() {
    let outcome = SpawnOutcome::Completed {
        exit_ok: false,
        exit_code: Some(3),
        stdout: String::new(),
        stderr: "boom".to_string(),
    };
    let res = execute_exiftool(&outcome, "/p.png", "exiftool");
    assert!(!res.success);
    assert_eq!(
        res.message,
        "Failed to embed metadata. Exit code: 3. Stderr: boom"
    );
    assert_eq!(res.file_path, "/p.png");
}

#[test]
fn signal_death_reports_code_minus_one() {
    let outcome = SpawnOutcome::Completed {
        exit_ok: false,
        exit_code: None,
        stdout: String::new(),
        stderr: String::new(),
    };
    let res = execute_exiftool(&outcome, "/p.png", "exiftool");
    assert!(!res.success);
    assert_eq!(
        res.message,
        "Failed to embed metadata. Exit code: -1. Stderr: "
    );
}

#[test]
fn missing_executable_names_the_tried_path() {
    let outcome = SpawnOutcome::NotFound {
        error_text: "No such file or directory (os error 2)".to_string(),
    };
    let res = execute_exiftool(&outcome, "/p.png", "/opt/app/exiftool");
    assert!(!res.success);
    assert_eq!(
        res.message,
        "Failed to execute exiftool: No such file or directory (os error 2) - ExifTool not found. \
         Please install ExifTool or ensure it's bundled with the application. \
         Tried path: \"/opt/app/exiftool\""
    );
}

#[test]
fn other_spawn_failure_reports_the_os_error() {
    let outcome = SpawnOutcome::Failed {
        error_text: "Permission denied (os error 13)".to_string(),
    };
    let res = execute_exiftool(&outcome, "/p.png", "exiftool");
    assert!(!res.success);
    assert_eq!(
        res.message,
        "Failed to execute exiftool: Permission denied (os error 13)"
    );
}
