//! Tests of the read path: the fixed argument list and the
//! normalization of the tool's JSON output into the canonical
//! record.

use photo_metadata::plan_read_metadata;
use photo_metadata::read_exif_metadata;
use photo_metadata::ExifData;
use photo_metadata::SpawnOutcome;

fn completed(stdout: &str) -> SpawnOutcome {
    SpawnOutcome::Completed {
        exit_ok: true,
        exit_code: Some(0),
        stdout: stdout.to_string(),
        stderr: String::new(),
    }
}

fn read_ok(stdout: &str) -> ExifData {
    read_exif_metadata("/photos/img.jpg", "exiftool", &completed(stdout))
        .expect("well-formed output must normalize")
}

#[test]
fn plan_read_builds_the_fixed_argument_list() {
    let args = plan_read_metadata("/photos/img.jpg", true, true).expect("a regular file reads");
    assert_eq!(
        args,
        vec![
            "-json".to_string(),
            "-n".to_string(),
            "/photos/img.jpg".to_string(),
        ]
    );
}

#[test]
fn plan_read_rejects_a_missing_file() {
    let err = plan_read_metadata("/nope.jpg", false, false).expect_err("missing file must fail");
    assert_eq!(err, "File does not exist: /nope.jpg");
}

#[test]
fn plan_read_rejects_a_non_regular_file() {
    let err = plan_read_metadata("/tmp", true, false).expect_err("non-file must fail");
    assert_eq!(err, "Path is not a file: /tmp");
}

#[test]
fn title_and_keywords_are_taken_from_their_namespaces() {
    let data = read_ok(r#"[{"XMP:Title":"A","IPTC:Keywords":"x, y"}]"#);
    assert_eq!(data.title, Some("A".to_string()));
    assert_eq!(data.keywords, Some("x, y".to_string()));
    assert_eq!(data.description, None);
    assert_eq!(data.file_path, "/photos/img.jpg");
}

#[test]
fn subject_list_joins_with_comma_space() {
    let data = read_ok(r#"[{"XMP:Subject":["x","y","z"]}]"#);
    assert_eq!(data.keywords, Some("x, y, z".to_string()));
    assert_eq!(data.title, None);
    assert_eq!(data.description, None);
}

#[test]
fn empty_array_yields_an_all_absent_record() {
    let data = read_ok("[]");
    assert_eq!(data.file_path, "/photos/img.jpg");
    assert_eq!(data.title, None);
    assert_eq!(data.description, None);
    assert_eq!(data.keywords, None);
}

#[test]
fn non_array_output_yields_an_all_absent_record() {
    let data = read_ok("{}");
    assert_eq!(data.file_path, "/photos/img.jpg");
    assert_eq!(data.title, None);
    assert_eq!(data.description, None);
    assert_eq!(data.keywords, None);
}

#[test]
fn image_description_serves_title_and_description() {
    let data = read_ok(r#"[{"ImageDescription":"D"}]"#);
    assert_eq!(data.title, Some("D".to_string()));
    assert_eq!(data.description, Some("D".to_string()));
}

#[test]
fn higher_priority_namespace_wins() {
    let data = read_ok(r#"[{"EXIF:ImageDescription":"E","XMP:Title":"X"}]"#);
    assert_eq!(data.title, Some("X".to_string()));
    assert_eq!(data.description, Some("E".to_string()));
}

#[test]
fn dublin_core_subject_serves_keywords() {
    let data = read_ok(r#"[{"XMP-dc:Subject":"dc"}]"#);
    assert_eq!(data.keywords, Some("dc".to_string()));
}

#[test]
fn a_number_title_is_absent() {
    let data = read_ok(r#"[{"XMP:Title":5}]"#);
    assert_eq!(data.title, None);
}

#[test]
fn a_wrong_shape_stops_the_probe() {
    // the first present key wins even when its value's shape yields
    // absence; lower-priority keys are not consulted
    let data = read_ok(r#"[{"XMP:Title":5,"Title":"T"}]"#);
    assert_eq!(data.title, None);
}

#[test]
fn non_text_list_entries_are_dropped() {
    let data = read_ok(r#"[{"XMP:Subject":["a",1,"b",null]}]"#);
    assert_eq!(data.keywords, Some("a, b".to_string()));
}

#[test]
fn a_list_without_text_is_absent() {
    let data = read_ok(r#"[{"XMP:Subject":[1,2]}]"#);
    assert_eq!(data.keywords, None);
}

#[test]
fn only_the_first_record_is_read() {
    let data = read_ok(r#"[{"XMP:Title":"first"},{"XMP:Title":"second"}]"#);
    assert_eq!(data.title, Some("first".to_string()));
}

#[test]
fn malformed_output_is_a_parse_error() {
    let err = read_exif_metadata("/p.png", "exiftool", &completed("not json"))
        .expect_err("malformed output must fail");
    assert!(err.starts_with("Failed to parse ExifTool output: "));
}

#[test]
fn read_nonzero_exit_reports_the_stderr() {
    let outcome = SpawnOutcome::Completed {
        exit_ok: false,
        exit_code: Some(1),
        stdout: String::new(),
        stderr: "unreadable".to_string(),
    };
    let err =
        read_exif_metadata("/p.png", "exiftool", &outcome).expect_err("tool failure must fail");
    assert_eq!(err, "ExifTool failed: unreadable");
}

#[test]
fn read_missing_executable_names_the_tried_path() {
    let outcome = SpawnOutcome::NotFound {
        error_text: "No such file or directory (os error 2)".to_string(),
    };
    let err = read_exif_metadata("/p.png", "/opt/app/exiftool", &outcome)
        .expect_err("missing tool must fail");
    assert_eq!(err, "ExifTool not found. Tried path: \"/opt/app/exiftool\"");
}

#[test]
fn read_spawn_failure_reports_the_os_error() {
    let outcome = SpawnOutcome::Failed {
        error_text: "Permission denied (os error 13)".to_string(),
    };
    let err =
        read_exif_metadata("/p.png", "exiftool", &outcome).expect_err("spawn failure must fail");
    assert_eq!(
        err,
        "Failed to execute ExifTool: Permission denied (os error 13)"
    );
}
