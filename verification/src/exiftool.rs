//! Planning and interpretation of external metadata-tool
//! invocations: locating the tool, validating requests, building the
//! write-path argument list, and turning an observed process outcome
//! into a result record. The caller performs the filesystem checks
//! and the process spawn and passes what it saw in as plain values.

use vstd::prelude::*;
use vstd::string::*;

use crate::models::EmbedMetadataRequest;
use crate::models::EmbedMetadataResult;
use crate::models::EmbedPlan;
use crate::models::SpawnOutcome;
use crate::text::clean_keywords;
use crate::text::dec_int;
use crate::text::i32_to_string;
use crate::text::is_blank;
use crate::text::split_keywords;
use crate::text::str_is_blank;

verus! {

/// The platform-specific executable name of the external tool.
pub open spec fn spec_exiftool_name(windows: bool) -> Seq<char> {
    if windows {
        "exiftool.exe"@
    } else {
        "exiftool"@
    }
}

/// Resolves the path to try for the external tool executable, first
/// match wins: a file of the tool's name next to the running
/// executable, then one in a `resources` subdirectory of that
/// directory, then the bare name to be found on the search path at
/// spawn time. The caller supplies the executable's directory (when
/// it is known) and the two existence checks; candidate paths are
/// joined with `/`.
pub fn get_exiftool_path(
    exe_dir: Option<&str>,
    windows: bool,
    bundled_exists: bool,
    resources_exists: bool,
) -> (r: String)
    ensures
        exe_dir matches Some(dir) ==> {
            &&& bundled_exists ==> r@ == dir@ + "/"@ + spec_exiftool_name(windows)
            &&& !bundled_exists && resources_exists ==> r@ == dir@ + "/resources/"@
                + spec_exiftool_name(windows)
            &&& !bundled_exists && !resources_exists ==> r@ == spec_exiftool_name(windows)
        },
        exe_dir is None ==> r@ == spec_exiftool_name(windows),
{
    let name: &str = if windows {
        "exiftool.exe"
    } else {
        "exiftool"
    };
    match exe_dir {
        Some(dir) => {
            if bundled_exists {
                let mut r = String::from_str(dir);
                r.append("/");
                r.append(name);
                r
            } else if resources_exists {
                let mut r = String::from_str(dir);
                r.append("/resources/");
                r.append(name);
                r
            } else {
                String::from_str(name)
            }
        },
        None => String::from_str(name),
    }
}

/// Checks a target path before any tool invocation, from the
/// caller's two filesystem observations: a missing path and a path
/// that is not a regular file each yield a fully formed failure
/// result naming the path; a regular file yields nothing.
pub fn validate_file(file_path: &str, exists: bool, is_file: bool) -> (r: Option<
    EmbedMetadataResult,
>)
    ensures
        !exists ==> (r matches Some(e) && !e.success && e.message@ == "File does not exist: "@
            + file_path@ && e.file_path@ == file_path@),
        exists && !is_file ==> (r matches Some(e) && !e.success && e.message@
            == "Path is not a file: "@ + file_path@ && e.file_path@ == file_path@),
        exists && is_file ==> r is None,
{
    if !exists {
        let mut m = String::from_str("File does not exist: ");
        m.append(file_path);
        Some(
            EmbedMetadataResult {
                success: false,
                message: m,
                file_path: String::from_str(file_path),
            },
        )
    } else if !is_file {
        let mut m = String::from_str("Path is not a file: ");
        m.append(file_path);
        Some(
            EmbedMetadataResult {
                success: false,
                message: m,
                file_path: String::from_str(file_path),
            },
        )
    } else {
        None
    }
}

/// The three write arguments a present, non-blank title produces:
/// the same value into the XMP title, IPTC object-name and EXIF
/// image-description tags.
pub open spec fn title_args(t: Option<Seq<char>>) -> Seq<Seq<char>> {
    match t {
        Some(s) => if !is_blank(s) {
            seq![
                "-XMP:Title="@ + s,
                "-IPTC:ObjectName="@ + s,
                "-EXIF:ImageDescription="@ + s,
            ]
        } else {
            Seq::<Seq<char>>::empty()
        },
        None => Seq::<Seq<char>>::empty(),
    }
}

/// The three write arguments a present, non-blank description
/// produces: the XMP description, EXIF image-description and IPTC
/// caption tags. The EXIF image-description tag is the one the title
/// also writes; when both are supplied the description is applied
/// after the title, and the tool's last-applied value wins.
pub open spec fn description_args(d: Option<Seq<char>>) -> Seq<Seq<char>> {
    match d {
        Some(s) => if !is_blank(s) {
            seq![
                "-XMP:Description="@ + s,
                "-EXIF:ImageDescription="@ + s,
                "-IPTC:Caption-Abstract="@ + s,
            ]
        } else {
            Seq::<Seq<char>>::empty()
        },
        None => Seq::<Seq<char>>::empty(),
    }
}

/// The write arguments a present keyword string produces: one XMP
/// subject argument per cleaned keyword, then a single IPTC keywords
/// argument carrying the original unsplit string; nothing when no
/// keyword survives cleaning.
pub open spec fn keyword_args(k: Option<Seq<char>>) -> Seq<Seq<char>> {
    match k {
        Some(s) => {
            let list = clean_keywords(s);
            if list.len() > 0 {
                list.map_values(|w: Seq<char>| "-XMP:Subject="@ + w) + seq!["-IPTC:Keywords="@ + s]
            } else {
                Seq::<Seq<char>>::empty()
            }
        },
        None => Seq::<Seq<char>>::empty(),
    }
}

/// The full write-path argument list: the tag arguments for each
/// present, non-blank field, then the overwrite-in-place flag, then
/// the target file path last.
pub open spec fn spec_build_args(
    file_path: Seq<char>,
    t: Option<Seq<char>>,
    d: Option<Seq<char>>,
    k: Option<Seq<char>>,
) -> Seq<Seq<char>> {
    title_args(t) + description_args(d) + keyword_args(k) + seq!["-overwrite_original"@, file_path]
}

/// One tag-assignment argument: the tag prefix followed by the
/// value.
fn tag_arg(prefix: &str, value: &str) -> (r: String)
    ensures
        r@ == prefix@ + value@,
{
    let mut r = String::from_str(prefix);
    r.append(value);
    r
}

/// Builds the external tool's argument list for a tag-update
/// request, as `spec_build_args` states it.
pub fn build_exiftool_command(request: &EmbedMetadataRequest) -> (args: Vec<String>)
    ensures
        args.deep_view() == spec_build_args(
            request.file_path@,
            request.title.deep_view(),
            request.description.deep_view(),
            request.keywords.deep_view(),
        ),
{
    let ghost t = request.title.deep_view();
    let ghost d = request.description.deep_view();
    let ghost k = request.keywords.deep_view();
    let mut args: Vec<String> = Vec::new();
    proof {
        assert(args.deep_view() =~= Seq::<Seq<char>>::empty());
    }
    if let Some(title) = &request.title {
        if !str_is_blank(title.as_str()) {
            args.push(tag_arg("-XMP:Title=", title.as_str()));
            args.push(tag_arg("-IPTC:ObjectName=", title.as_str()));
            args.push(tag_arg("-EXIF:ImageDescription=", title.as_str()));
        }
    }
    proof {
        assert(args.deep_view() =~= title_args(t));
    }
    let ghost base_d = args.deep_view();
    if let Some(description) = &request.description {
        if !str_is_blank(description.as_str()) {
            args.push(tag_arg("-XMP:Description=", description.as_str()));
            args.push(tag_arg("-EXIF:ImageDescription=", description.as_str()));
            args.push(tag_arg("-IPTC:Caption-Abstract=", description.as_str()));
        }
    }
    proof {
        assert(args.deep_view() =~= base_d + description_args(d));
    }
    let ghost base_k = args.deep_view();
    if let Some(keywords) = &request.keywords {
        let list = split_keywords(keywords.as_str());
        if list.len() > 0 {
            let ghost cl = clean_keywords(keywords@);
            let ghost f = |w: Seq<char>| "-XMP:Subject="@ + w;
            let mut i: usize = 0;
            while i < list.len()
                invariant
                    0 <= i <= list.len(),
                    list.deep_view() == cl,
                    cl.len() == list.len(),
                    args.deep_view() == base_k + cl.take(i as int).map_values(f),
                    f == (|w: Seq<char>| "-XMP:Subject="@ + w),
                decreases list.len() - i,
            {
                let a = tag_arg("-XMP:Subject=", list[i].as_str());
                let ghost av = a@;
                let ghost a0 = args.deep_view();
                args.push(a);
                proof {
                    assert(list[i as int]@ == cl[i as int]);
                    assert(av == f(cl[i as int]));
                    assert(args.deep_view() =~= a0 + seq![av]);
                    assert(cl.take(i as int + 1).map_values(f) =~= cl.take(i as int).map_values(f)
                        + seq![f(cl[i as int])]);
                    assert(args.deep_view() =~= base_k + cl.take(i as int + 1).map_values(f));
                }
                i += 1;
            }
            let a = tag_arg("-IPTC:Keywords=", keywords.as_str());
            let ghost av = a@;
            let ghost a0 = args.deep_view();
            args.push(a);
            proof {
                assert(cl.take(cl.len() as int) =~= cl);
                assert(args.deep_view() =~= a0 + seq![av]);
                assert(k == Some(keywords@));
                assert(keyword_args(k) == cl.map_values(f) + seq!["-IPTC:Keywords="@ + keywords@]);
                assert(args.deep_view() =~= base_k + keyword_args(k));
            }
        }
    }
    proof {
        assert(args.deep_view() =~= base_k + keyword_args(k));
    }
    let ghost base_o = args.deep_view();
    args.push(String::from_str("-overwrite_original"));
    args.push(request.file_path.clone());
    proof {
        assert(args.deep_view() =~= base_o + seq!["-overwrite_original"@, request.file_path@]);
        assert(args.deep_view() =~= spec_build_args(request.file_path@, t, d, k));
    }
    args
}

/// The message of a successful embed: the fixed text, with the
/// tool's standard-error text appended as a warning when there was
/// any.
pub open spec fn success_message(stderr: Seq<char>) -> Seq<char> {
    "Metadata successfully embedded"@ + if stderr.len() > 0 {
        " Warning: "@ + stderr
    } else {
        Seq::<char>::empty()
    }
}

/// The numeric exit code reported in a failure message: the code the
/// process gave, or -1 when it ended without one.
pub open spec fn exit_code_or_default(c: Option<i32>) -> int {
    match c {
        Some(v) => v as int,
        None => -1,
    }
}

/// The message of a failed embed: the exit code and the tool's
/// standard-error text.
pub open spec fn failure_message(code: int, stderr: Seq<char>) -> Seq<char> {
    "Failed to embed metadata. Exit code: "@ + dec_int(code) + ". Stderr: "@ + stderr
}

/// The message when the tool executable could not be found: the OS
/// error, advice, and the path that was tried.
pub open spec fn not_found_message(error: Seq<char>, tool_path: Seq<char>) -> Seq<char> {
    "Failed to execute exiftool: "@ + error
        + " - ExifTool not found. Please install ExifTool or ensure it's bundled with the application. Tried path: \""@
        + tool_path + "\""@
}

/// The message of any other spawn failure: the OS error text.
pub open spec fn spawn_failure_message(error: Seq<char>) -> Seq<char> {
    "Failed to execute exiftool: "@ + error
}

/// Turns what the caller observed of the external tool run into the
/// embed result: success with an optional warning on a zero exit,
/// failure with the exit code and standard error otherwise, and a
/// distinct message when the executable was missing or the spawn
/// failed.
pub fn execute_exiftool(outcome: &SpawnOutcome, file_path: &str, exiftool_path: &str) -> (r:
    EmbedMetadataResult)
    ensures
        r.file_path@ == file_path@,
        outcome matches SpawnOutcome::Completed { exit_ok: true, stderr, .. } ==> r.success
            && r.message@ == success_message(stderr@),
        outcome matches SpawnOutcome::Completed { exit_ok: false, exit_code, stderr, .. }
            ==> !r.success && r.message@ == failure_message(
            exit_code_or_default(*exit_code),
            stderr@,
        ),
        outcome matches SpawnOutcome::NotFound { error_text } ==> !r.success && r.message@
            == not_found_message(error_text@, exiftool_path@),
        outcome matches SpawnOutcome::Failed { error_text } ==> !r.success && r.message@
            == spawn_failure_message(error_text@),
{
    match outcome {
        SpawnOutcome::Completed { exit_ok, exit_code, stdout: _, stderr } => {
            if *exit_ok {
                let mut m = String::from_str("Metadata successfully embedded");
                if !stderr.as_str().is_empty() {
                    m.append(" Warning: ");
                    m.append(stderr.as_str());
                }
                proof {
                    assert(m@ =~= success_message(stderr@));
                }
                EmbedMetadataResult {
                    success: true,
                    message: m,
                    file_path: String::from_str(file_path),
                }
            } else {
                let code: i32 = match exit_code {
                    Some(c) => *c,
                    None => -1,
                };
                let mut m = String::from_str("Failed to embed metadata. Exit code: ");
                m.append(i32_to_string(code).as_str());
                m.append(". Stderr: ");
                m.append(stderr.as_str());
                proof {
                    assert(m@ =~= failure_message(exit_code_or_default(*exit_code), stderr@));
                }
                EmbedMetadataResult {
                    success: false,
                    message: m,
                    file_path: String::from_str(file_path),
                }
            }
        },
        SpawnOutcome::NotFound { error_text } => {
            let mut m = String::from_str("Failed to execute exiftool: ");
            m.append(error_text.as_str());
            m.append(
                " - ExifTool not found. Please install ExifTool or ensure it's bundled with the application. Tried path: \"",
            );
            m.append(exiftool_path);
            m.append("\"");
            proof {
                assert(m@ =~= not_found_message(error_text@, exiftool_path@));
            }
            EmbedMetadataResult {
                success: false,
                message: m,
                file_path: String::from_str(file_path),
            }
        },
        SpawnOutcome::Failed { error_text } => {
            let mut m = String::from_str("Failed to execute exiftool: ");
            m.append(error_text.as_str());
            EmbedMetadataResult {
                success: false,
                message: m,
                file_path: String::from_str(file_path),
            }
        },
    }
}

/// True when the request carries at least one metadata field; an
/// all-absent request is a no-op that never invokes the tool.
pub fn has_metadata(request: &EmbedMetadataRequest) -> (r: bool)
    ensures
        r == (request.title is Some || request.description is Some
            || request.keywords is Some),
{
    request.title.is_some() || request.description.is_some() || request.keywords.is_some()
}

/// Decides an embed operation up to the process spawn: a failure
/// result for a missing or non-regular file, a success result
/// without running the tool when no metadata field is present, and
/// otherwise the argument list to run the tool with.
pub fn plan_embed_metadata(request: &EmbedMetadataRequest, exists: bool, is_file: bool) -> (plan:
    EmbedPlan)
    ensures
        !exists ==> (plan matches EmbedPlan::Done(e) && !e.success && e.message@
            == "File does not exist: "@ + request.file_path@ && e.file_path@
            == request.file_path@),
        exists && !is_file ==> (plan matches EmbedPlan::Done(e) && !e.success && e.message@
            == "Path is not a file: "@ + request.file_path@ && e.file_path@
            == request.file_path@),
        exists && is_file && request.title is None && request.description is None
            && request.keywords is None ==> (plan matches EmbedPlan::Done(e) && e.success
            && e.message@ == "No metadata provided to embed"@ && e.file_path@
            == request.file_path@),
        exists && is_file && !(request.title is None && request.description is None
            && request.keywords is None) ==> (plan matches EmbedPlan::Run(args)
            && args.deep_view() == spec_build_args(
            request.file_path@,
            request.title.deep_view(),
            request.description.deep_view(),
            request.keywords.deep_view(),
        )),
{
    if let Some(error_result) = validate_file(request.file_path.as_str(), exists, is_file) {
        return EmbedPlan::Done(error_result);
    }
    if !has_metadata(request) {
        return EmbedPlan::Done(
            EmbedMetadataResult {
                success: true,
                message: String::from_str("No metadata provided to embed"),
                file_path: request.file_path.clone(),
            },
        );
    }
    EmbedPlan::Run(build_exiftool_command(request))
}

/// Decides a read operation up to the process spawn: an error for a
/// missing or non-regular file, and otherwise the fixed read
/// argument list requesting JSON output with raw values.
pub fn plan_read_metadata(file_path: &str, exists: bool, is_file: bool) -> (r: Result<
    Vec<String>,
    String,
>)
    ensures
        !exists ==> (r matches Err(m) && m@ == "File does not exist: "@ + file_path@),
        exists && !is_file ==> (r matches Err(m) && m@ == "Path is not a file: "@ + file_path@),
        exists && is_file ==> (r matches Ok(args) && args.deep_view() == seq![
            "-json"@,
            "-n"@,
            file_path@,
        ]),
{
    if !exists {
        let mut m = String::from_str("File does not exist: ");
        m.append(file_path);
        return Err(m);
    }
    if !is_file {
        let mut m = String::from_str("Path is not a file: ");
        m.append(file_path);
        return Err(m);
    }
    let mut args: Vec<String> = Vec::new();
    args.push(String::from_str("-json"));
    args.push(String::from_str("-n"));
    args.push(String::from_str(file_path));
    proof {
        assert(args.deep_view() =~= seq!["-json"@, "-n"@, file_path@]);
    }
    Ok(args)
}

} // verus!
