//! What the conversion server decides around a run of the converter: the
//! task description it hands to the converter, the names of its temporary
//! files, the address it listens on, and the error it answers with when a
//! conversion fails.

use crate::encrypted::{ascii_bytes, contains_needle, find_needle, FileCondition};
use crate::text::{decimal, decimal_text};
use vstd::prelude::*;
use vstd::string::*;

verus! {

/// The error that the server answers with.
#[derive(Debug)]
pub struct ErrorResponse {
    /// Exit code of the converter, if it ran and left one.
    pub code: Option<i32>,
    /// What went wrong.
    pub message: String,
}

/// The steps of a conversion that can fail before or after the converter
/// has run.
#[derive(Debug, Clone, Copy, PartialEq, Eq)]
pub enum Stage {
    CreateTempDir,
    SetupTempPaths,
    WriteFiles,
    RunConverter,
    ReadOutput,
    MakeResponse,
}

/// The message for a failure at `stage`.
pub open spec fn stage_message(stage: Stage) -> Seq<char> {
    match stage {
        Stage::CreateTempDir => "failed to create temporary directory"@,
        Stage::SetupTempPaths => "failed to setup temporary paths"@,
        Stage::WriteFiles => "failed to write files"@,
        Stage::RunConverter => "failed to run x2t"@,
        Stage::ReadOutput => "failed to read output"@,
        Stage::MakeResponse => "failed to make response"@,
    }
}

/// The error for a failure at `stage`: its message, and no code.
pub fn stage_failure(stage: Stage) -> (error: ErrorResponse)
    ensures
        error.code.is_none(),
        error.message@ == stage_message(stage),
{
    let message = match stage {
        Stage::CreateTempDir => "failed to create temporary directory",
        Stage::SetupTempPaths => "failed to setup temporary paths",
        Stage::WriteFiles => "failed to write files",
        Stage::RunConverter => "failed to run x2t",
        Stage::ReadOutput => "failed to read output",
        Stage::MakeResponse => "failed to make response",
    };
    ErrorResponse { code: None, message: String::from_str(message) }
}

/// The converter's name for the exit code `code`, for the codes that have
/// one.
pub open spec fn error_code_name(code: int) -> Option<Seq<char>> {
    if code == 0x0001 {
        Some("AVS_FILEUTILS_ERROR_UNKNOWN"@)
    } else if code == 0x0050 {
        Some("AVS_FILEUTILS_ERROR_CONVERT"@)
    } else if code == 0x0051 {
        Some("AVS_FILEUTILS_ERROR_CONVERT_DOWNLOAD"@)
    } else if code == 0x0052 {
        Some("AVS_FILEUTILS_ERROR_CONVERT_UNKNOWN_FORMAT"@)
    } else if code == 0x0053 {
        Some("AVS_FILEUTILS_ERROR_CONVERT_TIMEOUT"@)
    } else if code == 0x0054 {
        Some("AVS_FILEUTILS_ERROR_CONVERT_READ_FILE"@)
    } else if code == 0x0055 {
        Some("AVS_FILEUTILS_ERROR_CONVERT_DRM_UNSUPPORTED"@)
    } else if code == 0x0056 {
        Some("AVS_FILEUTILS_ERROR_CONVERT_CORRUPTED"@)
    } else if code == 0x0057 {
        Some("AVS_FILEUTILS_ERROR_CONVERT_LIBREOFFICE"@)
    } else if code == 0x0058 {
        Some("AVS_FILEUTILS_ERROR_CONVERT_PARAMS"@)
    } else if code == 0x0059 {
        Some("AVS_FILEUTILS_ERROR_CONVERT_NEED_PARAMS"@)
    } else if code == 0x005a {
        Some("AVS_FILEUTILS_ERROR_CONVERT_DRM"@)
    } else if code == 0x005b {
        Some("AVS_FILEUTILS_ERROR_CONVERT_PASSWORD"@)
    } else if code == 0x005c {
        Some("AVS_FILEUTILS_ERROR_CONVERT_ICU"@)
    } else if code == 0x005d {
        Some("AVS_FILEUTILS_ERROR_CONVERT_LIMITS"@)
    } else if code == 0x005e {
        Some("AVS_FILEUTILS_ERROR_CONVERT_ROWLIMITS"@)
    } else if code == 0x005f {
        Some("AVS_FILEUTILS_ERROR_CONVERT_DETECT"@)
    } else if code == 0x0060 {
        Some("AVS_FILEUTILS_ERROR_CONVERT_CELLLIMITS"@)
    } else {
        None
    }
}

/// The text of an optional name.
pub open spec fn name_text(name: Option<&'static str>) -> Option<Seq<char>> {
    match name {
        Some(text) => Some(text@),
        None => None,
    }
}

/// The converter's name for the exit code `code`, if it has one.
pub fn get_error_code_message(code: i32) -> (name: Option<&'static str>)
    ensures
        name_text(name) == error_code_name(code as int),
{
    if code == 0x0001 {
        Some("AVS_FILEUTILS_ERROR_UNKNOWN")
    } else if code == 0x0050 {
        Some("AVS_FILEUTILS_ERROR_CONVERT")
    } else if code == 0x0051 {
        Some("AVS_FILEUTILS_ERROR_CONVERT_DOWNLOAD")
    } else if code == 0x0052 {
        Some("AVS_FILEUTILS_ERROR_CONVERT_UNKNOWN_FORMAT")
    } else if code == 0x0053 {
        Some("AVS_FILEUTILS_ERROR_CONVERT_TIMEOUT")
    } else if code == 0x0054 {
        Some("AVS_FILEUTILS_ERROR_CONVERT_READ_FILE")
    } else if code == 0x0055 {
        Some("AVS_FILEUTILS_ERROR_CONVERT_DRM_UNSUPPORTED")
    } else if code == 0x0056 {
        Some("AVS_FILEUTILS_ERROR_CONVERT_CORRUPTED")
    } else if code == 0x0057 {
        Some("AVS_FILEUTILS_ERROR_CONVERT_LIBREOFFICE")
    } else if code == 0x0058 {
        Some("AVS_FILEUTILS_ERROR_CONVERT_PARAMS")
    } else if code == 0x0059 {
        Some("AVS_FILEUTILS_ERROR_CONVERT_NEED_PARAMS")
    } else if code == 0x005a {
        Some("AVS_FILEUTILS_ERROR_CONVERT_DRM")
    } else if code == 0x005b {
        Some("AVS_FILEUTILS_ERROR_CONVERT_PASSWORD")
    } else if code == 0x005c {
        Some("AVS_FILEUTILS_ERROR_CONVERT_ICU")
    } else if code == 0x005d {
        Some("AVS_FILEUTILS_ERROR_CONVERT_LIMITS")
    } else if code == 0x005e {
        Some("AVS_FILEUTILS_ERROR_CONVERT_ROWLIMITS")
    } else if code == 0x005f {
        Some("AVS_FILEUTILS_ERROR_CONVERT_DETECT")
    } else if code == 0x0060 {
        Some("AVS_FILEUTILS_ERROR_CONVERT_CELLLIMITS")
    } else {
        None
    }
}

/// What the converter prints when it runs past the end of its input, as it
/// does on encrypted documents.
pub open spec fn out_of_range_marker() -> Seq<u8> {
    ascii_bytes("std::out_of_range"@)
}

/// The converter's name for its exit code, or a general message where it
/// left no code or one without a name.
pub open spec fn exit_message(exit_code: Option<i32>) -> Seq<char> {
    match exit_code {
        Some(code) => match error_code_name(code as int) {
            Some(name) => name,
            None => "unknown error occurred"@,
        },
        None => "unknown error occurred"@,
    }
}

/// The message for a run of the converter that failed.
///
/// A run that printed the out-of-range marker is put down to encryption.
/// Otherwise the condition of the document decides, and for a document
/// that looks normal the exit code does.
pub open spec fn failure_message(
    exit_code: Option<i32>,
    stderr: Seq<u8>,
    condition: FileCondition,
) -> Seq<char> {
    if contains_needle(stderr, out_of_range_marker()) {
        "file is encrypted"@
    } else {
        match condition {
            FileCondition::LikelyCorrupted => "file is corrupted"@,
            FileCondition::LikelyEncrypted => "file is encrypted"@,
            FileCondition::Normal => exit_message(exit_code),
        }
    }
}

/// The error for a run of the converter that failed with `exit_code`,
/// having printed `stderr`, on a document in the condition `condition`.
/// The out-of-range marker is plain ASCII and is looked for in the bytes as
/// they were printed, whatever else they hold.
pub fn x2t_failure(exit_code: Option<i32>, stderr: &[u8], condition: FileCondition) -> (error:
    ErrorResponse)
    ensures
        error.code == exit_code,
        error.message@ == failure_message(exit_code, stderr@, condition),
{
    let named = match exit_code {
        Some(code) => get_error_code_message(code),
        None => None,
    };
    let message = match named {
        Some(name) => name,
        None => "unknown error occurred",
    };
    proof {
        reveal_strlit("std::out_of_range");
    }
    let marker = "std::out_of_range";
    assert(marker.is_ascii());
    let marker_bytes = marker.as_bytes();
    proof {
        is_ascii_spec_bytes(marker);
    }
    if find_needle(stderr, marker_bytes) {
        return ErrorResponse { code: exit_code, message: String::from_str("file is encrypted") };
    }
    let message = match condition {
        FileCondition::LikelyCorrupted => "file is corrupted",
        FileCondition::LikelyEncrypted => "file is encrypted",
        FileCondition::Normal => message,
    };
    ErrorResponse { code: exit_code, message: String::from_str(message) }
}

/// The task description for the converter: convert the document at
/// `input` to PDF at `output`, with the fonts under `fonts`.
pub open spec fn task_config_text(input: Seq<char>, output: Seq<char>, fonts: Seq<char>) -> Seq<
    char,
> {
    "\n        <?xml version=\"1.0\" encoding=\"utf-8\"?>\n        <TaskQueueDataConvert xmlns:xsi=\"http://www.w3.org/2001/XMLSchema-instance\"\n                              xmlns:xsd=\"http://www.w3.org/2001/XMLSchema\">\n          <m_sFileFrom>"@
        + input + "</m_sFileFrom>\n          <m_sFileTo>"@ + output
        + "</m_sFileTo>\n          <m_sFontDir>"@ + fonts
        + "</m_sFontDir>\n          <m_nFormatTo>513</m_nFormatTo>\n        </TaskQueueDataConvert>\n        "@
}

/// Writes the task description for the converter.
pub fn task_config(input: &str, output: &str, fonts: &str) -> (config: String)
    ensures
        config@ == task_config_text(input@, output@, fonts@),
{
    let mut config = String::from_str(
        "\n        <?xml version=\"1.0\" encoding=\"utf-8\"?>\n        <TaskQueueDataConvert xmlns:xsi=\"http://www.w3.org/2001/XMLSchema-instance\"\n                              xmlns:xsd=\"http://www.w3.org/2001/XMLSchema\">\n          <m_sFileFrom>",
    );
    config.append(input);
    config.append("</m_sFileFrom>\n          <m_sFileTo>");
    config.append(output);
    config.append("</m_sFileTo>\n          <m_sFontDir>");
    config.append(fonts);
    config.append(
        "</m_sFontDir>\n          <m_nFormatTo>513</m_nFormatTo>\n        </TaskQueueDataConvert>\n        ",
    );
    config
}

/// The address to listen on: `host` and `port` joined by a colon where
/// either is given, with `0.0.0.0` and `8080` for the one that is not;
/// else the address configured elsewhere, if any.
pub open spec fn server_address_text(
    host: Option<Seq<char>>,
    port: Option<u16>,
    configured: Option<Seq<char>>,
) -> Option<Seq<char>> {
    if host.is_some() || port.is_some() {
        let host = match host {
            Some(host) => host,
            None => "0.0.0.0"@,
        };
        let port = match port {
            Some(port) => port,
            None => 8080u16,
        };
        Some(host + ":"@ + decimal_text(port as int))
    } else {
        configured
    }
}

/// The text of an optional string.
pub open spec fn text_of(text: Option<String>) -> Option<Seq<char>> {
    match text {
        Some(text) => Some(text@),
        None => None,
    }
}

/// Determines the address that the server listens on. `None` where
/// neither a host nor a port is given and no address is configured.
pub fn server_address(host: Option<String>, port: Option<u16>, configured: Option<String>) -> (address:
    Option<String>)
    ensures
        text_of(address) == server_address_text(text_of(host), port, text_of(configured)),
{
    if host.is_some() || port.is_some() {
        let mut address = match host {
            Some(host) => host,
            None => String::from_str("0.0.0.0"),
        };
        let port: u16 = match port {
            Some(port) => port,
            None => 8080,
        };
        address.append(":");
        address.append(decimal(port as i64).as_str());
        Some(address)
    } else {
        configured
    }
}

/// The first of the three that is given.
pub open spec fn first_given(
    argument: Option<Seq<char>>,
    environment: Option<Seq<char>>,
    fallback: Option<Seq<char>>,
) -> Option<Seq<char>> {
    if argument.is_some() {
        argument
    } else if environment.is_some() {
        environment
    } else {
        fallback
    }
}

/// Chooses a path of the installation: the one from the command line wins
/// over the one from the environment, and that one over the fallback.
pub fn configured_path(
    argument: Option<String>,
    environment: Option<String>,
    fallback: Option<String>,
) -> (path: Option<String>)
    ensures
        text_of(path) == first_given(text_of(argument), text_of(environment), text_of(fallback)),
{
    if argument.is_some() {
        argument
    } else if environment.is_some() {
        environment
    } else {
        fallback
    }
}

} // verus!
