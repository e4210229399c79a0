//! The open-with-system operation.
//!
//! The UI layer hands the backend a base64 payload and a file name. The
//! backend decodes the payload — malformed input is a decode error, and
//! nothing is handed on, so nothing is written — and the I/O shell then
//! writes the decoded bytes to the named file under the system temporary
//! directory and spawns the platform's default viewer on it, fire-and-forget.

use vstd::prelude::*;
use vstd::string::StringExecFns;

verus! {

/// What the standard base64 alphabet with mandatory padding decodes a string
/// to: `Some` of the decoded bytes on well-formed input, `None` on malformed
/// input. The result depends on the input characters alone.
pub uninterp spec fn standard_base64_decoded(s: Seq<char>) -> Option<Seq<u8>>;

/// Relies on base64's `Engine::decode` with the `STANDARD` engine: decoding
/// is a function of the input alone, returns the decoded bytes on well-formed
/// input and an error exactly on malformed input. The error is formatted into
/// a message string here.
#[verifier::external_body]
fn decode_standard_base64(content: &str) -> (r: Result<Vec<u8>, String>)
    ensures
        r is Ok <==> standard_base64_decoded(content@) is Some,
        r matches Ok(bytes) ==> bytes@ == standard_base64_decoded(content@)->Some_0,
{
    base64::Engine::decode(&base64::engine::general_purpose::STANDARD, content)
        .map_err(|e| format!("Failed to decode base64: {}", e))
}

/// A decoded open-with-system request, ready for the I/O shell: the bytes to
/// write under `file_name` in the system temporary directory, the written
/// file then opened with the platform's default viewer.
#[derive(Debug)]
pub struct OpenRequest {
    pub bytes: Vec<u8>,
    pub file_name: String,
}

/// Decodes the base64 payload of an open-with-system call. Succeeds exactly
/// when the payload is well-formed base64, with the decoded bytes and the
/// target file name passed through unchanged; on malformed input it returns
/// a decode error and hands nothing on, so no file is written.
pub fn prepare_open_file(base64_content: &str, file_name: String) -> (r: Result<
    OpenRequest,
    String,
>)
    ensures
        r is Ok <==> standard_base64_decoded(base64_content@) is Some,
        r matches Ok(req) ==> {
            &&& req.bytes@ == standard_base64_decoded(base64_content@)->Some_0
            &&& req.file_name@ == file_name@
        },
{
    match decode_standard_base64(base64_content) {
        Ok(bytes) => Ok(OpenRequest { bytes, file_name }),
        Err(e) => Err(e),
    }
}

/// The OS families the opener distinguishes; the shell selects one at build
/// time.
#[derive(Clone, Copy, Debug, PartialEq, Eq, Structural)]
pub enum Platform {
    MacOs,
    Windows,
    Linux,
}

/// The command line that opens `path` with the platform's default viewer:
/// the program to spawn first, then its arguments.
pub open spec fn opener_command_line(platform: Platform, path: Seq<char>) -> Seq<Seq<char>> {
    match platform {
        Platform::MacOs => seq!["open"@, path],
        Platform::Windows => seq![
            "powershell"@,
            "-Command"@,
            "Start-Process"@,
            "-FilePath"@,
            path,
        ],
        Platform::Linux => seq!["xdg-open"@, path],
    }
}

/// Builds the command line that opens `path` with the platform's default
/// viewer: `open` on one OS family, a shell-launch command on another,
/// `xdg-open` on the third, each given the path as its final argument.
pub fn opener_command(platform: Platform, path: String) -> (cmd: Vec<String>)
    ensures
        cmd.deep_view() == opener_command_line(platform, path@),
{
    let ghost p = path@;
    let mut cmd: Vec<String> = Vec::new();
    match platform {
        Platform::MacOs => {
            cmd.push(String::from_str("open"));
            cmd.push(path);
        },
        Platform::Windows => {
            cmd.push(String::from_str("powershell"));
            cmd.push(String::from_str("-Command"));
            cmd.push(String::from_str("Start-Process"));
            cmd.push(String::from_str("-FilePath"));
            cmd.push(path);
        },
        Platform::Linux => {
            cmd.push(String::from_str("xdg-open"));
            cmd.push(path);
        },
    }
    proof {
        assert(cmd.deep_view() =~= opener_command_line(platform, p));
    }
    cmd
}

} // verus!
