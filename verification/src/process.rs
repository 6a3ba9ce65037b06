//! How a finished process is reported: its status, its captured output, and
//! the result that each way of running a command derives from them.

use crate::error_message::ErrorMessage;
use crate::text::enclose;
use crate::text::split;
use crate::text::split_on;
use vstd::prelude::*;
use vstd::string::*;
use vstd::utf8::decode_utf8;
use vstd::utf8::encode_utf8;
use vstd::utf8::valid_utf8;

verus! {

/// How a process ended: with an exit code, or without one where it was ended
/// from outside.
#[derive(Clone, Copy, Debug, PartialEq, Eq, Structural)]
pub struct ExitStatus {
    pub code: Option<i32>,
}

impl ExitStatus {
    /// The status of a process that ended with `code`, if it had one.
    pub fn from_code(code: Option<i32>) -> (status: ExitStatus)
        ensures
            status.code == code,
    {
        ExitStatus { code }
    }

    /// A process succeeded where it ended by itself with code 0.
    pub open spec fn is_success(self) -> bool {
        self.code == Some(0i32)
    }

    /// Whether the process succeeded.
    pub fn success(&self) -> (ok: bool)
        ensures
            ok == self.is_success(),
    {
        match self.code {
            Some(code) => code == 0,
            None => false,
        }
    }
}

/// What a process left behind when it was waited for: its status and the
/// bytes that were captured from its two output streams.
#[derive(Debug)]
pub struct ProcessOutput {
    pub status: ExitStatus,
    pub stdout: Vec<u8>,
    pub stderr: Vec<u8>,
}

/// The text that bytes which are no UTF-8 are read as: what can be decoded
/// stays, and each sequence of bytes that cannot is replaced by U+FFFD.
pub uninterp spec fn lossy_text(bytes: Seq<u8>) -> Seq<char>;

/// The text that captured bytes stand for: the text that they encode in
/// UTF-8, and for bytes that encode none the text with replacements.
pub open spec fn stream_text(bytes: Seq<u8>) -> Seq<char> {
    if valid_utf8(bytes) {
        decode_utf8(bytes)
    } else {
        lossy_text(bytes)
    }
}

/// The text of a captured output: what was written to stdout, then what was
/// written to stderr.
pub open spec fn captured_text(stdout: Seq<u8>, stderr: Seq<u8>) -> Seq<char> {
    stream_text(stdout) + stream_text(stderr)
}

/// `String::from_utf8_lossy`: the text that the bytes encode in UTF-8; where
/// they encode none, invalid sequences are replaced by U+FFFD. The same
/// bytes always give the same text.
#[verifier::external_body]
fn decode_lossy(bytes: &Vec<u8>) -> (text: String)
    ensures
        text@ == if valid_utf8(bytes@) {
            decode_utf8(bytes@)
        } else {
            lossy_text(bytes@)
        },
{
    String::from_utf8_lossy(bytes.as_slice()).into_owned()
}

/// Appends the text of `bytes` to `buffer`.
pub fn append_bytes(buffer: &mut String, bytes: &Vec<u8>)
    ensures
        final(buffer)@ == old(buffer)@ + stream_text(bytes@),
{
    let text = decode_lossy(bytes);
    buffer.append(text.as_str());
}

/// What was written as `out` and `err` is captured as `out`, then `err`.
pub proof fn lemma_captured_text_written(out: Seq<char>, err: Seq<char>)
    ensures
        captured_text(encode_utf8(out), encode_utf8(err)) == out + err,
        stream_text(Seq::empty()) == Seq::<char>::empty(),
{
    broadcast use vstd::utf8::encode_utf8_valid_utf8;
    broadcast use vstd::utf8::encode_utf8_decode_utf8;

    assert(valid_utf8(Seq::<u8>::empty()));
    assert(decode_utf8(Seq::<u8>::empty()) =~= Seq::<char>::empty());
}

/// Appends the captured stdout and then the captured stderr to `buffer`, and
/// hands back the status.
pub fn capture_output(buffer: &mut String, process_output: ProcessOutput) -> (status: ExitStatus)
    ensures
        status == process_output.status,
        final(buffer)@ == old(buffer)@ + captured_text(
            process_output.stdout@,
            process_output.stderr@,
        ),
{
    append_bytes(buffer, &process_output.stdout);
    append_bytes(buffer, &process_output.stderr);
    assert(buffer@ =~= old(buffer)@ + captured_text(
        process_output.stdout@,
        process_output.stderr@,
    ));
    process_output.status
}

/// The context of a command that could not be spawned.
pub open spec fn spawn_failed_message(cmd: Seq<char>) -> Seq<char> {
    "Failed to spawn command '"@ + cmd + "'"@
}

/// The context of a failure to wait for a command whose output is captured
/// whole or passed through.
pub open spec fn wait_failed_message(cmd: Seq<char>) -> Seq<char> {
    "Failed to waiting for command '"@ + cmd + "' to complete"@
}

/// The context of a command that could not be spawned, naming the command.
pub fn spawn_failed_context(cmd: &str) -> (message: String)
    ensures
        message@ == spawn_failed_message(cmd@),
{
    enclose("Failed to spawn command '", cmd, "'")
}

/// The context of a failed wait for the command's completion.
pub fn wait_failed_context(cmd: &str) -> (message: String)
    ensures
        message@ == wait_failed_message(cmd@),
{
    enclose("Failed to waiting for command '", cmd, "' to complete")
}

/// The failure of a command that could not be spawned: the context that
/// names the command, and behind it what the operating system reported.
pub fn spawn_failure(cmd: &str, cause: String) -> (error: ErrorMessage)
    ensures
        error@ == seq![spawn_failed_message(cmd@), cause@],
        error.ends_foreign(),
{
    let error = ErrorMessage::with_context(spawn_failed_context(cmd), ErrorMessage::foreign(cause));
    assert(error@ =~= seq![spawn_failed_message(cmd@), cause@]);
    error
}

/// The failure of a wait for the command's completion: the context that
/// names the command, and behind it what the operating system reported.
pub fn wait_failure(cmd: &str, cause: String) -> (error: ErrorMessage)
    ensures
        error@ == seq![wait_failed_message(cmd@), cause@],
        error.ends_foreign(),
{
    let error = ErrorMessage::with_context(wait_failed_context(cmd), ErrorMessage::foreign(cause));
    assert(error@ =~= seq![wait_failed_message(cmd@), cause@]);
    error
}

/// A command line has at least one piece, the command.
pub proof fn lemma_split_on_nonempty(text: Seq<char>, separator: char)
    ensures
        split_on(text, separator).len() >= 1,
{
}

/// A command line cut at each single space: the first piece is the command,
/// the others are its arguments. Nothing is quoted or escaped, and two spaces
/// in a row give an empty argument.
pub fn split_command(cmd: &str) -> (r: Result<(String, Vec<String>), ErrorMessage>)
    ensures
        r is Ok,
        r->Ok_0.0@ == split_on(cmd@, ' ')[0],
        r->Ok_0.1.deep_view() == split_on(cmd@, ' ').drop_first(),
{
    let mut pieces = split(cmd, ' ');
    proof {
        lemma_split_on_nonempty(cmd@, ' ');
    }
    if pieces.len() == 0 {
        ErrorMessage::err("No command supplied".to_owned())
    } else {
        let ghost all = pieces.deep_view();
        let ghost before = pieces@;
        assert(before[0]@ == all[0]);
        let command = pieces.remove(0);
        assert(pieces.deep_view() =~= all.drop_first()) by {
            assert forall|i: int| 0 <= i < pieces@.len() implies pieces.deep_view()[i]
                == all.drop_first()[i] by {
                assert(pieces@[i] == before[i + 1]);
            }
        }
        Ok((command, pieces))
    }
}

/// The message of the failure that a command ends in when it exits
/// unsuccessfully: it holds the whole captured output.
pub open spec fn exit_failure_message(output: Seq<char>) -> Seq<char> {
    "Exited with output: '"@ + output + "'"@
}

/// What waiting for a command with captured output gives: the status and the
/// captured text, whatever the status is.
pub fn run_with_exit_status_result(process_output: ProcessOutput) -> (r: (ExitStatus, String))
    ensures
        r.0 == process_output.status,
        r.1@ == captured_text(process_output.stdout@, process_output.stderr@),
{
    let mut buffer = String::new();
    let status = capture_output(&mut buffer, process_output);
    assert(buffer@ =~= captured_text(process_output.stdout@, process_output.stderr@));
    (status, buffer)
}

/// The result of a command from its status and captured text: the text where
/// it succeeded, and otherwise a failure whose message holds the text.
pub fn run_result(status: ExitStatus, output: String) -> (r: Result<String, ErrorMessage>)
    ensures
        status.is_success() ==> r == Ok::<String, ErrorMessage>(output),
        !status.is_success() ==> r is Err && r->Err_0@ == seq![exit_failure_message(output@)]
            && !r->Err_0.ends_foreign(),
{
    if status.success() {
        Ok(output)
    } else {
        ErrorMessage::err(enclose("Exited with output: '", output.as_str(), "'"))
    }
}

/// What running a command to its end yields, as a function of what the
/// process left behind: the captured text on success, and on any other status
/// the chain of the failure.
pub open spec fn run_outcome(status: ExitStatus, stdout: Seq<u8>, stderr: Seq<u8>) -> Result<
    Seq<char>,
    Seq<Seq<char>>,
> {
    if status.is_success() {
        Ok(captured_text(stdout, stderr))
    } else {
        Err(seq![exit_failure_message(captured_text(stdout, stderr))])
    }
}

/// The result of a command from what the finished process left behind.
pub fn run_output_result(process_output: ProcessOutput) -> (r: Result<String, ErrorMessage>)
    ensures
        match run_outcome(process_output.status, process_output.stdout@, process_output.stderr@) {
            Ok(text) => r is Ok && r->Ok_0@ == text,
            Err(chain) => r is Err && r->Err_0@ == chain && !r->Err_0.ends_foreign(),
        },
{
    let (status, output) = run_with_exit_status_result(process_output);
    run_result(status, output)
}

/// A command that exits with code 0 and writes the text `out` to stdout only
/// yields exactly `out`.
pub proof fn law_run_returns_stdout(status: ExitStatus, out: Seq<char>)
    requires
        status.is_success(),
    ensures
        run_outcome(status, encode_utf8(out), Seq::empty()) == Ok::<Seq<char>, Seq<Seq<char>>>(
            out,
        ),
{
    lemma_captured_text_written(out, Seq::empty());
    assert(encode_utf8(Seq::<char>::empty()) =~= Seq::<u8>::empty());
    assert(out + Seq::<char>::empty() =~= out);
}

/// A command that exits with code 0 and writes the text `err` to stderr only
/// still yields exactly `err`: both streams are captured.
pub proof fn law_run_returns_stderr(status: ExitStatus, err: Seq<char>)
    requires
        status.is_success(),
    ensures
        run_outcome(status, Seq::empty(), encode_utf8(err)) == Ok::<Seq<char>, Seq<Seq<char>>>(
            err,
        ),
{
    lemma_captured_text_written(Seq::empty(), err);
    assert(encode_utf8(Seq::<char>::empty()) =~= Seq::<u8>::empty());
    assert(Seq::<char>::empty() + err =~= err);
}

/// A command that does not exit with code 0 fails, and the message of the
/// failure holds what it wrote to stdout and then what it wrote to stderr,
/// letter for letter.
pub proof fn law_run_failure_holds_output(status: ExitStatus, out: Seq<char>, err: Seq<char>)
    requires
        !status.is_success(),
    ensures
        run_outcome(status, encode_utf8(out), encode_utf8(err)) == Err::<
            Seq<char>,
            Seq<Seq<char>>,
        >(seq![exit_failure_message(out + err)]),
        ({
            let message = exit_failure_message(out + err);
            let at = "Exited with output: '"@.len() as int;
            at + (out + err).len() <= message.len() && message.subrange(
                at,
                at + (out + err).len(),
            ) == out + err
        }),
{
    lemma_captured_text_written(out, err);
    let message = exit_failure_message(out + err);
    let at = "Exited with output: '"@.len() as int;
    assert(message.subrange(at, at + (out + err).len()) =~= out + err);
}

/// Where both streams hold UTF-8, the captured text is what stdout encodes
/// and then what stderr encodes.
pub proof fn law_captured_text_is_decoded(stdout: Seq<u8>, stderr: Seq<u8>)
    requires
        valid_utf8(stdout),
        valid_utf8(stderr),
    ensures
        captured_text(stdout, stderr) == decode_utf8(stdout) + decode_utf8(stderr),
{
}

} // verus!
