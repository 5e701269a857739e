//! The text that is kept of a finished run.

use vstd::prelude::*;
use vstd::string::*;
use vstd::utf8::*;

verus! {

/// The text that lossy UTF-8 decoding makes of a sequence of bytes.
pub uninterp spec fn lossy_text(bytes: Seq<u8>) -> Seq<char>;

/// Decodes bytes with `String::from_utf8_lossy`.
///
/// Taken on trust: the result is a function of the bytes alone, named
/// `lossy_text`, and on well-formed UTF-8 it is the decoded text itself,
/// with nothing replaced.
#[verifier::external_body]
fn decode_lossy(bytes: &[u8]) -> (text: String)
    ensures
        text@ == lossy_text(bytes@),
        valid_utf8(bytes@) ==> text@ == decode_utf8(bytes@),
{
    String::from_utf8_lossy(bytes).into_owned()
}

/// The label that opens the section of the standard output.
pub open spec fn stdout_label() -> Seq<char> {
    "stdout: "@
}

/// The label that opens the section of the standard error, on a line of its
/// own.
pub open spec fn stderr_label() -> Seq<char> {
    "\nstderr: "@
}

/// The captured text of a run whose two streams read `stdout` and `stderr`:
/// each stream under its own label, the standard output first.
pub open spec fn combined_output(stdout: Seq<char>, stderr: Seq<char>) -> Seq<char> {
    stdout_label() + stdout + stderr_label() + stderr
}

/// A captured text holds both sections, whatever the streams read, an empty
/// stream included: the first label, the standard output, the second label,
/// the standard error, and nothing else.
pub proof fn lemma_output_sections(stdout: Seq<char>, stderr: Seq<char>)
    ensures
        ({
            let text = combined_output(stdout, stderr);
            let a = stdout_label().len() as int;
            let b = a + stdout.len();
            let c = b + stderr_label().len();
            &&& text.len() == c + stderr.len()
            &&& text.subrange(0, a) == stdout_label()
            &&& text.subrange(a, b) == stdout
            &&& text.subrange(b, c) == stderr_label()
            &&& text.subrange(c, text.len() as int) == stderr
        }),
{
    let text = combined_output(stdout, stderr);
    let a = stdout_label().len() as int;
    let b = a + stdout.len();
    let c = b + stderr_label().len();
    assert(text.subrange(0, a) =~= stdout_label());
    assert(text.subrange(a, b) =~= stdout);
    assert(text.subrange(b, c) =~= stderr_label());
    assert(text.subrange(c, text.len() as int) =~= stderr);
}

/// Joins the two streams of a run into one labelled text.
pub fn combine_output(stdout: &str, stderr: &str) -> (text: String)
    ensures
        text@ == combined_output(stdout@, stderr@),
{
    let mut text = "stdout: ".to_owned();
    text.append(stdout);
    text.append("\nstderr: ");
    text.append(stderr);
    text
}

/// Decodes the two streams of a run, replacing what is not UTF-8, and joins
/// them into one labelled text.
pub fn capture_output(stdout: &[u8], stderr: &[u8]) -> (text: String)
    ensures
        text@ == combined_output(lossy_text(stdout@), lossy_text(stderr@)),
        valid_utf8(stdout@) && valid_utf8(stderr@) ==> text@ == combined_output(
            decode_utf8(stdout@),
            decode_utf8(stderr@),
        ),
{
    let out = decode_lossy(stdout);
    let err = decode_lossy(stderr);
    combine_output(out.as_str(), err.as_str())
}

} // verus!
