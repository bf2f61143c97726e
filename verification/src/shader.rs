//! Shader sources and build reports.
//!
//! The graphics driver takes shader sources as NUL-terminated strings and
//! answers a failed compilation or link with an info log: a NUL-terminated
//! byte string written into a buffer that the caller supplies.

use vstd::pervasive::unreached;
use vstd::prelude::*;
use vstd::slice::slice_subrange;
use vstd::utf8::{decode_utf8, valid_utf8};

verus! {

/// The step of building a shader program at which the driver can report a
/// failure.
#[derive(Clone, Copy, Debug, PartialEq, Eq)]
pub enum Stage {
    /// Compiling the vertex shader.
    VertexShader,
    /// Compiling the fragment shader.
    FragmentShader,
    /// Linking the two compiled shaders into a program.
    ProgramLink,
}

impl Stage {
    /// First line of the report of a failure at this stage, with its line
    /// break.
    pub open spec fn heading(self) -> Seq<char> {
        match self {
            Stage::VertexShader => "[ERROR]: vertex shader compilation failed\n"@,
            Stage::FragmentShader => "[ERROR]: fragment shader compilation failed\n"@,
            Stage::ProgramLink => "[ERROR]: shader program linking failed\n"@,
        }
    }

    /// The heading as text.
    pub fn heading_text(self) -> (text: &'static str)
        ensures
            text@ == self.heading(),
    {
        match self {
            Stage::VertexShader => "[ERROR]: vertex shader compilation failed\n",
            Stage::FragmentShader => "[ERROR]: fragment shader compilation failed\n",
            Stage::ProgramLink => "[ERROR]: shader program linking failed\n",
        }
    }
}

/// Appends the NUL character that ends a source handed to the driver.
pub fn terminated(source: String) -> (out: String)
    ensures
        out@ == source@.push('\0'),
{
    let mut out = source;
    out.append("\0");
    proof {
        reveal_strlit("\0");
        assert("\0"@ =~= seq!['\0']);
    }
    out
}

/// Offset of the first NUL byte at or after `from`, or `log.len()` if there is
/// none.
pub open spec fn nul_offset_from(log: Seq<u8>, from: int) -> int
    decreases log.len() - from,
{
    if from < 0 || from >= log.len() {
        log.len() as int
    } else if log[from] == 0 {
        from
    } else {
        nul_offset_from(log, from + 1)
    }
}

/// Offset of the first NUL byte of `log`, or `log.len()` if there is none.
pub open spec fn nul_offset(log: Seq<u8>) -> int {
    nul_offset_from(log, 0)
}

/// From `from` on, `nul_offset_from` passes over bytes other than NUL only, and
/// stops at a NUL byte or at the end of the log.
pub proof fn lemma_nul_offset_from(log: Seq<u8>, from: int)
    requires
        0 <= from <= log.len(),
    ensures
        from <= nul_offset_from(log, from) <= log.len(),
        forall|i: int| from <= i < nul_offset_from(log, from) ==> log[i] != 0,
        nul_offset_from(log, from) < log.len() ==> log[nul_offset_from(log, from)] == 0,
    decreases log.len() - from,
{
    if from < log.len() && log[from] != 0 {
        lemma_nul_offset_from(log, from + 1);
    }
}

/// A NUL byte with no NUL byte before it is where `nul_offset` points.
pub proof fn lemma_first_nul_is_offset(log: Seq<u8>, at: int)
    requires
        0 <= at < log.len(),
        log[at] == 0,
        forall|i: int| 0 <= i < at ==> log[i] != 0,
    ensures
        nul_offset(log) == at,
{
    lemma_nul_offset_from(log, 0);
}

/// Finds the terminator of an info log.
pub fn find_nul(log: &[u8]) -> (found: Option<usize>)
    ensures
        match found {
            Some(at) => at == nul_offset(log@) && at < log@.len(),
            None => nul_offset(log@) == log@.len(),
        },
{
    let mut at: usize = 0;
    while at < log.len()
        invariant
            at <= log@.len(),
            nul_offset(log@) == nul_offset_from(log@, at as int),
        decreases log@.len() - at,
    {
        if log[at] == 0 {
            return Some(at);
        }
        at += 1;
    }
    None
}

/// Whether an info log has a terminator with at least one byte before it.
///
/// The driver ends every log with NUL, and a log that says anything ends its
/// last line with a line break before that.
pub open spec fn has_text(log: Seq<u8>) -> bool {
    1 <= nul_offset(log) < log.len()
}

/// The bytes of an info log that are reported: all that precede the
/// terminator, without the last of them.
pub open spec fn log_text(log: Seq<u8>) -> Seq<u8> {
    log.subrange(0, nul_offset(log) - 1)
}

/// Cuts the reported bytes out of an info log.
pub fn text_bytes(log: &[u8]) -> (text: &[u8])
    requires
        has_text(log@),
    ensures
        text@ == log_text(log@),
{
    match find_nul(log) {
        Some(at) => slice_subrange(log, 0, at - 1),
        None => unreached(),
    }
}

/// The reported bytes are the first bytes of the log, hold no NUL byte, and
/// leave out exactly one byte before the terminator.
pub proof fn lemma_log_text(log: Seq<u8>)
    requires
        has_text(log),
    ensures
        log_text(log).len() == nul_offset(log) - 1,
        forall|i: int| 0 <= i < log_text(log).len() ==> log_text(log)[i] == log[i],
        forall|i: int| 0 <= i < log_text(log).len() ==> log_text(log)[i] != 0,
        log[nul_offset(log)] == 0,
{
    lemma_nul_offset_from(log, 0);
}

/// What a buffer holds behind the terminator has no part in the reported
/// bytes: two logs that agree up to their first terminator give the same.
pub proof fn lemma_log_text_ignores_rest(log: Seq<u8>, other: Seq<u8>)
    requires
        has_text(log),
        nul_offset(log) < other.len(),
        forall|i: int| 0 <= i <= nul_offset(log) ==> other[i] == log[i],
    ensures
        has_text(other),
        log_text(other) == log_text(log),
{
    lemma_nul_offset_from(log, 0);
    lemma_first_nul_is_offset(other, nul_offset(log));
}

/// What `String::from_utf8_lossy` makes of a byte string.
pub uninterp spec fn lossy_text(bytes: Seq<u8>) -> Seq<char>;

/// Calls `String::from_utf8_lossy` and takes the text it gives as an owned
/// string. The text is a function of the bytes alone; for bytes that are
/// well-formed UTF-8 it is the text they encode, and otherwise each malformed
/// part is replaced by U+FFFD as the standard library documents.
#[verifier::external_body]
fn decode_lossy(bytes: &[u8]) -> (text: String)
    ensures
        text@ == lossy_text(bytes@),
        valid_utf8(bytes@) ==> text@ == decode_utf8(bytes@),
{
    String::from_utf8_lossy(bytes).into_owned()
}

/// The report of a failure at `stage` with the log text `text`: the heading,
/// the text, and a line break.
pub open spec fn report(stage: Stage, text: Seq<char>) -> Seq<char> {
    stage.heading() + text + seq!['\n']
}

/// Writes the report of a failure at `stage` around the decoded log text.
pub fn compose_report(stage: Stage, text: &str) -> (message: String)
    ensures
        message@ == report(stage, text@),
{
    let mut message = String::from_str(stage.heading_text());
    message.append(text);
    message.append("\n");
    proof {
        reveal_strlit("\n");
        assert("\n"@ =~= seq!['\n']);
    }
    message
}

/// Turns the info log of a failed build step into the report shown to the
/// user.
pub fn failure_report(stage: Stage, log: &[u8]) -> (message: String)
    requires
        has_text(log@),
    ensures
        message@ == report(stage, lossy_text(log_text(log@))),
        valid_utf8(log_text(log@)) ==> message@ == report(stage, decode_utf8(log_text(log@))),
{
    let text = decode_lossy(text_bytes(log));
    compose_report(stage, text.as_str())
}

} // verus!
