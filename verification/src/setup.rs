//! Start-up decisions: what to say of a config's validation, and what to do
//! with the data directory.

use crate::config::{
    error_count,
    Severity,
    ValidationMessage,
};
use crate::util::{
    decimal,
    format_u64,
    push_str,
    string_from_chars,
};
use vstd::prelude::*;

verus! {

/// The line printed for one validation finding.
pub open spec fn finding_line(m: ValidationMessage) -> Seq<char> {
    match m.spec_severity() {
        Severity::Warn => "validation warning: "@ + m.spec_error().spec_message(),
        Severity::Error => "validation error: "@ + m.spec_error().spec_message(),
    }
}

/// The lines printed for the findings of a validation, in order.
pub open spec fn finding_lines(messages: Seq<ValidationMessage>) -> Seq<Seq<char>> {
    messages.map_values(|m: ValidationMessage| finding_line(m))
}

/// The line printed for one finding.
pub fn finding_message(m: &ValidationMessage) -> (res: String)
    ensures
        res@ == finding_line(*m),
{
    let mut out: Vec<char> = Vec::new();
    match m.severity() {
        Severity::Warn => push_str(&mut out, "validation warning: "),
        Severity::Error => push_str(&mut out, "validation error: "),
    }
    let text = m.error().message();
    push_str(&mut out, text.as_str());
    string_from_chars(&out)
}

/// Report a validation: one line per finding, and whether the config may be
/// used: it may not if any finding is an error, and the message then says
/// how many.
pub fn validation_report(messages: &Vec<ValidationMessage>) -> (res: (Vec<String>, Result<(), String>))
    ensures
        res.0@.map_values(|s: String| s@) == finding_lines(messages@),
        error_count(messages@) == 0 ==> res.1 is Ok,
        error_count(messages@) > 0 ==> (res.1 matches Err(msg) && msg@ == "validation failed with "@
            + decimal(error_count(messages@)) + " errors."@),
{
    let mut lines: Vec<String> = Vec::new();
    let mut i: usize = 0;
    while i < messages.len()
        invariant
            0 <= i <= messages.len(),
            lines@.len() == i,
            lines@.map_values(|s: String| s@) == finding_lines(messages@.take(i as int)),
        decreases messages.len() - i,
    {
        let line = finding_message(&messages[i]);
        let ghost before = lines@;
        lines.push(line);
        proof {
            let t = messages@.take(i + 1);
            assert(t.drop_last() =~= messages@.take(i as int));
            assert forall|j: int| 0 <= j < i + 1 implies lines@.map_values(|s: String| s@)[j]
                == #[trigger] finding_lines(t)[j] by {
                if j < i {
                    assert(lines@[j] == before[j]);
                    assert(before.map_values(|s: String| s@)[j] == finding_lines(
                        messages@.take(i as int),
                    )[j]);
                    assert(finding_lines(messages@.take(i as int))[j] == finding_line(t[j]));
                }
            }
        }
        assert(lines@.map_values(|s: String| s@) =~= finding_lines(messages@.take(i + 1)));
        i = i + 1;
    }
    assert(messages@.take(messages.len() as int) =~= messages@);
    let errors = crate::config::count_validation_errors(messages);
    if errors == 0 {
        (lines, Ok(()))
    } else {
        let mut out: Vec<char> = Vec::new();
        push_str(&mut out, "validation failed with ");
        push_str(&mut out, format_u64(errors as u64).as_str());
        push_str(&mut out, " errors.");
        (lines, Err(string_from_chars(&out)))
    }
}

/// What is at the data directory's path.
#[derive(Debug, Clone, Copy, PartialEq, Eq, Structural)]
pub enum DataDirState {
    /// Nothing.
    Missing,
    /// A directory.
    Directory,
    /// A file.
    File,
    /// Something else.
    Other,
}

/// What to do with the data directory.
#[derive(Debug, Clone, Copy, PartialEq, Eq, Structural)]
pub enum DataDirAction {
    /// Create it.
    Create,
    /// Use the directory that is there.
    UseExisting,
    /// Go on without a word.
    Proceed,
    /// Stop: the path is a file.
    RefuseFile,
}

/// Decide what to do with the data directory: create it when missing, use
/// it when it is a directory, refuse a file, and go on otherwise.
pub fn data_dir_action(state: DataDirState) -> (res: DataDirAction)
    ensures
        res == match state {
            DataDirState::Missing => DataDirAction::Create,
            DataDirState::Directory => DataDirAction::UseExisting,
            DataDirState::File => DataDirAction::RefuseFile,
            DataDirState::Other => DataDirAction::Proceed,
        },
{
    match state {
        DataDirState::Missing => DataDirAction::Create,
        DataDirState::Directory => DataDirAction::UseExisting,
        DataDirState::File => DataDirAction::RefuseFile,
        DataDirState::Other => DataDirAction::Proceed,
    }
}

} // verus!
