//! The renderer: how a commit and its explanation are laid out as one text.

use crate::commit::{CommitRecord, CommitRecordView};
use vstd::prelude::*;
use vstd::string::*;
use vstd::utf8::encode_utf8;

verus! {

/// The report on `commit`: a header of four lines, an empty line, the commit
/// message, a line of five dashes, and then the explanation as it came.
///
/// ```text
/// commit <id>
/// Author: <name> <<email>>
/// Date: <date>
///
/// <message>
/// -----
/// <explanation>
/// ```
pub open spec fn report_text(commit: CommitRecordView, explanation: Seq<char>) -> Seq<char> {
    "commit "@ + commit.id + "\nAuthor: "@ + commit.author_name + " <"@ + commit.author_email
        + ">\nDate: "@ + commit.date + "\n\n"@ + commit.message + "\n-----\n"@ + explanation
}

/// Whether `part` stands somewhere in `text`, unbroken and unchanged.
pub open spec fn occurs_in(part: Seq<char>, text: Seq<char>) -> bool {
    exists|before: Seq<char>, after: Seq<char>| text == #[trigger] (before + part + after)
}

/// Composes the report on `commit`. Nothing is read but the two arguments and
/// neither is changed, so equal arguments always give the same text.
pub fn render_report(commit: &CommitRecord, explanation: &str) -> (report: String)
    ensures
        report@ == report_text(commit@, explanation@),
{
    let mut report = "commit ".to_owned();
    report.append(commit.id());
    report.append("\nAuthor: ");
    report.append(commit.author_name());
    report.append(" <");
    report.append(commit.author_email());
    report.append(">\nDate: ");
    report.append(commit.date());
    report.append("\n\n");
    report.append(commit.message());
    report.append("\n-----\n");
    report.append(explanation);
    report
}

/// A report shows the line `commit <id>`, the author's name, the author's
/// address, the commit message and the explanation, each of them verbatim.
pub proof fn lemma_report_shows_commit(commit: CommitRecordView, explanation: Seq<char>)
    ensures
        occurs_in("commit "@ + commit.id, report_text(commit, explanation)),
        occurs_in(commit.author_name, report_text(commit, explanation)),
        occurs_in(commit.author_email, report_text(commit, explanation)),
        occurs_in(commit.message, report_text(commit, explanation)),
        occurs_in(explanation, report_text(commit, explanation)),
{
    let text = report_text(commit, explanation);
    let none = Seq::<char>::empty();
    let to_id = "commit "@ + commit.id;
    let to_name = to_id + "\nAuthor: "@ + commit.author_name;
    let to_email = to_name + " <"@ + commit.author_email;
    let to_message = to_email + ">\nDate: "@ + commit.date + "\n\n"@ + commit.message;
    let separator = "\n-----\n"@;
    assert(text == none + to_id + text.skip(to_id.len() as int));
    assert(text == (to_id + "\nAuthor: "@) + commit.author_name + text.skip(to_name.len() as int));
    assert(text == (to_name + " <"@) + commit.author_email + text.skip(to_email.len() as int));
    assert(text == (to_email + ">\nDate: "@ + commit.date + "\n\n"@) + commit.message
        + text.skip(to_message.len() as int));
    assert(text == (to_message + separator) + explanation + none);
}

/// Rendering is a function of what the two arguments hold: two reports made
/// from equal commits and equal explanations are the same text, byte for byte.
pub proof fn lemma_render_repeatable(
    commit: CommitRecord,
    explanation: &str,
    again_commit: CommitRecord,
    again_explanation: &str,
    first: String,
    second: String,
)
    requires
        commit@ == again_commit@,
        explanation@ == again_explanation@,
        first@ == report_text(commit@, explanation@),
        second@ == report_text(again_commit@, again_explanation@),
    ensures
        first@ == second@,
        encode_utf8(first@) == encode_utf8(second@),
{
}

} // verus!
