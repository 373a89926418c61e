//! The text with which a spawned thread announces itself.

use vstd::prelude::*;
use vstd::string::StringExecFns;

verus! {

/// The first line that a thread reports: its greeting, without the line end.
pub open spec fn greeting() -> Seq<char> {
    "Hello from another thread!"@
}

/// The second line that a thread reports, without the line end: a fixed
/// label followed by the thread's id as `id` renders it.
pub open spec fn id_line(id: Seq<char>) -> Seq<char> {
    "This is my thread id: "@ + id
}

/// The whole report of the thread whose id renders as `id`: the greeting and
/// the id line, each closed by a line feed.
pub open spec fn report(id: Seq<char>) -> Seq<char> {
    "Hello from another thread!\n"@ + "This is my thread id: "@ + id + "\n"@
}

/// The report is the greeting, a line feed, the id line and a line feed, in
/// that order.
pub proof fn lemma_report_is_both_lines(id: Seq<char>)
    ensures
        report(id) == greeting() + seq!['\n'] + id_line(id) + seq!['\n'],
{
    reveal_strlit("Hello from another thread!");
    reveal_strlit("Hello from another thread!\n");
    reveal_strlit("\n");
    assert("\n"@ =~= seq!['\n']);
    assert("Hello from another thread!\n"@ =~= greeting() + seq!['\n']);
    assert(report(id) =~= greeting() + seq!['\n'] + id_line(id) + seq!['\n']);
}

/// The greeting does not depend on the id, and two ids give the same id line
/// only if they are the same id. So the reports of two different threads
/// differ, and differ in the id line alone.
pub proof fn lemma_reports_differ_by_id(a: Seq<char>, b: Seq<char>)
    ensures
        id_line(a) == id_line(b) <==> a == b,
        report(a) == report(b) <==> a == b,
{
    let label = "This is my thread id: "@;
    if id_line(a) == id_line(b) {
        assert(a =~= id_line(a).subrange(label.len() as int, id_line(a).len() as int));
        assert(b =~= id_line(b).subrange(label.len() as int, id_line(b).len() as int));
    }
    if report(a) == report(b) {
        let head = "Hello from another thread!\n"@ + label;
        let tail = "\n"@;
        assert(report(a) =~= head + a + tail);
        assert(report(b) =~= head + b + tail);
        assert(a.len() == b.len());
        assert(a =~= report(a).subrange(head.len() as int, (head.len() + a.len()) as int));
        assert(b =~= report(b).subrange(head.len() as int, (head.len() + b.len()) as int));
    }
}

/// An id without a line feed gives a report of exactly two lines: line feeds
/// stand right after the greeting and at the very end, and nowhere else.
pub proof fn lemma_report_has_two_lines(id: Seq<char>)
    requires
        !id.contains('\n'),
    ensures
        report(id).len() == greeting().len() + id_line(id).len() + 2,
        forall|i: int|
            0 <= i < report(id).len() ==> (report(id)[i] == '\n' <==> (i == greeting().len() || i
                == report(id).len() - 1)),
{
    reveal_strlit("Hello from another thread!");
    reveal_strlit("This is my thread id: ");
    lemma_report_is_both_lines(id);
    let text = report(id);
    let label = "This is my thread id: "@;
    assert forall|i: int| 0 <= i < text.len() implies (text[i] == '\n' <==> (i == greeting().len()
        || i == text.len() - 1)) by {
        let start = greeting().len() + 1 + label.len();
        if start <= i < text.len() - 1 {
            assert(text[i] == id[i - start]);
            assert(id.contains(text[i]));
        }
    }
}

/// Returns the two lines that the thread whose id renders as `id` reports,
/// the greeting first. Neither line holds its line end.
pub fn thread_lines(id: &str) -> (lines: (String, String))
    ensures
        lines.0@ == greeting(),
        lines.1@ == id_line(id@),
{
    let first = "Hello from another thread!".to_owned();
    let second = "This is my thread id: ".to_owned().concat(id);
    (first, second)
}

/// Returns the whole report of the thread whose id renders as `id`.
pub fn thread_report(id: &str) -> (text: String)
    ensures
        text@ == report(id@),
{
    let text = "Hello from another thread!\n".to_owned();
    let text = text.concat("This is my thread id: ");
    let text = text.concat(id);
    text.concat("\n")
}

} // verus!
