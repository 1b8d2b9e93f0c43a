//! Turning the diagnostics of declaration synthesis into one failure.

use crate::text::{joined, occurs_at, texts};
use itertools::Itertools;
use vstd::prelude::*;
use vstd::string::StringExecFns;

verus! {

/// The message of the failure that stands for the rendered diagnostics: a line break,
/// then the diagnostics with an empty line between neighbours.
pub open spec fn aggregate_message(rendered: Seq<Seq<char>>) -> Seq<char> {
    "\n"@ + joined(rendered, "\n\n"@)
}

/// `message` holds `item` as a whole, somewhere.
pub open spec fn holds(message: Seq<char>, item: Seq<char>) -> bool {
    exists|place: int| occurs_at(message, item, place)
}

/// `message` holds each of `items` as a whole.
pub open spec fn holds_every(message: Seq<char>, items: Seq<Seq<char>>) -> bool {
    forall|k: int| 0 <= k < items.len() ==> #[trigger] holds(message, items[k])
}

/// `oxc::diagnostics::OxcDiagnostic`, one diagnostic of declaration synthesis.
/// Diagnostics are counted and handed on; nothing is known of what they hold.
#[verifier::external_type_specification]
#[verifier::external_body]
pub struct ExOxcDiagnostic(oxc::diagnostics::OxcDiagnostic);

/// How grave a diagnostic is.
#[derive(Debug, Clone, Copy, PartialEq, Eq, Structural)]
pub enum Severity {
    Info,
    Error,
    Warning,
}

/// The failure of declaration synthesis for one module.
#[derive(Debug)]
pub struct SynthesisError {
    pub message: String,
}

/// Calls `Itertools::join` on the strings of `items`: each of them as it is written,
/// with `separator` between neighbours, and nothing where there is no item.
#[verifier::external_body]
fn join(items: &Vec<String>, separator: &str) -> (r: String)
    ensures
        r@ == joined(texts(items@), separator@),
{
    items.iter().join(separator)
}

/// Builds the one failure that is reported for a module.
pub struct DiagnosticReporter;

impl DiagnosticReporter {
    /// The one failure that stands for the diagnostics of a module: its message holds the
    /// rendered text of every diagnostic.
    pub fn aggregate(rendered: &Vec<String>) -> (error: SynthesisError)
        ensures
            error.message@ == aggregate_message(texts(rendered@)),
    {
        let body = join(rendered, "\n\n");
        SynthesisError { message: String::from_str("\n").concat(body.as_str()) }
    }
}

/// Every item stands in the joined text, as it is.
pub proof fn lemma_joined_holds_item(items: Seq<Seq<char>>, separator: Seq<char>, i: int)
    requires
        0 <= i < items.len(),
    ensures
        exists|at: int| occurs_at(joined(items, separator), items[i], at),
    decreases items.len(),
{
    let all = joined(items, separator);
    if items.len() == 1 {
        assert(all.subrange(0, items[i].len() as int) =~= items[i]);
        assert(occurs_at(all, items[i], 0));
    } else {
        let front = joined(items.drop_last(), separator);
        if i == items.len() - 1 {
            let at = (front.len() + separator.len()) as int;
            assert(all.subrange(at, at + items[i].len()) =~= items[i]);
            assert(occurs_at(all, items[i], at));
        } else {
            lemma_joined_holds_item(items.drop_last(), separator, i);
            let at = choose|at: int| occurs_at(front, items.drop_last()[i], at);
            assert(all.subrange(at, at + items[i].len()) =~= front.subrange(
                at,
                at + items[i].len(),
            ));
            assert(occurs_at(all, items[i], at));
        }
    }
}

/// The message of the failure holds the text of every rendered diagnostic.
pub proof fn lemma_aggregate_holds_every_diagnostic(rendered: Seq<Seq<char>>)
    ensures
        holds_every(aggregate_message(rendered), rendered),
{
    assert forall|k: int| 0 <= k < rendered.len() implies #[trigger] holds(
        aggregate_message(rendered),
        rendered[k],
    ) by {
        lemma_aggregate_holds_diagnostic(rendered, k);
    }
}

/// The message of the failure holds the text of the rendered diagnostic `i`.
proof fn lemma_aggregate_holds_diagnostic(rendered: Seq<Seq<char>>, i: int)
    requires
        0 <= i < rendered.len(),
    ensures
        exists|at: int| occurs_at(aggregate_message(rendered), rendered[i], at),
{
    let body = joined(rendered, "\n\n"@);
    lemma_joined_holds_item(rendered, "\n\n"@, i);
    let at = choose|at: int| occurs_at(body, rendered[i], at);
    let all = aggregate_message(rendered);
    let shift = "\n"@.len() as int;
    assert(all.subrange(at + shift, at + shift + rendered[i].len()) =~= body.subrange(
        at,
        at + rendered[i].len(),
    ));
    assert(occurs_at(all, rendered[i], at + shift));
}

} // verus!
