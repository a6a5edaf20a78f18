use vstd::prelude::*;
use crate::model::{FetchErrorView, OptView, ResponseView};
use crate::report::{declaration_of, error_lines, report_of};
use crate::session::{clipboard_writes, failed, outcome, succeeded, StepView};

verus! {

/// The indented error lines are the error details in order, each as `"  "`,
/// the detail and a newline, and nothing else.
pub proof fn lemma_error_lines_in_order(details: Seq<Seq<char>>)
    ensures
        error_lines(details) == details.map_values(|d: Seq<char>| "  "@ + d + "\n"@).flatten(),
    decreases details.len(),
{
    let lines = details.map_values(|d: Seq<char>| "  "@ + d + "\n"@);
    lines.lemma_flatten_and_flatten_alt_are_equivalent();
    if details.len() > 0 {
        lemma_error_lines_in_order(details.drop_last());
        let rest = details.drop_last().map_values(|d: Seq<char>| "  "@ + d + "\n"@);
        assert(lines.drop_last() =~= rest);
        rest.lemma_flatten_and_flatten_alt_are_equivalent();
        assert(error_lines(details) =~= lines.flatten_alt());
    }
}

/// An answer with a crate and no errors prints `<name> = "<version>"` on a
/// line of its own and exits with 0, unless a requested clipboard write fails.
pub proof fn law_found_prints_declaration(
    o: OptView,
    r: ResponseView,
    v: Seq<char>,
    c: Result<(), Seq<char>>,
)
    requires
        r.max_version == Some(v),
        r.errors.len() == 0,
        !o.clipboard || c is Ok,
    ensures
        outcome(o, Ok(r), c) == (StepView::Exit {
            code: 0,
            stdout: declaration_of(o.crate_name, v) + "\n"@,
            stderr: Seq::empty(),
        }),
{
}

/// An answer with exactly one error `d` writes `Error: <d>` under the
/// headline and exits with 1, whatever the options and the crate field.
pub proof fn law_single_error(o: OptView, r: ResponseView, d: Seq<char>, c: Result<(), Seq<char>>)
    requires
        r.errors == seq![d],
    ensures
        outcome(o, Ok(r), c) == failed(
            "Something went wrong!\n"@ + "Error: "@ + d + "\n"@ + "\n"@,
        ),
{
}

/// An answer with more than one error writes `Errors:` under the headline,
/// then one indented line per error in the answer's order, and exits with 1.
pub proof fn law_many_errors(o: OptView, r: ResponseView, c: Result<(), Seq<char>>)
    requires
        r.errors.len() > 1,
    ensures
        outcome(o, Ok(r), c) == failed(
            "Something went wrong!\n"@ + "Errors:\n"@ + r.errors.map_values(
                |d: Seq<char>| "  "@ + d + "\n"@,
            ).flatten() + "\n"@,
        ),
{
    lemma_error_lines_in_order(r.errors);
}

/// An answer with neither a crate nor errors says that it had no errors and
/// no data, and exits with 1.
pub proof fn law_no_errors_no_data(o: OptView, r: ResponseView, c: Result<(), Seq<char>>)
    requires
        r.max_version is None,
        r.errors.len() == 0,
    ensures
        outcome(o, Ok(r), c) == failed(
            "Something went wrong!\n"@ + "crates.io API request gave no errors and no data...\n"@
                + "\n"@,
        ),
{
}

/// A run depends on its options and on what the request and the clipboard
/// gave, and on nothing else: the same inputs end the same way and copy the
/// same texts.
pub proof fn law_runs_repeat(
    o1: OptView,
    f1: Result<ResponseView, FetchErrorView>,
    c1: Result<(), Seq<char>>,
    o2: OptView,
    f2: Result<ResponseView, FetchErrorView>,
    c2: Result<(), Seq<char>>,
)
    requires
        o1 == o2,
        f1 == f2,
        c1 == c2,
    ensures
        outcome(o1, f1, c1) == outcome(o2, f2, c2),
        clipboard_writes(o1, f1) == clipboard_writes(o2, f2),
{
}

/// With the copy option, a successful lookup writes exactly the success line
/// to the clipboard once; if that write fails the run exits with 1. Without
/// the option nothing is written to the clipboard.
pub proof fn law_copy(o: OptView, r: ResponseView, v: Seq<char>, d: Seq<char>)
    requires
        r.max_version == Some(v),
        r.errors.len() == 0,
    ensures
        o.clipboard ==> clipboard_writes(o, Ok(r)) == seq![declaration_of(o.crate_name, v)],
        o.clipboard ==> outcome(o, Ok(r), Err(d)) == failed(
            report_of("Error copying result to clipboard"@, Some(d), o.verbose),
        ),
        o.clipboard ==> outcome(o, Ok(r), Ok(())) == succeeded(declaration_of(o.crate_name, v)),
        !o.clipboard ==> clipboard_writes(o, Ok(r)) == Seq::<Seq<char>>::empty(),
{
}

/// The verbose option adds a blank line and the underlying error text after
/// the message of a transport, decode or clipboard failure; without it only
/// the message is written.
pub proof fn law_verbose_detail(o: OptView, msg: Seq<char>, d: Seq<char>, r: ResponseView)
    ensures
        report_of(msg, Some(d), o.verbose) == if o.verbose {
            msg + "\n"@ + "\n"@ + d + "\n"@
        } else {
            msg + "\n"@
        },
        outcome(o, Err(FetchErrorView::Transport(d)), Ok(())) == failed(
            report_of("crates.io API request failed"@, Some(d), o.verbose),
        ),
        outcome(o, Err(FetchErrorView::Decode(d)), Ok(())) == failed(
            report_of("Failed parsing crates.io API response"@, Some(d), o.verbose),
        ),
        o.clipboard && r.errors.len() == 0 && r.max_version is Some ==> outcome(
            o,
            Ok(r),
            Err(d),
        ) == failed(report_of("Error copying result to clipboard"@, Some(d), o.verbose)),
{
}

/// The verbose option changes nothing in how an answer of the registry is
/// reported: it only concerns failures that carry an underlying error.
pub proof fn law_verbose_leaves_answers(
    o: OptView,
    r: ResponseView,
    c: Result<(), Seq<char>>,
)
    requires
        c is Ok,
    ensures
        outcome(o, Ok(r), c) == outcome(OptView { verbose: !o.verbose, ..o }, Ok(r), c),
{
}

} // verus!
