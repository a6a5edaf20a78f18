use vstd::prelude::*;
use crate::model::{ApiError, ApiResponse, FetchError, FetchErrorView, Opt, OptView, ResponseView};
use crate::report::{declaration, failure_message, request_url};
use crate::report::{declaration_of, failure_text, report_of, url_of};

verus! {

/// What a run does next. The program performs `Fetch` and `Copy` and hands
/// their outcome back; `Exit` ends the run.
pub enum Step {
    /// GET this URL and decode the body; then call `Opt::on_fetched`.
    Fetch(String),
    /// Write this text to the clipboard; then call `Opt::on_copied`.
    Copy(String),
    /// Write `stdout` and `stderr` as they are and exit with `code`.
    Exit { code: i32, stdout: String, stderr: String },
}

pub enum StepView {
    Fetch(Seq<char>),
    Copy(Seq<char>),
    Exit { code: i32, stdout: Seq<char>, stderr: Seq<char> },
}

impl View for Step {
    type V = StepView;

    open spec fn view(&self) -> StepView {
        match self {
            Step::Fetch(u) => StepView::Fetch(u@),
            Step::Copy(t) => StepView::Copy(t@),
            Step::Exit { code, stdout, stderr } => StepView::Exit {
                code: *code,
                stdout: stdout@,
                stderr: stderr@,
            },
        }
    }
}

pub open spec fn fetched_view(f: Result<ApiResponse, FetchError>) -> Result<ResponseView, FetchErrorView> {
    match f {
        Ok(r) => Ok(r@),
        Err(e) => Err(e@),
    }
}

pub open spec fn copied_view(c: Result<(), String>) -> Result<(), Seq<char>> {
    match c {
        Ok(()) => Ok(()),
        Err(d) => Err(d@),
    }
}

/// A failed run: nothing on stdout, `text` on stderr, exit code 1.
pub open spec fn failed(text: Seq<char>) -> StepView {
    StepView::Exit { code: 1, stdout: Seq::empty(), stderr: text }
}

/// A successful run: `line` and a newline on stdout, exit code 0.
pub open spec fn succeeded(line: Seq<char>) -> StepView {
    StepView::Exit { code: 0, stdout: line + "\n"@, stderr: Seq::empty() }
}

/// The first step of a run.
pub open spec fn first_step(o: OptView) -> StepView {
    StepView::Fetch(url_of(o.crate_name))
}

/// The step that follows the request. The error list decides first: only an
/// answer without errors and with a crate succeeds.
pub open spec fn after_fetch(o: OptView, f: Result<ResponseView, FetchErrorView>) -> StepView {
    match f {
        Err(FetchErrorView::Transport(d)) => failed(
            report_of("crates.io API request failed"@, Some(d), o.verbose),
        ),
        Err(FetchErrorView::Decode(d)) => failed(
            report_of("Failed parsing crates.io API response"@, Some(d), o.verbose),
        ),
        Ok(r) => match r.max_version {
            Some(v) if r.errors.len() == 0 => {
                let line = declaration_of(o.crate_name, v);
                if o.clipboard {
                    StepView::Copy(line)
                } else {
                    succeeded(line)
                }
            },
            _ => failed(report_of(failure_text(r.errors), None, o.verbose)),
        },
    }
}

/// The step that follows the clipboard write of `line`.
pub open spec fn after_copy(o: OptView, line: Seq<char>, c: Result<(), Seq<char>>) -> StepView {
    match c {
        Ok(()) => succeeded(line),
        Err(d) => failed(report_of("Error copying result to clipboard"@, Some(d), o.verbose)),
    }
}

/// The texts that a run writes to the clipboard, given what the request gave.
pub open spec fn clipboard_writes(o: OptView, f: Result<ResponseView, FetchErrorView>) -> Seq<Seq<char>> {
    match after_fetch(o, f) {
        StepView::Copy(line) => seq![line],
        _ => Seq::empty(),
    }
}

/// How a run ends, given what the request and the clipboard write gave.
pub open spec fn outcome(
    o: OptView,
    f: Result<ResponseView, FetchErrorView>,
    c: Result<(), Seq<char>>,
) -> StepView {
    match after_fetch(o, f) {
        StepView::Copy(line) => after_copy(o, line, c),
        s => s,
    }
}

impl Opt {
    /// The first step of a run: fetch the crate's endpoint.
    pub fn start(&self) -> (r: Step)
        ensures
            r@ == first_step(self@),
    {
        Step::Fetch(request_url(self.crate_name.as_str()))
    }

    /// Decides the step after the request, from its result.
    pub fn on_fetched(&self, fetched: Result<ApiResponse, FetchError>) -> (r: Step)
        ensures
            r@ == after_fetch(self@, fetched_view(fetched)),
    {
        match fetched {
            Err(FetchError::Transport(d)) => {
                let text = self.exit_with_msg("crates.io API request failed", Some(d));
                Step::Exit { code: 1, stdout: String::new(), stderr: text }
            },
            Err(FetchError::Decode(d)) => {
                let text = self.exit_with_msg("Failed parsing crates.io API response", Some(d));
                Step::Exit { code: 1, stdout: String::new(), stderr: text }
            },
            Ok(resp) => {
                if resp.errors.len() == 0 {
                    if let Some(c) = &resp.crate_ {
                        let line = declaration(self.crate_name.as_str(), c.max_version.as_str());
                        if self.clipboard {
                            return Step::Copy(line);
                        } else {
                            let mut out = line;
                            out.append("\n");
                            return Step::Exit { code: 0, stdout: out, stderr: String::new() };
                        }
                    }
                }
                let msg = failure_message(&resp.errors);
                let text = self.exit_with_msg(msg.as_str(), None);
                Step::Exit { code: 1, stdout: String::new(), stderr: text }
            },
        }
    }

    /// Decides the step after `line` was written to the clipboard, from the
    /// result of that write.
    pub fn on_copied(&self, line: String, copied: Result<(), String>) -> (r: Step)
        ensures
            r@ == after_copy(self@, line@, copied_view(copied)),
    {
        match copied {
            Ok(()) => {
                let mut out = line;
                out.append("\n");
                Step::Exit { code: 0, stdout: out, stderr: String::new() }
            },
            Err(d) => {
                let text = self.exit_with_msg("Error copying result to clipboard", Some(d));
                Step::Exit { code: 1, stdout: String::new(), stderr: text }
            },
        }
    }
}

} // verus!
