//! Looks up the newest published version of a crate on crates.io and turns the
//! registry's answer into a dependency line or a diagnostic.
//!
//! The library holds every decision of one run: the request URL, how an API
//! answer is read, the text written to stdout or stderr, the exit code, and
//! when the result goes to the clipboard. The program around it performs the
//! HTTP request, decodes the JSON body and writes to the clipboard, handing
//! each outcome back as plain values.

mod laws;
mod model;
mod report;
mod session;

pub use model::{ApiError, ApiResponse, Crate, FetchError, Opt};
pub use model::{FetchErrorView, OptView, ResponseView};
pub use report::{declaration, failure_message, request_url};
pub use report::{declaration_of, error_lines, failure_text, report_of, url_of};
pub use session::{Step, StepView};
pub use session::{after_copy, after_fetch, clipboard_writes, copied_view, failed, fetched_view};
pub use session::{first_step, outcome, succeeded};
pub use laws::{law_copy, law_found_prints_declaration, law_many_errors, law_no_errors_no_data};
pub use laws::{law_runs_repeat, law_single_error, law_verbose_detail, law_verbose_leaves_answers};
pub use laws::lemma_error_lines_in_order;
