use vstd::prelude::*;
use crate::model::{ApiError, Opt};

verus! {

/// The dependency line for `name` at `version`: `name = "version"`.
pub open spec fn declaration_of(name: Seq<char>, version: Seq<char>) -> Seq<char> {
    name + " = \""@ + version + "\""@
}

/// The endpoint that describes the crate `name`; the name goes in as it is.
pub open spec fn url_of(name: Seq<char>) -> Seq<char> {
    "https://crates.io/api/v1/crates/"@ + name
}

/// What a fatal error writes to stderr: the message on a line of its own and,
/// in verbose mode, a blank line and then the underlying error text.
pub open spec fn report_of(msg: Seq<char>, detail: Option<Seq<char>>, verbose: bool) -> Seq<char> {
    match detail {
        Some(d) if verbose => msg + "\n"@ + "\n"@ + d + "\n"@,
        _ => msg + "\n"@,
    }
}

/// One indented line per error detail, in the given order.
pub open spec fn error_lines(details: Seq<Seq<char>>) -> Seq<char>
    decreases details.len(),
{
    if details.len() == 0 {
        Seq::empty()
    } else {
        error_lines(details.drop_last()) + "  "@ + details.last() + "\n"@
    }
}

/// The diagnostic for an answer that carries no usable crate, by how many
/// errors the registry reported.
pub open spec fn failure_text(details: Seq<Seq<char>>) -> Seq<char> {
    if details.len() == 0 {
        "Something went wrong!\n"@ + "crates.io API request gave no errors and no data...\n"@
    } else if details.len() == 1 {
        "Something went wrong!\n"@ + "Error: "@ + details[0] + "\n"@
    } else {
        "Something went wrong!\n"@ + "Errors:\n"@ + error_lines(details)
    }
}

/// Builds `name = "version"`.
pub fn declaration(name: &str, version: &str) -> (r: String)
    ensures
        r@ == declaration_of(name@, version@),
{
    let mut r = String::from_str(name);
    r.append(" = \"");
    r.append(version);
    r.append("\"");
    r
}

/// The address of the crates.io endpoint for `crate_name`.
pub fn request_url(crate_name: &str) -> (r: String)
    ensures
        r@ == url_of(crate_name@),
{
    let mut r = String::from_str("https://crates.io/api/v1/crates/");
    r.append(crate_name);
    r
}

/// The diagnostic for an answer without a usable crate; see `failure_text`.
pub fn failure_message(errors: &Vec<ApiError>) -> (r: String)
    ensures
        r@ == failure_text(errors@.map_values(|e: ApiError| e.detail@)),
{
    let ghost details = errors@.map_values(|e: ApiError| e.detail@);
    let mut f = String::from_str("Something went wrong!\n");
    if errors.len() == 0 {
        f.append("crates.io API request gave no errors and no data...\n");
    } else if errors.len() == 1 {
        f.append("Error: ");
        f.append(errors[0].detail.as_str());
        f.append("\n");
    } else {
        f.append("Errors:\n");
        let ghost head = f@;
        let mut i: usize = 0;
        while i < errors.len()
            invariant
                i <= errors.len(),
                details == errors@.map_values(|e: ApiError| e.detail@),
                f@ == head + error_lines(details.take(i as int)),
            decreases errors.len() - i,
        {
            f.append("  ");
            f.append(errors[i].detail.as_str());
            f.append("\n");
            assert(details.take(i + 1).drop_last() =~= details.take(i as int));
            i = i + 1;
        }
        assert(details.take(errors.len() as int) =~= details);
    }
    f
}

impl Opt {
    /// The stderr text of a fatal error: `msg`, then, only in verbose mode and
    /// only when there is one, a blank line and the underlying error text.
    pub fn exit_with_msg(&self, msg: &str, detail: Option<String>) -> (r: String)
        ensures
            r@ == report_of(
                msg@,
                match detail {
                    Some(d) => Some(d@),
                    None => None,
                },
                self.verbose,
            ),
    {
        let mut r = String::from_str(msg);
        r.append("\n");
        if self.verbose {
            if let Some(d) = detail {
                r.append("\n");
                r.append(d.as_str());
                r.append("\n");
            }
        }
        r
    }
}

} // verus!
