//! The command-line arguments and where they send the output: to standard
//! output for `-f -`, to the named file for any other `-f`, else to the
//! dated default file.

use vstd::prelude::*;
use crate::csv_output::{default_filename, filename_spec, is_ymd_date};

verus! {

broadcast use vstd::string::group_string_axioms;

/// The parsed command line.
#[derive(Debug, Clone)]
pub struct Args {
    /// GitHub organization (or user) owning the repository (`-o`).
    pub organization: String,
    /// Repository name (`-r`).
    pub repository: String,
    /// Output file (`-f`); `-` means standard output.
    pub file: Option<String>,
}

/// Where the CSV rows go.
#[derive(Debug)]
pub enum OutputTarget {
    /// Standard output; progress display is then suppressed.
    Stdout,
    /// The file at this path.
    File(String),
}

/// Whether a `-f` value asks for standard output.
pub open spec fn is_stdout_marker(path: Seq<char>) -> bool {
    path == "-"@
}

/// Whether `path` is the standard-output marker `-`.
pub fn is_stdout_path(path: &str) -> (res: bool)
    ensures
        res == is_stdout_marker(path@),
{
    proof {
        reveal_strlit("-");
    }
    if path.unicode_len() != 1 {
        return false;
    }
    let c = path.get_char(0);
    assert(c == '-' ==> path@ =~= "-"@);
    c == '-'
}

impl Args {
    /// Whether the rows go to standard output (`-f -`).
    pub open spec fn writes_to_stdout(self) -> bool {
        self.file matches Some(f) && is_stdout_marker(f@)
    }

    /// Whether progress is displayed: always, except when the rows go to
    /// standard output.
    pub fn show_progress(&self) -> (show: bool)
        ensures
            show == !self.writes_to_stdout(),
    {
        match &self.file {
            Some(f) => !is_stdout_path(f.as_str()),
            None => true,
        }
    }

    /// Where the rows go: standard output for `-f -`, the given file for
    /// any other `-f`, else the default file name dated today.
    pub fn output_target(&self) -> (target: OutputTarget)
        ensures
            (target is Stdout) == self.writes_to_stdout(),
            (self.file matches Some(f) && !is_stdout_marker(f@)) ==> (target matches OutputTarget::File(
                p,
            ) && p@ == self.file.unwrap()@),
            self.file is None ==> (target matches OutputTarget::File(p) && exists|date: Seq<char>|
                is_ymd_date(date) && p@ == filename_spec(self.organization@, self.repository@, date)),
    {
        match &self.file {
            Some(f) => if is_stdout_path(f.as_str()) {
                OutputTarget::Stdout
            } else {
                OutputTarget::File(f.clone())
            },
            None => OutputTarget::File(
                default_filename(self.organization.as_str(), self.repository.as_str()),
            ),
        }
    }
}

/// Rows go to standard output exactly when `-f` is given the value `-`;
/// `show_progress` and `output_target` both decide by this.
pub proof fn lemma_progress_hidden_exactly_for_stdout(args: Args)
    ensures
        args.writes_to_stdout() == (args.file is Some && is_stdout_marker(args.file.unwrap()@)),
{
}

} // verus!
