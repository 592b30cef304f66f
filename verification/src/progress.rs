//! What progress display each stream gets: none in silent mode, a bar when
//! the number of users is known, a spinner otherwise, labelled
//! `Fetching {kind} data`. Drawing it on the terminal is left to the
//! application.

use vstd::prelude::*;

verus! {

/// The display template of a bar with a known length.
pub open spec fn bar_template() -> Seq<char> {
    "{prefix}: {bar:40} {pos}/{len} [{elapsed_precise} < {eta_precise}] {per_sec}"@
}

/// The display template of a spinner for an unknown length.
pub open spec fn spinner_template() -> Seq<char> {
    "{prefix}: {spinner} {pos} [{elapsed_precise}] {per_sec}"@
}

/// The label shown before the progress: `Fetching {description} data`.
pub open spec fn progress_label(description: Seq<char>) -> Seq<char> {
    "Fetching "@ + description + " data"@
}

/// The progress display to create.
#[derive(Debug)]
pub enum ProgressPlan {
    /// Nothing is drawn.
    Hidden,
    /// A bar of `len` steps, drawn with `template`, labelled `label`.
    Bar { len: u64, template: String, label: String },
    /// A spinner, drawn with `template`, labelled `label`.
    Spinner { template: String, label: String },
}

/// The display for a stream of `total` users (when known), described by
/// `description`; hidden when `silent`.
pub fn progress_plan(total: Option<u64>, description: &str, silent: bool) -> (plan: ProgressPlan)
    ensures
        silent ==> plan is Hidden,
        !silent && total is Some ==> (plan matches ProgressPlan::Bar { len, template, label }
            && len == total.unwrap() && template@ == bar_template() && label@ == progress_label(
            description@,
        )),
        !silent && total is None ==> (plan matches ProgressPlan::Spinner { template, label }
            && template@ == spinner_template() && label@ == progress_label(description@)),
{
    if silent {
        return ProgressPlan::Hidden;
    }
    let mut label = String::from_str("Fetching ");
    label.append(description);
    label.append(" data");
    match total {
        Some(t) => ProgressPlan::Bar {
            len: t,
            template: String::from_str(
                "{prefix}: {bar:40} {pos}/{len} [{elapsed_precise} < {eta_precise}] {per_sec}",
            ),
            label,
        },
        None => ProgressPlan::Spinner {
            template: String::from_str("{prefix}: {spinner} {pos} [{elapsed_precise}] {per_sec}"),
            label,
        },
    }
}

} // verus!
