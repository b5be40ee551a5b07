//! Results of desktop portal dialogs and notification priorities.
//!
//! The dialogs themselves run in the runtime; this module decides what a
//! dialog's answer means for the caller.

use vstd::prelude::*;
use std::path::PathBuf;

verus! {

/// File-system paths, carried through unchanged.
#[verifier::external_type_specification]
#[verifier::external_body]
pub struct ExPathBuf(PathBuf);

/// Identifier under which notifications are sent.
pub const NOTIFICATION_ID: &'static str = "fs-notification";

/// Result of an open-file dialog.
#[derive(Debug, Clone)]
pub struct OpenFileResult {
    /// Selected file paths (empty when the user cancelled).
    pub paths: Vec<PathBuf>,
}

/// Priority level for desktop notifications.
#[derive(Debug, Clone, Copy, PartialEq, Eq, Structural)]
pub enum NotificationLevel {
    Low,
    Normal,
    High,
    Urgent,
}

/// The paths among `selected`, in order, skipping the entries that do not
/// name a local file.
pub open spec fn local_paths(selected: Seq<Option<PathBuf>>) -> Seq<PathBuf>
    decreases selected.len(),
{
    if selected.len() == 0 {
        Seq::empty()
    } else {
        match selected[0] {
            Some(p) => seq![p] + local_paths(selected.skip(1)),
            None => local_paths(selected.skip(1)),
        }
    }
}

/// Build the result of an open-file dialog from its selected entries, each
/// already converted to a local path where it names one.
pub fn open_file_result(selected: Vec<Option<PathBuf>>) -> (r: OpenFileResult)
    ensures
        r.paths@ == local_paths(selected@),
{
    let ghost all = selected@;
    let mut rest = selected;
    let mut paths: Vec<PathBuf> = Vec::new();
    while rest.len() > 0
        invariant
            paths@ + local_paths(rest@) == local_paths(all),
        decreases rest@.len(),
    {
        let ghost before = rest@;
        let item = rest.remove(0);
        assert(rest@ =~= before.skip(1));
        match item {
            Some(p) => {
                let ghost old_paths = paths@;
                paths.push(p);
                assert(paths@ + local_paths(rest@) =~= old_paths + (seq![p] + local_paths(
                    before.skip(1),
                )));
            },
            None => {},
        }
    }
    assert(paths@ + Seq::<PathBuf>::empty() =~= paths@);
    OpenFileResult { paths }
}

/// The result of an open-file dialog: nothing selected when the dialog was
/// cancelled or failed (`answer` is `None`), otherwise the selected entries
/// that name local files, in order.
pub fn open_file_outcome(answer: Option<Vec<Option<PathBuf>>>) -> (r: OpenFileResult)
    ensures
        match answer {
            None => r.paths@.len() == 0,
            Some(v) => r.paths@ == local_paths(v@),
        },
{
    match answer {
        None => OpenFileResult { paths: Vec::new() },
        Some(v) => open_file_result(v),
    }
}

/// The path chosen in a save-file dialog: nothing when the dialog was
/// cancelled or failed (`answer` is `None`), otherwise the first selected
/// entry if it names a local file.
pub fn saved_path(answer: Option<Vec<Option<PathBuf>>>) -> (r: Option<PathBuf>)
    ensures
        match answer {
            None => r is None,
            Some(v) => if v@.len() == 0 {
                r is None
            } else {
                r == v@[0]
            },
        },
{
    match answer {
        None => None,
        Some(v) => {
            let mut v = v;
            if v.len() == 0 {
                None
            } else {
                v.remove(0)
            }
        },
    }
}

/// Keeping the local paths works piece by piece: the paths of two runs of
/// entries one after the other are the paths of the first run followed by
/// those of the second. A single entry keeps its path if it has one and
/// nothing otherwise.
pub proof fn lemma_local_paths_concat(a: Seq<Option<PathBuf>>, b: Seq<Option<PathBuf>>)
    ensures
        local_paths(a + b) == local_paths(a) + local_paths(b),
        local_paths(Seq::<Option<PathBuf>>::empty()).len() == 0,
        forall|p: PathBuf| #[trigger] local_paths(seq![Some(p)]) == seq![p],
        local_paths(seq![None::<PathBuf>]).len() == 0,
        local_paths(a).len() <= a.len(),
    decreases a.len(),
{
    assert(local_paths(Seq::<Option<PathBuf>>::empty()) == Seq::<PathBuf>::empty());
    assert forall|p: PathBuf| #[trigger] local_paths(seq![Some(p)]) == seq![p] by {
        assert(seq![Some(p)].skip(1) =~= Seq::<Option<PathBuf>>::empty());
        assert(local_paths(seq![Some(p)]) == seq![p] + local_paths(seq![Some(p)].skip(1)));
        assert(seq![p] + Seq::<PathBuf>::empty() =~= seq![p]);
    }
    assert(seq![None::<PathBuf>].skip(1) =~= Seq::<Option<PathBuf>>::empty());
    assert(local_paths(seq![None::<PathBuf>]) == local_paths(seq![None::<PathBuf>].skip(1)));
    if a.len() == 0 {
        assert(a + b =~= b);
        assert(Seq::<PathBuf>::empty() + local_paths(b) =~= local_paths(b));
    } else {
        lemma_local_paths_concat(a.skip(1), b);
        assert((a + b).skip(1) =~= a.skip(1) + b);
        assert((a + b)[0] == a[0]);
        match a[0] {
            Some(p) => {
                assert(seq![p] + (local_paths(a.skip(1)) + local_paths(b)) =~= (seq![p] + local_paths(
                    a.skip(1),
                )) + local_paths(b));
            },
            None => {},
        }
    }
}

} // verus!
