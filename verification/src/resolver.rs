//! Which subtitle to take from the candidates that a search returned.
//!
//! Without a dialog the first candidate whose fingerprint matched is taken,
//! and the first candidate of all where none matched. With a dialog the row
//! that the user chose is taken, by its position in the list.

use crate::error::OsdError;
use vstd::prelude::*;

verus! {

/// One subtitle that the catalog offers for a query.
#[derive(Debug, Clone, PartialEq, Eq)]
pub struct SubtitleCandidate {
    /// The file name of the subtitle, as shown to the user.
    pub display_name: String,
    /// The identifier under which the catalog hands out the file.
    pub remote_file_id: i64,
    /// Whether the catalog found the subtitle by the video's fingerprint.
    pub fingerprint_matched: bool,
}

/// What came back from the dialog in which the user picks a subtitle.
#[derive(Debug, Clone, Copy, PartialEq, Eq, Structural)]
pub enum ChooserOutcome {
    /// The user chose the row at this position, counted from zero.
    Chosen(usize),
    /// The user closed the dialog without choosing.
    Cancelled,
    /// The dialog program could not be started.
    Unavailable,
    /// The dialog ended well, but its answer names no row.
    Unreadable,
}

/// Whether no candidate before position `end` matched by fingerprint.
pub open spec fn none_matched_before(candidates: Seq<SubtitleCandidate>, end: int) -> bool {
    forall|j: int| 0 <= j < end ==> !(#[trigger] candidates[j]).fingerprint_matched
}

/// Whether `i` is the position that is taken without a dialog: that of the
/// first candidate that matched by fingerprint, or the first position of all
/// where no candidate matched.
pub open spec fn is_automatic_pick(candidates: Seq<SubtitleCandidate>, i: int) -> bool {
    &&& 0 <= i < candidates.len()
    &&& none_matched_before(candidates, i)
    &&& candidates[i].fingerprint_matched || (i == 0 && none_matched_before(
        candidates,
        candidates.len() as int,
    ))
}

/// No list of candidates has two automatic picks.
pub proof fn lemma_automatic_pick_is_unique(candidates: Seq<SubtitleCandidate>, i: int, j: int)
    requires
        is_automatic_pick(candidates, i),
        is_automatic_pick(candidates, j),
    ensures
        i == j,
{
}

/// The position that is taken without a dialog, if there is any candidate.
pub fn automatic_pick(candidates: &Vec<SubtitleCandidate>) -> (pick: Option<usize>)
    ensures
        candidates.len() == 0 ==> pick is None,
        candidates.len() > 0 ==> pick is Some && is_automatic_pick(
            candidates@,
            pick->Some_0 as int,
        ),
{
    let mut i: usize = 0;
    while i < candidates.len()
        invariant
            i <= candidates.len(),
            none_matched_before(candidates@, i as int),
        decreases candidates.len() - i,
    {
        if candidates[i].fingerprint_matched {
            return Some(i);
        }
        i = i + 1;
    }
    if candidates.len() == 0 {
        None
    } else {
        Some(0)
    }
}

/// The identifier that is taken without a dialog.
pub fn resolve_automatic(candidates: &Vec<SubtitleCandidate>) -> (r: Result<i64, OsdError>)
    ensures
        candidates.len() == 0 ==> r == Err::<i64, OsdError>(OsdError::Empty),
        candidates.len() > 0 ==> exists|i: int|
            is_automatic_pick(candidates@, i) && r == Ok::<i64, OsdError>(
                candidates@[i].remote_file_id,
            ),
{
    match automatic_pick(candidates) {
        Some(i) => Ok(candidates[i].remote_file_id),
        None => Err(OsdError::Empty),
    }
}

/// What the answer of the dialog leads to: the identifier of the chosen row,
/// or the failure that the answer stands for.
pub open spec fn chosen_outcome(candidates: Seq<SubtitleCandidate>, answer: ChooserOutcome) -> Result<
    i64,
    OsdError,
> {
    if candidates.len() == 0 {
        Err(OsdError::Empty)
    } else {
        match answer {
            ChooserOutcome::Chosen(i) => if i < candidates.len() {
                Ok(candidates[i as int].remote_file_id)
            } else {
                Err(OsdError::InvalidSelection)
            },
            ChooserOutcome::Cancelled => Err(OsdError::SelectionCancelled),
            ChooserOutcome::Unavailable => Err(OsdError::ChooserUnavailable),
            ChooserOutcome::Unreadable => Err(OsdError::InvalidSelection),
        }
    }
}

/// The identifier of the row that the user chose in the dialog. The row is
/// found by its position, so two candidates of one name stay apart.
pub fn resolve_chosen(candidates: &Vec<SubtitleCandidate>, answer: ChooserOutcome) -> (r: Result<
    i64,
    OsdError,
>)
    ensures
        r == chosen_outcome(candidates@, answer),
{
    if candidates.len() == 0 {
        return Err(OsdError::Empty);
    }
    match answer {
        ChooserOutcome::Chosen(i) => {
            if i < candidates.len() {
                Ok(candidates[i].remote_file_id)
            } else {
                Err(OsdError::InvalidSelection)
            }
        },
        ChooserOutcome::Cancelled => Err(OsdError::SelectionCancelled),
        ChooserOutcome::Unavailable => Err(OsdError::ChooserUnavailable),
        ChooserOutcome::Unreadable => Err(OsdError::InvalidSelection),
    }
}

/// Whether `r` is the identifier that is taken from the candidates, or the
/// failure to take one: `Empty` where there is no candidate, else what the
/// answer of the dialog leads to where a dialog was shown, and the automatic
/// pick where none was.
pub open spec fn is_resolution(
    candidates: Seq<SubtitleCandidate>,
    interactive: bool,
    answer: ChooserOutcome,
    r: Result<i64, OsdError>,
) -> bool {
    if candidates.len() == 0 {
        r == Err::<i64, OsdError>(OsdError::Empty)
    } else if interactive {
        r == chosen_outcome(candidates, answer)
    } else {
        exists|i: int|
            is_automatic_pick(candidates, i) && r == Ok::<i64, OsdError>(
                candidates[i].remote_file_id,
            )
    }
}

/// The identifier of the one subtitle to fetch.
///
/// With `interactive` unset the answer is not looked at, and the automatic
/// pick is taken. With it set the answer of the dialog decides, and a dialog
/// that was cancelled ends the run with `OsdError::SelectionCancelled`.
pub fn resolve(candidates: &Vec<SubtitleCandidate>, interactive: bool, answer: ChooserOutcome) -> (r:
    Result<i64, OsdError>)
    ensures
        is_resolution(candidates@, interactive, answer, r),
        interactive && candidates.len() > 0 && answer == ChooserOutcome::Cancelled ==> r == Err::<
            i64,
            OsdError,
        >(OsdError::SelectionCancelled),
{
    if interactive {
        resolve_chosen(candidates, answer)
    } else {
        resolve_automatic(candidates)
    }
}

} // verus!
