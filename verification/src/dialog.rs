//! Decisions behind the file dialogs: classifying what a dialog handed back,
//! and choosing the save dialog's filter from the suggested file name.
//!
//! The dialogs themselves belong to the windowing layer; they deliver their
//! result over a channel as plain values, which are classified here. A user
//! dismissing a dialog is reported apart from the channel failing.

use vstd::prelude::*;
use vstd::string::StrSliceExecFns;

verus! {

/// Why a dialog produced no value: the user dismissed it, or the reply
/// channel closed without delivering a selection.
#[derive(Clone, Copy, PartialEq, Eq, Structural, Debug)]
pub enum SelectionError {
    Cancelled,
    ChannelClosed,
}

/// Classify what came over a dialog's reply channel: `None` when the channel
/// closed, `Some(None)` when the user dismissed, `Some(Some(v))` on a choice.
pub fn selection_result<T>(received: Option<Option<T>>) -> (r: Result<T, SelectionError>)
    ensures
        received matches Some(Some(value)) ==> (r matches Ok(v) && v == value),
        received matches Some(None::<T>) ==> r == Err::<T, SelectionError>(
            SelectionError::Cancelled,
        ),
        received is None ==> r == Err::<T, SelectionError>(SelectionError::ChannelClosed),
{
    match received {
        Some(Some(value)) => Ok(value),
        Some(None) => Err(SelectionError::Cancelled),
        None => Err(SelectionError::ChannelClosed),
    }
}

/// Which filter the save dialog leads with, decided by the suggested name.
#[derive(Clone, Copy, PartialEq, Eq, Structural, Debug)]
pub enum SaveDialogFilter {
    Json,
    Csv,
}

/// `.json` occurs at position `i`, letters in either case.
pub open spec fn json_marker_at(s: Seq<char>, i: int) -> bool {
    &&& s[i] == '.'
    &&& (s[i + 1] == 'j' || s[i + 1] == 'J')
    &&& (s[i + 2] == 's' || s[i + 2] == 'S')
    &&& (s[i + 3] == 'o' || s[i + 3] == 'O')
    &&& (s[i + 4] == 'n' || s[i + 4] == 'N')
}

/// `.json` occurs somewhere in the name, letters in either case.
pub open spec fn has_json_marker(s: Seq<char>) -> bool {
    exists|i: int| 0 <= i && i + 5 <= s.len() && json_marker_at(s, i)
}

/// Lead with the JSON filter when the suggested name mentions `.json` in any
/// letter case, else with the CSV filter.
pub fn save_filter_for(name: &str) -> (f: SaveDialogFilter)
    ensures
        (f is Json) == has_json_marker(name@),
{
    let n = name.unicode_len();
    if n < 5 {
        return SaveDialogFilter::Csv;
    }
    let mut i: usize = 0;
    while i <= n - 5
        invariant
            5 <= n,
            n == name@.len(),
            i <= n,
            forall|k: int| 0 <= k < i ==> !json_marker_at(name@, k),
        decreases n - i,
    {
        let c0 = name.get_char(i);
        let c1 = name.get_char(i + 1);
        let c2 = name.get_char(i + 2);
        let c3 = name.get_char(i + 3);
        let c4 = name.get_char(i + 4);
        if c0 == '.' && (c1 == 'j' || c1 == 'J') && (c2 == 's' || c2 == 'S') && (c3 == 'o' || c3
            == 'O') && (c4 == 'n' || c4 == 'N') {
            proof {
                assert(json_marker_at(name@, i as int));
            }
            return SaveDialogFilter::Json;
        }
        i = i + 1;
    }
    SaveDialogFilter::Csv
}

} // verus!
