//! The window locator: resolve a logical window reference to a live window.
//!
//! A command names its window by an optional label. The host hands the
//! locator the labels of every live window, in the host's own order, and
//! the locator picks one by a fixed fallback chain: the requested label if
//! a window carries it, then the label `main`, then the well-known label
//! `plex-webview`, then simply the first window. Resolution fails only when
//! no window exists at all.

use vstd::prelude::*;
use vstd::string::StringExecFns;

use crate::error::ShellError;

verus! {

/// Some live window carries this label.
pub open spec fn has_label(labels: Seq<String>, target: Seq<char>) -> bool {
    exists|i: int| 0 <= i < labels.len() && labels[i]@ == target
}

/// The label the fallback chain settles on, or nothing when no window
/// exists: the requested label where present, else `main`, else
/// `plex-webview`, else the first window's label.
pub open spec fn resolved_label(labels: Seq<String>, requested: Option<Seq<char>>) -> Option<
    Seq<char>,
> {
    if requested is Some && has_label(labels, requested->0) {
        requested
    } else if has_label(labels, "main"@) {
        Some("main"@)
    } else if has_label(labels, "plex-webview"@) {
        Some("plex-webview"@)
    } else if labels.len() > 0 {
        Some(labels[0]@)
    } else {
        None
    }
}

/// The view of an optional label.
pub open spec fn requested_view(requested: Option<String>) -> Option<Seq<char>> {
    match requested {
        Some(s) => Some(s@),
        None => None,
    }
}

/// The first window carrying the given label, if any.
fn find_label(labels: &Vec<String>, target: &String) -> (r: Option<usize>)
    ensures
        r matches Some(i) ==> i < labels.len() && labels[i as int]@ == target@ && (forall|j: int|
            0 <= j < i ==> labels[j]@ != target@),
        r is None <==> !has_label(labels@, target@),
{
    let mut k: usize = 0;
    while k < labels.len()
        invariant
            k <= labels.len(),
            forall|j: int| 0 <= j < k ==> labels[j]@ != target@,
        decreases labels.len() - k,
    {
        if labels[k].eq(target) {
            return Some(k);
        }
        k += 1;
    }
    None
}

/// Resolve an optional window label to the index of a live window, walking
/// the fallback chain. The result indexes the host's label list; where a
/// label is matched, it is the first window carrying it. The only failure
/// is an empty list: with any window present the chain always lands on one.
pub fn get_window_by_label(labels: &Vec<String>, window_label: &Option<String>) -> (r: Result<
    usize,
    ShellError,
>)
    ensures
        r matches Ok(i) ==> {
            &&& i < labels.len()
            &&& Some(labels[i as int]@) == resolved_label(labels@, requested_view(*window_label))
            &&& forall|j: int| 0 <= j < i ==> labels[j]@ != labels[i as int]@
        },
        r is Err <==> labels.len() == 0,
        r matches Err(e) ==> e == ShellError::WindowNotFound,
{
    if let Some(requested) = window_label {
        if let Some(i) = find_label(labels, requested) {
            return Ok(i);
        }
    }
    let main_label = String::from_str("main");
    if let Some(i) = find_label(labels, &main_label) {
        return Ok(i);
    }
    let webview_label = String::from_str("plex-webview");
    if let Some(i) = find_label(labels, &webview_label) {
        return Ok(i);
    }
    if labels.len() > 0 {
        return Ok(0);
    }
    Err(ShellError::WindowNotFound)
}

} // verus!
