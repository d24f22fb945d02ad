//! The desktop's colour scheme.

use vstd::prelude::*;

verus! {

/// Whether the portal's `color-scheme` setting asks for a dark theme: it does
/// when the value is 1; a missing or unreadable value counts as 0.
pub fn dark_from_color_scheme(scheme: Option<u32>) -> (dark: bool)
    ensures
        dark == (scheme == Some(1u32)),
{
    let s = match scheme {
        Some(s) => s,
        None => 0,
    };
    s == 1
}

/// One reading of the theme watcher: the reading to remember, and whether the
/// window and the page must be told, which is only on a change.
pub open spec fn theme_step_spec(last: Option<bool>, dark: bool) -> (Option<bool>, bool) {
    (Some(dark), last != Some(dark))
}

/// One reading of the theme watcher.
pub fn theme_step(last: Option<bool>, dark: bool) -> (r: (Option<bool>, bool))
    ensures
        r == theme_step_spec(last, dark),
{
    if last != Some(dark) {
        (Some(dark), true)
    } else {
        (last, false)
    }
}

/// Law: the watcher reports each theme change once: reading the same theme
/// again right after reports nothing.
pub proof fn law_theme_reported_once(last: Option<bool>, dark: bool)
    ensures
        !theme_step_spec(theme_step_spec(last, dark).0, dark).1,
{
}

/// Law: every change of theme is reported, and the new reading is the one
/// remembered; a reading equal to the last one is not reported.
pub proof fn law_theme_changes_reported(last: Option<bool>, dark: bool)
    ensures
        theme_step_spec(last, dark).0 == Some(dark),
        theme_step_spec(last, dark).1 <==> last != Some(dark),
{
}

} // verus!
