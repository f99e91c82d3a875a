//! The icons that stand for each status.

use crate::state::Status;
use vstd::prelude::*;

verus! {

/// The icon of the desktop's theme that stands for `status`.
pub open spec fn theme_icon(status: Status) -> Seq<char> {
    match status {
        Status::Checking => "view-refresh-symbolic"@,
        Status::UpToDate => "emblem-default"@,
        Status::UpdatesAvailable => "software-update-available"@,
        Status::Error => "dialog-error"@,
    }
}

/// The tracker's own icon that stands for `status`.
pub open spec fn fallback_icon(status: Status) -> Seq<char> {
    match status {
        Status::Checking => "pactrack-checking"@,
        Status::UpToDate => "pactrack-up-to-date"@,
        Status::UpdatesAvailable => "pactrack-updates-available"@,
        Status::Error => "pactrack-error"@,
    }
}

/// The names of the two icons that stand for `status`: first the one of
/// the desktop's theme, then the tracker's own, for where the theme has
/// none.
pub fn icon_candidates(status: &Status) -> (names: (&'static str, &'static str))
    ensures
        names.0@ == theme_icon(*status),
        names.1@ == fallback_icon(*status),
{
    match status {
        Status::Checking => ("view-refresh-symbolic", "pactrack-checking"),
        Status::UpToDate => ("emblem-default", "pactrack-up-to-date"),
        Status::UpdatesAvailable => ("software-update-available", "pactrack-updates-available"),
        Status::Error => ("dialog-error", "pactrack-error"),
    }
}

/// The name of the icon to show for `status`: the one of the desktop's
/// theme where the theme has it, else the tracker's own.
pub fn choose_icon_name(status: &Status, in_theme: bool) -> (name: &'static str)
    ensures
        name@ == if in_theme {
            theme_icon(*status)
        } else {
            fallback_icon(*status)
        },
{
    let (theme, fallback) = icon_candidates(status);
    if in_theme {
        theme
    } else {
        fallback
    }
}

} // verus!
