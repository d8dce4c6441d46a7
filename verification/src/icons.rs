//! Icon assets shown for each state of the booster.

use vstd::prelude::*;
use vstd::string::*;

verus! {

/// The system is idle and the booster is active.
pub const IDLE: &'static str = "assets/icons/player-play.svg";

/// The system is busy.
pub const BUSY: &'static str = "assets/icons/cpu.svg";

/// The booster is paused.
pub const PAUSED: &'static str = "assets/icons/player-stop.svg";

/// Named icon of the desktop theme, used where an asset file is absent.
pub const FALLBACK: &'static str = "dialog-information";

/// The icon that is shown for `path`: the path itself where its file is
/// present, the generic information icon otherwise.
pub open spec fn resolved_icon(path: Seq<char>, present: bool) -> Seq<char> {
    if present {
        path
    } else {
        FALLBACK@
    }
}

/// Picks the icon to display for the asset at `path`, given whether the file
/// is `present` on disk.
pub fn resolve_icon(path: &str, present: bool) -> (icon: String)
    ensures
        icon@ == resolved_icon(path@, present),
{
    if present {
        String::from_str(path)
    } else {
        String::from_str(FALLBACK)
    }
}

} // verus!
