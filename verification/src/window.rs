//! The few decisions about windows that are not the windowing toolkit's.

use vstd::prelude::*;
use vstd::string::*;

verus! {

/// Name of the file, inside the data directory, in which the geometry of
/// the windows is kept between runs.
pub open spec fn state_file_name_spec() -> Seq<char> {
    ".window-state.json"@
}

/// Name of the file, inside the data directory, in which the geometry of
/// the windows is kept between runs. The launcher only asks whether it
/// exists and never reads it.
pub fn state_file_name() -> (name: &'static str)
    ensures
        name@ == state_file_name_spec(),
{
    ".window-state.json"
}

/// Whether the main window is to be sized and centred from the primary
/// display: only on a first run, when no geometry has been kept yet.
pub fn needs_first_run_sizing(state_file_exists: bool) -> (needed: bool)
    ensures
        needed == !state_file_exists,
{
    !state_file_exists
}

/// Title of the debug console window of the product called `product`.
pub open spec fn debug_title(product: Seq<char>) -> Seq<char> {
    product + " - Backend Debug Console"@
}

/// Builds the title of the debug console window.
pub fn debug_window_title(product: &str) -> (title: String)
    ensures
        title@ == debug_title(product@),
{
    let mut title = String::from_str(product);
    title.append(" - Backend Debug Console");
    title
}

} // verus!
