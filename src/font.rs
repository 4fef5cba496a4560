//! The system's default user-interface font, as far as this library reads
//! it.
use vstd::prelude::*;

verus! {

/// A font: its display name, and the file path of its location where that
/// location is a file.
#[derive(Clone, Debug)]
pub struct Font {
    pub display_name: String,
    pub path: Option<String>,
}

/// The display name of the default font, if there is one.
pub fn get_default_font_name(font: Option<Font>) -> (r: Option<String>)
    ensures
        r == (match font {
            Some(f) => Some(f.display_name),
            None => None,
        }),
{
    match font {
        Some(f) => Some(f.display_name),
        None => None,
    }
}

/// The file path of the default font, if there is one and it lies in a
/// file.
pub fn get_default_font_path(font: Option<Font>) -> (r: Option<String>)
    ensures
        r == (match font {
            Some(f) => f.path,
            None => None,
        }),
{
    match font {
        Some(f) => f.path,
        None => None,
    }
}

} // verus!
