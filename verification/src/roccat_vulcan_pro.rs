//! Keyboard layout selection of the ROCCAT Vulcan Pro view of the GUI.

use vstd::prelude::*;

use crate::text::{ascii_lowercase, is_ascii_text, lowercase, text_is, to_lowercase};

verus! {

/// The key definition tables that the keyboard view can draw.
#[derive(Debug, Clone, Copy, PartialEq, Eq, Structural)]
pub enum KeyLayout {
    /// Generic keyboard with QWERTZ (de_DE) layout.
    GenericQwertz,
    /// Generic keyboard with QWERTY (en_US) layout.
    GenericQwerty,
}

/// The table for a lowercase layout name: QWERTY for `en_us` and `en_uk`,
/// QWERTZ for everything else.
pub open spec fn spec_key_layout(name: Seq<char>) -> KeyLayout {
    if name == "generic"@ || name == "de_de"@ {
        KeyLayout::GenericQwertz
    } else if name == "en_us"@ || name == "en_uk"@ {
        KeyLayout::GenericQwerty
    } else {
        KeyLayout::GenericQwertz
    }
}

/// Chooses the key table for a layout name that is already lowercase.
pub fn key_layout_from_lowercase(name: &String) -> (r: KeyLayout)
    ensures
        r == spec_key_layout(name@),
{
    if text_is(name, "generic") || text_is(name, "de_de") {
        KeyLayout::GenericQwertz
    } else if text_is(name, "en_us") || text_is(name, "en_uk") {
        KeyLayout::GenericQwerty
    } else {
        KeyLayout::GenericQwertz
    }
}

/// The keyboard view of the ROCCAT Vulcan Pro.
#[derive(Debug)]
pub struct RoccatVulcanPro {}

impl RoccatVulcanPro {
    pub fn new() -> (r: Self)
        ensures
            r == (RoccatVulcanPro {}),
    {
        RoccatVulcanPro {}
    }

    /// The key table of the currently selected keyboard layout; the name is
    /// compared without regard to case.
    pub fn get_key_defs(&self, layout: &str) -> (r: KeyLayout)
        ensures
            r == spec_key_layout(lowercase(layout@)),
            is_ascii_text(layout@) ==> r == spec_key_layout(ascii_lowercase(layout@)),
    {
        let name = to_lowercase(layout);
        key_layout_from_lowercase(&name)
    }
}

} // verus!
