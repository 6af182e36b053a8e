//! A custom widget: an on/off switch drawn as a rounded track with a knob.
use vstd::prelude::*;

verus! {

/// Where the source of the switch widget can be read online.
pub fn url_to_file_source_code() -> (r: String)
    ensures
        r@ == "https://github.com/emilk/egui/blob/master/src/components/widget_e.rs"@,
{
    "https://github.com/emilk/egui/blob/master/src/components/widget_e.rs".to_owned()
}

} // verus!
