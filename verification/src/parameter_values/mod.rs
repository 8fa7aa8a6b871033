//! Parameters organised into pages of encoder slots.
//!
//! ```text
//! Page 0 (Filter):   [Cutoff] [Resonance] [Filter Type] [Filter Env]
//! Page 1 (Envelope): [Attack] [Decay]     [Sustain]     [Release]
//! Page 2 (LFO):      [Rate]   [Depth]     [Shape]       [---Null---]
//! Page 3 (Effects):  [Delay]  [Reverb]    [---Null---]  [---Null---]
//! ```
//!
//! Each parameter carries two independent change flags, `changed_oled` for
//! the display and `changed_i2c` for the outgoing bus. Consumers drain them
//! with [`ParameterValues::take_oled_changes`] and
//! [`ParameterValues::take_i2c_changes`].

use vstd::prelude::*;

pub mod error;
pub mod laws;
pub mod model;
pub mod page;
pub mod parameter;
pub mod values;

pub use error::ParameterError;
pub use model::StoreModel;
pub use page::Page;
pub use parameter::{ChangeFlag, Parameter, ParameterSlot};
pub use values::{ParameterChange, ParameterValues};

verus! {

/// Number of parameter slots per page (one per physical encoder).
pub const PARAMS_PER_PAGE: usize = 4;

/// Number of pages.
pub const N_PAGES: usize = 4;

/// Total number of slots over all pages.
pub const TOTAL_SLOTS: usize = N_PAGES * PARAMS_PER_PAGE;

/// Page names for the display header, by page number.
pub const PAGE_NAMES: [&'static str; N_PAGES] = ["Filter", "Envelope", "LFO", "Effects"];

/// Parameter names by page and slot. An empty name marks a slot that holds
/// no parameter on that page.
///
/// This table is the only place that says which slots are in use:
/// [`ParameterValues::new`] derives every slot from it.
pub const PARAM_NAMES: [[&'static str; PARAMS_PER_PAGE]; N_PAGES] = [
    ["Cutoff", "Resonance", "Filter Type", "Filter Env"],
    ["Attack", "Decay", "Sustain", "Release"],
    ["LFO Rate", "LFO Depth", "LFO Shape", ""],
    ["Delay Time", "Reverb", "", ""],
];

/// The name that the table gives to a slot, or `None` where the table leaves
/// the slot empty or the position lies outside it.
pub open spec fn spec_param_name(page: int, slot: int) -> Option<&'static str> {
    if 0 <= page < N_PAGES && 0 <= slot < PARAMS_PER_PAGE && PARAM_NAMES[page][slot]@.len() != 0 {
        Some(PARAM_NAMES[page][slot])
    } else {
        None
    }
}

/// Looks a slot up in [`PARAM_NAMES`].
pub fn param_name(page: usize, slot: usize) -> (name: Option<&'static str>)
    ensures
        name == spec_param_name(page as int, slot as int),
{
    if page >= N_PAGES || slot >= PARAMS_PER_PAGE {
        return None;
    }
    let label = PARAM_NAMES[page][slot];
    if label.is_empty() {
        None
    } else {
        Some(label)
    }
}

/// The flat address `page * PARAMS_PER_PAGE + slot` of a slot.
pub open spec fn spec_global_index(page: int, slot: int) -> int {
    page * PARAMS_PER_PAGE + slot
}

/// The page that a flat address falls on.
pub open spec fn spec_page_of(global_idx: int) -> int {
    global_idx / PARAMS_PER_PAGE as int
}

/// The slot within its page that a flat address names.
pub open spec fn spec_slot_of(global_idx: int) -> int {
    global_idx % PARAMS_PER_PAGE as int
}

} // verus!
