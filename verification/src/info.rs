//! The record by which a plugin describes one of its parameters.

use crate::text::{is_text_of, nul_free, text_of, written_text};
use vstd::prelude::*;

verus! {

/// Metadata of one parameter, as the plugin filled it in.
///
/// Values are carried as the bit patterns of IEEE 754 double-precision
/// numbers; this crate hands them on and never computes with them.
#[derive(Clone, Debug, PartialEq, Eq)]
pub struct ParamInfo {
    /// Stable identifier of the parameter. Identifiers may be sparse and
    /// come in any order.
    pub id: u32,
    /// Bit set of the parameter's traits.
    pub flags: u32,
    /// The fixed-size name field: the display name, then a terminator, then
    /// whatever the plugin left behind it.
    pub name: Vec<u8>,
    /// Lower end of the parameter's range.
    pub min_value: u64,
    /// Upper end of the parameter's range.
    pub max_value: u64,
    /// The value a parameter has before anything sets it.
    pub default_value: u64,
}

impl ParamInfo {
    /// The display name: the name field up to its first terminator, or all
    /// of it when the plugin wrote none.
    pub open spec fn spec_display_name(&self) -> Seq<u8> {
        text_of(self.name@)
    }

    pub fn display_name(&self) -> (text: &[u8])
        ensures
            text@ == self.spec_display_name(),
            is_text_of(self.name@, text@),
            nul_free(text@),
    {
        written_text(self.name.as_slice())
    }
}

} // verus!
