//! Launch flags read from environment-variable presence.

use vstd::prelude::*;

verus! {

/// The two launch flags. A value type: derived anew on every query,
/// never cached, never persisted.
#[derive(Clone, Copy, PartialEq, Eq, Structural, Debug)]
pub struct ConfigFlags {
    pub skip_config: bool,
    pub clean_state: bool,
}

/// Derives the launch flags from the raw environment lookups.
///
/// A variable that is set at all turns its flag on, whatever string it
/// holds (the empty string included); an unset variable leaves it off.
pub fn get_config_flags(skip_config_var: Option<String>, clean_state_var: Option<String>) -> (r: ConfigFlags)
    ensures
        r.skip_config == skip_config_var is Some,
        r.clean_state == clean_state_var is Some,
{
    ConfigFlags {
        skip_config: skip_config_var.is_some(),
        clean_state: clean_state_var.is_some(),
    }
}

} // verus!
