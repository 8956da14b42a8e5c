//! Public identifiers for the FITS source.

use vstd::prelude::*;

use crate::discard::PROP_START_CUSTOM;

verus! {

/// Read-only `SPA_PARAM_Props` identifier reporting normal finite
/// completion: the first application-defined property identifier.
pub const COMPLETED_PROPERTY: u32 = PROP_START_CUSTOM;

/// Scientific property name advertised by the FITS source through PropInfo.
pub const COMPLETED_PROPERTY_NAME: &'static str = "fits.completed";

} // verus!
