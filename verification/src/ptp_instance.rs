//! What an instance shares with all of its ports.

use crate::datastructures::datasets::{CurrentDS, DefaultDS, ParentDS, TimePropertiesDS};
use atomic_refcell::AtomicRefCell;
use vstd::prelude::*;

verus! {

/// The state of an instance: its data sets, its clock and its filter. The
/// ports read it; none of them owns it.
#[verifier::reject_recursive_types(C)]
#[verifier::reject_recursive_types(F)]
pub struct PtpInstanceState<C, F> {
    pub default_ds: DefaultDS,
    pub current_ds: CurrentDS,
    pub parent_ds: ParentDS,
    pub time_properties_ds: TimePropertiesDS,
    pub local_clock: AtomicRefCell<C>,
    pub filter: AtomicRefCell<F>,
}

} // verus!
