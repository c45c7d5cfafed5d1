//! Reference bookkeeping for a two-state complementary altitude observer.
//!
//! The observer keeps an altitude and a vertical velocity estimate. Its
//! state is only meaningful once an altitude reference has been fixed,
//! either explicitly by a reset or implicitly by the first barometric
//! sample. This crate verifies that lifecycle: what a reset stores, when
//! an update zeroes the reference instead of integrating, and that the
//! integration step is applied exactly to the current estimates. The
//! numeric integration step itself is supplied by the caller.

mod filter;
mod laws;

pub use filter::{CoreState, FilterCore};
pub use laws::{
    first_update_zeroes_reference, reference_is_permanent, reset_forgets_history,
    reset_is_idempotent, update_after_reference_integrates,
};
