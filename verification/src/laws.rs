use vstd::prelude::*;

use crate::filter::CoreState;

verus! {

/// If no reset comes before it, the first update zeroes the reference
/// against its barometric sample: the altitude becomes that sample, the
/// velocity stays at zero, and the integration step plays no part.
pub proof fn first_update_zeroes_reference<T>(zero: T, baro: T, next: (T, T))
    ensures
        CoreState::initial(zero).after_update(baro, next) == CoreState::initial(zero).referenced_at(
            baro,
        ),
        CoreState::initial(zero).after_update(baro, next).altitude == baro,
        CoreState::initial(zero).after_update(baro, next).velocity == zero,
{
}

/// Once a reference is set (by a reset or an earlier update), an update
/// never re-zeroes it: it takes exactly what the integration step returned.
pub proof fn update_after_reference_integrates<T>(s: CoreState<T>, baro: T, next: (T, T))
    requires
        s.reference_set,
    ensures
        s.after_update(baro, next) == s.advanced(next),
        s.after_update(baro, next).altitude == next.0,
        s.after_update(baro, next).velocity == next.1,
{
}

/// The reference, once set, stays set; neither a reset nor an update
/// changes the zero value.
pub proof fn reference_is_permanent<T>(s: CoreState<T>, baro: T, next: (T, T))
    ensures
        s.referenced_at(baro).reference_set,
        s.after_update(baro, next).reference_set,
        s.referenced_at(baro).zero == s.zero,
        s.after_update(baro, next).zero == s.zero,
{
}

/// A reset sets the state from its argument alone: whatever the filter held
/// before, and whether or not a reference was set, the result is the same.
pub proof fn reset_forgets_history<T>(s1: CoreState<T>, s2: CoreState<T>, baro: T)
    requires
        s1.zero == s2.zero,
    ensures
        s1.referenced_at(baro) == s2.referenced_at(baro),
{
}

/// Resetting twice at the same altitude is the same as resetting once.
pub proof fn reset_is_idempotent<T>(s: CoreState<T>, baro: T)
    ensures
        s.referenced_at(baro).referenced_at(baro) == s.referenced_at(baro),
{
}

} // verus!
