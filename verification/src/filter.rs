use vstd::prelude::*;

verus! {

/// Mathematical model of a [`FilterCore`].
///
/// `altitude` and `velocity` are the two filter states, `zero` is the value
/// that stands for "no motion" (what the velocity is set to on a reset, and
/// what both states start at), and `reference_set` records whether the
/// altitude reference has been fixed.
pub struct CoreState<T> {
    pub altitude: T,
    pub velocity: T,
    pub zero: T,
    pub reference_set: bool,
}

impl<T> CoreState<T> {
    /// The state of a freshly constructed filter: both estimates at `zero`,
    /// no reference yet.
    pub open spec fn initial(zero: T) -> CoreState<T> {
        CoreState { altitude: zero, velocity: zero, zero, reference_set: false }
    }

    /// The state after fixing the reference at `baro`: the altitude becomes
    /// the barometric altitude and the velocity returns to `zero`.
    pub open spec fn referenced_at(self, baro: T) -> CoreState<T> {
        CoreState { altitude: baro, velocity: self.zero, zero: self.zero, reference_set: true }
    }

    /// The state after one integration step that produced the estimates
    /// `next` (altitude, velocity).
    pub open spec fn advanced(self, next: (T, T)) -> CoreState<T> {
        CoreState { altitude: next.0, velocity: next.1, zero: self.zero, reference_set: true }
    }

    /// The state after an update with barometric altitude `baro`, where
    /// `next` is what the integration step returned: without a reference the
    /// update fixes it at `baro`, otherwise it takes the integrated estimates.
    pub open spec fn after_update(self, baro: T, next: (T, T)) -> CoreState<T> {
        if self.reference_set {
            self.advanced(next)
        } else {
            self.referenced_at(baro)
        }
    }
}

/// The state of the altitude observer: the altitude and vertical velocity
/// estimates and whether the altitude reference has been fixed.
#[derive(Debug, Clone)]
pub struct FilterCore<T> {
    altitude: T,
    velocity: T,
    zero: T,
    reference_set: bool,
}

impl<T> View for FilterCore<T> {
    type V = CoreState<T>;

    closed spec fn view(&self) -> CoreState<T> {
        CoreState {
            altitude: self.altitude,
            velocity: self.velocity,
            zero: self.zero,
            reference_set: self.reference_set,
        }
    }
}

impl<T: Copy> FilterCore<T> {
    /// A filter with both estimates at `zero` and no altitude reference.
    pub fn new(zero: T) -> (core: Self)
        ensures
            core@ == CoreState::initial(zero),
    {
        FilterCore { altitude: zero, velocity: zero, zero, reference_set: false }
    }

    /// Fix the altitude reference at `baro_altitude` and zero the velocity.
    pub fn reset(&mut self, baro_altitude: T)
        ensures
            final(self)@ == old(self)@.referenced_at(baro_altitude),
    {
        self.altitude = baro_altitude;
        self.velocity = self.zero;
        self.reference_set = true;
    }

    /// Advance the filter with the barometric altitude `baro_altitude`.
    ///
    /// If no reference is set yet, the sample fixes it (as [`Self::reset`]
    /// does) and `step` is not called. Otherwise `step` is called once with
    /// the current (altitude, velocity) and its result becomes the new
    /// estimates.
    pub fn update<F: Fn(T, T) -> (T, T)>(&mut self, baro_altitude: T, step: F)
        requires
            old(self)@.reference_set ==> call_requires(
                step,
                (old(self)@.altitude, old(self)@.velocity),
            ),
        ensures
            final(self)@ == old(self)@.after_update(
                baro_altitude,
                (final(self)@.altitude, final(self)@.velocity),
            ),
            old(self)@.reference_set ==> call_ensures(
                step,
                (old(self)@.altitude, old(self)@.velocity),
                (final(self)@.altitude, final(self)@.velocity),
            ),
    {
        if !self.reference_set {
            self.reset(baro_altitude);
            return;
        }
        let (altitude, velocity) = step(self.altitude, self.velocity);
        self.altitude = altitude;
        self.velocity = velocity;
    }

    /// Current altitude estimate.
    pub fn altitude(&self) -> (altitude: T)
        ensures
            altitude == self@.altitude,
    {
        self.altitude
    }

    /// Current vertical velocity estimate.
    pub fn vertical_velocity(&self) -> (velocity: T)
        ensures
            velocity == self@.velocity,
    {
        self.velocity
    }

    /// Whether the altitude reference has been fixed.
    pub fn reference_set(&self) -> (set: bool)
        ensures
            set == self@.reference_set,
    {
        self.reference_set
    }
}

} // verus!
