//! The discrete part of a spin.
//!
//! A wheel is either resting or spinning. While it spins, the program that
//! draws it advances an angle and lets a velocity decay; the library is told
//! whether the velocity has fallen below the stopping threshold, and keeps
//! track of the state. It also maps the number that the angle has been
//! reduced to onto a sector.

use vstd::prelude::*;

verus! {

/// Why a wheel cannot be spun.
#[derive(Clone, Copy, Debug, PartialEq, Eq, Structural)]
pub enum ConfigError {
    /// The wheel has no choices, so there is no sector to point at.
    NoChoices,
}

/// What a spinner is: how many sectors its wheel has, and whether it spins.
pub struct SpinnerView {
    pub sectors: nat,
    pub spinning: bool,
}

/// The state after a spin was started: spinning, whatever it was before.
pub open spec fn started(state: SpinnerView) -> SpinnerView {
    SpinnerView { spinning: true, ..state }
}

/// The state after a request to spin: a resting wheel starts if the
/// request was made, a spinning wheel is left alone.
pub open spec fn requested(state: SpinnerView, request: bool) -> SpinnerView {
    if request && !state.spinning {
        started(state)
    } else {
        state
    }
}

/// The state after a tick: a spinning wheel comes to rest when its
/// velocity is below the threshold, and nothing else changes.
pub open spec fn ticked(state: SpinnerView, below_threshold: bool) -> SpinnerView {
    SpinnerView { spinning: state.spinning && !below_threshold, ..state }
}

/// The sector that a reduced angle falls into: the angle, counted in whole
/// sectors, wraps round the wheel.
pub open spec fn sector_index(turned: nat, sectors: nat) -> nat
    recommends
        sectors >= 1,
{
    turned % sectors
}

/// The resting-or-spinning state of a wheel with at least one sector.
#[derive(Debug)]
pub struct Spinner {
    sectors: usize,
    spinning: bool,
}

impl View for Spinner {
    type V = SpinnerView;

    closed spec fn view(&self) -> SpinnerView {
        SpinnerView { sectors: self.sectors as nat, spinning: self.spinning }
    }
}

impl Spinner {
    #[verifier::type_invariant]
    spec fn has_sectors(self) -> bool {
        self.sectors >= 1
    }

    /// A resting spinner for a wheel of `sectors` sectors. A wheel without
    /// sectors is refused here, once, so that no later step has to divide
    /// by zero.
    pub fn new(sectors: usize) -> (made: Result<Spinner, ConfigError>)
        ensures
            sectors == 0 ==> made == Err::<Spinner, ConfigError>(ConfigError::NoChoices),
            sectors >= 1 ==> made is Ok && made->Ok_0@ == (SpinnerView {
                sectors: sectors as nat,
                spinning: false,
            }),
    {
        if sectors == 0 {
            Err(ConfigError::NoChoices)
        } else {
            Ok(Spinner { sectors, spinning: false })
        }
    }

    pub fn is_spinning(&self) -> (spinning: bool)
        ensures
            spinning == self@.spinning,
    {
        self.spinning
    }

    /// The number of sectors, which is never zero.
    pub fn sector_count(&self) -> (sectors: usize)
        ensures
            sectors == self@.sectors,
            sectors >= 1,
    {
        proof {
            use_type_invariant(self);
        }
        self.sectors
    }

    /// Starts a spin. Callers are expected to ask `is_spinning` first, or
    /// to go through `request_spin`: a spinner that is already spinning
    /// simply goes on spinning.
    pub fn start_spin(&mut self)
        ensures
            final(self)@ == started(old(self)@),
    {
        proof {
            use_type_invariant(&*self);
        }
        self.spinning = true;
    }

    /// Handles the "spin requested" input: starts a spin if the request
    /// was made and the wheel is resting, and says whether it did.
    pub fn request_spin(&mut self, request: bool) -> (starts: bool)
        ensures
            starts == (request && !old(self)@.spinning),
            final(self)@ == requested(old(self)@, request),
    {
        proof {
            use_type_invariant(&*self);
        }
        if request && !self.spinning {
            self.start_spin();
            true
        } else {
            false
        }
    }

    /// Ends one tick. `below_threshold` says whether the velocity, after
    /// this tick's decay, is below the stopping threshold; if it is, the
    /// wheel rests from now on.
    pub fn update_wheel(&mut self, below_threshold: bool)
        ensures
            final(self)@ == ticked(old(self)@, below_threshold),
    {
        proof {
            use_type_invariant(&*self);
        }
        if below_threshold {
            self.spinning = false;
        }
    }

    /// The sector under the pointer. `turned` is the wheel's angle counted
    /// in sectors, reflected and rounded up by the caller; it may exceed
    /// the number of sectors, and is wrapped round here.
    pub fn get_index(&self, turned: usize) -> (index: usize)
        ensures
            index == sector_index(turned as nat, self@.sectors),
            index < self@.sectors,
    {
        proof {
            use_type_invariant(self);
        }
        turned % self.sectors
    }
}

/// The state after a run of ticks, of which `below_threshold` says one by
/// one whether the velocity was below the threshold.
pub open spec fn ticked_through(state: SpinnerView, below_threshold: Seq<bool>) -> SpinnerView
    decreases below_threshold.len(),
{
    if below_threshold.len() == 0 {
        state
    } else {
        ticked(ticked_through(state, below_threshold.drop_last()), below_threshold.last())
    }
}

/// A resting wheel stays as it is, however often it is ticked and
/// whatever the velocity is said to be.
pub proof fn resting_is_idempotent(state: SpinnerView, below_threshold: Seq<bool>)
    requires
        !state.spinning,
    ensures
        ticked_through(state, below_threshold) == state,
    decreases below_threshold.len(),
{
    if below_threshold.len() > 0 {
        resting_is_idempotent(state, below_threshold.drop_last());
    }
}

/// A spinning wheel comes to rest at the first tick that finds the
/// velocity below the threshold, not before and not later: after a run of
/// ticks it still spins exactly if none of them found it there.
pub proof fn rests_at_first_tick_below(state: SpinnerView, below_threshold: Seq<bool>)
    requires
        state.spinning,
    ensures
        ticked_through(state, below_threshold).spinning <==> forall|i: int|
            0 <= i < below_threshold.len() ==> !below_threshold[i],
        ticked_through(state, below_threshold).sectors == state.sectors,
    decreases below_threshold.len(),
{
    if below_threshold.len() > 0 {
        let earlier = below_threshold.drop_last();
        rests_at_first_tick_below(state, earlier);
        assert(forall|i: int| 0 <= i < earlier.len() ==> earlier[i] == below_threshold[i]);
        if ticked_through(state, below_threshold).spinning {
            assert forall|i: int| 0 <= i < below_threshold.len() implies !below_threshold[i] by {
                if i < earlier.len() {
                    assert(!earlier[i]);
                }
            }
        }
    }
}

/// A request cannot disturb a spin: while the wheel spins, asking for a
/// spin changes nothing.
pub proof fn request_while_spinning_is_ignored(state: SpinnerView, request: bool)
    requires
        state.spinning,
    ensures
        requested(state, request) == state,
{
}

/// Whatever the angle, the sector index names a sector of the wheel.
pub proof fn index_names_a_sector(turned: nat, sectors: nat)
    requires
        sectors >= 1,
    ensures
        sector_index(turned, sectors) < sectors,
{
}

/// On a wheel of one sector, that sector is under the pointer at every
/// angle.
pub proof fn single_sector_is_selected(turned: nat)
    ensures
        sector_index(turned, 1) == 0,
{
}

} // verus!
