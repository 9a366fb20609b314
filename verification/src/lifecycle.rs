//! The lifecycle of the active index: built once, served while ready, taken
//! away while it is rebuilt, and put back when the rebuild succeeds.

use vstd::prelude::*;

verus! {

/// Where the active index is in its life.
#[derive(Debug, Clone, Copy, PartialEq, Eq, Structural)]
pub enum Phase {
    /// There is no index and none is being built.
    Absent,
    /// An index is being loaded or built.
    Building,
    /// An index is active.
    Ready,
    /// A rebuild has begun: the storage of the index that was active is
    /// being discarded.
    Rebuilding,
}

/// What opening has to do.
#[derive(Debug, Clone, Copy, PartialEq, Eq, Structural)]
pub enum Plan {
    /// Load the index from its storage.
    Load,
    /// Scrape the corpus and build the index from it.
    Build,
}

/// Whether a load or build is under way in `phase`.
pub open spec fn in_flight(phase: Phase) -> bool {
    phase == Phase::Building || phase == Phase::Rebuilding
}

/// The phase after a request to rebuild, and whether the request began a
/// rebuild. A request in flight refuses another.
pub open spec fn rebuild(phase: Phase) -> (Phase, bool) {
    match phase {
        Phase::Ready => (Phase::Rebuilding, true),
        Phase::Absent => (Phase::Building, true),
        Phase::Building => (Phase::Building, false),
        Phase::Rebuilding => (Phase::Rebuilding, false),
    }
}

/// The phase after the end of a load or build that succeeded or not: only a
/// build under way can end.
pub open spec fn finished(phase: Phase, succeeded: bool) -> Phase {
    if phase == Phase::Building {
        if succeeded {
            Phase::Ready
        } else {
            Phase::Absent
        }
    } else {
        phase
    }
}

/// Whether the storage of the index is to be there after the end of a load
/// or build that succeeded or not. After one that succeeded it is. After a
/// build that failed it is not, whatever the build left behind: a build
/// starts without storage. After a load that failed the storage stays.
/// Where nothing was under way, it is as it was.
pub open spec fn kept(phase: Phase, stored: bool, succeeded: bool) -> bool {
    if phase == Phase::Building {
        succeeded || stored
    } else {
        stored
    }
}

/// What opening has to do: load the index where its storage is there, build
/// it where it is not.
pub open spec fn plan_for(stored: bool) -> Plan {
    if stored {
        Plan::Load
    } else {
        Plan::Build
    }
}

/// A build that fails leaves no storage and no index, so that the next
/// opening builds again in full.
pub proof fn lemma_failed_build_builds_again()
    ensures
        plan_for(false) == Plan::Build,
        finished(Phase::Building, false) == Phase::Absent,
        !kept(Phase::Building, false, false),
        plan_for(kept(Phase::Building, false, false)) == Plan::Build,
{
}

/// Of two requests to rebuild with nothing in between, the second begins
/// nothing and changes nothing.
pub proof fn lemma_second_rebuild_refused(phase: Phase)
    ensures
        !rebuild(rebuild(phase).0).1,
        rebuild(rebuild(phase).0).0 == rebuild(phase).0,
{
}

/// A request to rebuild begins a rebuild exactly where none is in flight,
/// and one is in flight after it.
pub proof fn lemma_one_rebuild_at_a_time(phase: Phase)
    ensures
        rebuild(phase).1 <==> !in_flight(phase),
        in_flight(rebuild(phase).0),
{
}

/// The active index, the phase of its life, and whether its storage is to
/// be there. The storage itself is not the library's to touch: whoever runs
/// the lifecycle keeps the storage to what the lifecycle says.
pub struct Lifecycle<I> {
    phase: Phase,
    stored: bool,
    active: Option<I>,
}

impl<I> Lifecycle<I> {
    /// The phase.
    pub closed spec fn phase_of(self) -> Phase {
        self.phase
    }

    /// Whether the storage of the index is to be there.
    pub closed spec fn stored_of(self) -> bool {
        self.stored
    }

    /// The active index, if there is one.
    pub closed spec fn active_of(self) -> Option<I> {
        self.active
    }

    /// There is an active index exactly in the phase `Ready`, and then its
    /// storage is to be there.
    #[verifier::type_invariant]
    pub open spec fn well_formed(self) -> bool {
        &&& self.active_of() is Some <==> self.phase_of() == Phase::Ready
        &&& self.phase_of() == Phase::Ready ==> self.stored_of()
    }

    /// A lifecycle without an index and without storage.
    pub fn new() -> (r: Self)
        ensures
            r.phase_of() == Phase::Absent,
            !r.stored_of(),
            r.active_of() is None,
    {
        Lifecycle { phase: Phase::Absent, stored: false, active: None }
    }

    /// The phase.
    pub fn phase(&self) -> (r: Phase)
        ensures
            r == self.phase_of(),
    {
        self.phase
    }

    /// Whether the storage of the index is to be there. Where it is not,
    /// what is left of it is to be discarded.
    pub fn stored(&self) -> (r: bool)
        ensures
            r == self.stored_of(),
    {
        self.stored
    }

    /// The active index: there is one exactly in the phase `Ready`.
    pub fn active(&self) -> (r: Option<&I>)
        ensures
            r is Some <==> self.phase_of() == Phase::Ready,
            r matches Some(index) ==> self.active_of() == Some(*index),
    {
        proof {
            use_type_invariant(self);
        }
        self.active.as_ref()
    }

    /// Begins opening, where there is no index and none in the making: the
    /// index is loaded where its storage is there (`stored`), and built
    /// where it is not. `None`, and nothing changes, in any other phase.
    pub fn open(&mut self, stored: bool) -> (r: Option<Plan>)
        ensures
            old(self).phase_of() == Phase::Absent ==> final(self).phase_of() == Phase::Building
                && final(self).stored_of() == stored && r == Some(plan_for(stored)),
            old(self).phase_of() != Phase::Absent ==> final(self).phase_of() == old(
                self,
            ).phase_of() && final(self).stored_of() == old(self).stored_of() && r is None,
            final(self).active_of() == old(self).active_of(),
    {
        proof {
            use_type_invariant(&*self);
        }
        match self.phase {
            Phase::Absent => {
                self.phase = Phase::Building;
                self.stored = stored;
                if stored {
                    Some(Plan::Load)
                } else {
                    Some(Plan::Build)
                }
            },
            _ => None,
        }
    }

    /// Asks for a rebuild. Where a load or build is in flight, nothing
    /// changes and the answer is `false`. Else the rebuild begins: the
    /// active index, if any, is taken away, and the answer is `true`. The
    /// storage of an index that was active stays until it is `cleared`;
    /// where there was no index, no storage is to be there from now on.
    pub fn begin_rebuild(&mut self) -> (started: bool)
        ensures
            (final(self).phase_of(), started) == rebuild(old(self).phase_of()),
            final(self).stored_of() == (old(self).stored_of() && old(self).phase_of()
                != Phase::Absent),
            started ==> final(self).active_of() is None,
            !started ==> final(self).active_of() == old(self).active_of(),
    {
        proof {
            use_type_invariant(&*self);
        }
        match self.phase {
            Phase::Ready => {
                *self = Lifecycle { phase: Phase::Rebuilding, stored: true, active: None };
                true
            },
            Phase::Absent => {
                self.phase = Phase::Building;
                self.stored = false;
                true
            },
            _ => false,
        }
    }

    /// The storage of the index that was active is discarded: there is no
    /// storage, and the build of the new index is under way. Nothing
    /// changes in any other phase than `Rebuilding`.
    pub fn cleared(&mut self)
        ensures
            final(self).phase_of() == if old(self).phase_of() == Phase::Rebuilding {
                Phase::Building
            } else {
                old(self).phase_of()
            },
            final(self).stored_of() == (old(self).stored_of() && old(self).phase_of()
                != Phase::Rebuilding),
            final(self).active_of() == old(self).active_of(),
    {
        proof {
            use_type_invariant(&*self);
        }
        match self.phase {
            Phase::Rebuilding => {
                self.phase = Phase::Building;
                self.stored = false;
            },
            _ => {},
        }
    }

    /// The load or build under way has ended: with `Some`, that index is
    /// active from now on and its storage is to be there; with `None`,
    /// there is no index, and after a build no storage is to be there: what
    /// the build left is to be discarded. Where no build is under way
    /// nothing changes. The answer says whether an index was made active.
    pub fn finish(&mut self, built: Option<I>) -> (published: bool)
        ensures
            final(self).phase_of() == finished(old(self).phase_of(), built is Some),
            final(self).stored_of() == kept(
                old(self).phase_of(),
                old(self).stored_of(),
                built is Some,
            ),
            published <==> old(self).phase_of() == Phase::Building && built is Some,
            published ==> final(self).active_of() == built,
            !published ==> final(self).active_of() == if old(self).phase_of() == Phase::Building {
                None
            } else {
                old(self).active_of()
            },
    {
        proof {
            use_type_invariant(&*self);
        }
        match self.phase {
            Phase::Building => match built {
                Some(index) => {
                    *self = Lifecycle { phase: Phase::Ready, stored: true, active: Some(index) };
                    true
                },
                None => {
                    self.phase = Phase::Absent;
                    false
                },
            },
            _ => false,
        }
    }
}

} // verus!
