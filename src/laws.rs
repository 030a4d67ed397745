use vstd::prelude::*;

use crate::Reversible;

verus! {

broadcast use Reversible::lemma_parts;

impl<T: Default + std::fmt::Debug + Clone> Reversible<T> {
    /// A container made from a value is clean, and its effective value is its
    /// committed value, that value.
    pub proof fn lemma_new_is_clean(v: T)
        ensures
            !Self::clean_of(v).dirty(),
            Self::clean_of(v).committed() == v,
            Self::clean_of(v).effective() == Self::clean_of(v).committed(),
    {
    }

    /// A default container is clean, and its effective value is its committed
    /// value.
    pub proof fn lemma_default_is_clean(r: Self)
        requires
            call_ensures(<Self as Default>::default, (), r),
        ensures
            !r.dirty(),
            r.effective() == r.committed(),
    {
    }

    /// Staging an edit, whatever its value, makes the container dirty and
    /// leaves the committed value as it was.
    pub proof fn lemma_stage_keeps_committed(s: Self, e: T)
        ensures
            s.with_edit(e).dirty(),
            s.with_edit(e).committed() == s.committed(),
    {
    }

    /// Staging `v2` on a container holds `v2` as effective value beside the
    /// committed one; saving then commits `v2`, which is also the effective
    /// value, and leaves the container clean.
    pub proof fn lemma_commit_round_trip(s: Self, v2: T)
        ensures
            s.with_edit(v2).committed() == s.committed(),
            s.with_edit(v2).effective() == v2,
            s.with_edit(v2).saved().committed() == v2,
            s.with_edit(v2).saved().effective() == v2,
            !s.with_edit(v2).saved().dirty(),
    {
    }

    /// Staging `v2` and then reverting leaves the container clean with its
    /// committed value as it was before, also as effective value: `v2` is gone.
    pub proof fn lemma_discard_round_trip(s: Self, v2: T)
        ensures
            !s.with_edit(v2).reverted().dirty(),
            s.with_edit(v2).reverted().committed() == s.committed(),
            s.with_edit(v2).reverted().effective() == s.committed(),
    {
    }

    /// Once an edit is pending, staging again without writing hands back that
    /// same edit and leaves the container as it was.
    pub proof fn lemma_stage_idempotent(s: Self, e: T)
        ensures
            s.with_edit(e).dirty(),
            s.with_edit(e).effective() == e,
            s.with_edit(e).with_edit(s.with_edit(e).effective()) == s.with_edit(e),
    {
    }

    /// Forcing a fresh edit over a pending `v2` gives a clone of the committed
    /// value as effective value; the state no longer depends on `v2`.
    pub proof fn lemma_force_edit_resets(s: Self, v2: T, e: T)
        requires
            cloned(s.committed(), e),
        ensures
            s.with_edit(v2).with_edit(e) == s.with_edit(e),
            s.with_edit(v2).with_edit(e).committed() == s.committed(),
            s.with_edit(v2).with_edit(e).effective() == e,
            cloned(s.with_edit(v2).committed(), s.with_edit(v2).with_edit(e).effective()),
    {
    }
}

} // verus!
