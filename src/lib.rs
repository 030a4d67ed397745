use vstd::prelude::*;

mod laws;

verus! {

/// A value with one level of pending edit on top of a committed value.
///
/// While no edit is pending the container is clean and its effective value is
/// the committed one; once an edit is staged it is dirty and its effective
/// value is the pending edit. The committed value changes only when a pending
/// edit is saved into it.
#[derive(Clone)]
pub struct Reversible<T: Default + std::fmt::Debug + Clone> {
    data: T,
    edit: Option<T>,
}

impl<T: Default + std::fmt::Debug + Clone> Reversible<T> {
    /// The last saved value.
    pub closed spec fn committed(&self) -> T {
        self.data
    }

    /// The edit in progress, if any.
    pub closed spec fn pending(&self) -> Option<T> {
        self.edit
    }

    /// The clean container whose committed value is `v`.
    pub closed spec fn clean_of(v: T) -> Self {
        Reversible { data: v, edit: None }
    }

    /// The container with the committed value of `self` and `e` pending.
    pub closed spec fn with_edit(self, e: T) -> Self {
        Reversible { data: self.data, edit: Some(e) }
    }

    /// Whether an edit is pending.
    pub open spec fn dirty(&self) -> bool {
        self.pending() is Some
    }

    /// The pending edit where there is one, else the committed value.
    pub open spec fn effective(&self) -> T {
        match self.pending() {
            Some(e) => e,
            None => self.committed(),
        }
    }

    /// The state after saving: the effective value committed, nothing pending.
    pub open spec fn saved(self) -> Self {
        Self::clean_of(self.effective())
    }

    /// The state after reverting: the committed value kept, nothing pending.
    pub open spec fn reverted(self) -> Self {
        Self::clean_of(self.committed())
    }

    /// What `clean_of` and `with_edit` hold.
    pub broadcast proof fn lemma_parts(s: Self, v: T, e: T)
        ensures
            #[trigger] Self::clean_of(v).committed() == v,
            Self::clean_of(v).pending() is None,
            #[trigger] s.with_edit(e).committed() == s.committed(),
            s.with_edit(e).pending() == Some(e),
    {
    }

    /// A clean container holding `data`.
    pub fn new(data: T) -> (r: Self)
        ensures
            r == Self::clean_of(data),
            r.committed() == data,
            r.pending() is None,
    {
        Reversible { data, edit: None }
    }

    /// The effective value: the pending edit where there is one, else the
    /// committed value.
    pub fn as_ref_edit(&self) -> (r: &T)
        ensures
            *r == self.effective(),
    {
        match &self.edit {
            Some(edit) => edit,
            None => &self.data,
        }
    }

    /// Makes the pending edit, if any, the committed value and leaves the
    /// container clean.
    pub fn save(&mut self)
        ensures
            *final(self) == old(self).saved(),
            final(self).committed() == old(self).effective(),
            final(self).pending() is None,
    {
        if let Some(edit) = self.edit.take() {
            self.data = edit;
        }
    }

    /// Drops the pending edit, if any; the committed value stays.
    pub fn revert(&mut self)
        ensures
            *final(self) == old(self).reverted(),
            final(self).committed() == old(self).committed(),
            final(self).pending() is None,
    {
        self.edit = None;
    }

    /// Whether an edit is pending.
    pub fn is_edit(&self) -> (r: bool)
        ensures
            r == self.dirty(),
    {
        self.edit.is_some()
    }

    /// Replaces any pending edit by a fresh clone of the committed value.
    pub fn force_edit(&mut self)
        ensures
            *final(self) == old(self).with_edit(final(self).effective()),
            final(self).committed() == old(self).committed(),
            final(self).pending() is Some,
            cloned(old(self).committed(), final(self).effective()),
    {
        self.edit = Some(self.data.clone());
    }
}

impl<T: Default + std::fmt::Debug + Clone> AsRef<T> for Reversible<T> {
    /// The committed value.
    fn as_ref(&self) -> (r: &T)
        ensures
            *r == self.committed(),
    {
        &self.data
    }
}

impl<T: Default + std::fmt::Debug + Clone> AsMut<T> for Reversible<T> {
    /// Mutable access to the pending edit, staging one first (a clone of the
    /// committed value) where none is pending. An edit already pending is
    /// kept as it is. Whatever is written through the reference becomes the
    /// pending edit.
    fn as_mut(&mut self) -> (r: &mut T)
        ensures
            *final(self) == old(self).with_edit(*final(r)),
            final(self).committed() == old(self).committed(),
            final(self).pending() == Some(*final(r)),
            old(self).dirty() ==> *r == old(self).effective(),
            !old(self).dirty() ==> cloned(old(self).committed(), *r),
    {
        if self.edit.is_none() {
            self.force_edit();
        }
        match &mut self.edit {
            Some(edit) => edit,
            None => &mut self.data,
        }
    }
}

impl<T: Default + std::fmt::Debug + Clone> Default for Reversible<T> {
    /// A clean container holding `T`'s default value.
    fn default() -> (r: Self)
        ensures
            call_ensures(T::default, (), r.committed()),
            r == Self::clean_of(r.committed()),
            r.pending() is None,
    {
        Reversible { data: T::default(), edit: None }
    }
}

impl<T: Default + std::fmt::Debug + Clone> From<T> for Reversible<T> {
    /// A clean container holding `value`.
    fn from(value: T) -> (r: Self)
        ensures
            r == Self::clean_of(value),
            r.committed() == value,
            r.pending() is None,
    {
        Reversible::new(value)
    }
}

impl<T: Default + std::fmt::Debug + Clone> vstd::std_specs::convert::FromSpecImpl<T> for Reversible<T> {
    open spec fn obeys_from_spec() -> bool {
        true
    }

    open spec fn from_spec(v: T) -> Self {
        Self::clean_of(v)
    }
}

} // verus!
