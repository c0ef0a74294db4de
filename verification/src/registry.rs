//! The actor registry: a process-wide directory from names to actor
//! handles, used once at bootstrap so the two actors can discover each
//! other, and append/lookup-only afterwards.
//!
//! Registration of an already-bound name is refused deterministically and
//! changes nothing. A lookup miss is an explicit value — `None`, or the
//! typed [`SessionError::PeerUnavailable`] — never a crash.

use vstd::prelude::*;
use crate::errors::SessionError;

verus! {

/// A directory from unique live names to handles. The handle type is
/// opaque to the registry; it only stores and returns handles.
pub struct Registry<H> {
    entries: Vec<(String, H)>,
}

impl<H> Registry<H> {
    /// Names are unique while their actors are alive.
    pub closed spec fn wf(self) -> bool {
        forall|i: int, j: int|
            0 <= i < j < self.entries@.len() ==> self.entries@[i].0@ != self.entries@[j].0@
    }

    /// Some live actor is bound under this name.
    pub closed spec fn contains_name(self, name: Seq<char>) -> bool {
        exists|i: int| 0 <= i < self.entries@.len() && self.entries@[i].0@ == name
    }

    /// The handle bound under this name (meaningful when the name is
    /// bound; names are unique, so the binding is unambiguous).
    pub closed spec fn bound_handle(self, name: Seq<char>) -> H
        recommends
            self.contains_name(name),
    {
        let i = choose|i: int| 0 <= i < self.entries@.len() && self.entries@[i].0@ == name;
        self.entries@[i].1
    }

    /// An empty directory, as the process starts with.
    pub fn new() -> (r: Registry<H>)
        ensures
            r.wf(),
            forall|n: Seq<char>| !r.contains_name(n),
    {
        Registry { entries: Vec::new() }
    }

    /// Bind a unique name to a handle. If the name is already bound to a
    /// live actor, the registration is refused and the directory is
    /// unchanged; otherwise the binding is added. No other binding is
    /// touched either way.
    pub fn register(&mut self, name: String, handle: H) -> (ok: bool)
        requires
            old(self).wf(),
        ensures
            final(self).wf(),
            ok == !old(self).contains_name(name@),
            ok ==> final(self).contains_name(name@) && final(self).bound_handle(name@)
                == handle,
            !ok ==> *final(self) == *old(self),
            forall|n: Seq<char>|
                n != name@ ==> final(self).contains_name(n) == old(self).contains_name(n),
            forall|n: Seq<char>|
                n != name@ && old(self).contains_name(n) ==> final(self).bound_handle(n)
                    == old(self).bound_handle(n),
    {
        let count = self.entries.len();
        let mut i: usize = 0;
        while i < count
            invariant
                count == self.entries@.len(),
                i <= count,
                *self == *old(self),
                self.wf(),
                forall|j: int| 0 <= j < i ==> self.entries@[j].0@ != name@,
            decreases count - i,
        {
            if self.entries[i].0 == name {
                return false;
            }
            i = i + 1;
        }
        proof {
            assert(!old(self).contains_name(name@));
        }
        self.entries.push((name, handle));
        proof {
            let s = self.entries@;
            let olds = old(self).entries@;
            let last = s.len() - 1;
            assert(s[last].0@ == name@);
            assert forall|n: Seq<char>| n != name@ implies self.contains_name(n) == old(
                self,
            ).contains_name(n) by {
                if old(self).contains_name(n) {
                    let j = choose|j: int| 0 <= j < olds.len() && olds[j].0@ == n;
                    assert(s[j].0@ == n);
                }
                if self.contains_name(n) {
                    let j = choose|j: int| 0 <= j < s.len() && s[j].0@ == n;
                    assert(j < last);
                    assert(olds[j].0@ == n);
                }
            }
            assert forall|n: Seq<char>| n != name@ && old(self).contains_name(n) implies self
                .bound_handle(n) == old(self).bound_handle(n) by {
                let j = choose|j: int| 0 <= j < s.len() && s[j].0@ == n;
                let j0 = choose|j: int| 0 <= j < olds.len() && olds[j].0@ == n;
                assert(s[j0].0@ == n);
                assert(j < last);
                assert(j == j0);
            }
            let w = choose|i: int| 0 <= i < s.len() && s[i].0@ == name@;
            assert(w == last);
        }
        true
    }

    /// Look the name up: the bound handle, or `None` when no live actor is
    /// registered under it.
    pub fn lookup(&self, name: &String) -> (r: Option<&H>)
        requires
            self.wf(),
        ensures
            match r {
                Option::Some(h) => self.contains_name(name@) && *h == self.bound_handle(
                    name@,
                ),
                Option::None => !self.contains_name(name@),
            },
    {
        let count = self.entries.len();
        let mut i: usize = 0;
        while i < count
            invariant
                count == self.entries@.len(),
                i <= count,
                self.wf(),
                forall|j: int| 0 <= j < i ==> self.entries@[j].0@ != name@,
            decreases count - i,
        {
            if self.entries[i].0 == *name {
                proof {
                    let s = self.entries@;
                    let w = choose|j: int| 0 <= j < s.len() && s[j].0@ == name@;
                    assert(w == i);
                }
                return Some(&self.entries[i].1);
            }
            i = i + 1;
        }
        None
    }

    /// Look a name up that the caller relies on: a miss is the typed
    /// peer-unavailability error, so a caller can propagate or recover
    /// instead of crashing.
    pub fn lookup_or_err(&self, name: &String) -> (r: Result<&H, SessionError>)
        requires
            self.wf(),
        ensures
            match r {
                Result::Ok(h) => self.contains_name(name@) && *h == self.bound_handle(name@),
                Result::Err(e) => e == SessionError::PeerUnavailable && !self.contains_name(
                    name@,
                ),
            },
    {
        match self.lookup(name) {
            Option::Some(h) => Ok(h),
            Option::None => Err(SessionError::PeerUnavailable),
        }
    }
}

} // verus!
