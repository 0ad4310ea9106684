//! The metrics set: the handles of the instruments that the process
//! defines, each bound under its name.

use crate::error::MetricsError;
use crate::registry::InstrumentHandle;
use vstd::prelude::*;

verus! {

/// One binding of a metrics set, as mathematical values: a name and the
/// handle bound under it.
pub type BindingView = (Seq<char>, InstrumentHandle);

/// The place of the first binding under `name` at or after `from`, or the
/// number of bindings where there is none.
pub open spec fn position_from(s: Seq<BindingView>, name: Seq<char>, from: int) -> int
    decreases s.len() - from,
{
    if from < 0 || from >= s.len() {
        s.len() as int
    } else if s[from].0 == name {
        from
    } else {
        position_from(s, name, from + 1)
    }
}

/// The handle bound under `name`, if there is one.
pub open spec fn bound_handle(s: Seq<BindingView>, name: Seq<char>) -> Option<InstrumentHandle> {
    if position_from(s, name, 0) < s.len() {
        Some(s[position_from(s, name, 0)].1)
    } else {
        None
    }
}

/// What binding a handle under a name comes to: it is refused with
/// `RegistrationConflict` when the name is empty or already bound, and is
/// otherwise appended.
pub open spec fn bind_outcome(s: Seq<BindingView>, name: Seq<char>, handle: InstrumentHandle)
    -> Result<Seq<BindingView>, MetricsError> {
    if name.len() == 0 || bound_handle(s, name) is Some {
        Err(MetricsError::RegistrationConflict)
    } else {
        Ok(s.push((name, handle)))
    }
}

/// One binding: a name and the handle bound under it.
pub struct Binding {
    name: String,
    handle: InstrumentHandle,
}

/// The instrument handles of the process, one under each name. It is
/// assembled once and read ever after.
pub struct MetricsSet {
    bindings: Vec<Binding>,
}

impl View for MetricsSet {
    type V = Seq<BindingView>;

    closed spec fn view(&self) -> Seq<BindingView> {
        self.bindings@.map_values(|b: Binding| (b.name@, b.handle))
    }
}

impl MetricsSet {
    /// A set without bindings.
    pub fn new() -> (r: MetricsSet)
        ensures
            r@ == Seq::<BindingView>::empty(),
    {
        let r = MetricsSet { bindings: Vec::new() };
        proof {
            assert(r@ =~= Seq::<BindingView>::empty());
        }
        r
    }

    /// The number of bindings.
    pub fn len(&self) -> (n: usize)
        ensures
            n == self@.len(),
    {
        self.bindings.len()
    }

    /// The handle bound under `name`, if there is one.
    pub fn lookup(&self, name: &str) -> (r: Option<InstrumentHandle>)
        ensures
            r == bound_handle(self@, name@),
    {
        let wanted: String = name.to_owned();
        let mut i: usize = 0;
        while i < self.bindings.len()
            invariant
                i <= self.bindings.len(),
                wanted@ == name@,
                position_from(self@, name@, 0) == position_from(self@, name@, i as int),
            decreases self.bindings.len() - i,
        {
            if self.bindings[i].name == wanted {
                return Some(self.bindings[i].handle);
            }
            i += 1;
        }
        None
    }

    /// Binds a handle under a name, at the end of the set.
    ///
    /// Fails with `RegistrationConflict`, and leaves the set as it is,
    /// exactly when the name is empty or already bound.
    pub fn bind(&mut self, name: &str, handle: InstrumentHandle) -> (r: Result<(), MetricsError>)
        ensures
            match bind_outcome(old(self)@, name@, handle) {
                Ok(s) => r is Ok && final(self)@ == s,
                Err(e) => r == Err::<(), MetricsError>(e) && final(self)@ == old(self)@,
            },
    {
        if name.is_empty() {
            return Err(MetricsError::RegistrationConflict);
        }
        match self.lookup(name) {
            Some(_) => Err(MetricsError::RegistrationConflict),
            None => {
                self.bindings.push(Binding { name: name.to_owned(), handle });
                proof {
                    assert(self@ =~= old(self)@.push((name@, handle)));
                }
                Ok(())
            },
        }
    }
}

/// Where a name is bound, it is bound at the place that `position_from`
/// gives, and nowhere before it.
pub proof fn lemma_position(s: Seq<BindingView>, name: Seq<char>, from: int)
    requires
        0 <= from <= s.len(),
    ensures
        from <= position_from(s, name, from) <= s.len(),
        position_from(s, name, from) < s.len() ==> s[position_from(s, name, from)].0 == name,
        forall|k: int| from <= k < position_from(s, name, from) ==> (#[trigger] s[k]).0 != name,
    decreases s.len() - from,
{
    if from < s.len() && s[from].0 != name {
        lemma_position(s, name, from + 1);
    }
}

/// A handle that was just bound is found under its name, every name bound
/// before keeps its handle, and a second binding under the same name is
/// refused with `RegistrationConflict`.
pub proof fn lemma_bind_then_lookup(
    s: Seq<BindingView>,
    name: Seq<char>,
    handle: InstrumentHandle,
    other: Seq<char>,
    again: InstrumentHandle,
)
    requires
        bind_outcome(s, name, handle) is Ok,
    ensures
        bound_handle(bind_outcome(s, name, handle)->Ok_0, name) == Some(handle),
        other != name ==> bound_handle(bind_outcome(s, name, handle)->Ok_0, other) == bound_handle(
            s,
            other,
        ),
        bind_outcome(bind_outcome(s, name, handle)->Ok_0, name, again) == Err::<
            Seq<BindingView>,
            MetricsError,
        >(MetricsError::RegistrationConflict),
{
    let after = s.push((name, handle));
    lemma_position(s, name, 0);
    lemma_position(after, name, 0);
    lemma_position(s, other, 0);
    lemma_position(after, other, 0);
    let p = position_from(after, name, 0);
    if p < s.len() {
        assert(s[p].0 == name);
    }
    assert(after[s.len() as int].0 == name);
    if other != name {
        let a = position_from(s, other, 0);
        let b = position_from(after, other, 0);
        if a < s.len() {
            assert(after[a].0 == other);
            if b < a {
                assert(s[b].0 == other);
            }
        } else {
            if b < s.len() {
                assert(s[b].0 == other);
            }
        }
    }
}

} // verus!
