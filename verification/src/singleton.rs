//! The global cell: the one place that holds the metrics set of the
//! process, written once and read from everywhere.
//!
//! The first writer wins. Whoever comes later is told `AlreadyInitialized`,
//! which is no failure, and the set that it built is dropped.

use crate::error::MetricsError;
use crate::metrics_set::{BindingView, MetricsSet};
use once_cell::sync::OnceCell;
use vstd::prelude::*;

verus! {

/// `once_cell::sync::OnceCell`: a cell that any thread can read and that is
/// written at most once. It is carried through, never looked into.
#[verifier::external_type_specification]
#[verifier::external_body]
#[verifier::reject_recursive_types(T)]
pub struct ExOnceCell<T>(OnceCell<T>);

/// The bindings of the one set that a cell holds from the moment it is
/// written. A cell is written at most once and never emptied, so whatever is
/// read from it at any time is this set.
pub uninterp spec fn settled(cell: OnceCell<MetricsSet>) -> Seq<BindingView>;

/// Whether a cell is written at some time of its life. A cell is never
/// emptied, so a cell that was once found written, or that once refused a
/// value because it was full, is written for good.
pub uninterp spec fn written(cell: OnceCell<MetricsSet>) -> bool;

/// Calls `once_cell::sync::OnceCell::new`, which makes an empty cell.
/// Nothing is claimed of it.
#[verifier::external_body]
fn cell_new() -> (cell: OnceCell<MetricsSet>) {
    OnceCell::new()
}

/// Calls `once_cell::sync::OnceCell::get`, which returns the value of the
/// cell, or `None` while the cell is empty or is being written. The claim:
/// where a set is returned, the cell is written, and the set is the one set
/// that the cell holds.
#[verifier::external_body]
fn cell_get(cell: &OnceCell<MetricsSet>) -> (r: Option<&MetricsSet>)
    ensures
        r is Some ==> written(*cell) && r->Some_0@ == settled(*cell),
{
    cell.get()
}

/// Calls `once_cell::sync::OnceCell::set`, which returns `Ok(())` if the
/// cell was empty and `Err(value)` if it was full. The claims: either way
/// the cell is written; after `Ok` the given set is the one set that the
/// cell holds; an `Err` hands the given set back.
#[verifier::external_body]
fn cell_set(cell: &OnceCell<MetricsSet>, value: MetricsSet) -> (r: Result<(), MetricsSet>)
    ensures
        r is Ok ==> written(*cell) && settled(*cell) == value@,
        r is Err ==> written(*cell) && r->Err_0@ == value@,
{
    cell.set(value)
}

/// What a caller of `init` is told once the cell has answered: `Ok` where
/// its set was stored, and `AlreadyInitialized` where the cell was full.
pub fn init_outcome(stored: Result<(), MetricsSet>) -> (r: Result<(), MetricsError>)
    ensures
        stored is Ok ==> r is Ok,
        stored is Err ==> r == Err::<(), MetricsError>(MetricsError::AlreadyInitialized),
{
    match stored {
        Ok(()) => Ok(()),
        Err(_) => Err(MetricsError::AlreadyInitialized),
    }
}

/// The cell that holds the metrics set of the process.
pub struct MetricsCell {
    cell: OnceCell<MetricsSet>,
}

impl MetricsCell {
    /// The bindings of the one set that the cell holds from the moment it
    /// is initialized.
    pub closed spec fn settled(&self) -> Seq<BindingView> {
        settled(self.cell)
    }

    /// Whether the cell is initialized at some time of its life. A cell is
    /// never emptied, so a cell that was once found initialized stays so.
    pub closed spec fn written(&self) -> bool {
        written(self.cell)
    }

    /// An empty cell.
    pub fn new() -> MetricsCell {
        MetricsCell { cell: cell_new() }
    }

    /// The set of the process, or `None` before the cell is initialized.
    /// Every set that is returned is the same one. Never blocks.
    pub fn get(&self) -> (r: Option<&MetricsSet>)
        ensures
            r is Some ==> self.written() && r->Some_0@ == self.settled(),
    {
        cell_get(&self.cell)
    }

    /// Whether the cell was found initialized. A cell that was found
    /// initialized holds its set for good; one that was found empty may be
    /// initialized by another caller a moment later.
    pub fn is_initialized(&self) -> (b: bool)
        ensures
            b ==> self.written(),
    {
        self.get().is_some()
    }

    /// Stores a set that was built, if the cell is empty.
    ///
    /// Returns `Ok` exactly when the set was stored, and it is then the set
    /// of the process; otherwise `AlreadyInitialized`, and the set is
    /// dropped.
    pub fn store(&self, set: MetricsSet) -> (r: Result<(), MetricsError>)
        ensures
            self.written(),
            r is Ok ==> self.settled() == set@,
            r is Err ==> r->Err_0 == MetricsError::AlreadyInitialized,
    {
        init_outcome(cell_set(&self.cell, set))
    }

    /// Initializes the cell with the set that `build` makes.
    ///
    /// A cell that is found initialized answers `AlreadyInitialized`
    /// without running `build`. Otherwise `build` runs; its error is handed
    /// on, and its set is stored unless another caller was faster, who is
    /// then answered `Ok` while this one is answered `AlreadyInitialized`.
    pub fn init<F: FnOnce() -> Result<MetricsSet, MetricsError>>(&self, build: F) -> (r: Result<
        (),
        MetricsError,
    >)
        requires
            build.requires(()),
        ensures
            r is Ok ==> exists|set: MetricsSet|
                #[trigger] build.ensures((), Ok::<MetricsSet, MetricsError>(set)) && set@
                    == self.settled(),
            r is Ok ==> self.written(),
            r is Err ==> (r->Err_0 == MetricsError::AlreadyInitialized && self.written())
                || build.ensures((), Err::<MetricsSet, MetricsError>(r->Err_0)),
    {
        if self.is_initialized() {
            return Err(MetricsError::AlreadyInitialized);
        }
        match build() {
            Ok(set) => self.store(set),
            Err(e) => Err(e),
        }
    }
}

} // verus!
