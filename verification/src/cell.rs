//! The single-assignment controller cell.
//!
//! The browser controller becomes available only after the asynchronous
//! bootstrap completes, so it is kept in a write-once cell: empty until the
//! bootstrap stores the controller, populated and immutable from then on.
//! The cell itself is `once_cell::unsync::OnceCell`, holding the identifier
//! of the bound controller; the verified layer around it guarantees that a
//! second store is rejected and leaves the first value in place.

use vstd::prelude::*;
use once_cell::unsync::OnceCell;

verus! {

/// The single-assignment binding between the main window and its controller:
/// a write-once cell holding at most one controller identifier.
#[verifier::external_body]
pub struct ControllerBinding {
    inner: OnceCell<u64>,
}

/// What the binding's cell holds: empty, or exactly the one identifier stored
/// into it.
pub uninterp spec fn cell_contents(b: ControllerBinding) -> Seq<u64>;

/// The result of storing `v` into a cell that holds `bound`: an empty cell
/// takes the value, a populated one keeps what it holds.
pub open spec fn spec_bind_result(bound: Option<u64>, v: u64) -> Option<u64> {
    match bound {
        None => Some(v),
        Some(first) => Some(first),
    }
}

impl ControllerBinding {
    /// The controller this binding holds, if the bootstrap stored one yet.
    pub open spec fn bound(self) -> Option<u64> {
        if cell_contents(self).len() == 0 {
            None
        } else {
            Some(cell_contents(self)[0])
        }
    }

    /// Relies on `once_cell::unsync::OnceCell::new`: a fresh cell is empty.
    #[verifier::external_body]
    pub fn new() -> (b: ControllerBinding)
        ensures
            cell_contents(b).len() == 0,
    {
        ControllerBinding { inner: OnceCell::new() }
    }

    /// Relies on `once_cell::unsync::OnceCell::set`: it stores the value and
    /// reports success when the cell was empty, and reports failure without
    /// touching the stored value when the cell was already full.
    #[verifier::external_body]
    fn set_raw(&mut self, v: u64) -> (stored: bool)
        ensures
            stored <==> cell_contents(*old(self)).len() == 0,
            stored ==> cell_contents(*final(self)) == cell_contents(*old(self)).push(v),
            !stored ==> cell_contents(*final(self)) == cell_contents(*old(self)),
    {
        self.inner.set(v).is_ok()
    }

    /// Relies on `once_cell::unsync::OnceCell::get`: it returns the stored
    /// value when one was stored, and nothing when the cell is empty.
    #[verifier::external_body]
    fn get_raw(&self) -> (r: Option<u64>)
        ensures
            cell_contents(*self).len() == 0 ==> r is None,
            cell_contents(*self).len() != 0 ==> r == Some(cell_contents(*self)[0]),
    {
        self.inner.get().copied()
    }

    /// Store the controller the bootstrap created. The store succeeds exactly
    /// when no controller was stored before; a populated binding rejects the
    /// newcomer and keeps its first value.
    pub fn bind(&mut self, controller: u64) -> (r: Result<(), u64>)
        ensures
            final(self).bound() == spec_bind_result(old(self).bound(), controller),
            r is Ok <==> old(self).bound() is None,
            r is Err ==> r == Err::<(), u64>(controller),
    {
        if self.set_raw(controller) {
            Ok(())
        } else {
            Err(controller)
        }
    }

    /// Read the bound controller, if any.
    pub fn get(&self) -> (r: Option<u64>)
        ensures
            r == self.bound(),
    {
        self.get_raw()
    }
}

/// Law: the binding is populated at most once per run. Storing `first` into a
/// fresh binding succeeds; whatever `second` a later store offers, the store
/// is rejected and the binding still holds `first`.
pub proof fn lemma_single_assignment(first: u64, second: u64)
    ensures
        spec_bind_result(None, first) == Some(first),
        spec_bind_result(spec_bind_result(None, first), second) == Some(first),
{
}

} // verus!
