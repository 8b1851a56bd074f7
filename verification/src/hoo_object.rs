//! Shared handles to native objects and the identities that name them.
//!
//! An [`RcObject`] owns a reference-counted, interior-mutable cell.  Its
//! [`ObjectId`] is the address of that cell, read once when the cell is
//! allocated and carried along by every clone, erasure and downcast, so that
//! all handles to one cell agree on it.

use std::any::Any;
use std::cell::RefCell;
use std::hash::{Hash, Hasher};
use std::ops::Deref;
use std::rc::Rc;
use vstd::prelude::*;
use vstd::std_specs::cmp::PartialEqSpecImpl;
use vstd::std_specs::convert::TryFromSpecImpl;

verus! {

/// `std::cell::RefCell`, carried through as an opaque value: the library never
/// looks inside a cell, it only shares it.
#[verifier::external_type_specification]
#[verifier::external_body]
#[verifier::reject_recursive_types(T)]
pub struct ExRefCell<T: ?Sized>(RefCell<T>);

/// The identity of a native allocation: its address as an integer.
#[derive(Debug, Clone, Copy, PartialEq, Eq, Hash, Structural)]
pub struct ObjectId {
    id: usize,
}

impl View for ObjectId {
    type V = usize;

    closed spec fn view(&self) -> usize {
        self.id
    }
}

impl ObjectId {
    /// The raw value, as it is written into a proxy's reserved slot.
    pub fn to_ptr(&self) -> (ptr: usize)
        ensures
            ptr == self@,
    {
        self.id
    }

    /// The identity that a raw slot value stands for.
    pub fn from_ptr(ptr: usize) -> (id: Self)
        ensures
            id@ == ptr,
    {
        ObjectId { id: ptr }
    }

    /// Two identities with the same raw value are the same identity.
    pub proof fn lemma_view_injective(a: ObjectId, b: ObjectId)
        ensures
            a@ == b@ <==> a == b,
    {
    }
}

/// A strong, reference-counted, interior-mutable handle to a `T`.
#[derive(Debug)]
#[verifier::reject_recursive_types(T)]
pub struct RcObject<T: 'static> {
    id: ObjectId,
    inner: Rc<RefCell<T>>,
}

/// A cell whose content type has been forgotten.  Verus cannot name the type
/// `dyn Any`, so the reference is kept behind this opaque struct.
#[verifier::external_body]
#[derive(Debug)]
struct ErasedCell {
    typed: Rc<dyn Any>,
}

/// A type-erased handle: it can be stored uniformly and turned back into the
/// [`RcObject`] it was made from.
#[derive(Debug)]
pub struct RcTrait {
    id: ObjectId,
    cell: ErasedCell,
}

pub type RcAny = RcTrait;

/// `RefCell::new`: a fresh cell around `value`.  Nothing is claimed of it.
#[verifier::external_body]
fn new_cell<T: 'static>(value: T) -> (cell: RefCell<T>) {
    RefCell::new(value)
}

/// `Rc::as_ptr`: the address of the shared allocation.  Which address the
/// allocator hands out is not predictable, so the contract is silent.
#[verifier::external_body]
fn cell_address<T: 'static>(cell: &Rc<RefCell<T>>) -> (address: usize) {
    Rc::as_ptr(cell).addr()
}

/// The unsizing coercion from `Rc<RefCell<T>>` to `Rc<dyn Any>`: the same
/// allocation, seen without its type.
#[verifier::external_body]
fn erase_cell<T: 'static>(cell: Rc<RefCell<T>>) -> (erased: ErasedCell) {
    ErasedCell { typed: cell }
}

/// `Rc::clone` on the erased reference: another reference to the same cell.
#[verifier::external_body]
fn share_erased(cell: &ErasedCell) -> (shared: ErasedCell)
    ensures
        shared == *cell,
{
    ErasedCell { typed: Rc::clone(&cell.typed) }
}

/// `Rc::<dyn Any>::downcast`: the typed reference if the cell holds a `U`,
/// otherwise the erased reference itself, handed back untouched.
#[verifier::external_body]
fn downcast_cell<U: 'static>(cell: ErasedCell) -> (r: Result<Rc<RefCell<U>>, ErasedCell>)
    ensures
        r matches Err(back) ==> back == cell,
{
    match cell.typed.downcast::<RefCell<U>>() {
        Ok(casted) => Ok(casted),
        Err(typed) => Err(ErasedCell { typed }),
    }
}

impl<T: 'static> RcObject<T> {
    pub closed spec fn spec_id(&self) -> ObjectId {
        self.id
    }

    /// The cell that this handle shares with its clones.  A cell is known by
    /// which cell it is, not by what it holds at the moment.
    pub closed spec fn cell(&self) -> RefCell<T> {
        *self.inner
    }

    /// Allocates a cell for `inner` and returns the first handle to it.
    pub fn new(inner: T) -> (obj: Self) {
        let inner = Rc::new(new_cell(inner));
        let id = ObjectId { id: cell_address(&inner) };
        RcObject { id, inner }
    }

    /// Forgets the content type.  The erased handle names the same cell.
    pub fn into_any(self) -> (erased: RcAny)
        ensures
            erased.id() == self.id(),
    {
        RcTrait { id: self.id, cell: erase_cell(self.inner) }
    }

    /// The identity of the cell behind this handle.
    #[verifier::when_used_as_spec(spec_id)]
    pub fn id(&self) -> (id: ObjectId)
        ensures
            id == self.spec_id(),
    {
        self.id
    }
}

/// What a downcast of `erased` may give: a typed handle to the same cell, or
/// `erased` itself.
pub open spec fn downcast_outcome<U: 'static>(erased: RcTrait, r: Result<RcObject<U>, RcTrait>) -> bool {
    match r {
        Ok(obj) => obj.id() == erased.id(),
        Err(back) => back == erased,
    }
}

impl RcTrait {
    pub closed spec fn spec_id(&self) -> ObjectId {
        self.id
    }

    /// Recovers the typed handle.  On failure the erased handle comes back
    /// exactly as it went in, so the caller can try another type.
    pub fn try_downcast<U: 'static>(self) -> (r: Result<RcObject<U>, Self>)
        ensures
            downcast_outcome(self, r),
    {
        match downcast_cell::<U>(self.cell) {
            Ok(casted) => Ok(RcObject { id: self.id, inner: casted }),
            Err(cell) => Err(RcTrait { id: self.id, cell }),
        }
    }

    /// The identity of the cell behind this handle.
    #[verifier::when_used_as_spec(spec_id)]
    pub fn id(&self) -> (id: ObjectId)
        ensures
            id == self.spec_id(),
    {
        self.id
    }
}

impl<T: 'static> Clone for RcObject<T> {
    /// Another handle to the same cell.
    fn clone(&self) -> (obj: Self)
        ensures
            obj == *self,
    {
        RcObject { id: self.id, inner: self.inner.clone() }
    }
}

impl Clone for RcTrait {
    /// Another handle to the same cell.
    fn clone(&self) -> (erased: Self)
        ensures
            erased == *self,
    {
        RcTrait { id: self.id, cell: share_erased(&self.cell) }
    }
}

impl<T: 'static> TryFrom<RcTrait> for RcObject<T> {
    type Error = RcTrait;

    /// The same as [`RcTrait::try_downcast`].
    fn try_from(obj: RcTrait) -> (r: Result<Self, RcTrait>)
        ensures
            downcast_outcome(obj, r),
    {
        obj.try_downcast()
    }
}

impl<T: 'static> TryFromSpecImpl<RcTrait> for RcObject<T> {
    /// Whether the conversion succeeds is not a function of the handle as
    /// contracts see it, so the conversion follows no spec function.
    open spec fn obeys_try_from_spec() -> bool {
        false
    }

    open spec fn try_from_spec(obj: RcTrait) -> Result<Self, RcTrait> {
        Err(obj)
    }
}

impl<T: 'static> Deref for RcObject<T> {
    type Target = RefCell<T>;

    /// The cell itself, to borrow the value from: shared for a read,
    /// exclusive for a write.  The cell refuses a borrow that conflicts with
    /// one that is still out.
    fn deref(&self) -> (cell: &RefCell<T>)
        ensures
            *cell == self.cell(),
    {
        &self.inner
    }
}

impl<T: 'static> PartialEq for RcObject<T> {
    /// Handles are equal when they name the same cell, whatever it holds.
    fn eq(&self, other: &Self) -> (r: bool) {
        self.id == other.id
    }
}

impl<T: 'static> PartialEqSpecImpl for RcObject<T> {
    open spec fn obeys_eq_spec() -> bool {
        true
    }

    open spec fn eq_spec(&self, other: &Self) -> bool {
        self.id() == other.id()
    }
}

impl<T: 'static> Eq for RcObject<T> {

}

impl PartialEq for RcTrait {
    /// Handles are equal when they name the same cell, whatever it holds.
    fn eq(&self, other: &Self) -> (r: bool) {
        self.id == other.id
    }
}

impl PartialEqSpecImpl for RcTrait {
    open spec fn obeys_eq_spec() -> bool {
        true
    }

    open spec fn eq_spec(&self, other: &Self) -> bool {
        self.id() == other.id()
    }
}

impl Eq for RcTrait {

}

impl<T: 'static> Hash for RcObject<T> {
    /// `Hasher::write_usize` on the raw identity, so that equal handles hash
    /// alike.  Nothing is claimed of the hasher's state.
    #[verifier::external_body]
    fn hash<H: Hasher>(&self, state: &mut H) {
        state.write_usize(self.id.id);
    }
}

impl Hash for RcTrait {
    /// `Hasher::write_usize` on the raw identity, so that equal handles hash
    /// alike.  Nothing is claimed of the hasher's state.
    #[verifier::external_body]
    fn hash<H: Hasher>(&self, state: &mut H) {
        state.write_usize(self.id.id);
    }
}

/// Every clone of a handle borrows from the same cell: what one writes, the
/// other reads.
pub proof fn lemma_clones_share_a_cell<T: 'static>(origin: RcObject<T>, copy: RcObject<T>)
    requires
        copy == origin,
    ensures
        copy.cell() == origin.cell(),
        copy.id() == origin.id(),
{
}

/// Erasing and downcasting never lose the identity: whatever a downcast of
/// the erasure of `origin` gives, success or not, it names the cell of
/// `origin`.
pub proof fn lemma_downcast_keeps_identity<T: 'static, U: 'static>(
    origin: RcObject<T>,
    erased: RcTrait,
    r: Result<RcObject<U>, RcTrait>,
)
    requires
        erased.id() == origin.id(),
        downcast_outcome(erased, r),
    ensures
        match r {
            Ok(obj) => obj.id() == origin.id(),
            Err(back) => back.id() == origin.id(),
        },
{
}

} // verus!
