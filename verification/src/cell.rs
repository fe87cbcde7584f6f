//! The shared address cell: one slot that starts out unset, is filled by its
//! single writer and is read by any number of readers.
//!
//! The slot sits behind a reader-writer lock. There is one writing end per
//! cell, and it alone stores, so what it has stored is what the cell holds.
//! A reading end sees what the cell holds at the moment it looks.

use crate::address::{address_view, is_onion_address, OnionAddress};
use parking_lot::RwLock;
use std::sync::Arc;
use vstd::prelude::*;

verus! {

/// `lock_api::RwLock`, the reader-writer lock that `parking_lot::RwLock` is
/// an instance of.
#[verifier::external_type_specification]
#[verifier::external_body]
#[verifier::reject_recursive_types(R)]
#[verifier::reject_recursive_types(T)]
pub struct ExRwLock<R, T: ?Sized>(parking_lot::lock_api::RwLock<R, T>);

/// `parking_lot::RawRwLock`, the raw lock inside a `parking_lot::RwLock`.
#[verifier::external_type_specification]
#[verifier::external_body]
pub struct ExRawRwLock(parking_lot::RawRwLock);

/// What the lock holds, as its writing end left it.
pub uninterp spec fn lock_content(lock: RwLock<Option<OnionAddress>>) -> Option<Seq<char>>;

/// Which lock this is. A lock stays the lock that it is whatever is stored
/// in it, and every pointer to it points at that lock.
pub uninterp spec fn lock_identity(lock: RwLock<Option<OnionAddress>>) -> nat;

/// `RwLock::new`: a lock that holds `value`.
#[verifier::external_body]
fn new_lock(value: Option<OnionAddress>) -> (lock: RwLock<Option<OnionAddress>>)
    ensures
        lock_content(lock) == address_view(value),
{
    RwLock::new(value)
}

/// `RwLock::write`, then an assignment through the guard: waits for
/// exclusive access and replaces what the lock holds by `value`. The pointer
/// points at the same lock as before. It takes the writing end by `&mut`,
/// which no reading end can be, so that the contract can say what the lock
/// holds afterwards.
#[verifier::external_body]
fn store(cell: &mut Arc<RwLock<Option<OnionAddress>>>, value: Option<OnionAddress>)
    ensures
        lock_content(**final(cell)) == address_view(value),
        lock_identity(**final(cell)) == lock_identity(**old(cell)),
{
    *cell.write() = value;
}

/// `RwLock::read`, then a clone through the guard: waits for shared access
/// and copies out what the lock holds at that moment. Which moment that is
/// among the writer's stores is open, so nothing is claimed of the result.
#[verifier::external_body]
fn load(lock: &RwLock<Option<OnionAddress>>) -> Option<OnionAddress> {
    lock.read().clone()
}

/// `Arc::clone`: another pointer to the same lock.
#[verifier::external_body]
fn share(cell: &Arc<RwLock<Option<OnionAddress>>>) -> (other: Arc<RwLock<Option<OnionAddress>>>)
    ensures
        lock_identity(*other) == lock_identity(**cell),
{
    Arc::clone(cell)
}

/// The writing end of the cell.
pub struct AddressWriter {
    cell: Arc<RwLock<Option<OnionAddress>>>,
}

/// A reading end of the cell.
pub struct AddressReader {
    cell: Arc<RwLock<Option<OnionAddress>>>,
}

impl View for AddressWriter {
    type V = Option<Seq<char>>;

    /// What the cell holds: `None` while it is unset.
    closed spec fn view(&self) -> Option<Seq<char>> {
        lock_content(*self.cell)
    }
}

impl AddressWriter {
    /// Which cell this end writes to.
    pub closed spec fn cell_id(&self) -> nat {
        lock_identity(*self.cell)
    }

    /// Stores `address` in the cell. Nothing but an address can be stored,
    /// so a cell that is set is never unset again.
    pub fn publish(&mut self, address: OnionAddress)
        ensures
            final(self)@ == Some(address@),
            final(self).cell_id() == old(self).cell_id(),
            is_onion_address(address@),
    {
        let _ = address.as_str();
        store(&mut self.cell, Some(address));
    }

    /// A new reading end of this writer's cell.
    pub fn reader(&self) -> (reader: AddressReader)
        ensures
            reader.cell_id() == self.cell_id(),
    {
        AddressReader { cell: share(&self.cell) }
    }
}

impl AddressReader {
    /// Which cell this end reads from.
    pub closed spec fn cell_id(&self) -> nat {
        lock_identity(*self.cell)
    }

    /// What the cell holds at the moment of the call. A reader that races
    /// with the writer may still see the cell unset; one that sees the cell
    /// set sees an onion address.
    pub fn get(&self) -> (address: Option<OnionAddress>)
        ensures
            address_view(address) matches Some(a) ==> is_onion_address(a),
    {
        let address = load(&self.cell);
        match &address {
            Some(a) => {
                let _ = a.as_str();
            },
            None => {},
        }
        address
    }
}

impl Clone for AddressReader {
    /// Another reading end of the same cell.
    fn clone(&self) -> (other: Self)
        ensures
            other.cell_id() == self.cell_id(),
    {
        AddressReader { cell: share(&self.cell) }
    }
}

/// A new cell, unset, as its writing end and one reading end.
pub fn address_cell() -> (ends: (AddressWriter, AddressReader))
    ensures
        ends.0@ == None::<Seq<char>>,
        ends.1.cell_id() == ends.0.cell_id(),
{
    let cell = Arc::new(new_lock(None));
    let reader = AddressReader { cell: share(&cell) };
    (AddressWriter { cell }, reader)
}

} // verus!
