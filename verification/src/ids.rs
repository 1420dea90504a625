use std::ops::Deref;
use vstd::prelude::*;

verus! {

/// A position in the write-ahead log.
#[derive(Clone, Copy, Debug, PartialEq, Eq, Structural)]
pub struct PageXLogRecPtr(pub u64);

/// Identifier of a transaction.
#[derive(Clone, Copy, Debug, PartialEq, Eq, Structural)]
pub struct TransactionId(pub u32);

/// Identifier of a command within a transaction.
#[derive(Clone, Copy, Debug, PartialEq, Eq, Structural)]
pub struct CommandId(pub u32);

/// A byte offset within a page.
#[derive(Clone, Copy, Debug, PartialEq, Eq, Structural)]
pub struct LocationIndex(pub u16);

/// The six raw bytes by which a row points at a row version (itself or its
/// successor). They are kept as stored, in no particular byte order.
#[derive(Clone, Copy, Debug, PartialEq, Eq)]
pub struct ItemPointerData(pub [u8; 6]);

impl Deref for PageXLogRecPtr {
    type Target = u64;

    fn deref(&self) -> (value: &u64)
        ensures
            *value == self.0,
    {
        &self.0
    }
}

impl Deref for TransactionId {
    type Target = u32;

    fn deref(&self) -> (value: &u32)
        ensures
            *value == self.0,
    {
        &self.0
    }
}

impl Deref for CommandId {
    type Target = u32;

    fn deref(&self) -> (value: &u32)
        ensures
            *value == self.0,
    {
        &self.0
    }
}

impl Deref for LocationIndex {
    type Target = u16;

    fn deref(&self) -> (value: &u16)
        ensures
            *value == self.0,
    {
        &self.0
    }
}

impl Deref for ItemPointerData {
    type Target = [u8; 6];

    fn deref(&self) -> (value: &[u8; 6])
        ensures
            *value == self.0,
    {
        &self.0
    }
}

} // verus!
