//! The errors that borrowing a slot can produce, and the call sites they carry.
use vstd::prelude::*;

verus! {

/// A call site, attached to borrows and errors for diagnostics only.
#[derive(Clone, Copy, Debug, PartialEq, Eq, Structural)]
pub struct Location {
    pub line: u32,
    pub column: u32,
}

impl Location {
    /// A call site at the given line and column.
    pub fn new(line: u32, column: u32) -> (r: Location)
        ensures
            r.line == line,
            r.column == column,
    {
        Location { line, column }
    }
}

/// The value behind a handle was disposed; carries where the handle was created.
#[derive(Clone, Copy, Debug)]
pub struct ValueDroppedError {
    pub created_at: Location,
}

/// A borrow was refused because the value is borrowed for writing; carries where
/// that write borrow was taken.
#[derive(Clone, Copy, Debug)]
pub struct AlreadyBorrowedMutError {
    pub borrowed_mut_at: Location,
}

/// A write borrow was refused because the value is borrowed for reading; carries
/// the call sites of every outstanding read borrow.
#[derive(Clone, Debug)]
pub struct AlreadyBorrowedError {
    pub borrowed_at: Vec<Location>,
}

/// Why a read borrow failed.
#[derive(Clone, Debug)]
pub enum BorrowError {
    /// The value was dropped.
    Dropped(ValueDroppedError),
    /// The value was already borrowed for writing.
    AlreadyBorrowedMut(AlreadyBorrowedMutError),
}

/// Why a write borrow failed.
#[derive(Clone, Debug)]
pub enum BorrowMutError {
    /// The value was dropped.
    Dropped(ValueDroppedError),
    /// The value was already borrowed for reading.
    AlreadyBorrowed(AlreadyBorrowedError),
    /// The value was already borrowed for writing.
    AlreadyBorrowedMut(AlreadyBorrowedMutError),
}

impl ValueDroppedError {
    /// The text that describes this error.
    pub fn message(&self) -> (r: &'static str)
        ensures
            r@ == "Failed to borrow because the value was dropped."@,
    {
        "Failed to borrow because the value was dropped."
    }
}

impl AlreadyBorrowedMutError {
    /// The text that describes this error.
    pub fn message(&self) -> (r: &'static str)
        ensures
            r@ == "Failed to borrow because the value was already borrowed mutably."@,
    {
        "Failed to borrow because the value was already borrowed mutably."
    }
}

impl AlreadyBorrowedError {
    /// The text that describes this error.
    pub fn message(&self) -> (r: &'static str)
        ensures
            r@ == "Failed to borrow mutably because the value was already borrowed immutably."@,
    {
        "Failed to borrow mutably because the value was already borrowed immutably."
    }
}

impl BorrowError {
    /// Whether the value had been dropped.
    pub fn is_dropped(&self) -> (r: bool)
        ensures
            r == (self is Dropped),
    {
        match self {
            BorrowError::Dropped(_) => true,
            _ => false,
        }
    }

    /// The text that describes this error.
    pub fn message(&self) -> (r: &'static str)
        ensures
            self is Dropped ==> r@ == "Failed to borrow because the value was dropped."@,
            self is AlreadyBorrowedMut ==> r@
                == "Failed to borrow because the value was already borrowed mutably."@,
    {
        match self {
            BorrowError::Dropped(e) => e.message(),
            BorrowError::AlreadyBorrowedMut(e) => e.message(),
        }
    }
}

impl BorrowMutError {
    /// Whether the value had been dropped.
    pub fn is_dropped(&self) -> (r: bool)
        ensures
            r == (self is Dropped),
    {
        match self {
            BorrowMutError::Dropped(_) => true,
            _ => false,
        }
    }

    /// The text that describes this error.
    pub fn message(&self) -> (r: &'static str)
        ensures
            self is Dropped ==> r@ == "Failed to borrow because the value was dropped."@,
            self is AlreadyBorrowed ==> r@
                == "Failed to borrow mutably because the value was already borrowed immutably."@,
            self is AlreadyBorrowedMut ==> r@
                == "Failed to borrow because the value was already borrowed mutably."@,
    {
        match self {
            BorrowMutError::Dropped(e) => e.message(),
            BorrowMutError::AlreadyBorrowed(e) => e.message(),
            BorrowMutError::AlreadyBorrowedMut(e) => e.message(),
        }
    }
}

} // verus!
