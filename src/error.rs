use vstd::prelude::*;

verus! {

/// An argument for pstoedit held a nul byte, so it cannot be handed over as a
/// nul-terminated string.
#[derive(Debug)]
pub struct NulError {
    /// Position of the first nul byte.
    pub position: usize,
    /// The rejected argument.
    pub bytes: Vec<u8>,
}

impl NulError {
    /// Position of the first nul byte in the rejected argument.
    pub fn nul_position(&self) -> (r: usize)
        ensures
            r == self.position,
    {
        self.position
    }

    /// The rejected argument, given back whole.
    pub fn into_vec(self) -> (r: Vec<u8>)
        ensures
            r@ == self.bytes@,
    {
        self.bytes
    }
}

/// std's error for bytes that are not UTF-8, carried through unread.
#[verifier::external_type_specification]
#[verifier::external_body]
pub struct ExUtf8Error(std::str::Utf8Error);

/// Errors of the interaction with pstoedit.
#[derive(Debug)]
pub enum Error {
    /// The connection to pstoedit was not initialized: the version gate has
    /// not succeeded.
    NotInitialized,
    /// The loaded pstoedit library is not compatible with this crate.
    IncompatibleVersion,
    /// pstoedit (or the interpreter it runs) ended with this status code.
    PstoeditError(i32),
    /// An argument to be handed to pstoedit contained a nul byte.
    NulError(NulError),
    /// A string from pstoedit was not valid UTF-8.
    Utf8Error(std::str::Utf8Error),
}

/// Result of most operations of this crate.
pub type Result<T> = core::result::Result<T, Error>;

} // verus!
