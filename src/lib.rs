//! Safe interface to pstoedit, a library that translates PostScript and PDF
//! graphics into vector formats through format-specific drivers.
//!
//! The native entry points themselves are reached by the caller; this crate
//! holds everything that decides: the nul-terminated argument buffers handed
//! to a conversion, the meaning of the native status codes, the version gate,
//! and the traversal of a sentinel-terminated driver catalog.
use vstd::prelude::*;

pub mod buffers;
pub mod command;
pub mod driver_info;
pub mod error;

pub use command::Command;
pub use driver_info::DriverInfo;
pub use error::{Error, NulError, Result};

verus! {

/// Version identifier of the pstoedit interface this crate is written for.
pub const PSTOEDIT_DLL_VERSION: u32 = 301;

/// Result of the version gate.
///
/// `check` is what pstoedit's version check answered for
/// [`PSTOEDIT_DLL_VERSION`]: non-zero when the loaded library is compatible.
pub fn init(check: i32) -> (r: Result<()>)
    ensures
        r is Ok <==> check != 0,
        r matches Err(e) ==> e is IncompatibleVersion,
{
    if check != 0 {
        Ok(())
    } else {
        Err(Error::IncompatibleVersion)
    }
}

/// Meaning of a status code returned by pstoedit's conversion entry point.
pub fn pstoedit_result(error_code: i32) -> (r: Result<()>)
    ensures
        r is Ok <==> error_code == 0,
        r matches Err(e) ==> (error_code == -1 <==> e is NotInitialized),
        r matches Err(e) ==> (error_code != -1 <==> e == Error::PstoeditError(error_code)),
{
    match error_code {
        0 => Ok(()),
        -1 => Err(Error::NotInitialized),
        err => Err(Error::PstoeditError(err)),
    }
}

} // verus!
