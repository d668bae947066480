//! What the service is started with.

use vstd::prelude::*;
use vstd::string::StringExecFns;

verus! {

/// The largest request body that is accepted unless another limit is set:
/// four mebibytes.
pub const DEFAULT_BYTE_LIMIT: usize = 4_194_304;

/// The address to listen on, the largest request body in bytes, and whether
/// audio and transcript are kept.
#[derive(Debug, Clone)]
pub struct Configuration {
    pub listen: String,
    pub bytes: usize,
    pub store: bool,
}

impl Default for Configuration {
    /// Listens on every address at port 8088, takes up to four mebibytes and
    /// keeps nothing.
    fn default() -> (r: Configuration)
        ensures
            r.listen@ == "0.0.0.0:8088"@,
            r.bytes == DEFAULT_BYTE_LIMIT,
            !r.store,
    {
        Configuration {
            listen: String::from_str("0.0.0.0:8088"),
            bytes: DEFAULT_BYTE_LIMIT,
            store: false,
        }
    }
}

} // verus!
