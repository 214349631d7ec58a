use vstd::prelude::*;

verus! {

/// Address that mining rewards of the merge-mined chain go to until the user
/// sets one.
pub const DEFAULT_MONERO_ADDRESS: &'static str =
    "44AFFq5kSiGBoZ4NMDwYtN18obc8AemS33DBLWs3H7otXft3XjrpDtQGv7SqSsaBYBb98uNbr2VBBEt7f2wfn3RVGQBEP3A";

/// Directory name of the application below the user's cache directory.
pub const APPLICATION_FOLDER_ID: &'static str = "com.tari.universe";

} // verus!
