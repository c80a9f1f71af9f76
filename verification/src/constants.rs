//! Addresses that the tracker knows by heart.

use vstd::prelude::*;

verus! {

/// The address of the token program.
pub const TOKEN_PROGRAM: &'static str = "TokenkegQfeZyiNwAJbNbGKPFXCWuBvf9Ss623VQ5DA";

} // verus!
