//! The readers and writers that the combinators of [`BufReadExt`](crate::BufReadExt) and
//! [`BufWriteExt`](crate::BufWriteExt) return.

mod bridge;
mod chain;
mod map_err;
mod take;

pub use bridge::{
    copied_over, read_into, without_count, AsStd, AsStdReader, AsStdWriter, FillAttempt,
};
pub use chain::{chain_delivers_both, Chain};
pub use map_err::{
    converts, map_err_changes_read_errors_only, map_err_changes_write_errors_only,
    map_err_fails_from_within, map_read_err_changes_errors_only, map_read_err_fails_from_within,
    map_write_err_changes_errors_only, maps_outcome,
    unifies_outcome, unify_err_changes_errors_only, MapErr, MapReadErr, MapWriteErr, UnifyErr,
};
pub use take::{min, take_delivers_front, Take};
