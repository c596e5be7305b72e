use vstd::prelude::*;

verus! {

/// Failure taxonomy of the liquidity-modification pipeline.  Every component
/// reports a typed failure; nothing is retried internally, and any failure
/// aborts the whole operation with no partial effect.
#[derive(Clone, Copy, Debug, PartialEq, Eq, Structural)]
pub enum ErrorCode {
    /// A zero liquidity amount, or tick bounds that are out of range or not
    /// aligned to the pool's tick spacing.
    InvalidInput,
    /// A removal asks for more liquidity than the position or a tick holds.
    LiquidityUnderflow,
    /// A fixed-point operation left the representable range.
    ArithmeticOverflow,
    /// A tick array cannot grow to the capacity an update requires.
    StorageResizeFailed,
    /// The tick array contents found by the write pass diverge from the
    /// values the read pass projected.
    StaleTickArrayState,
    /// A computed token amount exceeds the caller's declared maximum.
    SlippageExceeded,
    /// A value transfer was refused by the settlement layer.
    TransferFailed,
}

} // verus!
