use vstd::prelude::*;

verus! {

/// Why a transition was refused. Every failure is terminal for the enclosing
/// operation: the caller observes the position unchanged.
#[derive(Clone, Copy, Debug, PartialEq, Eq)]
pub enum ErrorCode {
    /// A transition would leave, or a liquidation targets, a position on the
    /// wrong side of the health-factor rule.
    HealthFactorError,
    /// A liquidation would seize more collateral than the close-factor cap.
    MaxLiquidationAmount,
    /// A checked integer operation would exceed its type's maximum.
    ArithmeticOverflow,
    /// A checked integer operation would go below zero.
    ArithmeticUnderflow,
    /// A zero price reached a division.
    DivisionByZero,
    /// The oracle quote is older than the freshness bound.
    StalePrice,
    /// The oracle quote does not belong to the expected feed.
    OracleFeedMismatch,
}

impl ErrorCode {
    /// A short stable name for logs and messages.
    pub fn describe(&self) -> (r: &'static str)
        ensures
            r@.len() > 0,
    {
        let s = match self {
            ErrorCode::HealthFactorError => "account not healthy",
            ErrorCode::MaxLiquidationAmount => "cannot liquidate more than the close factor",
            ErrorCode::ArithmeticOverflow => "arithmetic overflow",
            ErrorCode::ArithmeticUnderflow => "arithmetic underflow",
            ErrorCode::DivisionByZero => "division by zero",
            ErrorCode::StalePrice => "stale price",
            ErrorCode::OracleFeedMismatch => "oracle feed mismatch",
        };
        proof {
            reveal_strlit("account not healthy");
            reveal_strlit("cannot liquidate more than the close factor");
            reveal_strlit("arithmetic overflow");
            reveal_strlit("arithmetic underflow");
            reveal_strlit("division by zero");
            reveal_strlit("stale price");
            reveal_strlit("oracle feed mismatch");
        }
        s
    }
}

} // verus!
