use vstd::prelude::*;
use cosmwasm_std::Timestamp;
use cw_utils::Expiration as CwExpiration;

verus! {

/// When a pending transfer stops being acceptable: the model of cw-utils'
/// `Expiration`, with a time held as nanoseconds since the UNIX epoch.
#[derive(Clone, Copy, Debug, PartialEq, Eq)]
pub enum Expiration {
    /// Expires once the block height reaches the given height.
    AtHeight(u64),
    /// Expires once the block time reaches the given time, in nanoseconds.
    AtTime(u64),
    /// Never expires.
    Never {},
}

/// The part of a block that the ownership rules look at: its height, its
/// time in nanoseconds since the UNIX epoch, and the chain it belongs to.
#[derive(Clone, Debug, PartialEq, Eq)]
pub struct BlockInfo {
    pub height: u64,
    pub time: u64,
    pub chain_id: String,
}

impl Expiration {
    /// Whether the expiration has been reached at the given block.
    pub open spec fn expired_at(self, height: u64, time: u64) -> bool {
        match self {
            Expiration::AtHeight(h) => height >= h,
            Expiration::AtTime(t) => time >= t,
            Expiration::Never {} => false,
        }
    }

    /// The text that the expiration displays as.
    pub open spec fn text(self) -> Seq<char> {
        match self {
            Expiration::AtHeight(h) => "expiration height: "@ + decimal(h as nat),
            Expiration::AtTime(t) => "expiration time: "@ + timestamp_text(t as nat),
            Expiration::Never {} => "expiration: never"@,
        }
    }
}

/// The character of a decimal digit.
pub open spec fn digit(d: nat) -> char {
    (d + 48) as char
}

/// The decimal representation of a natural number, without leading zeros.
pub open spec fn decimal(n: nat) -> Seq<char>
    decreases n,
{
    if n < 10 {
        seq![digit(n)]
    } else {
        decimal(n / 10).push(digit(n % 10))
    }
}

/// The decimal representation of `n`, left-padded with zeros to `width`.
pub open spec fn zero_padded(n: nat, width: nat) -> Seq<char> {
    let d = decimal(n);
    if d.len() < width {
        Seq::new((width - d.len()) as nat, |i: int| '0') + d
    } else {
        d
    }
}

/// A time in nanoseconds written as whole seconds, a dot and the nine
/// digits of the nanoseconds within the second.
pub open spec fn timestamp_text(nanos: nat) -> Seq<char> {
    decimal(nanos / 1_000_000_000) + "."@ + zero_padded(nanos % 1_000_000_000, 9)
}

/// Calls `Expiration::is_expired` of cw-utils on the block, which compares
/// the block height with a height and the block time with a time, and is
/// false for `Never`.
#[verifier::external_body]
pub(crate) fn is_expired(expiration: &Expiration, block: &BlockInfo) -> (expired: bool)
    ensures
        expired == expiration.expired_at(block.height, block.time),
{
    let block = cosmwasm_std::BlockInfo {
        height: block.height,
        time: Timestamp::from_nanos(block.time),
        chain_id: block.chain_id.clone(),
    };
    let expiration = match *expiration {
        Expiration::AtHeight(h) => CwExpiration::AtHeight(h),
        Expiration::AtTime(t) => CwExpiration::AtTime(Timestamp::from_nanos(t)),
        Expiration::Never {} => CwExpiration::Never {},
    };
    expiration.is_expired(&block)
}

/// Calls the `Display` implementation of cw-utils' `Expiration`, which writes
/// "expiration height: " and the height, "expiration time: " and the time as
/// seconds and nanoseconds, or "expiration: never".
#[verifier::external_body]
pub(crate) fn expiration_text(expiration: &Expiration) -> (text: String)
    ensures
        text@ == expiration.text(),
{
    let expiration = match *expiration {
        Expiration::AtHeight(h) => CwExpiration::AtHeight(h),
        Expiration::AtTime(t) => CwExpiration::AtTime(Timestamp::from_nanos(t)),
        Expiration::Never {} => CwExpiration::Never {},
    };
    expiration.to_string()
}

} // verus!
