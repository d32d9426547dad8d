//! The hash-locked escrow (HTLC): funds redeemable by revealing the
//! preimage of a hash lock before a deadline, or reclaimable after it.

use crate::hashing::{sha256_hex_of_str, sha256_hex_str};
use vstd::prelude::*;

verus! {

/// Why a redeem or refund fails.
#[derive(Clone, Copy, Debug, PartialEq, Eq, Structural)]
pub enum SwapError {
    /// A redeem attempted after the timelock has passed.
    TimelockExpired,
    /// The revealed preimage does not hash to the lock.
    InvalidPreimage,
    /// The escrow was already redeemed.
    AlreadyRedeemed,
    /// A refund attempted while the timelock still holds.
    TimelockNotExpired,
}

/// A hash-locked escrow. `hashlock` is fixed at creation as the digest of
/// the secret; `redeemed` is the one terminal flag.
#[derive(Clone, Debug)]
pub struct HTLC {
    pub sender: String,
    pub recipient: String,
    pub amount: u64,
    pub hashlock: String,
    pub timelock: u64,
    pub redeemed: bool,
}

/// The redeem transition: reject after the timelock, on a wrong preimage,
/// or when already redeemed, in that order of checks; otherwise mark the
/// escrow redeemed.
pub open spec fn redeem_spec(h: HTLC, preimage: Seq<char>, current_time: u64) -> (HTLC, Result<
    (),
    SwapError,
>) {
    if current_time > h.timelock {
        (h, Err(SwapError::TimelockExpired))
    } else if sha256_hex_of_str(preimage) != h.hashlock@ {
        (h, Err(SwapError::InvalidPreimage))
    } else if h.redeemed {
        (h, Err(SwapError::AlreadyRedeemed))
    } else {
        (HTLC { redeemed: true, ..h }, Ok(()))
    }
}

/// The refund transition: reject while the timelock holds or once redeemed;
/// otherwise succeed. No flag records a past refund, so a refund can
/// succeed repeatedly after the timelock.
pub open spec fn refund_spec(h: HTLC, current_time: u64) -> Result<(), SwapError> {
    if current_time <= h.timelock {
        Err(SwapError::TimelockNotExpired)
    } else if h.redeemed {
        Err(SwapError::AlreadyRedeemed)
    } else {
        Ok(())
    }
}

/// A redeem with a correct preimage before the timelock succeeds exactly
/// once: it succeeds on an unredeemed escrow, and any second redeem on the
/// result fails with `AlreadyRedeemed`, even with a correct preimage in
/// time.
pub proof fn lemma_redeem_succeeds_once(h: HTLC, p1: Seq<char>, t1: u64, p2: Seq<char>, t2: u64)
    requires
        !h.redeemed,
        t1 <= h.timelock,
        sha256_hex_of_str(p1) == h.hashlock@,
        t2 <= h.timelock,
        sha256_hex_of_str(p2) == h.hashlock@,
    ensures
        redeem_spec(h, p1, t1).1 == Ok::<(), SwapError>(()),
        redeem_spec(redeem_spec(h, p1, t1).0, p2, t2).1 == Err::<(), SwapError>(
            SwapError::AlreadyRedeemed,
        ),
{
}

impl HTLC {
    /// Open an escrow locked under the digest of `secret`.
    pub fn new(
        sender: String,
        recipient: String,
        amount: u64,
        secret: &str,
        timelock: u64,
    ) -> (r: HTLC)
        ensures
            r.sender@ == sender@,
            r.recipient@ == recipient@,
            r.amount == amount,
            r.hashlock@ == sha256_hex_of_str(secret@),
            r.timelock == timelock,
            !r.redeemed,
    {
        let hashlock = sha256_hex_str(secret);
        HTLC { sender, recipient, amount, hashlock, timelock, redeemed: false }
    }

    /// Redeem the escrow by revealing the preimage, following
    /// `redeem_spec`.
    pub fn redeem(&mut self, preimage: &str, current_time: u64) -> (r: Result<(), SwapError>)
        ensures
            *final(self) == redeem_spec(*old(self), preimage@, current_time).0,
            r == redeem_spec(*old(self), preimage@, current_time).1,
    {
        if current_time > self.timelock {
            return Err(SwapError::TimelockExpired);
        }
        let digest = sha256_hex_str(preimage);
        if !(digest == self.hashlock) {
            return Err(SwapError::InvalidPreimage);
        }
        if self.redeemed {
            return Err(SwapError::AlreadyRedeemed);
        }
        self.redeemed = true;
        Ok(())
    }

    /// Ask for the funds back after the timelock, following `refund_spec`.
    /// The escrow itself is left unchanged.
    pub fn refund(&mut self, current_time: u64) -> (r: Result<(), SwapError>)
        ensures
            *final(self) == *old(self),
            r == refund_spec(*old(self), current_time),
    {
        if current_time <= self.timelock {
            return Err(SwapError::TimelockNotExpired);
        }
        if self.redeemed {
            return Err(SwapError::AlreadyRedeemed);
        }
        Ok(())
    }
}

} // verus!
