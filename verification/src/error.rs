//! Error values returned by the roster, the players and the reconciliation.

use vstd::prelude::*;

verus! {

/// Why a call on a single player object was refused.
#[derive(Clone, Copy, Debug, PartialEq, Eq, Structural)]
pub enum PlayerFault {
    /// The player has no email set.
    MissingEmail,
    /// The player has no username set.
    MissingUsername,
    /// The new email equals the one already stored.
    EmailUnchanged,
    /// The new id equals the one already stored.
    IdUnchanged,
    /// The new username equals the one already stored.
    UsernameUnchanged,
}

/// Every failure the library reports.
#[derive(Clone, Copy, Debug, PartialEq, Eq, Structural)]
pub enum PlayerHandlerError {
    /// The party already holds exactly as many players as the limit allows.
    PartySizeAtSetLimit,
    /// The party holds more players than the limit allows.
    PartySizeGreaterThanSetLimit,
    /// No party size limit is configured.
    PartySizeLimitMissing,
    /// The active cursor points at a slot without a player.
    SlotEmpty,
    /// The slot or player asked for is not there.
    NotFound,
    /// The main player cannot be removed.
    ProtectedPlayer,
    /// A swap of a slot with itself changes nothing.
    NoOp,
    /// Every slot up to the limit is taken: there is no gap to collapse.
    PartyFullNoGap,
    /// No main player is known.
    MainPlayerMissing,
    /// An identity write was refused because the new value equals the old.
    IdentityUnchanged,
    /// An identity read back after a write still shows the old value. The
    /// writes of this library are proved to take effect, so its own
    /// functions never return this.
    IdentityMismatch,
    /// A stored player id is not the text of a UUID.
    UuidParsingFailed,
    /// The record is the test reference, which never joins the party.
    TestReferencePlayer,
    /// The player is already a member of the party.
    AlreadyInParty,
    /// A call on an AI player failed.
    PlayerAiCallFailed(PlayerFault),
    /// A call on a local player failed.
    PlayerLocalCallFailed(PlayerFault),
    /// A call on the main player failed.
    PlayerMainCallFailed(PlayerFault),
    /// A call on a remote player failed.
    PlayerRemoteCallFailed(PlayerFault),
}

} // verus!
