//! Quadratic voting: DAO, proposal and vote records.

use vstd::prelude::*;
use crate::accounts::Pubkey;

verus! {

/// A DAO account.
pub struct Dao {
    pub name: String,
    pub authority: Pubkey,
    pub bump: u8,
    pub proposal_count: u64,
}

/// A vote record.
#[derive(Clone, Copy)]
pub struct Vote {
    pub authority: Pubkey,
    pub vote_type: u8,
    pub vote_credit: u64,
    pub bump: u8,
}

/// A proposal account.
pub struct Proposal {
    pub authority: Pubkey,
    pub metadata: String,
    pub yes_vote_count: u64,
    pub no_vote_count: u64,
    pub bump: u8,
}

/// The accounts that creating a DAO reads.
#[derive(Clone, Copy)]
pub struct Initialize {
    pub creator: Pubkey,
}

impl Initialize {
    /// The new DAO, owned by its creator, with no proposals yet.
    pub fn init_dao(&self, name: String, dao_bump: u8) -> (r: Dao)
        ensures
            r.name == name,
            r.authority == self.creator,
            r.bump == dao_bump,
            r.proposal_count == 0,
    {
        Dao { name, authority: self.creator, bump: dao_bump, proposal_count: 0 }
    }
}

/// The accounts that creating a proposal reads.
#[derive(Clone, Copy)]
pub struct InitProposal {
    pub creator: Pubkey,
}

impl InitProposal {
    /// The new proposal, owned by its creator, with no votes yet.  The DAO's
    /// proposal count is not changed.
    pub fn init_proposal(&self, metadata: String, proposal_bump: u8) -> (r: Proposal)
        ensures
            r.authority == self.creator,
            r.metadata == metadata,
            r.yes_vote_count == 0,
            r.no_vote_count == 0,
            r.bump == proposal_bump,
    {
        Proposal {
            authority: self.creator,
            metadata,
            yes_vote_count: 0,
            no_vote_count: 0,
            bump: proposal_bump,
        }
    }
}

/// The accounts that casting a vote reads.
#[derive(Clone, Copy)]
pub struct CastVote {
    pub voter: Pubkey,
}

impl CastVote {
    /// The voter's vote record.  `voting_credits` is the square root of the
    /// voter's token balance, which the program takes in floating point.
    pub fn cast_vote(&self, vote_type: u8, voting_credits: u64, vote_bump: u8) -> (r: Vote)
        ensures
            r.authority == self.voter,
            r.vote_type == vote_type,
            r.vote_credit == voting_credits,
            r.bump == vote_bump,
    {
        Vote { authority: self.voter, vote_type, vote_credit: voting_credits, bump: vote_bump }
    }
}

} // verus!
