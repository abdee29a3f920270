use vstd::prelude::*;
use crate::user::User;

verus! {

/// The rating of one day: either still open, or a value on the fixed 0-5
/// scale. Modelled as a sum type so that the interaction state machine is
/// exhaustive.
#[derive(Clone, Copy, PartialEq, Eq, Structural, Debug)]
pub enum Rank {
    Unranked,
    Ranked(u8),
}

impl Rank {
    /// A present rating is always on the 0-5 scale.
    pub open spec fn wf(self) -> bool {
        match self {
            Rank::Unranked => true,
            Rank::Ranked(v) => v <= 5,
        }
    }
}

/// One daily evaluation record: the owning user, the creation time in whole
/// seconds since the epoch, the opaque handle of the dispatched prompt, and
/// the rating.
pub struct RankDay {
    pub user: User,
    pub time: i64,
    pub id_msg: i32,
    pub rank: Rank,
}

impl RankDay {
    /// The identity of the chat this record belongs to.
    pub open spec fn chat_id(self) -> i64 {
        self.user.chat_id
    }

    pub open spec fn wf(self) -> bool {
        self.user.wf() && self.rank.wf()
    }

    /// A fresh record starts in the open (unranked) state.
    pub fn new(user: User, time: i64, id_msg: i32) -> (r: RankDay)
        ensures
            r.user == user,
            r.time == time,
            r.id_msg == id_msg,
            r.rank == Rank::Unranked,
    {
        RankDay { user, time, id_msg, rank: Rank::Unranked }
    }

    pub fn get_rank(&self) -> (r: Rank)
        ensures
            r == self.rank,
    {
        self.rank
    }

    pub fn get_user(&self) -> (r: User)
        ensures
            r == self.user,
    {
        self.user.clone()
    }

    pub fn get_time(&self) -> (r: i64)
        ensures
            r == self.time,
    {
        self.time
    }

    pub fn get_id_msg(&self) -> (r: i32)
        ensures
            r == self.id_msg,
    {
        self.id_msg
    }
}

impl Clone for RankDay {
    fn clone(&self) -> (r: Self)
        ensures
            r == *self,
    {
        RankDay { user: self.user.clone(), time: self.time, id_msg: self.id_msg, rank: self.rank }
    }
}

} // verus!
