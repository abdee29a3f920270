use vstd::prelude::*;
use crate::rank_day::{Rank, RankDay};
use crate::user::User;

verus! {

/// Expected failure modes of the repository. A lookup miss is an ordinary
/// outcome, never a process-level failure.
#[derive(Clone, Copy, PartialEq, Eq, Structural, Debug)]
pub enum DbError {
    /// The referenced user is not registered.
    UserNotFound,
    /// The (chat, handle) pair matches no record.
    NotFound,
    /// A record with the same (chat, handle) pair already exists.
    HandleInUse,
    /// The hour is outside the 0-23 range.
    InvalidHour,
}

/// First index at or after `i` whose user has the given chat identity.
pub open spec fn find_user_from(users: Seq<User>, chat_id: i64, i: int) -> Option<int>
    decreases users.len() - i,
{
    if i < 0 || i >= users.len() {
        None
    } else if users[i].chat_id == chat_id {
        Some(i)
    } else {
        find_user_from(users, chat_id, i + 1)
    }
}

/// Index of the user with the given chat identity, if any.
pub open spec fn user_index(users: Seq<User>, chat_id: i64) -> Option<int> {
    find_user_from(users, chat_id, 0)
}

/// First index at or after `i` whose record is keyed by (chat_id, id_msg).
pub open spec fn find_rank_day_from(
    rank_days: Seq<RankDay>,
    chat_id: i64,
    id_msg: i32,
    i: int,
) -> Option<int>
    decreases rank_days.len() - i,
{
    if i < 0 || i >= rank_days.len() {
        None
    } else if rank_days[i].chat_id() == chat_id && rank_days[i].id_msg == id_msg {
        Some(i)
    } else {
        find_rank_day_from(rank_days, chat_id, id_msg, i + 1)
    }
}

/// Index of the record keyed by (chat_id, id_msg), if any.
pub open spec fn rank_day_index(rank_days: Seq<RankDay>, chat_id: i64, id_msg: i32) -> Option<
    int,
> {
    find_rank_day_from(rank_days, chat_id, id_msg, 0)
}

pub proof fn lemma_find_user_from_none(users: Seq<User>, chat_id: i64, i: int, j: int)
    requires
        0 <= i <= j < users.len(),
        find_user_from(users, chat_id, i) is None,
    ensures
        users[j].chat_id != chat_id,
    decreases j - i,
{
    if i < j {
        lemma_find_user_from_none(users, chat_id, i + 1, j);
    }
}

pub proof fn lemma_find_user_from_some(users: Seq<User>, chat_id: i64, i: int)
    requires
        0 <= i,
        find_user_from(users, chat_id, i) is Some,
    ensures
        ({
            let k = find_user_from(users, chat_id, i)->Some_0;
            &&& i <= k < users.len()
            &&& users[k].chat_id == chat_id
        }),
    decreases users.len() - i,
{
    if i < users.len() && users[i].chat_id != chat_id {
        lemma_find_user_from_some(users, chat_id, i + 1);
    }
}

pub proof fn lemma_find_rank_day_from_none(
    rank_days: Seq<RankDay>,
    chat_id: i64,
    id_msg: i32,
    i: int,
    j: int,
)
    requires
        0 <= i <= j < rank_days.len(),
        find_rank_day_from(rank_days, chat_id, id_msg, i) is None,
    ensures
        !(rank_days[j].chat_id() == chat_id && rank_days[j].id_msg == id_msg),
    decreases j - i,
{
    if i < j {
        lemma_find_rank_day_from_none(rank_days, chat_id, id_msg, i + 1, j);
    }
}

pub proof fn lemma_find_rank_day_from_some(
    rank_days: Seq<RankDay>,
    chat_id: i64,
    id_msg: i32,
    i: int,
)
    requires
        0 <= i,
        find_rank_day_from(rank_days, chat_id, id_msg, i) is Some,
    ensures
        ({
            let k = find_rank_day_from(rank_days, chat_id, id_msg, i)->Some_0;
            &&& i <= k < rank_days.len()
            &&& rank_days[k].chat_id() == chat_id
            &&& rank_days[k].id_msg == id_msg
        }),
    decreases rank_days.len() - i,
{
    if i < rank_days.len() && !(rank_days[i].chat_id() == chat_id && rank_days[i].id_msg
        == id_msg) {
        lemma_find_rank_day_from_some(rank_days, chat_id, id_msg, i + 1);
    }
}

/// The record at index `i` carries the new rank and keeps everything else;
/// every other record is untouched.
pub open spec fn rank_updated(pre: Seq<RankDay>, post: Seq<RankDay>, i: int, rank: Rank) -> bool {
    &&& post.len() == pre.len()
    &&& post[i].user == pre[i].user
    &&& post[i].time == pre[i].time
    &&& post[i].id_msg == pre[i].id_msg
    &&& post[i].rank == rank
    &&& forall|j: int| 0 <= j < pre.len() && j != i ==> post[j] == pre[j]
}

/// The repository of users and daily rating records. The records form an
/// append-mostly log: creation appends, rating mutates the `rank` field in
/// place, nothing is ever deleted. All record lookups are keyed by
/// (chat identity, message handle), never by "latest row".
pub struct Database {
    /// Locator of the durable store this repository mirrors.
    pub path: String,
    pub users: Vec<User>,
    pub rank_days: Vec<RankDay>,
}

impl Database {
    /// Repository invariant: chat identities are unique, every record's
    /// (chat, handle) key is unique, every record's owner is registered, and
    /// all hours and ranks are in range.
    pub open spec fn wf(self) -> bool {
        &&& forall|i: int, j: int|
            #![trigger self.users@[i], self.users@[j]]
            0 <= i < j < self.users@.len() ==> self.users@[i].chat_id != self.users@[j].chat_id
        &&& forall|i: int| 0 <= i < self.users@.len() ==> (#[trigger] self.users@[i]).wf()
        &&& forall|i: int, j: int|
            #![trigger self.rank_days@[i], self.rank_days@[j]]
            0 <= i < j < self.rank_days@.len() ==> !(self.rank_days@[i].chat_id()
                == self.rank_days@[j].chat_id() && self.rank_days@[i].id_msg
                == self.rank_days@[j].id_msg)
        &&& forall|i: int| 0 <= i < self.rank_days@.len() ==> (#[trigger] self.rank_days@[i]).wf()
        &&& forall|i: int|
            0 <= i < self.rank_days@.len() ==> user_index(
                self.users@,
                (#[trigger] self.rank_days@[i]).chat_id(),
            ) is Some
    }

    /// The registered user with the given chat identity, if any.
    pub open spec fn spec_get_user(self, chat_id: i64) -> Option<User> {
        match user_index(self.users@, chat_id) {
            Some(i) => Some(self.users@[i]),
            None => None,
        }
    }

    /// The creation time of the record keyed by (chat_id, id_msg), if any.
    pub open spec fn spec_get_time(self, chat_id: i64, id_msg: i32) -> Option<i64> {
        match rank_day_index(self.rank_days@, chat_id, id_msg) {
            Some(i) => Some(self.rank_days@[i].time),
            None => None,
        }
    }

    /// The rating of the record keyed by (chat_id, id_msg), if any.
    pub open spec fn spec_get_rank(self, chat_id: i64, id_msg: i32) -> Option<Rank> {
        match rank_day_index(self.rank_days@, chat_id, id_msg) {
            Some(i) => Some(self.rank_days@[i].rank),
            None => None,
        }
    }

    /// An empty repository pointed at the given durable store.
    pub fn new(path: String) -> (r: Database)
        ensures
            r.wf(),
            r.path@ == path@,
            r.users@ == Seq::<User>::empty(),
            r.rank_days@ == Seq::<RankDay>::empty(),
    {
        Database { path, users: Vec::new(), rank_days: Vec::new() }
    }

    fn find_user_pos(&self, chat_id: i64) -> (r: Option<usize>)
        ensures
            r matches Some(u) ==> user_index(self.users@, chat_id) == Some(u as int),
            r is None ==> user_index(self.users@, chat_id) is None,
    {
        let n = self.users.len();
        let mut i: usize = 0;
        while i < n
            invariant
                0 <= i <= n,
                n == self.users@.len(),
                find_user_from(self.users@, chat_id, 0) == find_user_from(
                    self.users@,
                    chat_id,
                    i as int,
                ),
            decreases n - i,
        {
            if self.users[i].chat_id == chat_id {
                return Some(i);
            }
            i = i + 1;
        }
        None
    }

    fn find_rank_day_pos(&self, chat_id: i64, id_msg: i32) -> (r: Option<usize>)
        ensures
            r matches Some(u) ==> rank_day_index(self.rank_days@, chat_id, id_msg) == Some(
                u as int,
            ),
            r is None ==> rank_day_index(self.rank_days@, chat_id, id_msg) is None,
    {
        let n = self.rank_days.len();
        let mut i: usize = 0;
        while i < n
            invariant
                0 <= i <= n,
                n == self.rank_days@.len(),
                find_rank_day_from(self.rank_days@, chat_id, id_msg, 0) == find_rank_day_from(
                    self.rank_days@,
                    chat_id,
                    id_msg,
                    i as int,
                ),
            decreases n - i,
        {
            if self.rank_days[i].user.chat_id == chat_id && self.rank_days[i].id_msg == id_msg {
                return Some(i);
            }
            i = i + 1;
        }
        None
    }

    /// Registers a user, or refreshes the display name of an already
    /// registered one. Returns whether the user already existed; the
    /// preferred hour of an existing user is kept.
    pub fn add_user(&mut self, user: User) -> (existed: bool)
        requires
            old(self).wf(),
            user.wf(),
        ensures
            final(self).wf(),
            final(self).path@ == old(self).path@,
            final(self).rank_days@ == old(self).rank_days@,
            match user_index(old(self).users@, user.chat_id) {
                Some(i) => {
                    &&& existed
                    &&& final(self).users@.len() == old(self).users@.len()
                    &&& final(self).users@[i].chat_id == old(self).users@[i].chat_id
                    &&& final(self).users@[i].hour == old(self).users@[i].hour
                    &&& final(self).users@[i].username@ == user.username@
                    &&& forall|j: int|
                        0 <= j < old(self).users@.len() && j != i ==> final(self).users@[j] == old(
                            self,
                        ).users@[j]
                },
                None => {
                    &&& !existed
                    &&& final(self).users@ == old(self).users@.push(user)
                },
            },
    {
        match self.find_user_pos(user.chat_id) {
            Some(i) => {
                proof {
                    lemma_find_user_from_some(self.users@, user.chat_id, 0);
                }
                let chat_id = self.users[i].chat_id;
                let hour = self.users[i].hour;
                self.users.set(i, User { chat_id, username: user.username, hour });
                proof {
                    assert forall|a: int|
                        0 <= a < self.rank_days@.len() implies user_index(
                        self.users@,
                        (#[trigger] self.rank_days@[a]).chat_id(),
                    ) is Some by {
                        lemma_user_index_same_keys(
                            old(self).users@,
                            self.users@,
                            self.rank_days@[a].chat_id(),
                        );
                    }
                }
                true
            },
            None => {
                proof {
                    if self.users@.len() > 0 {
                        assert forall|j: int| 0 <= j < self.users@.len() implies self.users@[j].chat_id
                            != user.chat_id by {
                            lemma_find_user_from_none(self.users@, user.chat_id, 0, j);
                        }
                    }
                }
                self.users.push(user);
                proof {
                    assert forall|a: int|
                        0 <= a < self.rank_days@.len() implies user_index(
                        self.users@,
                        (#[trigger] self.rank_days@[a]).chat_id(),
                    ) is Some by {
                        lemma_user_index_same_keys(
                            old(self).users@,
                            self.users@.take(old(self).users@.len() as int),
                            self.rank_days@[a].chat_id(),
                        );
                        assert(self.users@.take(old(self).users@.len() as int) =~= old(
                            self,
                        ).users@);
                        lemma_find_user_extend(
                            self.users@,
                            self.rank_days@[a].chat_id(),
                            old(self).users@.len() as int,
                        );
                    }
                }
                false
            },
        }
    }
    /// Point lookup of a registered user by chat identity.
    pub fn get_user_by_chat_id(&self, chat_id: i64) -> (r: Option<User>)
        ensures
            r == self.spec_get_user(chat_id),
    {
        match self.find_user_pos(chat_id) {
            Some(i) => {
                proof {
                    lemma_find_user_from_some(self.users@, chat_id, 0);
                }
                Some(self.users[i].clone())
            },
            None => None,
        }
    }

    /// Creation time of the record keyed by (chat_id, id_msg). Used to
    /// reconstruct the evaluated day when replying to a late interaction; a
    /// miss is an expected outcome, not an error.
    pub fn get_time(&self, chat_id: i64, id_msg: i32) -> (r: Option<i64>)
        ensures
            r == self.spec_get_time(chat_id, id_msg),
    {
        match self.find_rank_day_pos(chat_id, id_msg) {
            Some(i) => {
                proof {
                    lemma_find_rank_day_from_some(self.rank_days@, chat_id, id_msg, 0);
                }
                Some(self.rank_days[i].time)
            },
            None => None,
        }
    }

    /// Current rating of the record keyed by (chat_id, id_msg).
    pub fn get_rank(&self, chat_id: i64, id_msg: i32) -> (r: Option<Rank>)
        ensures
            r == self.spec_get_rank(chat_id, id_msg),
    {
        match self.find_rank_day_pos(chat_id, id_msg) {
            Some(i) => {
                proof {
                    lemma_find_rank_day_from_some(self.rank_days@, chat_id, id_msg, 0);
                }
                Some(self.rank_days[i].rank)
            },
            None => None,
        }
    }

    /// Appends a new, still-unranked record. Fails when the owner is not
    /// registered, or when a record with the same (chat, handle) key already
    /// exists, and then changes nothing.
    pub fn add_rank_day(&mut self, rank_day: RankDay) -> (r: Result<(), DbError>)
        requires
            old(self).wf(),
            rank_day.user.wf(),
            rank_day.rank == Rank::Unranked,
        ensures
            final(self).wf(),
            final(self).path@ == old(self).path@,
            final(self).users@ == old(self).users@,
            user_index(old(self).users@, rank_day.chat_id()) is None ==> r == Err::<(), DbError>(
                DbError::UserNotFound,
            ) && final(self).rank_days@ == old(self).rank_days@,
            user_index(old(self).users@, rank_day.chat_id()) is Some && rank_day_index(
                old(self).rank_days@,
                rank_day.chat_id(),
                rank_day.id_msg,
            ) is Some ==> r == Err::<(), DbError>(DbError::HandleInUse) && final(self).rank_days@
                == old(self).rank_days@,
            user_index(old(self).users@, rank_day.chat_id()) is Some && rank_day_index(
                old(self).rank_days@,
                rank_day.chat_id(),
                rank_day.id_msg,
            ) is None ==> r == Ok::<(), DbError>(()) && final(self).rank_days@ == old(
                self,
            ).rank_days@.push(rank_day),
    {
        if self.find_user_pos(rank_day.user.chat_id).is_none() {
            return Err(DbError::UserNotFound);
        }
        if self.find_rank_day_pos(rank_day.user.chat_id, rank_day.id_msg).is_some() {
            return Err(DbError::HandleInUse);
        }
        proof {
            if self.rank_days@.len() > 0 {
                assert forall|j: int| 0 <= j < self.rank_days@.len() implies !(
                self.rank_days@[j].chat_id() == rank_day.chat_id() && self.rank_days@[j].id_msg
                    == rank_day.id_msg) by {
                    lemma_find_rank_day_from_none(
                        self.rank_days@,
                        rank_day.chat_id(),
                        rank_day.id_msg,
                        0,
                        j,
                    );
                }
            }
        }
        self.rank_days.push(rank_day);
        Ok(())
    }

    /// Overwrites the rating of the record keyed by (chat_id, id_msg);
    /// writing `Unranked` reopens the day. Everything else, and every other
    /// record, is left as it was.
    pub fn update_rank(&mut self, chat_id: i64, id_msg: i32, rank: Rank) -> (r: Result<
        (),
        DbError,
    >)
        requires
            old(self).wf(),
            rank.wf(),
        ensures
            final(self).wf(),
            final(self).path@ == old(self).path@,
            final(self).users@ == old(self).users@,
            match rank_day_index(old(self).rank_days@, chat_id, id_msg) {
                Some(i) => {
                    &&& r == Ok::<(), DbError>(())
                    &&& rank_updated(old(self).rank_days@, final(self).rank_days@, i, rank)
                },
                None => {
                    &&& r == Err::<(), DbError>(DbError::NotFound)
                    &&& final(self).rank_days@ == old(self).rank_days@
                },
            },
    {
        match self.find_rank_day_pos(chat_id, id_msg) {
            Some(i) => {
                proof {
                    lemma_find_rank_day_from_some(self.rank_days@, chat_id, id_msg, 0);
                }
                let user = self.rank_days[i].user.clone();
                let time = self.rank_days[i].time;
                let id = self.rank_days[i].id_msg;
                self.rank_days.set(i, RankDay { user, time, id_msg: id, rank });
                proof {
                    assert forall|a: int|
                        0 <= a < self.rank_days@.len() implies user_index(
                        self.users@,
                        (#[trigger] self.rank_days@[a]).chat_id(),
                    ) is Some by {}
                }
                Ok(())
            },
            None => Err(DbError::NotFound),
        }
    }

    /// Sets a registered user's preferred hour. An out-of-range hour and an
    /// unknown user are rejected, and then nothing changes.
    pub fn set_hour(&mut self, chat_id: i64, hour: u8) -> (r: Result<(), DbError>)
        requires
            old(self).wf(),
        ensures
            final(self).wf(),
            final(self).path@ == old(self).path@,
            final(self).rank_days@ == old(self).rank_days@,
            hour >= 24 ==> r == Err::<(), DbError>(DbError::InvalidHour) && final(self).users@
                == old(self).users@,
            hour < 24 ==> match user_index(old(self).users@, chat_id) {
                Some(i) => {
                    &&& r == Ok::<(), DbError>(())
                    &&& final(self).users@.len() == old(self).users@.len()
                    &&& final(self).users@[i].chat_id == old(self).users@[i].chat_id
                    &&& final(self).users@[i].username@ == old(self).users@[i].username@
                    &&& final(self).users@[i].hour == hour
                    &&& forall|j: int|
                        0 <= j < old(self).users@.len() && j != i ==> final(self).users@[j] == old(
                            self,
                        ).users@[j]
                },
                None => {
                    &&& r == Err::<(), DbError>(DbError::NotFound)
                    &&& final(self).users@ == old(self).users@
                },
            },
    {
        if hour >= 24 {
            return Err(DbError::InvalidHour);
        }
        match self.find_user_pos(chat_id) {
            Some(i) => {
                proof {
                    lemma_find_user_from_some(self.users@, chat_id, 0);
                }
                let id = self.users[i].chat_id;
                let username = self.users[i].username.clone();
                self.users.set(i, User { chat_id: id, username, hour });
                proof {
                    assert forall|a: int|
                        0 <= a < self.rank_days@.len() implies user_index(
                        self.users@,
                        (#[trigger] self.rank_days@[a]).chat_id(),
                    ) is Some by {
                        lemma_user_index_same_keys(
                            old(self).users@,
                            self.users@,
                            self.rank_days@[a].chat_id(),
                        );
                    }
                }
                Ok(())
            },
            None => Err(DbError::NotFound),
        }
    }

    /// Snapshot of (chat identity, preferred hour) for every registered
    /// user, in registration order; read once per scheduler tick.
    pub fn get_hours(&self) -> (r: Vec<(i64, u8)>)
        ensures
            r@.len() == self.users@.len(),
            forall|i: int|
                0 <= i < self.users@.len() ==> #[trigger] r@[i] == (
                    self.users@[i].chat_id,
                    self.users@[i].hour,
                ),
    {
        let n = self.users.len();
        let mut out: Vec<(i64, u8)> = Vec::new();
        let mut i: usize = 0;
        while i < n
            invariant
                0 <= i <= n,
                n == self.users@.len(),
                out@.len() == i,
                forall|j: int|
                    0 <= j < i ==> #[trigger] out@[j] == (
                        self.users@[j].chat_id,
                        self.users@[j].hour,
                    ),
            decreases n - i,
        {
            out.push((self.users[i].chat_id, self.users[i].hour));
            i = i + 1;
        }
        out
    }
}

/// Two user sequences with the same chat identity at every shared index have
/// the same lookup result for every identity.
pub proof fn lemma_user_index_same_keys(a: Seq<User>, b: Seq<User>, chat_id: i64)
    requires
        a.len() == b.len(),
        forall|i: int| 0 <= i < a.len() ==> #[trigger] a[i].chat_id == b[i].chat_id,
    ensures
        user_index(a, chat_id) == user_index(b, chat_id),
{
    lemma_find_user_same_keys(a, b, chat_id, 0);
}

proof fn lemma_find_user_same_keys(a: Seq<User>, b: Seq<User>, chat_id: i64, i: int)
    requires
        a.len() == b.len(),
        forall|j: int| 0 <= j < a.len() ==> #[trigger] a[j].chat_id == b[j].chat_id,
        0 <= i,
    ensures
        find_user_from(a, chat_id, i) == find_user_from(b, chat_id, i),
    decreases a.len() - i,
{
    if i < a.len() && a[i].chat_id != chat_id {
        lemma_find_user_same_keys(a, b, chat_id, i + 1);
    }
}

/// A lookup that hits inside the first `n` entries is unchanged when the
/// sequence is extended past `n`.
proof fn lemma_find_user_extend(users: Seq<User>, chat_id: i64, n: int)
    requires
        0 <= n <= users.len(),
        find_user_from(users.take(n), chat_id, 0) is Some,
    ensures
        find_user_from(users, chat_id, 0) is Some,
{
    lemma_find_user_extend_from(users, chat_id, n, 0);
}

proof fn lemma_find_user_extend_from(users: Seq<User>, chat_id: i64, n: int, i: int)
    requires
        0 <= i,
        0 <= n <= users.len(),
        find_user_from(users.take(n), chat_id, i) is Some,
    ensures
        find_user_from(users, chat_id, i) is Some,
    decreases n - i,
{
    if i < n && users.take(n)[i].chat_id != chat_id {
        lemma_find_user_extend_from(users, chat_id, n, i + 1);
    }
}

/// Two record sequences with the same (chat, handle) key at every shared
/// index have the same lookup result for every key.
pub proof fn lemma_rank_day_index_same_keys(
    a: Seq<RankDay>,
    b: Seq<RankDay>,
    chat_id: i64,
    id_msg: i32,
)
    requires
        a.len() == b.len(),
        forall|i: int|
            #![trigger a[i], b[i]]
            0 <= i < a.len() ==> a[i].chat_id() == b[i].chat_id() && a[i].id_msg == b[i].id_msg,
    ensures
        rank_day_index(a, chat_id, id_msg) == rank_day_index(b, chat_id, id_msg),
{
    lemma_find_rank_day_same_keys(a, b, chat_id, id_msg, 0);
}

proof fn lemma_find_rank_day_same_keys(
    a: Seq<RankDay>,
    b: Seq<RankDay>,
    chat_id: i64,
    id_msg: i32,
    i: int,
)
    requires
        a.len() == b.len(),
        forall|j: int|
            #![trigger a[j], b[j]]
            0 <= j < a.len() ==> a[j].chat_id() == b[j].chat_id() && a[j].id_msg == b[j].id_msg,
        0 <= i,
    ensures
        find_rank_day_from(a, chat_id, id_msg, i) == find_rank_day_from(b, chat_id, id_msg, i),
    decreases a.len() - i,
{
    if i < a.len() && !(a[i].chat_id() == chat_id && a[i].id_msg == id_msg) {
        lemma_find_rank_day_same_keys(a, b, chat_id, id_msg, i + 1);
    }
}

/// Appending a record whose key was absent puts its key at the end of the
/// lookup order: the new record, and only it, answers for its key.
proof fn lemma_find_rank_day_push(pre: Seq<RankDay>, rank_day: RankDay, i: int)
    requires
        0 <= i <= pre.len(),
        find_rank_day_from(pre, rank_day.chat_id(), rank_day.id_msg, i) is None,
    ensures
        find_rank_day_from(pre.push(rank_day), rank_day.chat_id(), rank_day.id_msg, i) == Some(
            pre.len() as int,
        ),
    decreases pre.len() - i,
{
    if i < pre.len() {
        lemma_find_rank_day_push(pre, rank_day, i + 1);
    }
}

/// Round trip of record creation: once a record was appended for a key that
/// had none, looking the key up returns exactly the record's creation time
/// and its (still open) rating.
pub proof fn lemma_create_then_read(pre: Database, post: Database, rank_day: RankDay)
    requires
        rank_day_index(pre.rank_days@, rank_day.chat_id(), rank_day.id_msg) is None,
        post.rank_days@ == pre.rank_days@.push(rank_day),
    ensures
        rank_day_index(post.rank_days@, rank_day.chat_id(), rank_day.id_msg) is Some,
        post.spec_get_time(rank_day.chat_id(), rank_day.id_msg) == Some(rank_day.time),
        post.spec_get_rank(rank_day.chat_id(), rank_day.id_msg) == Some(rank_day.rank),
{
    lemma_find_rank_day_push(pre.rank_days@, rank_day, 0);
}

/// Writing a rating and then reading it back through the same (chat, handle)
/// key returns exactly the rating written, and leaves the record's creation
/// time as it was. Writing `Unranked` afterwards reopens the record the same
/// way: the last write wins.
pub proof fn lemma_set_rank_then_read(
    pre: Database,
    post: Database,
    chat_id: i64,
    id_msg: i32,
    rank: Rank,
)
    requires
        rank_day_index(pre.rank_days@, chat_id, id_msg) matches Some(i) && rank_updated(
            pre.rank_days@,
            post.rank_days@,
            i,
            rank,
        ),
    ensures
        post.spec_get_rank(chat_id, id_msg) == Some(rank),
        post.spec_get_time(chat_id, id_msg) == pre.spec_get_time(chat_id, id_msg),
{
    let i = rank_day_index(pre.rank_days@, chat_id, id_msg)->Some_0;
    lemma_find_rank_day_from_some(pre.rank_days@, chat_id, id_msg, 0);
    lemma_rank_day_index_same_keys(pre.rank_days@, post.rank_days@, chat_id, id_msg);
}

/// Mutating one record never touches another: a rating written through one
/// (chat, handle) key leaves the rating and time behind every other key
/// exactly as they were.
pub proof fn lemma_set_rank_independent(
    pre: Database,
    post: Database,
    chat_id: i64,
    id_msg: i32,
    rank: Rank,
    other_chat: i64,
    other_msg: i32,
)
    requires
        rank_day_index(pre.rank_days@, chat_id, id_msg) matches Some(i) && rank_updated(
            pre.rank_days@,
            post.rank_days@,
            i,
            rank,
        ),
        !(other_chat == chat_id && other_msg == id_msg),
    ensures
        post.spec_get_rank(other_chat, other_msg) == pre.spec_get_rank(other_chat, other_msg),
        post.spec_get_time(other_chat, other_msg) == pre.spec_get_time(other_chat, other_msg),
{
    let i = rank_day_index(pre.rank_days@, chat_id, id_msg)->Some_0;
    lemma_find_rank_day_from_some(pre.rank_days@, chat_id, id_msg, 0);
    lemma_rank_day_index_same_keys(pre.rank_days@, post.rank_days@, other_chat, other_msg);
    if rank_day_index(pre.rank_days@, other_chat, other_msg) is Some {
        let k = rank_day_index(pre.rank_days@, other_chat, other_msg)->Some_0;
        lemma_find_rank_day_from_some(pre.rank_days@, other_chat, other_msg, 0);
        assert(k != i);
    }
}

} // verus!
