use vstd::prelude::*;

verus! {

/// The chat identities that are due at a tick: nobody when the minute is not
/// zero, otherwise every entry whose preferred hour equals the current hour,
/// in snapshot order.
pub open spec fn due_seq(users: Seq<(i64, u8)>, hour: u8, minute: u8) -> Seq<i64>
    decreases users.len(),
{
    if minute != 0 || users.len() == 0 {
        Seq::empty()
    } else {
        let rest = due_seq(users.drop_last(), hour, minute);
        if users.last().1 == hour {
            rest.push(users.last().0)
        } else {
            rest
        }
    }
}

/// How many times a chat identity occurs in a sequence.
pub open spec fn count_of(s: Seq<i64>, c: i64) -> nat
    decreases s.len(),
{
    if s.len() == 0 {
        0
    } else {
        count_of(s.drop_last(), c) + if s.last() == c {
            1nat
        } else {
            0nat
        }
    }
}

/// Guards the scheduler against firing twice for the same minute: the tick
/// loop asks once per iteration, and a repeated ask for the same minute is
/// refused.
pub struct Scheduler {
    pub last_minute: Option<i64>,
}

/// Whether a tick for minute `m` fires given the guard state `s`.
pub open spec fn tick_fires(s: Scheduler, m: i64) -> bool {
    s.last_minute != Some(m)
}

/// The guard state after a tick for minute `m` was asked about.
pub open spec fn after_tick(s: Scheduler, m: i64) -> Scheduler {
    Scheduler { last_minute: Some(m) }
}

impl Scheduler {
    /// A fresh guard: the first tick always fires.
    pub fn new() -> (r: Scheduler)
        ensures
            r.last_minute is None,
    {
        Scheduler { last_minute: None }
    }

    /// Asks whether the tick for minute `minute_id` (a minute-resolution
    /// timestamp) should fire. Returns true exactly when this minute was not
    /// the last one asked about, and records it either way.
    pub fn begin_tick(&mut self, minute_id: i64) -> (fires: bool)
        ensures
            fires == tick_fires(*old(self), minute_id),
            *final(self) == after_tick(*old(self), minute_id),
    {
        let fires = match self.last_minute {
            Some(m) => m != minute_id,
            None => true,
        };
        self.last_minute = Some(minute_id);
        fires
    }
}

/// Wraps a raw clock hour into the 0-23 range the scheduler compares
/// against; only the clock read itself stays outside the library.
pub fn clock_hour(raw: u32) -> (r: u8)
    ensures
        r == raw % 24,
        r < 24,
{
    (raw % 24) as u8
}

/// Wraps a raw clock minute into the 0-59 range the scheduler compares
/// against.
pub fn clock_minute(raw: u32) -> (r: u8)
    ensures
        r == raw % 60,
        r < 60,
{
    (raw % 60) as u8
}

/// Computes the chat identities due at this tick from the registry snapshot
/// and the current hour and minute.
pub fn due_users(users: &Vec<(i64, u8)>, hour: u8, minute: u8) -> (r: Vec<i64>)
    ensures
        r@ == due_seq(users@, hour, minute),
{
    let mut out: Vec<i64> = Vec::new();
    if minute != 0 {
        assert(due_seq(users@, hour, minute) =~= Seq::empty());
        return out;
    }
    let n = users.len();
    let mut i: usize = 0;
    while i < n
        invariant
            minute == 0,
            0 <= i <= n,
            n == users@.len(),
            out@ == due_seq(users@.take(i as int), hour, minute),
        decreases n - i,
    {
        proof {
            assert(users@.take(i + 1).drop_last() =~= users@.take(i as int));
            assert(users@.take(i + 1).last() == users@[i as int]);
        }
        if users[i].1 == hour {
            out.push(users[i].0);
        }
        i = i + 1;
    }
    proof {
        assert(users@.take(n as int) =~= users@);
    }
    out
}

/// A second ask for the same minute never fires: once a tick for minute `m`
/// has been asked about, the guard refuses `m` until another minute passes.
pub proof fn lemma_no_double_fire(s: Scheduler, m: i64)
    ensures
        !tick_fires(after_tick(s, m), m),
{
}

/// Every chat identity in the due set comes from a registry entry whose hour
/// matches, and only a tick at minute zero has a due set at all.
pub proof fn lemma_due_seq_members(users: Seq<(i64, u8)>, hour: u8, minute: u8, c: i64)
    ensures
        due_seq(users, hour, minute).contains(c) <==> minute == 0 && exists|i: int|
            0 <= i < users.len() && users[i] == (c, hour),
    decreases users.len(),
{
    let due = due_seq(users, hour, minute);
    if minute != 0 || users.len() == 0 {
        assert(!due.contains(c));
    } else {
        lemma_due_seq_members(users.drop_last(), hour, minute, c);
        let rest = due_seq(users.drop_last(), hour, minute);
        if users.last().1 == hour && users.last().0 == c {
            assert(due.last() == c);
            assert(due.contains(c));
            assert(users[users.len() - 1] == (c, hour));
        } else {
            if due.contains(c) {
                let k = choose|k: int| 0 <= k < due.len() && due[k] == c;
                if users.last().1 == hour {
                    assert(k < due.len() - 1);
                    assert(rest[k] == c);
                }
                assert(rest.contains(c));
                let j = choose|j: int| 0 <= j < users.drop_last().len() && users.drop_last()[j]
                    == (c, hour);
                assert(users[j] == (c, hour));
            }
            if exists|i: int| 0 <= i < users.len() && users[i] == (c, hour) {
                let i = choose|i: int| 0 <= i < users.len() && users[i] == (c, hour);
                assert(i < users.len() - 1);
                assert(users.drop_last()[i] == (c, hour));
                assert(rest.contains(c));
                let k = choose|k: int| 0 <= k < rest.len() && rest[k] == c;
                assert(due[k] == c);
                assert(due.contains(c));
            }
        }
    }
}

/// When the registry snapshot holds no duplicate chat identity, a due user is
/// due exactly once per tick: one record creation is driven per due user.
pub proof fn lemma_due_exactly_once(users: Seq<(i64, u8)>, hour: u8, c: i64)
    requires
        forall|i: int, j: int|
            #![trigger users[i], users[j]]
            0 <= i < j < users.len() ==> users[i].0 != users[j].0,
        exists|i: int| 0 <= i < users.len() && users[i] == (c, hour),
    ensures
        count_of(due_seq(users, hour, 0), c) == 1,
    decreases users.len(),
{
    let due = due_seq(users, hour, 0);
    let rest = due_seq(users.drop_last(), hour, 0);
    let i = choose|i: int| 0 <= i < users.len() && users[i] == (c, hour);
    if i == users.len() - 1 {
        assert(users.last() == (c, hour));
        assert(due == rest.push(c));
        assert(due.drop_last() =~= rest);
        lemma_due_count_absent(users.drop_last(), hour, 0, c);
        assert(count_of(rest, c) == 0);
    } else {
        assert(users.drop_last()[i] == (c, hour));
        lemma_due_exactly_once(users.drop_last(), hour, c);
        if users.last().1 == hour {
            assert(users.last().0 != c);
            assert(due == rest.push(users.last().0));
            assert(due.drop_last() =~= rest);
        }
    }
}

/// A chat identity absent from the snapshot, or present with another hour
/// only, is never in the due set.
pub proof fn lemma_due_count_absent(users: Seq<(i64, u8)>, hour: u8, minute: u8, c: i64)
    requires
        forall|i: int| 0 <= i < users.len() ==> #[trigger] users[i] != (c, hour),
    ensures
        count_of(due_seq(users, hour, minute), c) == 0,
    decreases users.len(),
{
    if !(minute != 0 || users.len() == 0) {
        let due = due_seq(users, hour, minute);
        let rest = due_seq(users.drop_last(), hour, minute);
        assert(forall|i: int|
            0 <= i < users.drop_last().len() ==> #[trigger] users.drop_last()[i] != (c, hour));
        lemma_due_count_absent(users.drop_last(), hour, minute, c);
        if users.last().1 == hour {
            assert(users.last() != (c, hour));
            assert(users.last().0 != c);
            assert(due == rest.push(users.last().0));
            assert(due.drop_last() =~= rest);
        }
    }
}

} // verus!
