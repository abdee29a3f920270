use vstd::prelude::*;
use vstd::string::StrSliceExecFns;
use crate::db::{rank_day_index, Database};
use crate::rank_day::Rank;

verus! {

/// An inbound callback from the transport: a rating on the 0-5 scale, a
/// request to reopen the day, or the reserved add-comment action.
#[derive(Clone, Copy, PartialEq, Eq, Structural, Debug)]
pub enum Callback {
    Rank(u8),
    Edit,
    AddComment,
}

impl Callback {
    pub open spec fn wf(self) -> bool {
        match self {
            Callback::Rank(v) => v <= 5,
            Callback::Edit => true,
            Callback::AddComment => true,
        }
    }
}

/// What the dispatcher must do after a callback was applied: replace the
/// prompt with a rating confirmation, redisplay the rating keyboard, or only
/// acknowledge receipt.
#[derive(Clone, Copy, PartialEq, Eq, Structural, Debug)]
pub enum Effect {
    ShowResult { time: i64, rank: u8 },
    ShowPrompt { time: i64 },
    AckOnly,
}

/// The callback payload a given text stands for: a single digit 0-5 is a
/// rating, the two action labels map to their actions, anything else is
/// malformed and ignored.
pub open spec fn spec_parse_callback(s: Seq<char>) -> Option<Callback> {
    if s.len() == 1 && '0' as int <= s[0] as int <= '5' as int {
        Some(Callback::Rank((s[0] as int - '0' as int) as u8))
    } else if s == "Edit"@ {
        Some(Callback::Edit)
    } else if s == "Add comment"@ {
        Some(Callback::AddComment)
    } else {
        None
    }
}

/// Verified character-by-character comparison of two text payloads.
fn eq_str(a: &str, b: &str) -> (r: bool)
    ensures
        r == (a@ == b@),
{
    let na = a.unicode_len();
    let nb = b.unicode_len();
    if na != nb {
        return false;
    }
    let mut i: usize = 0;
    while i < na
        invariant
            0 <= i <= na,
            na == a@.len(),
            na == b@.len(),
            forall|j: int| 0 <= j < i ==> a@[j] == b@[j],
        decreases na - i,
    {
        if a.get_char(i) != b.get_char(i) {
            return false;
        }
        i = i + 1;
    }
    proof {
        assert(a@ =~= b@);
    }
    true
}

/// Maps a callback payload to its meaning; `None` stands for a malformed or
/// unknown payload, which is acknowledged and otherwise ignored.
pub fn parse_callback(data: &str) -> (r: Option<Callback>)
    ensures
        r == spec_parse_callback(data@),
        r matches Some(cb) ==> cb.wf(),
{
    proof {
        reveal_strlit("Edit");
        reveal_strlit("Add comment");
    }
    let n = data.unicode_len();
    if n == 1 {
        let c = data.get_char(0);
        let v: u8 = match c {
            '0' => 0,
            '1' => 1,
            '2' => 2,
            '3' => 3,
            '4' => 4,
            '5' => 5,
            _ => {
                return None;
            },
        };
        return Some(Callback::Rank(v));
    }
    if eq_str(data, "Edit") {
        return Some(Callback::Edit);
    }
    if eq_str(data, "Add comment") {
        return Some(Callback::AddComment);
    }
    None
}

/// The interaction state machine's transition: what one callback for the
/// record keyed by (chat_id, id_msg) does to the repository, and which
/// dispatch it demands. A rating moves the record to Ranked(v) and shows the
/// confirmation; a reopen moves it back to Unranked and redisplays the
/// keyboard at the same handle; add-comment and any stale handle change
/// nothing and are only acknowledged.
pub open spec fn handle_post(
    pre: Database,
    post: Database,
    chat_id: i64,
    id_msg: i32,
    cb: Callback,
    eff: Effect,
) -> bool {
    &&& post.users@ == pre.users@
    &&& post.path@ == pre.path@
    &&& match rank_day_index(pre.rank_days@, chat_id, id_msg) {
        Some(i) => match cb {
            Callback::Rank(v) => {
                &&& crate::db::rank_updated(pre.rank_days@, post.rank_days@, i, Rank::Ranked(v))
                &&& eff == (Effect::ShowResult { time: pre.rank_days@[i].time, rank: v })
            },
            Callback::Edit => {
                &&& crate::db::rank_updated(pre.rank_days@, post.rank_days@, i, Rank::Unranked)
                &&& eff == (Effect::ShowPrompt { time: pre.rank_days@[i].time })
            },
            Callback::AddComment => {
                &&& post.rank_days@ == pre.rank_days@
                &&& eff == Effect::AckOnly
            },
        },
        None => {
            &&& post.rank_days@ == pre.rank_days@
            &&& eff == Effect::AckOnly
        },
    }
}

/// Applies one parsed callback to the repository and says what to dispatch.
pub fn handle_callback(db: &mut Database, chat_id: i64, id_msg: i32, cb: Callback) -> (eff: Effect)
    requires
        old(db).wf(),
        cb.wf(),
    ensures
        final(db).wf(),
        handle_post(*old(db), *final(db), chat_id, id_msg, cb, eff),
{
    match cb {
        Callback::Rank(v) => {
            match db.get_time(chat_id, id_msg) {
                Some(time) => {
                    let _ = db.update_rank(chat_id, id_msg, Rank::Ranked(v));
                    Effect::ShowResult { time, rank: v }
                },
                None => Effect::AckOnly,
            }
        },
        Callback::Edit => {
            match db.get_time(chat_id, id_msg) {
                Some(time) => {
                    let _ = db.update_rank(chat_id, id_msg, Rank::Unranked);
                    Effect::ShowPrompt { time }
                },
                None => Effect::AckOnly,
            }
        },
        Callback::AddComment => Effect::AckOnly,
    }
}

/// Applies one raw callback payload: parses it and, when it is meaningful,
/// runs the state machine; a malformed payload changes nothing.
pub fn handle_payload(db: &mut Database, chat_id: i64, id_msg: i32, data: &str) -> (eff: Effect)
    requires
        old(db).wf(),
    ensures
        final(db).wf(),
        match spec_parse_callback(data@) {
            Some(cb) => handle_post(*old(db), *final(db), chat_id, id_msg, cb, eff),
            None => *final(db) == *old(db) && eff == Effect::AckOnly,
        },
{
    match parse_callback(data) {
        Some(cb) => handle_callback(db, chat_id, id_msg, cb),
        None => Effect::AckOnly,
    }
}

} // verus!
