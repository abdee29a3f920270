use vstd::prelude::*;

verus! {

/// A registered user: a stable chat identity, a display name that may be
/// refreshed on re-registration, and the hour (0-23) at which the daily
/// rating prompt is sent.
pub struct User {
    pub chat_id: i64,
    pub username: String,
    pub hour: u8,
}

impl User {
    /// The preferred hour is always a valid hour of the day.
    pub open spec fn wf(self) -> bool {
        self.hour < 24
    }

    /// Builds a user. A missing hour defaults to 22; an explicit hour is
    /// wrapped into the 0-23 range so that every constructed user is
    /// well formed.
    pub fn new(chat_id: i64, username: String, hour: Option<u8>) -> (r: User)
        ensures
            r.wf(),
            r.chat_id == chat_id,
            r.username@ == username@,
            hour is None ==> r.hour == 22,
            hour matches Some(h) ==> r.hour == h % 24,
    {
        let h: u8 = match hour {
            Some(h) => h % 24,
            None => 22,
        };
        User { chat_id, username, hour: h }
    }

    pub fn get_chat_id(&self) -> (r: i64)
        ensures
            r == self.chat_id,
    {
        self.chat_id
    }

    pub fn get_username(&self) -> (r: String)
        ensures
            r@ == self.username@,
    {
        self.username.clone()
    }

    pub fn get_hour(&self) -> (r: u8)
        ensures
            r == self.hour,
    {
        self.hour
    }
}

impl Clone for User {
    fn clone(&self) -> (r: Self)
        ensures
            r == *self,
    {
        User { chat_id: self.chat_id, username: self.username.clone(), hour: self.hour }
    }
}

} // verus!
