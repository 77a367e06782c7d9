use crate::clock::{central_time_text, Timestamp, MAX_UNIX_SECONDS};
use crate::structs::account::{Account, AccountView};
use vstd::prelude::*;

verus! {

/// A pending sponsorship: who is vouched for, by whom, and since when.
#[derive(Debug)]
pub struct Vouch {
    pub user: Account,
    pub vouched_by: Account,
    pub vouch_time: Timestamp,
}

/// What a `Vouch` stands for.
pub struct VouchView {
    pub user: AccountView,
    pub vouched_by: AccountView,
    pub vouch_time: i64,
}

impl View for Vouch {
    type V = VouchView;

    open spec fn view(&self) -> VouchView {
        VouchView { user: self.user@, vouched_by: self.vouched_by@, vouch_time: self.vouch_time@ }
    }
}

impl Clone for Vouch {
    fn clone(&self) -> (copy: Self)
        ensures
            copy == *self,
    {
        Vouch {
            user: self.user.clone(),
            vouched_by: self.vouched_by.clone(),
            vouch_time: self.vouch_time,
        }
    }
}

impl Vouch {
    /// A vouch for `user` by `vouched_by`, made at the moment of the call.
    pub fn new(user: Account, vouched_by: Account) -> (vouch: Vouch)
        ensures
            vouch.user == user,
            vouch.vouched_by == vouched_by,
            0 <= vouch@.vouch_time <= MAX_UNIX_SECONDS,
    {
        Vouch::at(user, vouched_by, Timestamp::now())
    }

    /// A vouch for `user` by `vouched_by`, made at `vouch_time`.
    pub fn at(user: Account, vouched_by: Account, vouch_time: Timestamp) -> (vouch: Vouch)
        ensures
            vouch.user == user,
            vouch.vouched_by == vouched_by,
            vouch.vouch_time == vouch_time,
    {
        Vouch { user, vouched_by, vouch_time }
    }

    /// When the vouch was made, as read from a clock in the US Central zone.
    pub fn get_vouch_time(&self) -> (text: String)
        ensures
            text@ == central_time_text(self@.vouch_time),
    {
        self.vouch_time.central_text()
    }
}

} // verus!
