use vstd::prelude::*;

verus! {

/// Something a member said that another member has kept.
#[derive(Debug)]
pub struct Quote {
    pub quote_id: u64,
    /// Who said it.
    pub user_id: i64,
    pub username: String,
    pub quote: String,
    /// Who kept it.
    pub added_by: i64,
    /// When it was kept, in seconds since the Unix epoch, if that is known.
    pub added_at: Option<i64>,
}

/// What a `Quote` stands for.
pub struct QuoteView {
    pub quote_id: u64,
    pub user_id: i64,
    pub username: Seq<char>,
    pub quote: Seq<char>,
    pub added_by: i64,
    pub added_at: Option<i64>,
}

impl View for Quote {
    type V = QuoteView;

    open spec fn view(&self) -> QuoteView {
        QuoteView {
            quote_id: self.quote_id,
            user_id: self.user_id,
            username: self.username@,
            quote: self.quote@,
            added_by: self.added_by,
            added_at: self.added_at,
        }
    }
}

} // verus!
