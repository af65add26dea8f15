//! Posts, and the time filter of post listings.
use vstd::prelude::*;
use crate::content::{usizedb, ContentType};
use crate::text::same_chars;

verus! {

#[derive(Debug, Clone, Copy, PartialEq, Eq, Structural)]
pub enum PostStatus {
    Active,
    Archived,
    Banned,
}

#[derive(Debug, Clone)]
pub struct PostInfo {
    pub id: usizedb,
    pub created_by_id: usizedb,
    pub title: String,
    pub content: Option<String>,
    pub content_type: ContentType,
    pub likes: usizedb,
    pub dislikes: usizedb,
    pub views: usizedb,
    pub category_id: usizedb,
    pub tags: Vec<String>,
    pub created_at: usizedb,
    pub last_edit_at: usizedb,
    pub last_edit_by_id: usizedb,
    pub last_comment_at: usizedb,
    pub last_comment_by_id: usizedb,
    pub total_comment: usizedb,
    pub total_comment_post: usizedb,
    pub status: PostStatus,
    pub cover_url: Option<String>,
    pub top_index: usizedb,
}

#[derive(Debug, Clone)]
pub struct PostBaseInfo {
    pub id: usizedb,
    pub created_by_id: usizedb,
    pub content_type: ContentType,
    pub likes: usizedb,
    pub dislikes: usizedb,
    pub views: usizedb,
    pub category_id: usizedb,
    pub created_at: usizedb,
    pub last_edit_at: usizedb,
    pub last_edit_by_id: usizedb,
    pub last_comment_at: usizedb,
    pub last_comment_by_id: usizedb,
    pub total_comment: usizedb,
    pub total_comment_post: usizedb,
    pub status: PostStatus,
    pub cover_url: Option<String>,
    pub top_index: usizedb,
}

#[derive(Debug, Clone)]
pub struct PostToCreate {
    pub title: String,
    pub content: String,
    pub content_type: ContentType,
    pub category_id: usizedb,
    pub tags: Vec<String>,
    pub cover_url: Option<String>,
    pub top_index: usizedb,
}

#[derive(Debug, Clone)]
pub struct PostToUpdate {
    pub title: String,
    pub content: String,
    pub content_type: ContentType,
    pub tags: Vec<String>,
    pub cover_url: Option<String>,
    pub top_index: usizedb,
}

#[derive(Debug, Clone, Copy, PartialEq, Eq, Structural)]
pub enum PostAlgorithmOrder {
    Hot,
    Views,
    Likes,
    Newest,
}

/// How far back a post listing reaches: all time, or a number of days,
/// weeks, months or years.
#[derive(Debug, Clone, Copy, PartialEq, Eq, Structural, Hash)]
pub enum PostFilterTime {
    Lifetime,
    Day(usizedb),
    Week(usizedb),
    Month(usizedb),
    Year(usizedb),
}

/// Seconds in a day.
pub const DAY_SECONDS: i64 = 86400;

/// The span of a filter in days: a count below one counts as one, a week is
/// seven days, a month thirty and a year 365; all time is `u32::MAX` days.
pub open spec fn filter_days(f: PostFilterTime) -> nat {
    match f {
        PostFilterTime::Lifetime => u32::MAX as nat,
        PostFilterTime::Day(v) => if v > 1 { v as nat } else { 1 },
        PostFilterTime::Week(v) => if v > 1 { (v * 7) as nat } else { 7 },
        PostFilterTime::Month(v) => if v > 1 { (v * 30) as nat } else { 30 },
        PostFilterTime::Year(v) => if v > 1 { (v * 365) as nat } else { 365 },
    }
}

impl PostFilterTime {
    /// Reads a filter from its name; an unknown name means one week.
    pub fn from_str(time: &str, time_num: usizedb) -> (r: Self)
        ensures
            time@ == "lifetime"@ ==> r == PostFilterTime::Lifetime,
            time@ == "day"@ ==> r == PostFilterTime::Day(time_num),
            time@ == "week"@ ==> r == PostFilterTime::Week(time_num),
            time@ == "month"@ ==> r == PostFilterTime::Month(time_num),
            time@ == "year"@ ==> r == PostFilterTime::Year(time_num),
            time@ != "lifetime"@ && time@ != "day"@ && time@ != "week"@ && time@ != "month"@
                && time@ != "year"@ ==> r == PostFilterTime::Week(1),
    {
        proof {
            reveal_strlit("lifetime");
            reveal_strlit("day");
            reveal_strlit("week");
            reveal_strlit("month");
            reveal_strlit("year");
            assert("day"@.len() == 3 && "lifetime"@.len() == 8 && "week"@.len() == 4);
            assert("month"@.len() == 5 && "year"@.len() == 4);
            assert("week"@[0] != "year"@[0]);
        }
        if same_chars(time, "lifetime") {
            PostFilterTime::Lifetime
        } else if same_chars(time, "day") {
            PostFilterTime::Day(time_num)
        } else if same_chars(time, "week") {
            PostFilterTime::Week(time_num)
        } else if same_chars(time, "month") {
            PostFilterTime::Month(time_num)
        } else if same_chars(time, "year") {
            PostFilterTime::Year(time_num)
        } else {
            PostFilterTime::Week(1)
        }
    }

    /// The span of the filter in days.
    pub fn days(&self) -> (r: usizedb)
        requires
            filter_days(*self) <= u32::MAX,
        ensures
            r == filter_days(*self),
    {
        match self {
            PostFilterTime::Lifetime => usizedb::MAX,
            PostFilterTime::Day(v) => if *v > 1 { *v } else { 1 },
            PostFilterTime::Week(v) => if *v > 1 { *v * 7 } else { 7 },
            PostFilterTime::Month(v) => if *v > 1 { *v * 30 } else { 30 },
            PostFilterTime::Year(v) => if *v > 1 { *v * 365 } else { 365 },
        }
    }

    /// The second timestamp that lies the filter's span before (`negative`)
    /// or after `now`, cut to the store's 32-bit timestamps.
    pub fn to_timestamp(&self, negative: bool, now: i64) -> (r: usizedb)
        requires
            filter_days(*self) <= u32::MAX,
            i64::MIN <= now - filter_days(*self) * DAY_SECONDS,
            now + filter_days(*self) * DAY_SECONDS <= i64::MAX,
        ensures
            r == (if negative {
                now - filter_days(*self) * DAY_SECONDS
            } else {
                now + filter_days(*self) * DAY_SECONDS
            }) as u32,
    {
        let days = self.days() as i64;
        let span = days * DAY_SECONDS;
        let t = if negative { now - span } else { now + span };
        t as usizedb
    }

    pub fn is_lifetime(&self) -> (r: bool)
        ensures
            r == (*self == PostFilterTime::Lifetime),
    {
        *self == PostFilterTime::Lifetime
    }
}

} // verus!
