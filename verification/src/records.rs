//! The input records: pre-aggregated windows and raw events.

use vstd::prelude::*;
use crate::period::HOUR_MS;

verus! {

/// One pre-aggregated bucket of views, with times in epoch milliseconds.
#[derive(Clone, Copy, Debug, PartialEq, Eq, Structural)]
pub struct TimeWindow {
    pub start_time: u64,
    pub end_time: u64,
    pub unique_users: u32,
    pub total_views: u32,
}

/// What kind of interaction an event records.
#[derive(Clone, Copy, Debug, PartialEq, Eq, Structural)]
pub enum Category {
    Like,
    Comment,
    Bookmark,
    Other,
}

impl Category {
    /// The category a label names: `like`, `comment` and `bookmark` name
    /// their own, every other label and no label at all name `Other`.
    pub open spec fn spec_from_label(label: Option<Seq<char>>) -> Category {
        match label {
            Some(l) => if l == "like"@ {
                Category::Like
            } else if l == "comment"@ {
                Category::Comment
            } else if l == "bookmark"@ {
                Category::Bookmark
            } else {
                Category::Other
            },
            None => Category::Other,
        }
    }

    pub fn from_label(label: Option<&String>) -> (c: Category)
        ensures
            c == Self::spec_from_label(
                match label {
                    Some(l) => Some(l@),
                    None => None,
                },
            ),
    {
        match label {
            Some(l) => {
                if *l == "like".to_owned() {
                    Category::Like
                } else if *l == "comment".to_owned() {
                    Category::Comment
                } else if *l == "bookmark".to_owned() {
                    Category::Bookmark
                } else {
                    Category::Other
                }
            },
            None => Category::Other,
        }
    }
}

/// One raw activity record. Its engagement score is a measured real number
/// and stays with the caller, who finds it again by the event's position.
#[derive(Clone, Copy, Debug, PartialEq, Eq, Structural)]
pub struct Event {
    pub timestamp: u64,
    pub user_id: u32,
    pub category: Category,
}

/// The hour bucket of an instant.
pub open spec fn hour_of(ms: u64) -> u64 {
    ms / HOUR_MS
}

pub fn hour_bucket(ms: u64) -> (h: u64)
    ensures
        h == hour_of(ms),
{
    ms / HOUR_MS
}

impl TimeWindow {
    /// A window counts when it overlaps `[period_start, now]`.
    pub open spec fn active(self, period_start: u64, now: u64) -> bool {
        self.end_time >= period_start && self.start_time <= now
    }

    pub fn is_active(&self, period_start: u64, now: u64) -> (b: bool)
        ensures
            b == self.active(period_start, now),
    {
        self.end_time >= period_start && self.start_time <= now
    }
}

impl Event {
    /// An event counts when it falls inside `[period_start, now]`.
    pub open spec fn active(self, period_start: u64, now: u64) -> bool {
        self.timestamp >= period_start && self.timestamp <= now
    }

    pub fn is_active(&self, period_start: u64, now: u64) -> (b: bool)
        ensures
            b == self.active(period_start, now),
    {
        self.timestamp >= period_start && self.timestamp <= now
    }
}

} // verus!
