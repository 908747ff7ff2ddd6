//! The request to shorten a link and the record that is kept for it.

use crate::policy::DestructionMode;
use vstd::prelude::*;

verus! {

/// A request to create a short link.
#[derive(Debug, Clone, PartialEq, Eq)]
pub struct ShortenRequest {
    /// The destination.
    pub original_url: String,
    /// The identifier that the caller asks for, if any.
    pub custom_alias: Option<String>,
    /// The destruction policy of the link.
    pub destruction: DestructionMode,
}

/// The durable record of a link.
#[derive(Debug, Clone, PartialEq, Eq)]
pub struct StoredUrl {
    /// The identifier, unique among all records.
    pub id: String,
    /// The destination.
    pub original_url: String,
    /// Time of creation, in seconds since the Unix epoch.
    pub created_at: i64,
    /// Reserved expiry time, in nanoseconds since the Unix epoch.
    pub expiration_time: Option<u128>,
    /// Number of reads that were counted, once there was one.
    pub click_count: Option<i32>,
    /// The destruction policy in its current state.
    pub destruction_mode: DestructionMode,
}

/// Mathematical value of a [`ShortenRequest`].
pub struct ShortenRequestView {
    pub original_url: Seq<char>,
    pub custom_alias: Option<Seq<char>>,
    pub destruction: DestructionMode,
}

/// Mathematical value of a [`StoredUrl`].
pub struct StoredUrlView {
    pub id: Seq<char>,
    pub original_url: Seq<char>,
    pub created_at: i64,
    pub expiration_time: Option<u128>,
    pub click_count: Option<i32>,
    pub destruction_mode: DestructionMode,
}

/// The symbols of an optional text.
pub open spec fn text_of(text: Option<String>) -> Option<Seq<char>> {
    match text {
        Some(text) => Some(text@),
        None => None,
    }
}

impl View for ShortenRequest {
    type V = ShortenRequestView;

    open spec fn view(&self) -> ShortenRequestView {
        ShortenRequestView {
            original_url: self.original_url@,
            custom_alias: text_of(self.custom_alias),
            destruction: self.destruction,
        }
    }
}

impl View for StoredUrl {
    type V = StoredUrlView;

    open spec fn view(&self) -> StoredUrlView {
        StoredUrlView {
            id: self.id@,
            original_url: self.original_url@,
            created_at: self.created_at,
            expiration_time: self.expiration_time,
            click_count: self.click_count,
            destruction_mode: self.destruction_mode,
        }
    }
}

/// The record that a new link starts with: no expiry time, no counted read,
/// and the policy as it was asked for.
pub open spec fn fresh_record(
    id: Seq<char>,
    original_url: Seq<char>,
    created_at: i64,
    destruction: DestructionMode,
) -> StoredUrlView {
    StoredUrlView {
        id,
        original_url,
        created_at,
        expiration_time: None,
        click_count: None,
        destruction_mode: destruction,
    }
}

/// The read counter after one more counted read. It starts at one and stops
/// at the largest value it can hold.
pub open spec fn counted_once_more(click_count: Option<i32>) -> Option<i32> {
    match click_count {
        None => Some(1i32),
        Some(count) => if count < i32::MAX {
            Some((count + 1) as i32)
        } else {
            Some(count)
        },
    }
}

impl StoredUrl {
    /// Makes the record of a new link.
    pub fn new(
        id: String,
        original_url: String,
        created_at: i64,
        destruction: DestructionMode,
    ) -> (record: Self)
        ensures
            record@ == fresh_record(id@, original_url@, created_at, destruction),
    {
        StoredUrl {
            id,
            original_url,
            created_at,
            expiration_time: None,
            click_count: None,
            destruction_mode: destruction,
        }
    }

    /// The read counter after one more counted read. It never goes down.
    pub fn next_click_count(&self) -> (count: Option<i32>)
        ensures
            count == counted_once_more(self.click_count),
            count is Some,
            self.click_count matches Some(before) ==> count.unwrap() >= before,
    {
        match self.click_count {
            None => Some(1),
            Some(count) => if count < i32::MAX {
                Some(count + 1)
            } else {
                Some(count)
            },
        }
    }
}

} // verus!
