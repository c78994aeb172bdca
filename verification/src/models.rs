use vstd::prelude::*;
use vstd::string::StringExecFns;
use crate::utils::{current_time, url_parses};

verus! {

/// Smallest number of characters of a short identifier.
pub const MIN_ID_LEN: usize = 1;

/// Largest number of characters of a short identifier.
pub const MAX_ID_LEN: usize = 50;

/// A point in time: whole seconds since the Unix epoch and the nanoseconds
/// within that second.
#[derive(Clone, Copy, Debug, PartialEq, Eq, Structural)]
pub struct Timestamp {
    pub secs: i64,
    pub nanos: u32,
}

/// Whether `id` may serve as a short identifier: between one and fifty
/// characters.
pub open spec fn valid_short_id(id: Seq<char>) -> bool {
    MIN_ID_LEN <= id.len() <= MAX_ID_LEN
}

/// The body of a creation request.
#[derive(Clone, Debug)]
pub struct CreateUrlRequest {
    pub url: String,
    pub custom_id: Option<String>,
}

/// The mathematical value of a `CreateUrlRequest`.
pub struct CreateUrlRequestView {
    pub url: Seq<char>,
    pub custom_id: Option<Seq<char>>,
}

impl View for CreateUrlRequest {
    type V = CreateUrlRequestView;

    open spec fn view(&self) -> CreateUrlRequestView {
        CreateUrlRequestView {
            url: self.url@,
            custom_id: match self.custom_id {
                Some(id) => Some(id@),
                None => None,
            },
        }
    }
}

/// What a successful creation answers.
#[derive(Clone, Debug)]
pub struct CreateUrlResponse {
    pub short_url: String,
    pub original_url: String,
    pub id: String,
    pub created_at: Timestamp,
}

/// The mathematical value of a `CreateUrlResponse`.
pub struct CreateUrlResponseView {
    pub short_url: Seq<char>,
    pub original_url: Seq<char>,
    pub id: Seq<char>,
    pub created_at: Timestamp,
}

impl View for CreateUrlResponse {
    type V = CreateUrlResponseView;

    open spec fn view(&self) -> CreateUrlResponseView {
        CreateUrlResponseView {
            short_url: self.short_url@,
            original_url: self.original_url@,
            id: self.id@,
            created_at: self.created_at,
        }
    }
}

/// The statistics of one record.
#[derive(Clone, Debug)]
pub struct UrlStats {
    pub id: String,
    pub original_url: String,
    pub short_url: String,
    pub click_count: i64,
    pub created_at: Timestamp,
    pub last_accessed: Option<Timestamp>,
}

/// The mathematical value of a `UrlStats`.
pub struct UrlStatsView {
    pub id: Seq<char>,
    pub original_url: Seq<char>,
    pub short_url: Seq<char>,
    pub click_count: int,
    pub created_at: Timestamp,
    pub last_accessed: Option<Timestamp>,
}

impl View for UrlStats {
    type V = UrlStatsView;

    open spec fn view(&self) -> UrlStatsView {
        UrlStatsView {
            id: self.id@,
            original_url: self.original_url@,
            short_url: self.short_url@,
            click_count: self.click_count as int,
            created_at: self.created_at,
            last_accessed: self.last_accessed,
        }
    }
}

/// The one persisted entity: a short identifier, the URL it stands for, and
/// its access counters.
#[derive(Clone, Debug)]
pub struct UrlRecord {
    pub short_id: String,
    pub original_url: String,
    pub click_count: i64,
    pub created_at: Timestamp,
    pub last_accessed: Option<Timestamp>,
}

/// The mathematical value of a `UrlRecord`; its click count is an unbounded
/// integer.
pub struct UrlRecordView {
    pub short_id: Seq<char>,
    pub original_url: Seq<char>,
    pub click_count: int,
    pub created_at: Timestamp,
    pub last_accessed: Option<Timestamp>,
}

impl View for UrlRecord {
    type V = UrlRecordView;

    open spec fn view(&self) -> UrlRecordView {
        UrlRecordView {
            short_id: self.short_id@,
            original_url: self.original_url@,
            click_count: self.click_count as int,
            created_at: self.created_at,
            last_accessed: self.last_accessed,
        }
    }
}

/// The record that a creation at time `now` stores: no clicks, never accessed.
pub open spec fn fresh_record(short_id: Seq<char>, original_url: Seq<char>, now: Timestamp)
    -> UrlRecordView {
    UrlRecordView {
        short_id,
        original_url,
        click_count: 0,
        created_at: now,
        last_accessed: None,
    }
}

/// The record after one more access at time `now`: one more click, last
/// accessed at `now`, everything else as before.
pub open spec fn visited(record: UrlRecordView, now: Timestamp) -> UrlRecordView {
    UrlRecordView {
        click_count: record.click_count + 1,
        last_accessed: Some(now),
        ..record
    }
}

/// The short URL of `id` under `base_url`: the two joined by a slash.
pub open spec fn short_url_of(base_url: Seq<char>, id: Seq<char>) -> Seq<char> {
    base_url + seq!['/'] + id
}

impl UrlRecordView {
    /// A record is well formed when its identifier has a valid length, its URL
    /// parses and its click count is not negative.
    pub open spec fn wf(self) -> bool {
        &&& valid_short_id(self.short_id)
        &&& url_parses(self.original_url)
        &&& self.click_count >= 0
    }
}

impl UrlRecord {
    /// A new record for `short_id`, created at the current time.
    pub fn new(short_id: String, original_url: String) -> (record: UrlRecord)
        ensures
            record@ == fresh_record(short_id@, original_url@, record@.created_at),
            record@.wf() <==> valid_short_id(short_id@) && url_parses(original_url@),
    {
        UrlRecord::new_at(short_id, original_url, current_time())
    }

    /// A new record for `short_id`, created at `now`.
    pub fn new_at(short_id: String, original_url: String, now: Timestamp) -> (record: UrlRecord)
        ensures
            record@ == fresh_record(short_id@, original_url@, now),
            record@.wf() <==> valid_short_id(short_id@) && url_parses(original_url@),
    {
        UrlRecord { short_id, original_url, click_count: 0, created_at: now, last_accessed: None }
    }

    /// Counts one access at `now`.
    pub fn record_visit(self, now: Timestamp) -> (record: UrlRecord)
        requires
            self.click_count < i64::MAX,
        ensures
            record@ == visited(self@, now),
            self@.wf() ==> record@.wf(),
    {
        UrlRecord {
            short_id: self.short_id,
            original_url: self.original_url,
            click_count: self.click_count + 1,
            created_at: self.created_at,
            last_accessed: Some(now),
        }
    }
}

/// Joins `base_url` and `id` into the short URL that clients follow.
pub fn short_url(base_url: &str, id: &str) -> (url: String)
    ensures
        url@ == short_url_of(base_url@, id@),
{
    proof {
        reveal_strlit("/");
    }
    let joined = String::from_str(base_url).concat("/").concat(id);
    assert(joined@ =~= short_url_of(base_url@, id@));
    joined
}

} // verus!
