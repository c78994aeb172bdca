use vstd::prelude::*;
use vstd::string::StrSliceExecFns;
use crate::models::{
    fresh_record, short_url, short_url_of, valid_short_id, visited, CreateUrlRequest,
    CreateUrlRequestView, CreateUrlResponse, CreateUrlResponseView, Timestamp, UrlRecord,
    UrlRecordView, UrlStats, UrlStatsView, MAX_ID_LEN, MIN_ID_LEN,
};
use crate::utils::{current_time, generate_short_id, is_generated_id, is_valid_url, url_parses};

verus! {

/// HTTP status of a successful creation.
pub const STATUS_CREATED: u16 = 201;

/// HTTP status of a statistics answer.
pub const STATUS_OK: u16 = 200;

/// HTTP status of the permanent redirect to the stored URL.
pub const STATUS_PERMANENT_REDIRECT: u16 = 308;

/// Why a request is refused.
#[derive(Clone, Copy, Debug, PartialEq, Eq, Structural)]
pub enum ApiError {
    /// The submitted text is not a URL.
    InvalidUrl,
    /// The custom identifier is empty or longer than fifty characters.
    InvalidCustomId,
    /// The custom identifier already names a record.
    CustomIdTaken,
    /// No record has the identifier.
    NotFound,
    /// The store failed while a custom identifier was looked up.
    LookupFailed,
    /// The store failed to insert the record, or returned nothing.
    CreateFailed,
    /// The store failed while a record was read for a redirect or statistics.
    Internal,
}

impl ApiError {
    /// The HTTP status that reports the error.
    pub open spec fn spec_status_code(self) -> u16 {
        match self {
            ApiError::InvalidUrl => 400,
            ApiError::InvalidCustomId => 400,
            ApiError::CustomIdTaken => 409,
            ApiError::NotFound => 404,
            ApiError::LookupFailed => 500,
            ApiError::CreateFailed => 500,
            ApiError::Internal => 500,
        }
    }

    /// Whether the error is the client's: a status from 400 to 499.
    pub open spec fn is_client_error(self) -> bool {
        400 <= self.spec_status_code() < 500
    }

    /// Whether the error is the server's: a status from 500 to 599.
    pub open spec fn is_server_error(self) -> bool {
        500 <= self.spec_status_code() < 600
    }

    /// The text that the client is shown.
    pub open spec fn spec_message(self) -> Seq<char> {
        match self {
            ApiError::InvalidUrl => "Invalid URL format"@,
            ApiError::InvalidCustomId => "Custom ID must be between 1 and 50 characters"@,
            ApiError::CustomIdTaken => "Custom ID already exists"@,
            ApiError::NotFound => "Short URL not found"@,
            ApiError::LookupFailed => "Database error"@,
            ApiError::CreateFailed => "Failed to create short URL"@,
            ApiError::Internal => "Internal server error"@,
        }
    }

    /// The HTTP status that reports the error.
    #[verifier::when_used_as_spec(spec_status_code)]
    pub fn status_code(self) -> (code: u16)
        ensures
            code == self.spec_status_code(),
    {
        match self {
            ApiError::InvalidUrl => 400,
            ApiError::InvalidCustomId => 400,
            ApiError::CustomIdTaken => 409,
            ApiError::NotFound => 404,
            ApiError::LookupFailed => 500,
            ApiError::CreateFailed => 500,
            ApiError::Internal => 500,
        }
    }

    /// The text that the client is shown.
    pub fn message(self) -> (text: &'static str)
        ensures
            text@ == self.spec_message(),
    {
        match self {
            ApiError::InvalidUrl => "Invalid URL format",
            ApiError::InvalidCustomId => "Custom ID must be between 1 and 50 characters",
            ApiError::CustomIdTaken => "Custom ID already exists",
            ApiError::NotFound => "Short URL not found",
            ApiError::LookupFailed => "Database error",
            ApiError::CreateFailed => "Failed to create short URL",
            ApiError::Internal => "Internal server error",
        }
    }
}

/// What the record store answered to a point lookup or a point insert.
#[derive(Clone, Debug)]
pub enum StoreReply {
    /// The record at the key: the one found, or the one just inserted.
    Found(UrlRecord),
    /// No record.
    Missing,
    /// The store reported a failure.
    Failed,
}

/// The mathematical value of a `StoreReply`.
pub enum StoreReplyView {
    Found(UrlRecordView),
    Missing,
    Failed,
}

impl View for StoreReply {
    type V = StoreReplyView;

    open spec fn view(&self) -> StoreReplyView {
        match self {
            StoreReply::Found(record) => StoreReplyView::Found(record@),
            StoreReply::Missing => StoreReplyView::Missing,
            StoreReply::Failed => StoreReplyView::Failed,
        }
    }
}

/// What is to be done next for a creation request.
#[derive(Debug)]
pub enum CreateStep {
    /// Answer with the error; nothing is stored.
    Reject(ApiError),
    /// Look `id` up in the store and hand the store's answer to
    /// `confirm_custom_id`, which gives the record to insert.
    CheckExisting { id: String, url: String },
    /// Insert the record and hand the store's answer to `finish_creation`.
    Insert(UrlRecord),
}

/// The mathematical value of a `CreateStep`.
pub enum CreateStepView {
    Reject(ApiError),
    CheckExisting { id: Seq<char>, url: Seq<char> },
    Insert(UrlRecordView),
}

impl View for CreateStep {
    type V = CreateStepView;

    open spec fn view(&self) -> CreateStepView {
        match self {
            CreateStep::Reject(e) => CreateStepView::Reject(*e),
            CreateStep::CheckExisting { id, url } => CreateStepView::CheckExisting {
                id: id@,
                url: url@,
            },
            CreateStep::Insert(record) => CreateStepView::Insert(record@),
        }
    }
}

/// What is to be done for a redirect request.
#[derive(Debug)]
pub enum RedirectStep {
    /// Answer with the error; nothing is stored.
    Reject(ApiError),
    /// Replace the stored record by `update`, then redirect permanently to
    /// `location`, whether or not the replacement succeeded.
    Redirect { location: String, update: UrlRecord },
}

/// The mathematical value of a `RedirectStep`.
pub enum RedirectStepView {
    Reject(ApiError),
    Redirect { location: Seq<char>, update: UrlRecordView },
}

impl View for RedirectStep {
    type V = RedirectStepView;

    open spec fn view(&self) -> RedirectStepView {
        match self {
            RedirectStep::Reject(e) => RedirectStepView::Reject(*e),
            RedirectStep::Redirect { location, update } => RedirectStepView::Redirect {
                location: location@,
                update: update@,
            },
        }
    }
}

/// The verdict on a creation request whose URL parses iff `url_ok`: the error,
/// or the custom identifier to use, or `None` where one is to be generated.
pub open spec fn request_verdict(url_ok: bool, request: CreateUrlRequestView) -> Result<
    Option<Seq<char>>,
    ApiError,
> {
    if !url_ok {
        Err(ApiError::InvalidUrl)
    } else {
        match request.custom_id {
            Some(id) => if valid_short_id(id) {
                Ok(Some(id))
            } else {
                Err(ApiError::InvalidCustomId)
            },
            None => Ok(None),
        }
    }
}

/// The first step of a creation, given whether the URL parses, the identifier
/// that the generator would give and the time.
pub open spec fn create_step(
    url_ok: bool,
    request: CreateUrlRequestView,
    generated: Seq<char>,
    now: Timestamp,
) -> CreateStepView {
    match request_verdict(url_ok, request) {
        Err(e) => CreateStepView::Reject(e),
        Ok(Some(id)) => CreateStepView::CheckExisting { id, url: request.url },
        Ok(None) => CreateStepView::Insert(fresh_record(generated, request.url, now)),
    }
}

/// The verdict on a custom identifier once the store has answered its lookup:
/// the record to insert, or the error.
pub open spec fn lookup_step(
    reply: StoreReplyView,
    id: Seq<char>,
    url: Seq<char>,
    now: Timestamp,
) -> Result<UrlRecordView, ApiError> {
    match reply {
        StoreReplyView::Found(_) => Err(ApiError::CustomIdTaken),
        StoreReplyView::Failed => Err(ApiError::LookupFailed),
        StoreReplyView::Missing => Ok(fresh_record(id, url, now)),
    }
}

/// The answer to a creation once the store has replied to the insert of `id`.
pub open spec fn insert_step(reply: StoreReplyView, id: Seq<char>, base_url: Seq<char>) -> Result<
    CreateUrlResponseView,
    ApiError,
> {
    match reply {
        StoreReplyView::Found(record) => Ok(
            CreateUrlResponseView {
                short_url: short_url_of(base_url, id),
                original_url: record.original_url,
                id: record.short_id,
                created_at: record.created_at,
            },
        ),
        _ => Err(ApiError::CreateFailed),
    }
}

/// What a redirect does once the store has replied to the lookup.
pub open spec fn redirect_step(reply: StoreReplyView, now: Timestamp) -> RedirectStepView {
    match reply {
        StoreReplyView::Found(record) => RedirectStepView::Redirect {
            location: record.original_url,
            update: visited(record, now),
        },
        StoreReplyView::Missing => RedirectStepView::Reject(ApiError::NotFound),
        StoreReplyView::Failed => RedirectStepView::Reject(ApiError::Internal),
    }
}

/// The statistics answered once the store has replied to the lookup.
pub open spec fn stats_step(reply: StoreReplyView, base_url: Seq<char>) -> Result<
    UrlStatsView,
    ApiError,
> {
    match reply {
        StoreReplyView::Found(record) => Ok(
            UrlStatsView {
                id: record.short_id,
                original_url: record.original_url,
                short_url: short_url_of(base_url, record.short_id),
                click_count: record.click_count,
                created_at: record.created_at,
                last_accessed: record.last_accessed,
            },
        ),
        StoreReplyView::Missing => Err(ApiError::NotFound),
        StoreReplyView::Failed => Err(ApiError::Internal),
    }
}

/// The HTTP status of the answer to a creation.
pub open spec fn creation_status_of(answer: Result<CreateUrlResponseView, ApiError>) -> u16 {
    match answer {
        Ok(_) => STATUS_CREATED,
        Err(e) => e.spec_status_code(),
    }
}

/// The HTTP status of the answer to a redirect request.
pub open spec fn redirect_status_of(step: RedirectStepView) -> u16 {
    match step {
        RedirectStepView::Redirect { .. } => STATUS_PERMANENT_REDIRECT,
        RedirectStepView::Reject(e) => e.spec_status_code(),
    }
}

/// The HTTP status of the answer to a statistics request.
pub open spec fn stats_status_of(answer: Result<UrlStatsView, ApiError>) -> u16 {
    match answer {
        Ok(_) => STATUS_OK,
        Err(e) => e.spec_status_code(),
    }
}

/// Whether `id` has between one and fifty characters.
pub fn check_custom_id(id: &str) -> (ok: bool)
    ensures
        ok == valid_short_id(id@),
{
    let len: usize = id.unicode_len();
    MIN_ID_LEN <= len && len <= MAX_ID_LEN
}

/// Judges a creation request whose URL was found to parse iff `url_ok`.
pub fn validate_request(url_ok: bool, payload: &CreateUrlRequest) -> (verdict: Result<
    Option<String>,
    ApiError,
>)
    ensures
        match request_verdict(url_ok, payload@) {
            Err(e) => verdict == Err::<Option<String>, ApiError>(e),
            Ok(None) => verdict == Ok::<Option<String>, ApiError>(None),
            Ok(Some(id)) => verdict is Ok && verdict->Ok_0 is Some && verdict->Ok_0->Some_0@ == id,
        },
{
    if !url_ok {
        return Err(ApiError::InvalidUrl);
    }
    match &payload.custom_id {
        Some(custom) => {
            if check_custom_id(custom.as_str()) {
                Ok(Some(custom.clone()))
            } else {
                Err(ApiError::InvalidCustomId)
            }
        },
        None => Ok(None),
    }
}

/// Starts a creation: validates the URL, then takes the custom identifier or
/// generates one. A custom identifier is first to be looked up; a generated one
/// is inserted without a lookup.
pub fn create_short_url(payload: &CreateUrlRequest) -> (step: CreateStep)
    ensures
        exists|generated: Seq<char>, now: Timestamp|
            step@ == create_step(url_parses(payload.url@), payload@, generated, now),
        step@ is Insert ==> is_generated_id(step@->Insert_0.short_id) && step@->Insert_0.wf(),
{
    let url_ok = is_valid_url(payload.url.as_str());
    match validate_request(url_ok, payload) {
        Err(e) => {
            proof {
                let g = Seq::<char>::empty();
                let t = Timestamp { secs: 0, nanos: 0 };
                assert(CreateStepView::Reject(e) == create_step(url_ok, payload@, g, t));
            }
            CreateStep::Reject(e)
        },
        Ok(Some(id)) => {
            let step = CreateStep::CheckExisting { id, url: payload.url.clone() };
            proof {
                let g = Seq::<char>::empty();
                let t = Timestamp { secs: 0, nanos: 0 };
                assert(step@ == create_step(url_ok, payload@, g, t));
            }
            step
        },
        Ok(None) => {
            let id = generate_short_id();
            let record = UrlRecord::new(id, payload.url.clone());
            proof {
                assert(CreateStepView::Insert(record@) == create_step(
                    url_ok,
                    payload@,
                    record@.short_id,
                    record@.created_at,
                ));
            }
            CreateStep::Insert(record)
        },
    }
}

/// Continues a creation with a custom identifier once the store has answered
/// the lookup of `id`, at time `now`.
pub fn confirm_custom_id_at(reply: &StoreReply, id: String, url: String, now: Timestamp) -> (verdict:
    Result<UrlRecord, ApiError>)
    ensures
        match lookup_step(reply@, id@, url@, now) {
            Ok(record) => verdict is Ok && verdict->Ok_0@ == record,
            Err(e) => verdict == Err::<UrlRecord, ApiError>(e),
        },
{
    match reply {
        StoreReply::Found(_) => Err(ApiError::CustomIdTaken),
        StoreReply::Failed => Err(ApiError::LookupFailed),
        StoreReply::Missing => Ok(UrlRecord::new_at(id, url, now)),
    }
}

/// Continues a creation with a custom identifier once the store has answered
/// the lookup of `id`: a record there is a conflict, a failure is reported,
/// and otherwise a fresh record is to be inserted.
pub fn confirm_custom_id(reply: &StoreReply, id: String, url: String) -> (verdict: Result<
    UrlRecord,
    ApiError,
>)
    ensures
        exists|now: Timestamp|
            match #[trigger] lookup_step(reply@, id@, url@, now) {
                Ok(record) => verdict is Ok && verdict->Ok_0@ == record,
                Err(e) => verdict == Err::<UrlRecord, ApiError>(e),
            },
{
    let now = current_time();
    let verdict = confirm_custom_id_at(reply, id, url, now);
    assert(match lookup_step(reply@, id@, url@, now) {
        Ok(record) => verdict is Ok && verdict->Ok_0@ == record,
        Err(e) => verdict == Err::<UrlRecord, ApiError>(e),
    });
    verdict
}

/// Ends a creation once the store has answered the insert of `id`.
pub fn finish_creation(reply: StoreReply, id: &str, base_url: &str) -> (answer: Result<
    CreateUrlResponse,
    ApiError,
>)
    ensures
        match insert_step(reply@, id@, base_url@) {
            Ok(response) => answer is Ok && answer->Ok_0@ == response,
            Err(e) => answer == Err::<CreateUrlResponse, ApiError>(e),
        },
{
    match reply {
        StoreReply::Found(record) => Ok(
            CreateUrlResponse {
                short_url: short_url(base_url, id),
                original_url: record.original_url,
                id: record.short_id,
                created_at: record.created_at,
            },
        ),
        _ => Err(ApiError::CreateFailed),
    }
}

/// Decides a redirect at time `now` from the store's answer to the lookup.
pub fn redirect_url_at(reply: StoreReply, now: Timestamp) -> (step: RedirectStep)
    requires
        reply matches StoreReply::Found(record) ==> record.click_count < i64::MAX,
    ensures
        step@ == redirect_step(reply@, now),
{
    match reply {
        StoreReply::Found(record) => {
            let location = record.original_url.clone();
            RedirectStep::Redirect { location, update: record.record_visit(now) }
        },
        StoreReply::Missing => RedirectStep::Reject(ApiError::NotFound),
        StoreReply::Failed => RedirectStep::Reject(ApiError::Internal),
    }
}

/// Decides a redirect from the store's answer to the lookup: a record found is
/// counted as accessed now and its URL is the target.
pub fn redirect_url(reply: StoreReply) -> (step: RedirectStep)
    requires
        reply matches StoreReply::Found(record) ==> record.click_count < i64::MAX,
    ensures
        exists|now: Timestamp| step@ == redirect_step(reply@, now),
{
    let now = current_time();
    let ghost before = reply@;
    let step = redirect_url_at(reply, now);
    assert(step@ == redirect_step(before, now));
    step
}

/// Answers a statistics request from the store's answer to the lookup.
pub fn get_url_stats(reply: StoreReply, base_url: &str) -> (answer: Result<UrlStats, ApiError>)
    ensures
        match stats_step(reply@, base_url@) {
            Ok(stats) => answer is Ok && answer->Ok_0@ == stats,
            Err(e) => answer == Err::<UrlStats, ApiError>(e),
        },
{
    match reply {
        StoreReply::Found(record) => {
            let link = short_url(base_url, record.short_id.as_str());
            Ok(
                UrlStats {
                    id: record.short_id,
                    original_url: record.original_url,
                    short_url: link,
                    click_count: record.click_count,
                    created_at: record.created_at,
                    last_accessed: record.last_accessed,
                },
            )
        },
        StoreReply::Missing => Err(ApiError::NotFound),
        StoreReply::Failed => Err(ApiError::Internal),
    }
}

/// The HTTP status that goes with the answer to a creation: created, or the
/// error's own.
pub fn creation_status(answer: &Result<CreateUrlResponse, ApiError>) -> (code: u16)
    ensures
        answer matches Ok(response) ==> code == creation_status_of(Ok(response@)),
        answer matches Err(e) ==> code == creation_status_of(Err(*e)),
{
    match answer {
        Ok(_) => STATUS_CREATED,
        Err(e) => e.status_code(),
    }
}

/// The HTTP status that goes with a redirect step: a permanent redirect, or
/// the error's own.
pub fn redirect_status(step: &RedirectStep) -> (code: u16)
    ensures
        code == redirect_status_of(step@),
{
    match step {
        RedirectStep::Redirect { .. } => STATUS_PERMANENT_REDIRECT,
        RedirectStep::Reject(e) => e.status_code(),
    }
}

/// The HTTP status that goes with the answer to a statistics request: ok, or
/// the error's own.
pub fn stats_status(answer: &Result<UrlStats, ApiError>) -> (code: u16)
    ensures
        answer matches Ok(stats) ==> code == stats_status_of(Ok(stats@)),
        answer matches Err(e) ==> code == stats_status_of(Err(*e)),
{
    match answer {
        Ok(_) => STATUS_OK,
        Err(e) => e.status_code(),
    }
}

/// A request is only ever refused on its own account with a client error: an
/// invalid URL or a bad custom identifier gives status 400.
pub proof fn lemma_bad_input_is_client_error(url_ok: bool, request: CreateUrlRequestView)
    ensures
        request_verdict(url_ok, request) matches Err(e) ==> e.is_client_error()
            && e.spec_status_code() == 400,
        request_verdict(url_ok, request) is Err <==> !url_ok || (request.custom_id is Some
            && !valid_short_id(request.custom_id->Some_0)),
{
}

/// Every failure of the store is answered with a server error, and so is an
/// insert that returns nothing.
pub proof fn lemma_store_failure_is_server_error(
    id: Seq<char>,
    url: Seq<char>,
    base_url: Seq<char>,
    now: Timestamp,
)
    ensures
        lookup_step(StoreReplyView::Failed, id, url, now) matches Err(e) && e.is_server_error(),
        insert_step(StoreReplyView::Failed, id, base_url) matches Err(e) && e.is_server_error(),
        insert_step(StoreReplyView::Missing, id, base_url) matches Err(e) && e.is_server_error(),
        redirect_step(StoreReplyView::Failed, now) matches RedirectStepView::Reject(e)
            && e.is_server_error(),
        stats_step(StoreReplyView::Failed, base_url) matches Err(e) && e.is_server_error(),
{
}

} // verus!
