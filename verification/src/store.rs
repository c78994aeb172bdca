use vstd::prelude::*;
use crate::handlers::{
    create_step, creation_status_of, insert_step, lookup_step, redirect_step, stats_step, ApiError,
    CreateStepView, RedirectStepView, StoreReplyView,
};
use crate::models::{
    fresh_record, short_url_of, valid_short_id, CreateUrlRequestView, CreateUrlResponseView,
    Timestamp, UrlRecordView, UrlStatsView,
};
use crate::utils::{is_generated_id, url_parses};

verus! {

/// The record store as a mathematical map from identifier to record.
pub type StoreModel = Map<Seq<char>, UrlRecordView>;

/// Every record is well formed and stored under its own identifier.
pub open spec fn store_wf(store: StoreModel) -> bool {
    forall|id: Seq<char>| #[trigger]
        store.dom().contains(id) ==> store[id].short_id == id && store[id].wf()
}

/// A working store's answer to a point lookup.
pub open spec fn select(store: StoreModel, id: Seq<char>) -> StoreReplyView {
    if store.dom().contains(id) {
        StoreReplyView::Found(store[id])
    } else {
        StoreReplyView::Missing
    }
}

/// A working store's answer to a point insert: the record, or a failure where
/// the key is taken.
pub open spec fn insert_reply(store: StoreModel, record: UrlRecordView) -> StoreReplyView {
    if store.dom().contains(record.short_id) {
        StoreReplyView::Failed
    } else {
        StoreReplyView::Found(record)
    }
}

/// The store after a point insert: unchanged where the key is taken.
pub open spec fn after_insert(store: StoreModel, record: UrlRecordView) -> StoreModel {
    if store.dom().contains(record.short_id) {
        store
    } else {
        store.insert(record.short_id, record)
    }
}

/// A whole creation against a working store: the store afterwards and the
/// answer to the client.
pub open spec fn create_run(
    store: StoreModel,
    request: CreateUrlRequestView,
    generated: Seq<char>,
    now: Timestamp,
    base_url: Seq<char>,
) -> (StoreModel, Result<CreateUrlResponseView, ApiError>) {
    let to_insert = match create_step(url_parses(request.url), request, generated, now) {
        CreateStepView::Reject(e) => Err(e),
        CreateStepView::CheckExisting { id, url } => lookup_step(select(store, id), id, url, now),
        CreateStepView::Insert(record) => Ok(record),
    };
    match to_insert {
        Err(e) => (store, Err(e)),
        Ok(record) => (
            after_insert(store, record),
            insert_step(insert_reply(store, record), record.short_id, base_url),
        ),
    }
}

/// A whole redirect against a working store: the store afterwards and the
/// target, or the error.
pub open spec fn redirect_run(store: StoreModel, id: Seq<char>, now: Timestamp) -> (
    StoreModel,
    Result<Seq<char>, ApiError>,
) {
    match redirect_step(select(store, id), now) {
        RedirectStepView::Redirect { location, update } => (store.insert(id, update), Ok(location)),
        RedirectStepView::Reject(e) => (store, Err(e)),
    }
}

/// The store after one redirect of `id` at each of `times`, in order.
pub open spec fn redirect_many(store: StoreModel, id: Seq<char>, times: Seq<Timestamp>)
    -> StoreModel
    decreases times.len(),
{
    if times.len() == 0 {
        store
    } else {
        redirect_run(redirect_many(store, id, times.drop_last()), id, times.last()).0
    }
}

/// A whole statistics request against a working store. It stores nothing.
pub open spec fn stats_run(store: StoreModel, id: Seq<char>, base_url: Seq<char>) -> Result<
    UrlStatsView,
    ApiError,
> {
    stats_step(select(store, id), base_url)
}

/// A creation without a custom identifier answers with an identifier of
/// eight characters whenever it succeeds, and it succeeds exactly when the
/// URL parses and the generated identifier is not in use.
pub proof fn lemma_create_generated(
    store: StoreModel,
    request: CreateUrlRequestView,
    generated: Seq<char>,
    now: Timestamp,
    base_url: Seq<char>,
)
    requires
        request.custom_id is None,
        is_generated_id(generated),
    ensures
        ({
            let (after, answer) = create_run(store, request, generated, now, base_url);
            &&& answer is Ok <==> url_parses(request.url) && !store.dom().contains(generated)
            &&& answer is Ok ==> {
                &&& creation_status_of(answer) == 201
                &&& answer->Ok_0.id == generated
                &&& answer->Ok_0.id.len() == 8
                &&& answer->Ok_0.original_url == request.url
                &&& answer->Ok_0.short_url == short_url_of(base_url, generated)
                &&& select(after, generated) == StoreReplyView::Found(
                    fresh_record(generated, request.url, now),
                )
            }
            &&& answer is Err ==> after == store
        }),
{
}

/// Creating with a custom identifier of one to fifty characters that is not
/// in use, for a URL that parses, succeeds; a lookup afterwards finds a record
/// with that identifier and no clicks, and every other key is as before.
pub proof fn lemma_create_custom_id(
    store: StoreModel,
    request: CreateUrlRequestView,
    generated: Seq<char>,
    now: Timestamp,
    base_url: Seq<char>,
)
    requires
        url_parses(request.url),
        request.custom_id is Some,
        valid_short_id(request.custom_id->Some_0),
        !store.dom().contains(request.custom_id->Some_0),
    ensures
        ({
            let id = request.custom_id->Some_0;
            let (after, answer) = create_run(store, request, generated, now, base_url);
            &&& answer is Ok
            &&& creation_status_of(answer) == 201
            &&& answer->Ok_0.id == id
            &&& answer->Ok_0.original_url == request.url
            &&& answer->Ok_0.short_url == short_url_of(base_url, id)
            &&& answer->Ok_0.created_at == now
            &&& select(after, id) is Found
            &&& select(after, id)->Found_0 == fresh_record(id, request.url, now)
            &&& select(after, id)->Found_0.short_id == id
            &&& select(after, id)->Found_0.click_count == 0
            &&& select(after, id)->Found_0.wf()
            &&& forall|other: Seq<char>| other != id ==> select(after, other) == select(store, other)
        }),
{
}

/// Creating with a custom identifier that is empty or longer than fifty
/// characters is refused with a client error, and the store is unchanged.
pub proof fn lemma_create_bad_custom_id(
    store: StoreModel,
    request: CreateUrlRequestView,
    generated: Seq<char>,
    now: Timestamp,
    base_url: Seq<char>,
)
    requires
        request.custom_id is Some,
        request.custom_id->Some_0.len() == 0 || request.custom_id->Some_0.len() > 50,
    ensures
        ({
            let (after, answer) = create_run(store, request, generated, now, base_url);
            &&& answer is Err
            &&& answer->Err_0.is_client_error()
            &&& answer->Err_0.spec_status_code() == 400
            &&& url_parses(request.url) ==> answer->Err_0 == ApiError::InvalidCustomId
            &&& after == store
        }),
{
}

/// Creating with a custom identifier that is in use, for a URL that parses, is
/// refused as a conflict, and the store is unchanged.
pub proof fn lemma_create_conflict(
    store: StoreModel,
    request: CreateUrlRequestView,
    generated: Seq<char>,
    now: Timestamp,
    base_url: Seq<char>,
)
    requires
        url_parses(request.url),
        request.custom_id is Some,
        store.dom().contains(request.custom_id->Some_0),
        valid_short_id(request.custom_id->Some_0),
    ensures
        ({
            let (after, answer) = create_run(store, request, generated, now, base_url);
            &&& answer == Err::<CreateUrlResponseView, ApiError>(ApiError::CustomIdTaken)
            &&& answer->Err_0.spec_status_code() == 409
            &&& after == store
        }),
{
}

/// No creation, whatever its request, removes or alters a record that is
/// already stored; and a well-formed store stays well formed, given that the
/// generator kept to the shape of its identifiers.
pub proof fn lemma_create_keeps_records(
    store: StoreModel,
    request: CreateUrlRequestView,
    generated: Seq<char>,
    now: Timestamp,
    base_url: Seq<char>,
)
    ensures
        ({
            let (after, answer) = create_run(store, request, generated, now, base_url);
            &&& forall|id: Seq<char>| #[trigger]
                store.dom().contains(id) ==> after.dom().contains(id) && after[id] == store[id]
            &&& store_wf(store) && is_generated_id(generated) ==> store_wf(after)
        }),
{
}

/// One redirect of a stored identifier answers with the record's URL and
/// changes that record alone: one more click, last accessed now, the
/// identifier, URL and creation time as before.
pub proof fn lemma_redirect_once(store: StoreModel, id: Seq<char>, now: Timestamp)
    requires
        store.dom().contains(id),
    ensures
        ({
            let (after, answer) = redirect_run(store, id, now);
            &&& answer == Ok::<Seq<char>, ApiError>(store[id].original_url)
            &&& after.dom() == store.dom()
            &&& after[id].click_count == store[id].click_count + 1
            &&& after[id].last_accessed == Some(now)
            &&& after[id].short_id == store[id].short_id
            &&& after[id].original_url == store[id].original_url
            &&& after[id].created_at == store[id].created_at
            &&& forall|other: Seq<char>| other != id ==> select(after, other) == select(store, other)
            &&& store_wf(store) ==> store_wf(after)
        }),
{
    let (after, answer) = redirect_run(store, id, now);
    assert(after.dom() =~= store.dom());
}

/// Redirecting a stored identifier once at each of `times` raises its click
/// count by exactly the number of redirects, leaves its URL and creation time
/// as they were, and, after at least one redirect, leaves the time of the last
/// one as its last access.
pub proof fn lemma_redirects_count(store: StoreModel, id: Seq<char>, times: Seq<Timestamp>)
    requires
        store.dom().contains(id),
    ensures
        ({
            let after = redirect_many(store, id, times);
            &&& after.dom() == store.dom()
            &&& after[id].click_count == store[id].click_count + times.len()
            &&& after[id].short_id == store[id].short_id
            &&& after[id].original_url == store[id].original_url
            &&& after[id].created_at == store[id].created_at
            &&& times.len() == 0 ==> after[id].last_accessed == store[id].last_accessed
            &&& times.len() >= 1 ==> after[id].last_accessed == Some(times.last())
            &&& forall|other: Seq<char>| other != id ==> select(after, other) == select(store, other)
        }),
    decreases times.len(),
{
    if times.len() > 0 {
        let before = redirect_many(store, id, times.drop_last());
        lemma_redirects_count(store, id, times.drop_last());
        lemma_redirect_once(before, id, times.last());
    }
}

/// A redirect or a statistics request for an identifier that is not stored is
/// answered as not found, and the store is unchanged: no record appears.
pub proof fn lemma_unknown_id(
    store: StoreModel,
    id: Seq<char>,
    now: Timestamp,
    base_url: Seq<char>,
)
    requires
        !store.dom().contains(id),
    ensures
        redirect_run(store, id, now) == (store, Err::<Seq<char>, ApiError>(ApiError::NotFound)),
        stats_run(store, id, base_url) == Err::<UrlStatsView, ApiError>(ApiError::NotFound),
        ApiError::NotFound.spec_status_code() == 404,
        ApiError::NotFound.is_client_error(),
{
}

/// Statistics of a stored identifier report the record as it is stored.
pub proof fn lemma_stats_of_stored(store: StoreModel, id: Seq<char>, base_url: Seq<char>)
    requires
        store.dom().contains(id),
        store_wf(store),
    ensures
        stats_run(store, id, base_url) matches Ok(stats) && {
            &&& stats.id == id
            &&& stats.original_url == store[id].original_url
            &&& stats.short_url == short_url_of(base_url, id)
            &&& stats.click_count == store[id].click_count
            &&& stats.created_at == store[id].created_at
            &&& stats.last_accessed == store[id].last_accessed
        },
{
}

} // verus!
