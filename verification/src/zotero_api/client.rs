//! Fetching the library page by page: what a page's headers say, and how the
//! pages of one fetch add up to its result.

use crate::text::{
    append_decimal, chars_of, decimal, find_char, first_index_of, lemma_first_index_bounds,
    parse_u64, parse_u64_window, skip_leading, skip_trailing, skip_whitespace,
    skip_whitespace_back, strip_leading, strip_trailing, trim, window_equals,
};
use crate::zotero_api::headers::{IF_MODIFIED_SINCE_VERSION, LAST_MODIFIED_VERSION, LINK};
use crate::zotero_api::http::{
    ascii_bytes, ascii_text, header_first_values, header_map_get, header_map_insert,
    header_map_new, header_value_from_u64, header_value_to_str, is_plain_header_name,
    is_visible_ascii, no_headers, status_code_number, status_number,
};
use crate::zotero_api::types::{
    ApiError, ApiFailure, FetchItemsParams, FetchItemsResponse, FetchedItems,
};
use crate::zotero_api::ExportFormat;
use reqwest::header::HeaderMap;
use reqwest::StatusCode;
use vstd::prelude::*;
use vstd::string::*;

verus! {

/// The number by which the remote service knows a user.
pub type UserId = u64;

/// The relation that marks the link to the next page.
pub const REL_NEXT: &'static str = "rel=\"next\"";

/// The target of one entry of a link header, if the entry is the link to the
/// next page: the entry has exactly two sections, separated by `;`; the
/// second, trimmed, is `rel="next"`; the target is the first, trimmed, without
/// the angle brackets around it.
pub open spec fn link_target(entry: Seq<char>) -> Option<Seq<char>> {
    let i = first_index_of(entry, ';');
    if 0 <= i < entry.len() {
        let rest = entry.skip(i + 1);
        if first_index_of(rest, ';') < rest.len() {
            None
        } else if trim(rest) == REL_NEXT@ {
            Some(strip_trailing(strip_leading(trim(entry.take(i)), '<'), '>'))
        } else {
            None
        }
    } else {
        None
    }
}

/// The link to the next page that a link header holds: the target of the
/// first of its entries, separated by `,`, that is a link to the next page.
pub open spec fn next_page_link(header: Seq<char>) -> Option<Seq<char>>
    decreases header.len(),
{
    let i = first_index_of(header, ',');
    if 0 <= i < header.len() {
        match link_target(header.take(i)) {
            Some(target) => Some(target),
            None => next_page_link(header.skip(i + 1)),
        }
    } else {
        link_target(header)
    }
}

/// The text of an optional text.
pub open spec fn text_view(text: Option<String>) -> Option<Seq<char>> {
    match text {
        Some(t) => Some(t@),
        None => None,
    }
}

/// The text of an optional borrowed text.
pub open spec fn str_view(text: Option<&str>) -> Option<Seq<char>> {
    match text {
        Some(t) => Some(t@),
        None => None,
    }
}

/// Finds the link to the next page in the text of a link header.
pub fn find_next_page_link(header: &str) -> (link: Option<String>)
    ensures
        text_view(link) == next_page_link(header@),
{
    let v = chars_of(header);
    let rel = chars_of(REL_NEXT);
    let n = v.len();
    let mut start: usize = 0;
    assert(v@.subrange(0, n as int) =~= header@);
    loop
        invariant
            start <= n,
            n == v.len(),
            v@ == header@,
            rel@ == REL_NEXT@,
            next_page_link(v@.subrange(start as int, n as int)) == next_page_link(header@),
        decreases n - start,
    {
        let ghost rest_of_header = v@.subrange(start as int, n as int);
        let end = find_char(&v, start, n, ',');
        let ghost entry = v@.subrange(start as int, end as int);
        proof {
            lemma_first_index_bounds(rest_of_header, ',');
            if end < n {
                assert(rest_of_header.take(end - start) =~= entry);
                assert(rest_of_header.skip(end - start + 1) =~= v@.subrange(end + 1, n as int));
            } else {
                assert(rest_of_header =~= entry);
            }
        }
        let semi = find_char(&v, start, end, ';');
        proof {
            lemma_first_index_bounds(entry, ';');
        }
        if semi < end {
            let semi2 = find_char(&v, semi + 1, end, ';');
            let ghost rest = v@.subrange(semi + 1, end as int);
            proof {
                assert(entry.skip(semi - start + 1) =~= rest);
                assert(entry.take(semi - start) =~= v@.subrange(start as int, semi as int));
                lemma_first_index_bounds(rest, ';');
            }
            if semi2 == end {
                let a = skip_whitespace(&v, semi + 1, end);
                let b = skip_whitespace_back(&v, a, end);
                if window_equals(&v, a, b, &rel) {
                    let a0 = skip_whitespace(&v, start, semi);
                    let b0 = skip_whitespace_back(&v, a0, semi);
                    let a1 = skip_leading(&v, a0, b0, '<');
                    let b1 = skip_trailing(&v, a1, b0, '>');
                    let target = header.substring_char(a1, b1);
                    assert(link_target(entry) == Some(target@));
                    return Some(String::from_str(target));
                }
            }
        }
        assert(link_target(entry) is None);
        if end == n {
            return None;
        }
        start = end + 1;
    }
}

/// Whether every byte of `bytes` is visible ASCII.
pub open spec fn all_visible_ascii(bytes: Seq<u8>) -> bool {
    forall|i: int| 0 <= i < bytes.len() ==> is_visible_ascii(#[trigger] bytes[i])
}

/// The text of the header `name`: of the first value stored under that name,
/// where there is one and it is visible ASCII.
pub open spec fn header_text(values: Map<Seq<char>, Seq<u8>>, name: Seq<char>) -> Option<
    Seq<char>,
> {
    if values.contains_key(name) && all_visible_ascii(values[name]) {
        Some(ascii_text(values[name]))
    } else {
        None
    }
}

/// Reads the header `name` as text.
pub(crate) fn read_header<'a>(headers: &'a HeaderMap, name: &str) -> (text: Option<&'a str>)
    requires
        is_plain_header_name(name@),
    ensures
        str_view(text) == header_text(header_first_values(*headers), name@),
{
    match header_map_get(headers, name) {
        Some(value) => header_value_to_str(value),
        None => None,
    }
}

/// The library version that a page's headers report: the number in the
/// version header, or 0 where there is no such header or it holds no number.
pub open spec fn page_version(values: Map<Seq<char>, Seq<u8>>) -> u64 {
    match header_text(values, LAST_MODIFIED_VERSION@) {
        Some(text) => match parse_u64(text) {
            Some(version) => version,
            None => 0,
        },
        None => 0,
    }
}

/// The link to the next page that a page's headers hold, if any.
pub open spec fn page_next_link(values: Map<Seq<char>, Seq<u8>>) -> Option<Seq<char>> {
    match header_text(values, LINK@) {
        Some(text) => next_page_link(text),
        None => None,
    }
}

/// The header names that are read here are plain.
pub proof fn lemma_response_header_names()
    ensures
        is_plain_header_name(LAST_MODIFIED_VERSION@),
        is_plain_header_name(LINK@),
{
    reveal_strlit("last-modified-version");
    reveal_strlit("link");
}

/// Reads the library version from a page's headers.
pub fn get_last_modified_version(headers: &HeaderMap) -> (version: u64)
    ensures
        version == page_version(header_first_values(*headers)),
{
    proof {
        lemma_response_header_names();
    }
    match read_header(headers, LAST_MODIFIED_VERSION) {
        Some(text) => {
            let v = chars_of(text);
            assert(v@.subrange(0, v@.len() as int) =~= v@);
            match parse_u64_window(&v, 0, v.len()) {
                Some(version) => version,
                None => 0,
            }
        },
        None => 0,
    }
}

/// Reads the link to the next page from a page's headers. No such link means
/// that the page is the last.
pub fn try_get_next_page_url(headers: &HeaderMap) -> (url: Option<String>)
    ensures
        text_view(url) == page_next_link(header_first_values(*headers)),
{
    proof {
        lemma_response_header_names();
    }
    match read_header(headers, LINK) {
        Some(text) => find_next_page_link(text),
        None => None,
    }
}

/// What one page of a fetch holds.
pub enum FetchPageResponse {
    /// The library has not changed since the version that was asked about.
    UpToDate,
    /// A page of items, the library version it belongs to, and where the next
    /// page is, if there is one.
    Updated { last_modified_version: u64, text: String, next_page_url: Option<String> },
}

/// A `FetchPageResponse` with its texts as sequences of characters.
pub enum FetchedPage {
    UpToDate,
    Updated { last_modified_version: u64, text: Seq<char>, next_page_url: Option<Seq<char>> },
}

impl View for FetchPageResponse {
    type V = FetchedPage;

    open spec fn view(&self) -> FetchedPage {
        match self {
            FetchPageResponse::UpToDate => FetchedPage::UpToDate,
            FetchPageResponse::Updated {
                last_modified_version,
                text,
                next_page_url,
            } => FetchedPage::Updated {
                last_modified_version: *last_modified_version,
                text: text@,
                next_page_url: text_view(*next_page_url),
            },
        }
    }
}

/// The view of what fetching one page returns, success or failure.
pub open spec fn page_result_view(result: Result<FetchPageResponse, ApiError>) -> Result<
    FetchedPage,
    ApiFailure,
> {
    match result {
        Ok(page) => Ok(page@),
        Err(error) => Err(error@),
    }
}

/// The status that carries content.
pub const STATUS_OK: u16 = 200;

/// The status that says that nothing has changed.
pub const STATUS_NOT_MODIFIED: u16 = 304;

/// What the status and headers of a page response say, before its body is
/// read.
pub enum PageHead {
    /// Nothing has changed; there is no body to read.
    NotModified,
    /// The body holds items.
    Content { last_modified_version: u64, next_page_url: Option<String> },
    /// The service refused; the body may say why.
    Rejected { status: StatusCode },
}

/// A `PageHead` with its status as a number and its text as a sequence of
/// characters.
pub enum PageHeadView {
    NotModified,
    Content { last_modified_version: u64, next_page_url: Option<Seq<char>> },
    Rejected { status: u16 },
}

impl View for PageHead {
    type V = PageHeadView;

    open spec fn view(&self) -> PageHeadView {
        match self {
            PageHead::NotModified => PageHeadView::NotModified,
            PageHead::Content { last_modified_version, next_page_url } => PageHeadView::Content {
                last_modified_version: *last_modified_version,
                next_page_url: text_view(*next_page_url),
            },
            PageHead::Rejected { status } => PageHeadView::Rejected {
                status: status_code_number(*status),
            },
        }
    }
}

/// What a response with status number `status` and header contents `values`
/// says: 200 carries content, with the version and the next link that the
/// headers hold; 304 means not modified; every other status is a refusal.
pub open spec fn page_head(status: u16, values: Map<Seq<char>, Seq<u8>>) -> PageHeadView {
    if status == STATUS_OK {
        PageHeadView::Content {
            last_modified_version: page_version(values),
            next_page_url: page_next_link(values),
        }
    } else if status == STATUS_NOT_MODIFIED {
        PageHeadView::NotModified
    } else {
        PageHeadView::Rejected { status }
    }
}

/// The text of a body that may not have been read, or whose reading failed:
/// such a body counts as empty.
pub open spec fn body_or_empty(body: Option<Result<String, reqwest::Error>>) -> Seq<char> {
    match body {
        Some(Ok(text)) => text@,
        _ => Seq::empty(),
    }
}

/// The page that a head and a body make. "Not modified" needs no body.
/// Content needs its body read: a failure to read it is a transport error.
/// A refusal becomes the error that carries the status and the body.
pub open spec fn completed_page(
    head: PageHeadView,
    body: Option<Result<String, reqwest::Error>>,
) -> Result<FetchedPage, ApiFailure> {
    match head {
        PageHeadView::NotModified => Ok(FetchedPage::UpToDate),
        PageHeadView::Content { last_modified_version, next_page_url } => match body {
            Some(Err(error)) => Err(ApiFailure::HttpError(error)),
            _ => Ok(
                FetchedPage::Updated {
                    last_modified_version,
                    text: body_or_empty(body),
                    next_page_url,
                },
            ),
        },
        PageHeadView::Rejected { status } => Err(
            ApiFailure::UnexpectedStatus { status, body: body_or_empty(body) },
        ),
    }
}

/// Reads the status and the headers of a page response.
pub fn parse_zotero_page_response(status: StatusCode, headers: &HeaderMap) -> (head: PageHead)
    ensures
        head@ == page_head(status_code_number(status), header_first_values(*headers)),
{
    let number = status_number(&status);
    if number == STATUS_OK {
        let last_modified_version = get_last_modified_version(headers);
        let next_page_url = try_get_next_page_url(headers);
        PageHead::Content { last_modified_version, next_page_url }
    } else if number == STATUS_NOT_MODIFIED {
        PageHead::NotModified
    } else {
        PageHead::Rejected { status }
    }
}

impl PageHead {
    /// Whether the body of the response is to be read: always, except where
    /// nothing has changed.
    pub fn reads_body(&self) -> (wanted: bool)
        ensures
            wanted == !(self is NotModified),
    {
        match self {
            PageHead::NotModified => false,
            _ => true,
        }
    }

    /// Puts the head and the body together. `None` stands for a body that was
    /// not read.
    pub fn complete(self, body: Option<Result<String, reqwest::Error>>) -> (page: Result<
        FetchPageResponse,
        ApiError,
    >)
        ensures
            page_result_view(page) == completed_page(self@, body),
    {
        match self {
            PageHead::NotModified => Ok(FetchPageResponse::UpToDate),
            PageHead::Content { last_modified_version, next_page_url } => match body {
                Some(Err(error)) => Err(ApiError::HttpError(error)),
                Some(Ok(text)) => Ok(
                    FetchPageResponse::Updated { last_modified_version, text, next_page_url },
                ),
                None => Ok(
                    FetchPageResponse::Updated {
                        last_modified_version,
                        text: String::new(),
                        next_page_url,
                    },
                ),
            },
            PageHead::Rejected { status } => {
                let body = match body {
                    Some(Ok(text)) => text,
                    _ => String::new(),
                };
                Err(ApiError::UnexpectedStatus { status, body })
            },
        }
    }
}

/// The number of items that one page is asked to hold.
pub const PAGE_LIMIT: u64 = 25;

/// The address of the first page of a user's items in the given format.
pub open spec fn items_url(user_url: Seq<char>, format: ExportFormat) -> Seq<char> {
    user_url + "/items?format="@ + format.name() + "&limit="@ + decimal(PAGE_LIMIT as nat)
}

/// The address of the first page of a user's items in the given format.
pub fn first_page_url(user_url: &str, format: &ExportFormat) -> (url: String)
    ensures
        url@ == items_url(user_url@, *format),
{
    let url = String::from_str(user_url);
    let url = url.concat("/items?format=");
    let url = url.concat(format.as_str());
    let url = url.concat("&limit=");
    append_decimal(url, PAGE_LIMIT)
}

/// The headers that make a request conditional: the version that the caller
/// holds, if it holds one.
pub open spec fn conditional_values(since: Option<u64>) -> Map<Seq<char>, Seq<u8>> {
    match since {
        Some(version) => no_headers().insert(
            IF_MODIFIED_SINCE_VERSION@,
            ascii_bytes(decimal(version as nat)),
        ),
        None => no_headers(),
    }
}

/// Builds the headers that make a request conditional.
pub fn conditional_headers(params: &FetchItemsParams) -> (headers: HeaderMap)
    ensures
        header_first_values(headers) == conditional_values(params.last_modified_version),
{
    let mut headers = header_map_new();
    if let Some(version) = params.last_modified_version {
        proof {
            reveal_strlit("if-modified-since-version");
            assert(no_headers().dom() =~= Set::<Seq<char>>::empty());
        }
        header_map_insert(&mut headers, IF_MODIFIED_SINCE_VERSION, header_value_from_u64(version));
    }
    headers
}

/// How far a fetch has come: what it would return if it ended now, and where
/// the next page is to be asked for. A fetch with no next page is complete.
pub struct ItemsFetch {
    pub result: Result<FetchItemsResponse, ApiError>,
    pub next_url: Option<String>,
}

/// An `ItemsFetch` with its texts as sequences of characters.
pub struct ItemsFetchView {
    pub result: Result<FetchedItems, ApiFailure>,
    pub next_url: Option<Seq<char>>,
}

impl View for ItemsFetch {
    type V = ItemsFetchView;

    open spec fn view(&self) -> ItemsFetchView {
        ItemsFetchView {
            result: crate::zotero_api::types::fetch_result_view(self.result),
            next_url: text_view(self.next_url),
        }
    }
}

/// The text that a fetch has gathered so far.
pub open spec fn gathered_text(state: ItemsFetchView) -> Seq<char> {
    match state.result {
        Ok(FetchedItems::Updated { text, .. }) => text,
        _ => Seq::empty(),
    }
}

/// A fetch before its first page.
pub open spec fn fetch_begun(user_url: Seq<char>, format: ExportFormat) -> ItemsFetchView {
    ItemsFetchView { result: Ok(FetchedItems::UpToDate), next_url: Some(items_url(user_url, format)) }
}

/// A fetch after one more page. A page of items adds its text to what was
/// gathered, sets the version to the one it reports, and says where to go on.
/// "Not modified" and a failure end the fetch and replace what was gathered.
pub open spec fn page_recorded(
    state: ItemsFetchView,
    page: Result<FetchedPage, ApiFailure>,
) -> ItemsFetchView {
    match page {
        Ok(FetchedPage::Updated { last_modified_version, text, next_page_url }) => ItemsFetchView {
            result: Ok(
                FetchedItems::Updated {
                    last_modified_version,
                    text: gathered_text(state) + text,
                },
            ),
            next_url: next_page_url,
        },
        Ok(FetchedPage::UpToDate) => ItemsFetchView {
            result: Ok(FetchedItems::UpToDate),
            next_url: None,
        },
        Err(error) => ItemsFetchView { result: Err(error), next_url: None },
    }
}

impl ItemsFetch {
    /// Begins a fetch of the items under `user_url`.
    pub fn begin(user_url: &str, params: &FetchItemsParams) -> (fetch: ItemsFetch)
        ensures
            fetch@ == fetch_begun(user_url@, params.format),
    {
        ItemsFetch {
            result: Ok(FetchItemsResponse::UpToDate),
            next_url: Some(first_page_url(user_url, &params.format)),
        }
    }

    /// Where the next page is to be asked for; nothing once the fetch is
    /// complete.
    pub fn next_request(&self) -> (url: Option<&str>)
        ensures
            str_view(url) == self@.next_url,
    {
        match &self.next_url {
            Some(url) => Some(url.as_str()),
            None => None,
        }
    }

    /// Takes in the outcome of asking for the next page.
    pub fn record_page(self, page: Result<FetchPageResponse, ApiError>) -> (fetch: ItemsFetch)
        ensures
            fetch@ == page_recorded(self@, page_result_view(page)),
    {
        match page {
            Ok(FetchPageResponse::Updated { last_modified_version, text, next_page_url }) => {
                let gathered = match self.result {
                    Ok(FetchItemsResponse::Updated { text: existing, .. }) => existing.concat(
                        text.as_str(),
                    ),
                    _ => {
                        assert(gathered_text(self@) + text@ =~= text@);
                        text
                    },
                };
                ItemsFetch {
                    result: Ok(
                        FetchItemsResponse::Updated { last_modified_version, text: gathered },
                    ),
                    next_url: next_page_url,
                }
            },
            Ok(FetchPageResponse::UpToDate) => ItemsFetch {
                result: Ok(FetchItemsResponse::UpToDate),
                next_url: None,
            },
            Err(error) => ItemsFetch { result: Err(error), next_url: None },
        }
    }

    /// Ends the fetch because it was cancelled: whatever was gathered is
    /// dropped, and the outcome is the cancellation.
    pub fn cancel(self) -> (outcome: Result<FetchItemsResponse, ApiError>)
        ensures
            outcome matches Err(error) && error is Cancelled,
    {
        Err(ApiError::Cancelled)
    }

    /// The outcome of the fetch. It is the outcome of the whole fetch once no
    /// next page is left.
    pub fn finish(self) -> (outcome: Result<FetchItemsResponse, ApiError>)
        ensures
            crate::zotero_api::types::fetch_result_view(outcome) == self@.result,
    {
        self.result
    }
}

/// The outcome of a fetch whose pages answer as `pages` say, in order, and
/// the number of pages that it asks for. The fetch asks for a page as long
/// as it knows where the next one is and there is an answer left.
pub open spec fn fetch_run(
    state: ItemsFetchView,
    pages: Seq<Result<FetchedPage, ApiFailure>>,
) -> (ItemsFetchView, nat)
    decreases pages.len(),
{
    if state.next_url is None || pages.len() == 0 {
        (state, 0)
    } else {
        let rest = fetch_run(page_recorded(state, pages[0]), pages.skip(1));
        (rest.0, rest.1 + 1)
    }
}

/// Whether `pages` are pages of items of which each but the last says where
/// the next one is.
pub open spec fn is_page_chain(pages: Seq<Result<FetchedPage, ApiFailure>>) -> bool {
    &&& pages.len() > 0
    &&& forall|i: int|
        0 <= i < pages.len() ==> {
            &&& #[trigger] pages[i] matches Ok(FetchedPage::Updated { next_page_url, .. })
            &&& next_page_url is Some <==> i < pages.len() - 1
        }
}

/// The text of a page of items; empty for any other answer.
pub open spec fn page_text(page: Result<FetchedPage, ApiFailure>) -> Seq<char> {
    match page {
        Ok(FetchedPage::Updated { text, .. }) => text,
        _ => Seq::empty(),
    }
}

/// The version that a page of items reports; 0 for any other answer.
pub open spec fn page_reported_version(page: Result<FetchedPage, ApiFailure>) -> u64 {
    match page {
        Ok(FetchedPage::Updated { last_modified_version, .. }) => last_modified_version,
        _ => 0,
    }
}

/// The texts of `pages`, one after the other.
pub open spec fn joined_text(pages: Seq<Result<FetchedPage, ApiFailure>>) -> Seq<char>
    decreases pages.len(),
{
    if pages.len() == 0 {
        Seq::empty()
    } else {
        page_text(pages[0]) + joined_text(pages.skip(1))
    }
}

/// Pagination, from any state that has a next page to ask for: a chain of
/// pages is asked for to its end, the texts are added to what was gathered in
/// page order, and the version is the one that the last page reports.
pub proof fn lemma_page_chain_from(
    state: ItemsFetchView,
    pages: Seq<Result<FetchedPage, ApiFailure>>,
)
    requires
        state.next_url is Some,
        is_page_chain(pages),
    ensures
        fetch_run(state, pages).0 == (ItemsFetchView {
            result: Ok(
                FetchedItems::Updated {
                    last_modified_version: page_reported_version(pages.last()),
                    text: gathered_text(state) + joined_text(pages),
                },
            ),
            next_url: None,
        }),
        fetch_run(state, pages).1 == pages.len(),
    decreases pages.len(),
{
    let first = pages[0];
    let rest = pages.skip(1);
    let next = page_recorded(state, first);
    assert(gathered_text(next) == gathered_text(state) + page_text(first));
    if pages.len() == 1 {
        assert(next.next_url is None);
        assert(joined_text(rest) =~= Seq::<char>::empty());
        assert(gathered_text(state) + joined_text(pages) =~= gathered_text(next));
        assert(fetch_run(next, rest) == (next, 0nat));
    } else {
        assert forall|i: int| 0 <= i < rest.len() implies {
            &&& #[trigger] rest[i] matches Ok(FetchedPage::Updated { next_page_url, .. })
            &&& next_page_url is Some <==> i < rest.len() - 1
        } by {
            assert(rest[i] == pages[i + 1]);
        }
        lemma_page_chain_from(next, rest);
        assert(rest.last() == pages.last());
        assert(gathered_text(state) + joined_text(pages) =~= gathered_text(next) + joined_text(
            rest,
        ));
    }
}

/// Pagination: a fetch whose pages form a chain returns the pages' texts in
/// page order and the version that the last page reports, and asks for each
/// page once.
pub proof fn lemma_pagination(
    user_url: Seq<char>,
    format: ExportFormat,
    pages: Seq<Result<FetchedPage, ApiFailure>>,
)
    requires
        is_page_chain(pages),
    ensures
        fetch_outcome(fetch_begun(user_url, format), pages) == Ok::<FetchedItems, ApiFailure>(
            FetchedItems::Updated {
                last_modified_version: page_reported_version(pages.last()),
                text: joined_text(pages),
            },
        ),
        fetch_run(fetch_begun(user_url, format), pages).1 == pages.len(),
{
    lemma_page_chain_from(fetch_begun(user_url, format), pages);
    assert(gathered_text(fetch_begun(user_url, format)) + joined_text(pages) =~= joined_text(
        pages,
    ));
}

/// Not-modified short circuit: where the first answer is "not modified", the
/// fetch returns `UpToDate` and asks for no further page, whatever answers
/// would follow.
pub proof fn lemma_not_modified_short_circuit(
    user_url: Seq<char>,
    format: ExportFormat,
    pages: Seq<Result<FetchedPage, ApiFailure>>,
)
    requires
        pages.len() > 0,
        pages[0] == Ok::<FetchedPage, ApiFailure>(FetchedPage::UpToDate),
    ensures
        fetch_outcome(fetch_begun(user_url, format), pages) == Ok::<FetchedItems, ApiFailure>(
            FetchedItems::UpToDate,
        ),
        fetch_run(fetch_begun(user_url, format), pages).1 == 1,
{
    let next = page_recorded(fetch_begun(user_url, format), pages[0]);
    assert(fetch_run(next, pages.skip(1)) == (next, 0nat));
}

/// A failed page ends the fetch with that failure: no text that was gathered
/// before it is returned.
pub proof fn lemma_failure_ends_fetch(state: ItemsFetchView, error: ApiFailure)
    ensures
        page_recorded(state, Err(error)).result == Err::<FetchedItems, ApiFailure>(error),
        page_recorded(state, Err(error)).next_url is None,
{
}

/// The views of a list of page answers.
pub open spec fn page_views(pages: Seq<Result<FetchPageResponse, ApiError>>) -> Seq<
    Result<FetchedPage, ApiFailure>,
> {
    pages.map_values(|page: Result<FetchPageResponse, ApiError>| page_result_view(page))
}

/// What a fetch returns whose pages answer as `pages` say: the outcome of the
/// run where the run came to its end, and a cancellation where the answers
/// ran out while a page was still to be asked for. Either way no part of an
/// unfinished fetch is returned.
pub open spec fn fetch_outcome(
    state: ItemsFetchView,
    pages: Seq<Result<FetchedPage, ApiFailure>>,
) -> Result<FetchedItems, ApiFailure> {
    let end = fetch_run(state, pages).0;
    if end.next_url is None {
        end.result
    } else {
        Err(ApiFailure::Cancelled)
    }
}

/// Fetches against recorded answers instead of a remote service: the pages
/// are answered from `pages`, in order. Returns the outcome and the number of
/// pages that were asked for. Answers that run out while a page is still to
/// be asked for count as a cancellation at that point.
pub fn fetch_items_from(
    user_url: &str,
    params: &FetchItemsParams,
    pages: Vec<Result<FetchPageResponse, ApiError>>,
) -> (fetched: (Result<FetchItemsResponse, ApiError>, usize))
    ensures
        crate::zotero_api::types::fetch_result_view(fetched.0) == fetch_outcome(
            fetch_begun(user_url@, params.format),
            page_views(pages@),
        ),
        fetched.1 == fetch_run(fetch_begun(user_url@, params.format), page_views(pages@)).1,
{
    let ghost begun = fetch_begun(user_url@, params.format);
    let ghost all = page_views(pages@);
    let mut fetch = ItemsFetch::begin(user_url, params);
    let mut pages = pages;
    let mut asked: usize = 0;
    while fetch.next_url.is_some() && pages.len() > 0
        invariant
            asked + pages.len() <= usize::MAX,
            fetch_run(fetch@, page_views(pages@)).0 == fetch_run(begun, all).0,
            fetch_run(fetch@, page_views(pages@)).1 + asked == fetch_run(begun, all).1,
        decreases pages.len(),
    {
        let ghost before = pages@;
        let page = pages.remove(0);
        proof {
            assert(page_views(before)[0] == page_result_view(page));
            assert(page_views(before).skip(1) =~= page_views(pages@));
        }
        fetch = fetch.record_page(page);
        asked += 1;
    }
    if fetch.next_url.is_some() {
        (fetch.cancel(), asked)
    } else {
        (fetch.finish(), asked)
    }
}

/// No partial result: whatever the pages answer, a fetch returns items only
/// where its last page said that no page follows; the text is then the text
/// of all pages that were asked for.
pub proof fn lemma_no_partial_result(
    state: ItemsFetchView,
    pages: Seq<Result<FetchedPage, ApiFailure>>,
)
    ensures
        fetch_outcome(state, pages) is Ok ==> fetch_run(state, pages).0.next_url is None,
        fetch_run(state, pages).0.next_url is Some ==> fetch_outcome(state, pages) == Err::<
            FetchedItems,
            ApiFailure,
        >(ApiFailure::Cancelled),
{
}

} // verus!
