//! The paginated fetch: which page to ask for, what to make of each reply, and
//! when to stop.
//!
//! The engine does no I/O. It says which URL to request, takes what came
//! back as a [`PageReply`], and answers with the state that the fetch is in
//! afterwards. A caller with a transport drives it reply by reply with
//! [`Fetch::step`]; [`Fetch::run`] drives it over replies that are already
//! at hand.

pub mod laws;
pub mod response;

use vstd::prelude::*;
use vstd::string::*;

use crate::error::Error;
use crate::text::{decimal, decimal_string};
use response::{extraction, ExtractFromResponse, ResponseBody};

verus! {

/// The number of rows that the hub is asked for per page, unless the caller
/// chooses another.
pub const PAGE_SIZE: usize = 1000;

/// The page that a fetch is at: its index, counted from 1, and the number of
/// rows per page.
#[derive(Debug, Clone, Copy, PartialEq, Eq, Structural)]
pub struct PageCursor {
    pub page_index: usize,
    pub page_size: usize,
}

impl PageCursor {
    /// Pages are counted from 1 and hold at least one row.
    pub open spec fn wf(&self) -> bool {
        self.page_index >= 1 && self.page_size >= 1
    }

    /// Whether a result of `total_count` rows goes on beyond this page.
    pub open spec fn rows_remain(&self, total_count: usize) -> bool {
        total_count > self.page_index * self.page_size
    }

    /// The cursor of the page after this one.
    pub open spec fn following(&self) -> PageCursor {
        PageCursor { page_index: (self.page_index + 1) as usize, page_size: self.page_size }
    }

    /// The cursor of the first page.
    pub fn first(page_size: usize) -> (cursor: PageCursor)
        requires
            page_size > 0,
        ensures
            cursor == (PageCursor { page_index: 1, page_size }),
    {
        PageCursor { page_index: 1, page_size }
    }

    /// Whether a result of `total_count` rows goes on beyond this page.
    pub fn has_more(&self, total_count: usize) -> (more: bool)
        ensures
            more == self.rows_remain(total_count),
    {
        match self.page_index.checked_mul(self.page_size) {
            Some(reached) => total_count > reached,
            None => false,
        }
    }

    /// The cursor of the page after this one.
    pub fn next(&self) -> (cursor: PageCursor)
        requires
            self.page_index < usize::MAX,
        ensures
            cursor == self.following(),
    {
        PageCursor { page_index: self.page_index + 1, page_size: self.page_size }
    }
}

/// The query of a page request: the key, the output format, the page index,
/// the page size, and the resource's own parameters.
pub open spec fn page_query_text(
    api_key: Seq<char>,
    cursor: PageCursor,
    base_query: Seq<char>,
) -> Seq<char> {
    "KEY="@ + api_key + "&Type=json&pIndex="@ + decimal(cursor.page_index as nat) + "&pSize="@
        + decimal(cursor.page_size as nat) + "&"@ + base_query
}

/// The URL of a page request.
pub open spec fn page_url_text(
    resource: Seq<char>,
    api_key: Seq<char>,
    cursor: PageCursor,
    base_query: Seq<char>,
) -> Seq<char> {
    "https://open.neis.go.kr/hub/"@ + resource + "?"@ + page_query_text(
        api_key,
        cursor,
        base_query,
    )
}

/// The query of the request for the page at `cursor`.
pub fn page_query(api_key: &str, cursor: PageCursor, base_query: &str) -> (query: String)
    ensures
        query@ == page_query_text(api_key@, cursor, base_query@),
{
    let mut query = "KEY=".to_owned();
    query.append(api_key);
    query.append("&Type=json&pIndex=");
    query.append(decimal_string(cursor.page_index as u64).as_str());
    query.append("&pSize=");
    query.append(decimal_string(cursor.page_size as u64).as_str());
    query.append("&");
    query.append(base_query);
    query
}

/// The URL of the request for the page at `cursor` of the resource with the
/// path `resource`.
pub fn page_url(resource: &str, api_key: &str, cursor: PageCursor, base_query: &str) -> (url:
    String)
    ensures
        url@ == page_url_text(resource@, api_key@, cursor, base_query@),
{
    let mut url = "https://open.neis.go.kr/hub/".to_owned();
    url.append(resource);
    url.append("?");
    url.append(page_query(api_key, cursor, base_query).as_str());
    url
}

/// Whether an HTTP status is a success status: 200 to 299.
pub open spec fn success_status(status: u16) -> bool {
    200 <= status <= 299
}

/// Whether an HTTP status is a success status.
pub fn status_is_success(status: u16) -> (success: bool)
    ensures
        success == success_status(status),
{
    200 <= status && status <= 299
}

/// What came back for one page request.
#[derive(Debug, PartialEq, Eq)]
pub enum PageReply {
    /// The request could not be carried out. Holds the transport's account of
    /// it.
    Unanswered(String),
    /// An answer came, but its body could not be read to the end. Holds the
    /// transport's account of it.
    Interrupted(String),
    /// An answer came whole, with this status. `body` is the envelope that
    /// its bytes decode to, or the decoder's account of why they do not.
    Answered { status: u16, body: Result<ResponseBody, String> },
}

/// The state of one paginated fetch.
#[derive(Debug, PartialEq, Eq)]
pub enum Fetch<T> {
    /// The page at `cursor` has been asked for; `items` holds the rows of the
    /// pages before it.
    Pending { cursor: PageCursor, items: Vec<T> },
    /// All pages are in: the rows of all of them, in order.
    Done(Vec<T>),
    /// The fetch failed. The rows of earlier pages are gone.
    Failed(Error),
}

/// The state of a fetch, with its rows as a sequence.
pub ghost enum FetchView<T> {
    Pending { cursor: PageCursor, items: Seq<T> },
    Done(Seq<T>),
    Failed(Error),
}

impl<T> View for Fetch<T> {
    type V = FetchView<T>;

    open spec fn view(&self) -> FetchView<T> {
        match self {
            Fetch::Pending { cursor, items } => FetchView::Pending {
                cursor: *cursor,
                items: items@,
            },
            Fetch::Done(items) => FetchView::Done(items@),
            Fetch::Failed(error) => FetchView::Failed(*error),
        }
    }
}

/// The state of a fetch that has asked for its first page.
pub open spec fn start_spec<T>(page_size: usize) -> FetchView<T> {
    FetchView::Pending {
        cursor: PageCursor { page_index: 1, page_size },
        items: Seq::empty(),
    }
}

/// The state of a fetch after one reply.
///
/// A pending fetch fails on a reply that is no answer, on an answer without a
/// success status, and on a body that does not decode, in this order. From a
/// decoded envelope it takes the rows that `T` extracts and puts them behind
/// the rows it has. Then it asks for the next page if the total count that `T`
/// extracts is greater than page index times page size, and is done otherwise.
/// A fetch that is done or has failed stays as it is.
pub open spec fn step_spec<T: ExtractFromResponse>(
    state: FetchView<T>,
    reply: PageReply,
) -> FetchView<T> {
    match state {
        FetchView::Pending { cursor, items } => match reply {
            PageReply::Unanswered(account) => FetchView::Failed(Error::Client(account)),
            PageReply::Interrupted(account) => FetchView::Failed(Error::Hyper(account)),
            PageReply::Answered { status, body } => if !success_status(status) {
                FetchView::Failed(Error::Http(status))
            } else {
                match body {
                    Err(account) => FetchView::Failed(Error::Json { status, account }),
                    Ok(response) => {
                        let (total_count, rows) = extraction::<T>(response);
                        if cursor.rows_remain(total_count) {
                            FetchView::Pending { cursor: cursor.following(), items: items + rows }
                        } else {
                            FetchView::Done(items + rows)
                        }
                    },
                }
            },
        },
        _ => state,
    }
}

/// The state of a fetch after a run of replies, each taken as the reply to
/// the request that the fetch made last. Replies that come after the fetch is
/// done or has failed are not looked at.
pub open spec fn run_spec<T: ExtractFromResponse>(
    state: FetchView<T>,
    replies: Seq<PageReply>,
) -> FetchView<T>
    decreases replies.len(),
{
    if replies.len() == 0 || !(state is Pending) {
        state
    } else {
        run_spec(step_spec(state, replies.first()), replies.drop_first())
    }
}

/// The number of replies that a fetch takes from a run of replies: the number
/// of its requests that got a reply.
pub open spec fn requests_spec<T: ExtractFromResponse>(
    state: FetchView<T>,
    replies: Seq<PageReply>,
) -> nat
    decreases replies.len(),
{
    if replies.len() == 0 || !(state is Pending) {
        0
    } else {
        1 + requests_spec(step_spec(state, replies.first()), replies.drop_first())
    }
}

impl<T: ExtractFromResponse> Fetch<T> {
    /// A pending fetch is at a well-formed cursor.
    pub open spec fn wf(&self) -> bool {
        self matches Fetch::Pending { cursor, .. } ==> cursor.wf()
    }

    /// A fetch that has asked for its first page.
    pub fn start(page_size: usize) -> (fetch: Fetch<T>)
        requires
            page_size > 0,
        ensures
            fetch@ == start_spec::<T>(page_size),
            fetch.wf(),
    {
        Fetch::Pending { cursor: PageCursor::first(page_size), items: Vec::new() }
    }

    /// The page that the fetch waits for, if it waits for one.
    pub fn cursor(&self) -> (cursor: Option<PageCursor>)
        ensures
            cursor == match self@ {
                FetchView::Pending { cursor, .. } => Some(cursor),
                _ => None,
            },
    {
        match self {
            Fetch::Pending { cursor, .. } => Some(*cursor),
            _ => None,
        }
    }

    /// The URL that the fetch has to be answered from: that of the page it
    /// waits for, if it waits for one.
    pub fn url(&self, resource: &str, api_key: &str, base_query: &str) -> (url: Option<String>)
        ensures
            match self@ {
                FetchView::Pending { cursor, .. } => url matches Some(text) && text@
                    == page_url_text(resource@, api_key@, cursor, base_query@),
                _ => url is None,
            },
    {
        match self {
            Fetch::Pending { cursor, .. } => Some(page_url(resource, api_key, *cursor, base_query)),
            _ => None,
        }
    }

    /// What the fetch came to: the rows of all pages, or the failure; nothing
    /// while it still waits for a page.
    pub fn into_result(self) -> (result: Option<Result<Vec<T>, Error>>)
        ensures
            result == match self {
                Fetch::Pending { .. } => None,
                Fetch::Done(items) => Some(Ok(items)),
                Fetch::Failed(error) => Some(Err(error)),
            },
    {
        match self {
            Fetch::Pending { .. } => None,
            Fetch::Done(items) => Some(Ok(items)),
            Fetch::Failed(error) => Some(Err(error)),
        }
    }

    /// Takes the reply to the request that the fetch made last.
    pub fn step(self, reply: PageReply) -> (next: Fetch<T>)
        requires
            self.wf(),
        ensures
            next@ == step_spec(self@, reply),
            next.wf(),
    {
        match self {
            Fetch::Pending { cursor, items } => match reply {
                PageReply::Unanswered(account) => Fetch::Failed(Error::Client(account)),
                PageReply::Interrupted(account) => Fetch::Failed(Error::Hyper(account)),
                PageReply::Answered { status, body } => {
                    if !status_is_success(status) {
                        Fetch::Failed(Error::Http(status))
                    } else {
                        match body {
                            Err(account) => Fetch::Failed(Error::Json { status, account }),
                            Ok(response) => {
                                let (total_count, mut rows) = T::extract_from_response(response);
                                let mut items = items;
                                items.append(&mut rows);
                                if cursor.has_more(total_count) {
                                    assert(cursor.page_index < total_count) by (nonlinear_arith)
                                        requires
                                            cursor.page_size >= 1,
                                            total_count > cursor.page_index * cursor.page_size,
                                    ;
                                    Fetch::Pending { cursor: cursor.next(), items }
                                } else {
                                    Fetch::Done(items)
                                }
                            },
                        }
                    }
                },
            },
            Fetch::Done(items) => Fetch::Done(items),
            Fetch::Failed(error) => Fetch::Failed(error),
        }
    }

    /// Takes replies one after the other for as long as the fetch waits for
    /// one. Returns the state that the fetch is in then, and the number of
    /// replies that it took.
    pub fn run(self, replies: Vec<PageReply>) -> (end: (Fetch<T>, usize))
        requires
            self.wf(),
        ensures
            end.0@ == run_spec(self@, replies@),
            end.1 == requests_spec(self@, replies@),
            end.0.wf(),
    {
        let ghost all = replies@;
        let count: usize = replies.len();
        let mut state = self;
        let mut replies = replies;
        let mut taken: usize = 0;
        while replies.len() > 0 && state.cursor().is_some()
            invariant
                state.wf(),
                run_spec(state@, replies@) == run_spec(self@, all),
                taken + requests_spec(state@, replies@) == requests_spec(self@, all),
                taken + replies.len() <= count,
            decreases replies.len(),
        {
            let reply = replies.remove(0);
            state = state.step(reply);
            taken = taken + 1;
        }
        (state, taken)
    }
}

} // verus!
