//! What holds of every fetch, and of a fetch against a server whose result
//! does not change while it is fetched.

use vstd::prelude::*;

use super::response::{extraction, ExtractFromResponse};
use super::{requests_spec, run_spec, start_spec, step_spec, success_status};
use super::{FetchView, PageCursor, PageReply};
use crate::error::Error;

verus! {

/// The rows that a fetch for records of type `T` takes from a reply: those
/// that `T` extracts from the envelope of an answer with a success status, and
/// none from any other reply.
pub open spec fn reply_rows<T: ExtractFromResponse>(reply: PageReply) -> Seq<T> {
    match reply {
        PageReply::Answered { status, body: Ok(response) } => if success_status(status) {
            extraction::<T>(response).1
        } else {
            Seq::empty()
        },
        _ => Seq::empty(),
    }
}

/// The failure that a reply brings to a fetch that waits for it: none where
/// the reply is an answer with a success status and a decoded envelope.
pub open spec fn reply_failure(reply: PageReply) -> Option<Error> {
    match reply {
        PageReply::Unanswered(account) => Some(Error::Client(account)),
        PageReply::Interrupted(account) => Some(Error::Hyper(account)),
        PageReply::Answered { status, body } => if !success_status(status) {
            Some(Error::Http(status))
        } else {
            match body {
                Err(account) => Some(Error::Json { status, account }),
                Ok(_) => None,
            }
        },
    }
}

/// The rows of the first `pages` replies, page after page.
pub open spec fn rows_through<T: ExtractFromResponse>(replies: Seq<PageReply>, pages: nat) -> Seq<
    T,
>
    decreases pages,
{
    if pages == 0 {
        Seq::empty()
    } else {
        rows_through::<T>(replies, (pages - 1) as nat) + reply_rows::<T>(replies[pages - 1])
    }
}

/// The number of rows in the first `pages` replies.
pub open spec fn rows_returned<T: ExtractFromResponse>(replies: Seq<PageReply>, pages: nat) -> nat
    decreases pages,
{
    if pages == 0 {
        0
    } else {
        rows_returned::<T>(replies, (pages - 1) as nat) + reply_rows::<T>(replies[pages - 1]).len()
    }
}

/// The number of pages that a fetch asks for when every page reports
/// `total_count` rows: as many as hold all the rows, and one at least.
pub open spec fn pages_needed(total_count: nat, page_size: nat) -> nat {
    if total_count == 0 {
        1
    } else {
        ((total_count - 1) / (page_size as int) + 1) as nat
    }
}

/// Whether `reply` answers the request for page `page` of a result of
/// `total_count` rows as a server does whose result does not change: with a
/// success status and an envelope that reports `total_count`, and with rows
/// that lie on that page and within the result.
pub open spec fn consistent_reply<T: ExtractFromResponse>(
    reply: PageReply,
    page: nat,
    page_size: nat,
    total_count: nat,
) -> bool {
    &&& reply matches PageReply::Answered { status, body: Ok(response) }
    &&& success_status(status)
    &&& extraction::<T>(response).0 == total_count
    &&& extraction::<T>(response).1.len() <= page_size
    &&& (page - 1) * page_size + extraction::<T>(response).1.len() <= total_count
}

/// Whether `reply` answers the request for page `page` of a result of
/// `total_count` rows in full: consistently, and with every row of the result
/// that lies on that page.
pub open spec fn full_reply<T: ExtractFromResponse>(
    reply: PageReply,
    page: nat,
    page_size: nat,
    total_count: nat,
) -> bool {
    &&& consistent_reply::<T>(reply, page, page_size, total_count)
    &&& reply_rows::<T>(reply).len() == vstd::math::min(
        page_size as int,
        total_count - (page - 1) * page_size,
    )
}

/// Whether `replies` begins with the answers of a server whose result of
/// `total_count` rows does not change: with a consistent reply for each page
/// of the result.
pub open spec fn consistent_replies<T: ExtractFromResponse>(
    replies: Seq<PageReply>,
    page_size: nat,
    total_count: nat,
) -> bool {
    &&& pages_needed(total_count, page_size) <= replies.len()
    &&& forall|i: int|
        0 <= i < pages_needed(total_count, page_size) ==> consistent_reply::<T>(
            #[trigger] replies[i],
            (i + 1) as nat,
            page_size,
            total_count,
        )
}

/// Whether `replies` begins with the answers of a server whose result of
/// `total_count` rows does not change, and that sends each page in full.
pub open spec fn full_replies<T: ExtractFromResponse>(
    replies: Seq<PageReply>,
    page_size: nat,
    total_count: nat,
) -> bool {
    &&& pages_needed(total_count, page_size) <= replies.len()
    &&& forall|i: int|
        0 <= i < pages_needed(total_count, page_size) ==> full_reply::<T>(
            #[trigger] replies[i],
            (i + 1) as nat,
            page_size,
            total_count,
        )
}

/// `pages_needed` is the least number of pages, from one on, that reach
/// `total_count` rows: that many pages reach them, and no `page` before the
/// last of them does.
pub proof fn lemma_pages_needed(total_count: nat, page_size: nat, page: nat)
    requires
        page_size > 0,
    ensures
        pages_needed(total_count, page_size) >= 1,
        total_count <= pages_needed(total_count, page_size) * page_size,
        1 <= page < pages_needed(total_count, page_size) ==> total_count > page * page_size,
{
    let needed = pages_needed(total_count, page_size);
    if total_count > 0 {
        let last = (total_count - 1) as int;
        let size = page_size as int;
        assert(last == size * (last / size) + last % size && 0 <= last % size < size) by {
            vstd::arithmetic::div_mod::lemma_fundamental_div_mod(last, size);
            vstd::arithmetic::div_mod::lemma_mod_bound(last, size);
        }
        assert(0 <= last / size) by {
            vstd::arithmetic::div_mod::lemma_div_pos_is_pos(last, size);
        }
        assert(needed * page_size == size * (last / size) + size) by (nonlinear_arith)
            requires
                needed == last / size + 1,
                size == page_size,
        ;
        if 1 <= page < needed {
            assert(page * page_size <= size * (last / size)) by (nonlinear_arith)
                requires
                    page <= last / size,
                    size == page_size,
                    size > 0,
            ;
        }
    }
}

/// A fetch that waits for a page and gets a reply that brings a failure has
/// failed with it. The replies behind that one are not looked at: they stand
/// for pages that are never asked for.
pub proof fn lemma_failure_ends_fetch<T: ExtractFromResponse>(
    state: FetchView<T>,
    replies: Seq<PageReply>,
)
    requires
        state is Pending,
        replies.len() > 0,
        reply_failure(replies.first()) is Some,
    ensures
        run_spec(state, replies) == FetchView::<T>::Failed(reply_failure(replies.first())->0),
        requests_spec(state, replies) == 1,
{
    reveal_with_fuel(run_spec, 2);
    reveal_with_fuel(requests_spec, 2);
}

/// Replies may be handed over in any number of batches: a fetch that takes
/// `first` and then `second` ends where one ends that takes them in one run.
pub proof fn lemma_run_in_batches<T: ExtractFromResponse>(
    state: FetchView<T>,
    first: Seq<PageReply>,
    second: Seq<PageReply>,
)
    ensures
        run_spec(state, first + second) == run_spec(run_spec(state, first), second),
        requests_spec(state, first + second) == requests_spec(state, first) + requests_spec(
            run_spec(state, first),
            second,
        ),
    decreases first.len(),
{
    if first.len() > 0 {
        if state is Pending {
            assert((first + second).drop_first() =~= first.drop_first() + second);
            lemma_run_in_batches(step_spec(state, first.first()), first.drop_first(), second);
        } else {
            reveal_with_fuel(run_spec, 2);
            reveal_with_fuel(requests_spec, 2);
        }
    }
}

proof fn lemma_run_from_page<T: ExtractFromResponse>(
    page_size: usize,
    replies: Seq<PageReply>,
    page: nat,
)
    requires
        page_size > 0,
        1 <= page <= replies.len() + 1,
        page <= usize::MAX,
    ensures
        ({
            let state = FetchView::Pending {
                cursor: PageCursor { page_index: page as usize, page_size },
                items: rows_through::<T>(replies, (page - 1) as nat),
            };
            let rest = replies.skip(page - 1);
            let end = run_spec(state, rest);
            let taken = (page - 1 + requests_spec(state, rest)) as nat;
            &&& taken <= replies.len()
            &&& rest.len() > 0 ==> taken >= page
            &&& end matches FetchView::Pending { cursor, items } ==> {
                &&& taken == replies.len()
                &&& cursor.page_index == taken + 1
                &&& cursor.page_size == page_size
                &&& items == rows_through::<T>(replies, taken)
            }
            &&& end matches FetchView::Done(items) ==> items == rows_through::<T>(replies, taken)
        }),
    decreases replies.len() + 1 - page,
{
    reveal_with_fuel(run_spec, 2);
    reveal_with_fuel(requests_spec, 2);
    let cursor = PageCursor { page_index: page as usize, page_size };
    let items = rows_through::<T>(replies, (page - 1) as nat);
    let state = FetchView::Pending { cursor, items };
    let rest = replies.skip(page - 1);
    if rest.len() > 0 {
        if step_spec(state, rest.first()) is Pending {
            assert(cursor.page_index * cursor.page_size >= cursor.page_index) by (nonlinear_arith)
                requires
                    cursor.page_size >= 1,
            ;
            assert(rest.drop_first() =~= replies.skip(page as int));
            lemma_run_from_page::<T>(page_size, replies, page + 1);
        }
    }
}

/// A fetch holds the rows of the pages that it has taken, in their order, and
/// nothing else.
///
/// Whatever the replies are: a fetch that is given some takes at least one.
/// One that still waits has taken them all and waits for the page after them.
/// One that waits or is done holds the rows of the replies it took, page after
/// page.
pub proof fn lemma_fetch_holds_rows_taken<T: ExtractFromResponse>(
    page_size: usize,
    replies: Seq<PageReply>,
)
    requires
        page_size > 0,
    ensures
        ({
            let end = run_spec(start_spec::<T>(page_size), replies);
            let taken = requests_spec(start_spec::<T>(page_size), replies);
            &&& taken <= replies.len()
            &&& replies.len() > 0 ==> taken >= 1
            &&& end matches FetchView::Pending { cursor, items } ==> {
                &&& taken == replies.len()
                &&& cursor.page_index == taken + 1
                &&& cursor.page_size == page_size
                &&& items == rows_through::<T>(replies, taken)
            }
            &&& end matches FetchView::Done(items) ==> items == rows_through::<T>(replies, taken)
        }),
{
    lemma_run_from_page::<T>(page_size, replies, 1);
    assert(replies.skip(0) =~= replies);
}

proof fn lemma_rows_bounded<T: ExtractFromResponse>(
    page_size: nat,
    total_count: nat,
    replies: Seq<PageReply>,
    pages: nat,
)
    requires
        page_size > 0,
        consistent_replies::<T>(replies, page_size, total_count),
        pages <= pages_needed(total_count, page_size),
    ensures
        rows_through::<T>(replies, pages).len() == rows_returned::<T>(replies, pages),
        rows_returned::<T>(replies, pages) <= pages * page_size,
        pages > 0 ==> rows_returned::<T>(replies, pages) <= total_count,
    decreases pages,
{
    if pages > 0 {
        let before = (pages - 1) as nat;
        lemma_rows_bounded::<T>(page_size, total_count, replies, before);
        assert(before * page_size + page_size == pages * page_size) by (nonlinear_arith)
            requires
                before + 1 == pages,
        ;
    }
}

proof fn lemma_run_consistent<T: ExtractFromResponse>(
    page_size: usize,
    total_count: usize,
    replies: Seq<PageReply>,
    page: nat,
)
    requires
        page_size > 0,
        consistent_replies::<T>(replies, page_size as nat, total_count as nat),
        1 <= page <= pages_needed(total_count as nat, page_size as nat),
    ensures
        ({
            let needed = pages_needed(total_count as nat, page_size as nat);
            let state = FetchView::Pending {
                cursor: PageCursor { page_index: page as usize, page_size },
                items: rows_through::<T>(replies, (page - 1) as nat),
            };
            &&& run_spec(state, replies.skip(page - 1)) == FetchView::Done(
                rows_through::<T>(replies, needed),
            )
            &&& requests_spec(state, replies.skip(page - 1)) == needed - page + 1
        }),
    decreases pages_needed(total_count as nat, page_size as nat) - page,
{
    reveal_with_fuel(run_spec, 2);
    reveal_with_fuel(requests_spec, 2);
    let needed = pages_needed(total_count as nat, page_size as nat);
    lemma_pages_needed(total_count as nat, page_size as nat, page);
    assert(needed <= usize::MAX) by {
        if needed > 1 {
            let before = (needed - 1) as nat;
            lemma_pages_needed(total_count as nat, page_size as nat, before);
            assert(before * page_size >= before) by (nonlinear_arith)
                requires
                    page_size >= 1,
            ;
        }
    }
    if page < needed {
        assert(replies.skip(page - 1).drop_first() =~= replies.skip(page as int));
        lemma_run_consistent::<T>(page_size, total_count, replies, page + 1);
    }
}

/// A fetch against a server whose result does not change comes to an end.
///
/// Where every page reports the same total count, and the rows of each page
/// lie on that page and within the result, the fetch is done after as many
/// requests as the result has pages (one for a result without rows). It then
/// holds the rows of these pages in order. They are as many as the pages
/// returned, and never more than the total count.
pub proof fn lemma_consistent_fetch_ends<T: ExtractFromResponse>(
    page_size: usize,
    total_count: usize,
    replies: Seq<PageReply>,
)
    requires
        page_size > 0,
        consistent_replies::<T>(replies, page_size as nat, total_count as nat),
    ensures
        ({
            let needed = pages_needed(total_count as nat, page_size as nat);
            let items = rows_through::<T>(replies, needed);
            &&& run_spec(start_spec::<T>(page_size), replies) == FetchView::Done(items)
            &&& requests_spec(start_spec::<T>(page_size), replies) == needed
            &&& items.len() == vstd::math::min(
                total_count as int,
                rows_returned::<T>(replies, needed) as int,
            )
        }),
{
    let needed = pages_needed(total_count as nat, page_size as nat);
    lemma_pages_needed(total_count as nat, page_size as nat, 1);
    lemma_run_consistent::<T>(page_size, total_count, replies, 1);
    assert(replies.skip(0) =~= replies);
    lemma_rows_bounded::<T>(page_size as nat, total_count as nat, replies, needed);
}

proof fn lemma_full_pages<T: ExtractFromResponse>(
    page_size: nat,
    total_count: nat,
    replies: Seq<PageReply>,
    pages: nat,
)
    requires
        page_size > 0,
        full_replies::<T>(replies, page_size, total_count),
        pages <= pages_needed(total_count, page_size),
    ensures
        rows_returned::<T>(replies, pages) == vstd::math::min(
            (pages * page_size) as int,
            total_count as int,
        ),
    decreases pages,
{
    if pages > 0 {
        let before = (pages - 1) as nat;
        lemma_full_pages::<T>(page_size, total_count, replies, before);
        assert(before * page_size + page_size == pages * page_size) by (nonlinear_arith)
            requires
                before + 1 == pages,
        ;
    } else {
        assert(pages * page_size == 0) by (nonlinear_arith)
            requires
                pages == 0,
        ;
    }
}

/// A fetch against a server whose result does not change, and that sends
/// every page in full, returns the whole result: as many rows as the total
/// count says.
pub proof fn lemma_full_fetch_returns_all<T: ExtractFromResponse>(
    page_size: usize,
    total_count: usize,
    replies: Seq<PageReply>,
)
    requires
        page_size > 0,
        full_replies::<T>(replies, page_size as nat, total_count as nat),
    ensures
        run_spec(start_spec::<T>(page_size), replies) matches FetchView::Done(items)
            && items.len() == total_count,
{
    let needed = pages_needed(total_count as nat, page_size as nat);
    lemma_pages_needed(total_count as nat, page_size as nat, 1);
    assert(consistent_replies::<T>(replies, page_size as nat, total_count as nat)) by {
        assert forall|i: int| 0 <= i < needed implies consistent_reply::<T>(
            #[trigger] replies[i],
            (i + 1) as nat,
            page_size as nat,
            total_count as nat,
        ) by {
            assert(full_reply::<T>(
                replies[i],
                (i + 1) as nat,
                page_size as nat,
                total_count as nat,
            ));
        }
    }
    lemma_consistent_fetch_ends::<T>(page_size, total_count, replies);
    lemma_full_pages::<T>(page_size as nat, total_count as nat, replies, needed);
    lemma_rows_bounded::<T>(page_size as nat, total_count as nat, replies, needed);
}

} // verus!
