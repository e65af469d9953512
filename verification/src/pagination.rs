use crate::request_sender::{
    advance, decoded_resource, outcome, ErrorView, FetchView, Page, ReplyView, Step, Walk,
};
use crate::types::ApiResponse;
use vstd::prelude::*;

verus! {

/// The course of a collection fetch: the requests that it issued, in order,
/// and how it ended. The result is `None` while the fetch still waits for the
/// reply to its last request.
pub struct Course<T> {
    pub fetches: Seq<FetchView>,
    pub result: Option<Result<Seq<T>, ErrorView>>,
}

/// The course that a collection fetch takes from the state `walk`, with the
/// request `fetch` under way, when its requests bring back `pages`, one
/// entry for each request in the order in which they are issued.
///
/// Every entry is the result of one fetch, as
/// [`outcome`](crate::request_sender::outcome) gives it. Each step is the one
/// that [`advance`] prescribes. Entries after the one that ends the fetch are
/// never asked for.
pub open spec fn follow<T>(
    walk: Walk<T>,
    fetch: FetchView,
    pages: Seq<Result<Page<T>, ErrorView>>,
) -> Course<T>
    decreases pages.len(),
{
    if pages.len() == 0 {
        Course { fetches: seq![fetch], result: None }
    } else {
        match advance(walk, pages[0]) {
            Step::Next(onward, next) => {
                let rest = follow(onward, next, pages.skip(1));
                Course { fetches: seq![fetch] + rest.fetches, result: rest.result }
            },
            Step::Complete(items) => Course { fetches: seq![fetch], result: Some(Ok(items)) },
            Step::Failed(error) => Course { fetches: seq![fetch], result: Some(Err(error)) },
        }
    }
}

/// The course of a collection fetch that opens with the request `first`.
pub open spec fn collect<T>(first: FetchView, pages: Seq<Result<Page<T>, ErrorView>>) -> Course<
    T,
> {
    follow(Walk { credential: first.credential, items: Seq::<T>::empty() }, first, pages)
}

/// Whether the entry is a page that names a page after it.
pub open spec fn leads_on<T>(page: Result<Page<T>, ErrorView>) -> bool {
    page matches Ok(p) && p.next is Some
}

/// Whether the entry is a page that names no page after it.
pub open spec fn is_last<T>(page: Result<Page<T>, ErrorView>) -> bool {
    page matches Ok(p) && p.next is None
}

/// Whether `request` takes up the link of `page`: it goes to the address
/// that the page names as next, as it stands, and has no query parameters.
pub open spec fn takes_up<T>(request: FetchView, page: Result<Page<T>, ErrorView>) -> bool {
    &&& page matches Ok(p)
    &&& p.next == Some(request.url)
    &&& request.params.len() == 0
}

/// The items of an entry: those of the page, none where the fetch failed.
pub open spec fn items_of<T>(page: Result<Page<T>, ErrorView>) -> Seq<T> {
    match page {
        Ok(p) => p.items,
        Err(_) => Seq::<T>::empty(),
    }
}

/// The items of all entries, in the order of the entries, each page's items
/// in their own order.
pub open spec fn gathered<T>(pages: Seq<Result<Page<T>, ErrorView>>) -> Seq<T>
    decreases pages.len(),
{
    if pages.len() == 0 {
        Seq::<T>::empty()
    } else {
        items_of(pages[0]) + gathered(pages.skip(1))
    }
}

/// A collection fetch ends with the last page and delivers everything.
///
/// Where every page but the last names a next page and the last names none,
/// the fetch issues exactly one request for each page and delivers what was
/// collected before, followed by the items of all pages, in page order.
pub proof fn lemma_follow_collects_every_page<T>(
    walk: Walk<T>,
    fetch: FetchView,
    pages: Seq<Result<Page<T>, ErrorView>>,
)
    requires
        pages.len() >= 1,
        forall|i: int| 0 <= i < pages.len() - 1 ==> leads_on(#[trigger] pages[i]),
        is_last(pages[pages.len() - 1]),
    ensures
        follow(walk, fetch, pages).result == Some(
            Ok::<Seq<T>, ErrorView>(walk.items + gathered(pages)),
        ),
        follow(walk, fetch, pages).fetches.len() == pages.len(),
    decreases pages.len(),
{
    let rest = pages.skip(1);
    if pages.len() == 1 {
        assert(gathered(rest) =~= Seq::<T>::empty());
        assert(gathered(pages) =~= items_of(pages[0]));
    } else {
        assert(leads_on(pages[0]));
        let page = pages[0]->Ok_0;
        let onward = Walk { credential: walk.credential, items: walk.items + page.items };
        let next = FetchView {
            url: page.next->Some_0,
            params: Seq::<(Seq<char>, Seq<char>)>::empty(),
            credential: walk.credential,
        };
        assert forall|i: int| 0 <= i < rest.len() - 1 implies leads_on(#[trigger] rest[i]) by {
            assert(rest[i] == pages[i + 1]);
        }
        assert(rest[rest.len() - 1] == pages[pages.len() - 1]);
        lemma_follow_collects_every_page(onward, next, rest);
        assert(onward.items + gathered(rest) =~= walk.items + gathered(pages));
    }
}

/// A collection fetch opened with `first` that meets one page after another
/// delivers exactly the items of all pages, in order, and issues exactly as
/// many requests as there are pages.
pub proof fn lemma_collect_delivers_all_pages<T>(
    first: FetchView,
    pages: Seq<Result<Page<T>, ErrorView>>,
)
    requires
        pages.len() >= 1,
        forall|i: int| 0 <= i < pages.len() - 1 ==> leads_on(#[trigger] pages[i]),
        is_last(pages[pages.len() - 1]),
    ensures
        collect(first, pages).result == Some(Ok::<Seq<T>, ErrorView>(gathered(pages))),
        collect(first, pages).fetches.len() == pages.len(),
{
    let walk = Walk { credential: first.credential, items: Seq::<T>::empty() };
    lemma_follow_collects_every_page(walk, first, pages);
    assert(walk.items + gathered(pages) =~= gathered(pages));
}

/// A failed page ends the fetch, and nothing is delivered.
///
/// Where the pages before the one at `failed` each name a next page and that
/// one is a failure, the fetch ends with exactly that failure, whatever was
/// collected before, and has issued one request for each page up to the
/// failed one and none after it.
pub proof fn lemma_follow_aborts_on_failure<T>(
    walk: Walk<T>,
    fetch: FetchView,
    pages: Seq<Result<Page<T>, ErrorView>>,
    failed: int,
)
    requires
        0 <= failed < pages.len(),
        forall|i: int| 0 <= i < failed ==> leads_on(#[trigger] pages[i]),
        pages[failed] is Err,
    ensures
        follow(walk, fetch, pages).result == Some(
            Err::<Seq<T>, ErrorView>(pages[failed]->Err_0),
        ),
        follow(walk, fetch, pages).fetches.len() == failed + 1,
    decreases pages.len(),
{
    if failed > 0 {
        assert(leads_on(pages[0]));
        let page = pages[0]->Ok_0;
        let rest = pages.skip(1);
        let onward = Walk { credential: walk.credential, items: walk.items + page.items };
        let next = FetchView {
            url: page.next->Some_0,
            params: Seq::<(Seq<char>, Seq<char>)>::empty(),
            credential: walk.credential,
        };
        assert forall|i: int| 0 <= i < failed - 1 implies leads_on(#[trigger] rest[i]) by {
            assert(rest[i] == pages[i + 1]);
        }
        assert(rest[failed - 1] == pages[failed]);
        lemma_follow_aborts_on_failure(onward, next, rest, failed - 1);
    }
}

/// A collection fetch opened with `first` fails as soon as a page fails:
/// with the failure of that page, after one request for each page up to it,
/// and without delivering the items of the pages before it.
pub proof fn lemma_collect_aborts_on_failure<T>(
    first: FetchView,
    pages: Seq<Result<Page<T>, ErrorView>>,
    failed: int,
)
    requires
        0 <= failed < pages.len(),
        forall|i: int| 0 <= i < failed ==> leads_on(#[trigger] pages[i]),
        pages[failed] is Err,
    ensures
        collect(first, pages).result == Some(Err::<Seq<T>, ErrorView>(pages[failed]->Err_0)),
        collect(first, pages).fetches.len() == failed + 1,
{
    let walk = Walk { credential: first.credential, items: Seq::<T>::empty() };
    lemma_follow_aborts_on_failure(walk, first, pages, failed);
}

/// Every request of a collection fetch carries the same credential, and
/// every request after the first goes to the address that the page before it
/// named, as it stands and without query parameters.
pub proof fn lemma_follow_requests<T>(
    walk: Walk<T>,
    fetch: FetchView,
    pages: Seq<Result<Page<T>, ErrorView>>,
)
    requires
        fetch.credential == walk.credential,
    ensures
        1 <= follow(walk, fetch, pages).fetches.len() <= pages.len() + 1,
        follow(walk, fetch, pages).fetches[0] == fetch,
        forall|i: int|
            0 <= i < follow(walk, fetch, pages).fetches.len() ==> (#[trigger] follow(
                walk,
                fetch,
                pages,
            ).fetches[i]).credential == walk.credential,
        forall|i: int|
            1 <= i < follow(walk, fetch, pages).fetches.len() ==> takes_up(
                #[trigger] follow(walk, fetch, pages).fetches[i],
                pages[i - 1],
            ),
    decreases pages.len(),
{
    if pages.len() > 0 {
        match advance(walk, pages[0]) {
            Step::Next(onward, next) => {
                let rest = pages.skip(1);
                lemma_follow_requests(onward, next, rest);
                let tail = follow(onward, next, rest).fetches;
                let all = follow(walk, fetch, pages).fetches;
                assert(all =~= seq![fetch] + tail);
                assert forall|i: int| 0 <= i < all.len() implies (#[trigger] all[i]).credential
                    == walk.credential by {
                    if i > 0 {
                        assert(all[i] == tail[i - 1]);
                    }
                }
                assert forall|i: int| 1 <= i < all.len() implies takes_up(
                    #[trigger] all[i],
                    pages[i - 1],
                ) by {
                    assert(all[i] == tail[i - 1]);
                    if i > 1 {
                        assert(rest[i - 2] == pages[i - 1]);
                        assert(takes_up(tail[i - 1], rest[i - 2]));
                    }
                }
            },
            Step::Complete(items) => {},
            Step::Failed(error) => {},
        }
    }
}

/// A collection fetch opened with `first` issues `first` as it stands, then
/// one request for each next link that it is handed: to the address of the
/// link, without query parameters. Every one of them carries the credential
/// of `first`.
pub proof fn lemma_collect_requests<T>(first: FetchView, pages: Seq<Result<Page<T>, ErrorView>>)
    ensures
        1 <= collect(first, pages).fetches.len() <= pages.len() + 1,
        collect(first, pages).fetches[0] == first,
        forall|i: int|
            0 <= i < collect(first, pages).fetches.len() ==> (#[trigger] collect(
                first,
                pages,
            ).fetches[i]).credential == first.credential,
        forall|i: int|
            1 <= i < collect(first, pages).fetches.len() ==> takes_up(
                #[trigger] collect(first, pages).fetches[i],
                pages[i - 1],
            ),
{
    let walk = Walk { credential: first.credential, items: Seq::<T>::empty() };
    lemma_follow_requests(walk, first, pages);
}

/// A collection fetch that has ended has issued no more requests than it got
/// pages back, and one that still waits has issued one more.
pub proof fn lemma_follow_counts_requests<T>(
    walk: Walk<T>,
    fetch: FetchView,
    pages: Seq<Result<Page<T>, ErrorView>>,
)
    ensures
        follow(walk, fetch, pages).result is Some ==> follow(walk, fetch, pages).fetches.len()
            <= pages.len(),
        follow(walk, fetch, pages).result is None ==> follow(walk, fetch, pages).fetches.len()
            == pages.len() + 1,
    decreases pages.len(),
{
    if pages.len() > 0 {
        match advance(walk, pages[0]) {
            Step::Next(onward, next) => {
                lemma_follow_counts_requests(onward, next, pages.skip(1));
            },
            Step::Complete(items) => {},
            Step::Failed(error) => {},
        }
    }
}

/// The result of fetching a single resource does not depend on the links of
/// the envelope: two decoded envelopes with the same payload give the same
/// result for the same reply.
pub proof fn lemma_resource_ignores_links<T>(
    reply: ReplyView,
    one: ApiResponse<T>,
    other: ApiResponse<T>,
)
    requires
        one.data == other.data,
    ensures
        outcome(reply, decoded_resource(Ok(one))) == outcome(reply, decoded_resource(Ok(other))),
{
}

/// A reply that is no success ends the exchange with its failure, whatever
/// the decoder would say of its body; a success leaves the verdict to the
/// decoder.
pub proof fn lemma_outcome_by_status<D>(reply: ReplyView, decoded: Result<D, Seq<char>>)
    ensures
        reply matches ReplyView::Unreachable { cause } ==> outcome(reply, decoded) == Err::<
            D,
            ErrorView,
        >(ErrorView::TransportError { cause }),
        reply matches ReplyView::Answered { status, body } ==> outcome(reply, decoded) == (if 200
            <= status <= 299 {
            match decoded {
                Ok(value) => Ok(value),
                Err(reason) => Err(ErrorView::DecodeError { body, reason }),
            }
        } else {
            Err(ErrorView::ApiError { status, body })
        }),
{
}

} // verus!
