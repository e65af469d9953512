use crate::pagination::{follow, Course};
use crate::request_sender::{
    decoded_page, decoded_resource, delivered, outcome, ErrorView, Fetch, FetchView, Page,
    PageWalk, Progress, Reply, ResourceFetch, SendError,
};
use crate::types::ApiResponse;
use vstd::prelude::*;

verus! {

/// One recorded exchange: what a request brought back, and what the decoder
/// says of the body. The decoder's verdict is looked at only where the reply
/// is a success.
pub struct Recorded<T> {
    pub reply: Reply,
    pub decoded: Result<ApiResponse<Vec<T>>, String>,
}

/// The result of the fetch that a recorded exchange stands for.
pub open spec fn recorded_page<T>(recorded: Recorded<T>) -> Result<Page<T>, ErrorView> {
    outcome(recorded.reply@, decoded_page(recorded.decoded))
}

/// The results of the fetches that the recorded exchanges stand for.
pub open spec fn recorded_pages<T>(script: Seq<Recorded<T>>) -> Seq<Result<Page<T>, ErrorView>> {
    script.map_values(|recorded: Recorded<T>| recorded_page(recorded))
}

/// The requests as text, in order.
pub open spec fn fetch_views(fetches: Seq<Fetch>) -> Seq<FetchView> {
    fetches.map_values(|fetch: Fetch| fetch@)
}

/// How a replayed collection fetch went: the requests that it issued, and
/// how it ended, if the script reached that far.
pub struct Replayed<T> {
    pub fetches: Vec<Fetch>,
    pub result: Option<Result<Vec<T>, SendError>>,
}

impl<T> View for Replayed<T> {
    type V = Course<T>;

    open spec fn view(&self) -> Course<T> {
        Course {
            fetches: fetch_views(self.fetches@),
            result: match self.result {
                Some(Ok(items)) => Some(Ok(items@)),
                Some(Err(error)) => Some(Err(error@)),
                None => None,
            },
        }
    }
}

/// Runs a collection fetch against recorded exchanges instead of a
/// service: the first request is answered by the first exchange of
/// `script`, each further request by the next one.
///
/// The fetch takes exactly the course that [`follow`] describes. It stops
/// where it ends, whatever is left of the script; where the script runs out
/// first, the last request stays unanswered and there is no result.
pub fn replay<T>(started: (PageWalk<T>, Fetch), script: Vec<Recorded<T>>) -> (replayed: Replayed<
    T,
>)
    ensures
        replayed@ == follow(started.0@, started.1@, recorded_pages(script@)),
{
    let ghost whole = follow(started.0@, started.1@, recorded_pages(script@));
    let (mut walk, mut fetch) = started;
    let mut rest = script;
    let mut fetches: Vec<Fetch> = Vec::new();
    assert(fetch_views(fetches@) + whole.fetches =~= whole.fetches);
    loop
        invariant
            whole == follow(started.0@, started.1@, recorded_pages(script@)),
            whole.fetches == fetch_views(fetches@) + follow(
                walk@,
                fetch@,
                recorded_pages(rest@),
            ).fetches,
            whole.result == follow(walk@, fetch@, recorded_pages(rest@)).result,
        decreases rest.len(),
    {
        let ghost pages = recorded_pages(rest@);
        let ghost issued = fetch_views(fetches@);
        let ghost request = fetch@;
        if rest.len() == 0 {
            fetches.push(fetch);
            assert(fetch_views(fetches@) =~= issued + seq![request]);
            return Replayed { fetches, result: None };
        }
        let recorded = rest.remove(0);
        assert(recorded_pages(rest@) =~= pages.skip(1));
        assert(pages[0] == recorded_page(recorded));
        fetches.push(fetch);
        assert(fetch_views(fetches@) =~= issued + seq![request]);
        match walk.on_reply(recorded.reply) {
            Err(error) => {
                return Replayed { fetches, result: Some(Err(error)) };
            },
            Ok(pending) => {
                match pending.on_decoded(recorded.decoded) {
                    Err(error) => {
                        return Replayed { fetches, result: Some(Err(error)) };
                    },
                    Ok(Progress::Complete(items)) => {
                        return Replayed { fetches, result: Some(Ok(items)) };
                    },
                    Ok(Progress::Next(onward, next)) => {
                        walk = onward;
                        fetch = next;
                        assert(issued + (seq![request] + follow(
                            walk@,
                            fetch@,
                            recorded_pages(rest@),
                        ).fetches) =~= (issued + seq![request]) + follow(
                            walk@,
                            fetch@,
                            recorded_pages(rest@),
                        ).fetches);
                    },
                }
            },
        }
    }
}

/// Runs the fetch of a single resource against one recorded exchange: its
/// one request is answered by `reply`, and `decoded` is what the decoder
/// says of the body.
///
/// The result is that of the one fetch. It depends on the reply and, where
/// the reply is a success, on the decoder's verdict, and on nothing else;
/// no further request is made, whatever links the envelope has.
pub fn replay_resource<T>(
    started: (ResourceFetch, Fetch),
    reply: Reply,
    decoded: Result<ApiResponse<T>, String>,
) -> (resource: Result<T, SendError>)
    ensures
        delivered(resource) == outcome(reply@, decoded_resource(decoded)),
{
    let (resource, _) = started;
    match resource.on_reply(reply) {
        Err(error) => Err(error),
        Ok(pending) => pending.on_decoded(decoded),
    }
}

} // verus!
