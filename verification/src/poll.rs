//! The polling loop: which activities of a fetched page are shown, in which
//! order, and when the loop ends.

use vstd::prelude::*;
use vstd::hash_set::StringHashSet;
use crate::activity::{
    Activity, ActivityView, page_view, page_of, rendered, signals_completion, classify_and_render,
    is_completion, activities_of,
};
use crate::json::{document_of, parse_value};
use crate::request::{Request, RequestView, list_request, PollReply, is_success};

verus! {

/// The number of listings that the loop makes before it gives up.
pub const MAX_POLLS: u32 = 600;

/// What the reader is told when the loop gives up.
pub const TIMEOUT_NOTICE: &'static str = "\n[Timeout waiting for agent]\n";

// ---------------------------------------------------------------------------
// One page
// ---------------------------------------------------------------------------

/// What processing one page leads to: the ids seen so far, the texts to
/// show in order, and whether the completion signal was met.
pub struct PageResult {
    pub seen: Set<Seq<char>>,
    pub texts: Seq<Seq<char>>,
    pub completed: bool,
}

/// The texts that one activity adds to the stream: its rendering, if it has one.
pub open spec fn shown(a: ActivityView) -> Seq<Seq<char>> {
    match rendered(a) {
        Some(text) => seq![text],
        None => Seq::empty(),
    }
}

/// Processes a page from its last record, the oldest, to its first, the
/// newest. A record whose id was seen is passed over. Any other is marked
/// as seen and shown; if it carries the completion signal, the newer
/// records of the page are left alone.
pub open spec fn page_result(seen: Set<Seq<char>>, page: Seq<ActivityView>) -> PageResult
    decreases page.len(),
{
    if page.len() == 0 {
        PageResult { seen, texts: Seq::empty(), completed: false }
    } else {
        let oldest = page.last();
        let newer = page.drop_last();
        if seen.contains(oldest.id) {
            page_result(seen, newer)
        } else if signals_completion(oldest) {
            PageResult { seen: seen.insert(oldest.id), texts: shown(oldest), completed: true }
        } else {
            let rest = page_result(seen.insert(oldest.id), newer);
            PageResult {
                seen: rest.seen,
                texts: shown(oldest) + rest.texts,
                completed: rest.completed,
            }
        }
    }
}

/// The characters of each of a sequence of texts.
pub open spec fn texts_view(texts: Seq<String>) -> Seq<Seq<char>> {
    texts.map_values(|t: String| t@)
}

/// The texts to show for one page, and whether the session has completed.
#[derive(Debug)]
pub struct PageOutcome {
    pub texts: Vec<String>,
    pub completed: bool,
}

/// Processes one fetched page against the ids seen so far.
pub fn process_page(seen: &mut StringHashSet, page: &Vec<Activity>) -> (out: PageOutcome)
    ensures
        final(seen)@ == page_result(old(seen)@, page_view(page@)).seen,
        texts_view(out.texts@) == page_result(old(seen)@, page_view(page@)).texts,
        out.completed == page_result(old(seen)@, page_view(page@)).completed,
{
    let ghost all = page_view(page@);
    let ghost goal = page_result(seen@, all);
    let mut texts: Vec<String> = Vec::new();
    let mut i: usize = page.len();
    assert(all.take(i as int) == all);
    while i > 0
        invariant
            i <= page.len(),
            all == page_view(page@),
            goal == page_result(old(seen)@, all),
            goal.seen == page_result(seen@, all.take(i as int)).seen,
            goal.texts == texts_view(texts@) + page_result(seen@, all.take(i as int)).texts,
            goal.completed == page_result(seen@, all.take(i as int)).completed,
        decreases i,
    {
        let activity = &page[i - 1];
        proof {
            assert(all.take(i as int).drop_last() == all.take(i - 1));
        }
        if !seen.contains(activity.id.as_str()) {
            seen.insert(activity.id.clone());
            match classify_and_render(activity) {
                Some(text) => {
                    texts.push(text);
                },
                None => {},
            }
            if is_completion(activity) {
                return PageOutcome { texts, completed: true };
            }
        }
        i = i - 1;
    }
    PageOutcome { texts, completed: false }
}

// ---------------------------------------------------------------------------
// The loop
// ---------------------------------------------------------------------------

/// The states of the loop. A submission that awaits its session has no
/// loop yet; once the session is known the loop polls, and it ends as
/// completed or as timed out.
#[derive(Debug, Clone, Copy, PartialEq, Eq, Structural)]
pub enum Phase {
    Polling,
    Completed,
    TimedOut,
}

/// The polling loop of one submission: the session it polls, the count of its
/// iterations, and the ids of the activities it has processed.
pub struct PollLoop {
    pub phase: Phase,
    pub session_id: String,
    pub api_base: String,
    pub api_key: String,
    pub iterations: u32,
    pub seen: StringHashSet,
}

pub struct PollLoopView {
    pub phase: Phase,
    pub session_id: Seq<char>,
    pub api_base: Seq<char>,
    pub api_key: Seq<char>,
    pub iterations: u32,
    pub seen: Set<Seq<char>>,
}

impl View for PollLoop {
    type V = PollLoopView;

    open spec fn view(&self) -> PollLoopView {
        PollLoopView {
            phase: self.phase,
            session_id: self.session_id@,
            api_base: self.api_base@,
            api_key: self.api_key@,
            iterations: self.iterations,
            seen: self.seen@,
        }
    }
}

/// What the caller does after a step of the loop.
#[derive(Debug)]
pub enum Next {
    /// Wait, send the request, and hand its answer to the loop.
    Poll(Request),
    /// The session has completed: tell the sink that the stream is finished.
    Done,
    /// The loop has given up; the notice is the last of the step's texts.
    TimedOut,
    /// The loop had ended before this step.
    Stopped,
}

pub enum NextView {
    Poll(RequestView),
    Done,
    TimedOut,
    Stopped,
}

impl View for Next {
    type V = NextView;

    open spec fn view(&self) -> NextView {
        match self {
            Next::Poll(request) => NextView::Poll(request@),
            Next::Done => NextView::Done,
            Next::TimedOut => NextView::TimedOut,
            Next::Stopped => NextView::Stopped,
        }
    }
}

/// One step of the loop: the texts to push to the sink, in order, and what
/// to do after that.
#[derive(Debug)]
pub struct PollStep {
    pub texts: Vec<String>,
    pub next: Next,
}

pub struct StepView {
    pub texts: Seq<Seq<char>>,
    pub next: NextView,
}

impl View for PollStep {
    type V = StepView;

    open spec fn view(&self) -> StepView {
        StepView { texts: texts_view(self.texts@), next: self.next@ }
    }
}

/// The request that fetches the next page of a loop.
pub open spec fn next_listing(s: PollLoopView) -> RequestView {
    list_request(s.api_base, s.api_key, s.session_id)
}

/// The loop as it stands once the session is known, and its first listing.
/// The counter counts the listings that were asked for, this one included.
pub open spec fn polling_start(
    api_base: Seq<char>,
    api_key: Seq<char>,
    session_id: Seq<char>,
) -> (PollLoopView, RequestView) {
    let s = PollLoopView {
        phase: Phase::Polling,
        session_id,
        api_base,
        api_key,
        iterations: 1,
        seen: Set::empty(),
    };
    (s, next_listing(s))
}

/// What one page leads to; a listing that failed leads to nothing.
pub open spec fn fetched(seen: Set<Seq<char>>, page: Option<Seq<ActivityView>>) -> PageResult {
    match page {
        Some(p) => page_result(seen, p),
        None => PageResult { seen, texts: Seq::empty(), completed: false },
    }
}

/// One step of the loop on the outcome of a listing: the page it brought, or
/// nothing where it failed. A loop that is not polling stays as it is. A
/// polling loop processes the page; on the completion signal it ends as
/// completed; else, once `MAX_POLLS` listings were made, it ends as timed
/// out with the notice as its last text; else the counter advances and the
/// next listing is due.
pub open spec fn poll_step(s: PollLoopView, page: Option<Seq<ActivityView>>) -> (
    PollLoopView,
    StepView,
) {
    if s.phase != Phase::Polling {
        (s, StepView { texts: Seq::empty(), next: NextView::Stopped })
    } else {
        let r = fetched(s.seen, page);
        if r.completed {
            (
                PollLoopView { phase: Phase::Completed, seen: r.seen, ..s },
                StepView { texts: r.texts, next: NextView::Done },
            )
        } else if s.iterations >= MAX_POLLS {
            (
                PollLoopView { phase: Phase::TimedOut, seen: r.seen, ..s },
                StepView { texts: r.texts.push(TIMEOUT_NOTICE@), next: NextView::TimedOut },
            )
        } else {
            (
                PollLoopView { iterations: (s.iterations + 1) as u32, seen: r.seen, ..s },
                StepView { texts: r.texts, next: NextView::Poll(next_listing(s)) },
            )
        }
    }
}

/// The page that the answer to a listing brings. An answer that does not
/// report success, or whose body is no JSON document, brings none, as does a
/// service that could not be reached.
pub open spec fn reply_page(reply: PollReply) -> Option<Seq<ActivityView>> {
    match reply {
        PollReply::Unreachable => None,
        PollReply::Answered(response) => if is_success(response.status) {
            match document_of(response.body@) {
                Some(doc) => Some(page_of(doc)),
                None => None,
            }
        } else {
            None
        },
    }
}

/// The view of a page that may be absent.
pub open spec fn page_opt(page: Option<&Vec<Activity>>) -> Option<Seq<ActivityView>> {
    match page {
        Some(p) => Some(page_view(p@)),
        None => None,
    }
}

impl PollLoop {
    /// The loop for the session `session_id`, and its first listing.
    pub fn start(api_base: &str, api_key: &str, session_id: &str) -> (r: (PollLoop, Request))
        ensures
            (r.0@, r.1@) == polling_start(api_base@, api_key@, session_id@),
    {
        let state = PollLoop {
            phase: Phase::Polling,
            session_id: session_id.to_owned(),
            api_base: api_base.to_owned(),
            api_key: api_key.to_owned(),
            iterations: 1,
            seen: StringHashSet::new(),
        };
        let request = Request::list_activities(api_base, api_key, session_id);
        (state, request)
    }

    /// Whether the loop has processed an activity with the id `id`.
    pub fn has_seen(&self, id: &str) -> (r: bool)
        ensures
            r == self@.seen.contains(id@),
    {
        self.seen.contains(id)
    }

    /// One step of the loop on a page that was fetched and read, or on
    /// `None` where the listing failed.
    pub fn on_page(&mut self, page: Option<&Vec<Activity>>) -> (step: PollStep)
        ensures
            (final(self)@, step@) == poll_step(old(self)@, page_opt(page)),
    {
        match self.phase {
            Phase::Polling => {},
            _ => {
                let step = PollStep { texts: Vec::new(), next: Next::Stopped };
                assert(step@.texts == Seq::<Seq<char>>::empty());
                return step;
            },
        }
        let mut outcome = match page {
            Some(p) => process_page(&mut self.seen, p),
            None => {
                let none = PageOutcome { texts: Vec::new(), completed: false };
                assert(texts_view(none.texts@) == Seq::<Seq<char>>::empty());
                none
            },
        };
        if outcome.completed {
            self.phase = Phase::Completed;
            PollStep { texts: outcome.texts, next: Next::Done }
        } else if self.iterations >= MAX_POLLS {
            self.phase = Phase::TimedOut;
            let ghost before = outcome.texts@;
            let notice: String = TIMEOUT_NOTICE.to_owned();
            outcome.texts.push(notice);
            assert(texts_view(outcome.texts@) == texts_view(before).push(TIMEOUT_NOTICE@));
            PollStep { texts: outcome.texts, next: Next::TimedOut }
        } else {
            let request = Request::list_activities(
                self.api_base.as_str(),
                self.api_key.as_str(),
                self.session_id.as_str(),
            );
            self.iterations = self.iterations + 1;
            PollStep { texts: outcome.texts, next: Next::Poll(request) }
        }
    }

    /// One step of the loop on what a listing brought.
    pub fn on_reply(&mut self, reply: &PollReply) -> (step: PollStep)
        ensures
            (final(self)@, step@) == poll_step(old(self)@, reply_page(*reply)),
    {
        match reply {
            PollReply::Unreachable => self.on_page(None),
            PollReply::Answered(response) => {
                if response.succeeded() {
                    match parse_value(response.body.as_str()) {
                        Ok(doc) => {
                            let page = activities_of(&doc);
                            self.on_page(Some(&page))
                        },
                        Err(_) => self.on_page(None),
                    }
                } else {
                    self.on_page(None)
                }
            },
        }
    }
}

} // verus!
