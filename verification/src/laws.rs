//! What holds of every page, of every run of the loop and of every
//! submission.

use vstd::prelude::*;
use crate::activity::{
    ActivityView, PayloadView, any_emits, emits, payloads_text, rendered, signals_completion,
};
use crate::builtin::{
    DeclarationView, ToolCallView, ToolErrorView, declaration_table, planned, text_argument,
};
use crate::client::{AwaitingView, begun, failed, session_step, stored_session};
use crate::error::JulesErrorView;
use crate::json::{JsonView, member, items_of, document_of};
use crate::poll::{
    PageResult, PollLoopView, StepView, NextView, Phase, MAX_POLLS, TIMEOUT_NOTICE, page_result,
    shown, fetched, poll_step, next_listing,
};
use crate::request::{RequestKind, RequestView, is_success};

verus! {

// ---------------------------------------------------------------------------
// Pages
// ---------------------------------------------------------------------------

/// What processing `newer` adds to the result `older` of the older part of
/// a page: nothing after the completion signal.
pub open spec fn continued(older: PageResult, newer: Seq<ActivityView>) -> PageResult {
    if older.completed {
        older
    } else {
        let rest = page_result(older.seen, newer);
        PageResult {
            seen: rest.seen,
            texts: older.texts + rest.texts,
            completed: rest.completed,
        }
    }
}

/// A page is processed from its older part to its newer part: all that its
/// older records show comes before anything that its newer records show,
/// and the newer records are processed against the ids that the older
/// records left as seen.
pub proof fn law_older_part_first(
    seen: Set<Seq<char>>,
    newer: Seq<ActivityView>,
    older: Seq<ActivityView>,
)
    ensures
        page_result(seen, newer + older) == continued(page_result(seen, older), newer),
    decreases older.len(),
{
    let page = newer + older;
    if older.len() > 0 {
        let oldest = older.last();
        assert(page.drop_last() =~= newer + older.drop_last());
        if seen.contains(oldest.id) {
            law_older_part_first(seen, newer, older.drop_last());
        } else if !signals_completion(oldest) {
            let marked = seen.insert(oldest.id);
            law_older_part_first(marked, newer, older.drop_last());
            let inner = page_result(marked, older.drop_last());
            if !inner.completed {
                let rest = page_result(inner.seen, newer);
                assert(shown(oldest) + (inner.texts + rest.texts) =~= (shown(oldest) + inner.texts)
                    + rest.texts);
            }
        }
    }
}

/// The texts that a sequence of activities shows, one activity after the
/// other.
pub open spec fn shown_in_order(activities: Seq<ActivityView>) -> Seq<Seq<char>>
    decreases activities.len(),
{
    if activities.len() == 0 {
        Seq::empty()
    } else {
        shown(activities.first()) + shown_in_order(activities.drop_first())
    }
}

/// Whether no record of `page` has an id in `seen` or the id of another
/// record of the page, and none carries the completion signal.
pub open spec fn all_new(seen: Set<Seq<char>>, page: Seq<ActivityView>) -> bool {
    &&& forall|i: int| 0 <= i < page.len() ==> !seen.contains((#[trigger] page[i]).id)
    &&& forall|i: int, j: int|
        0 <= i < j < page.len() ==> (#[trigger] page[i]).id != (#[trigger] page[j]).id
    &&& forall|i: int| 0 <= i < page.len() ==> !signals_completion(#[trigger] page[i])
}

/// A page of new records is shown in reverse order of arrival: the texts are
/// those of its records from the last, the oldest, to the first.
pub proof fn law_oldest_first(seen: Set<Seq<char>>, page: Seq<ActivityView>)
    requires
        all_new(seen, page),
    ensures
        page_result(seen, page).texts == shown_in_order(page.reverse()),
        !page_result(seen, page).completed,
    decreases page.len(),
{
    if page.len() > 0 {
        let newer = page.drop_last();
        law_oldest_first(seen.insert(page.last().id), newer);
        assert(page.reverse().drop_first() =~= newer.reverse());
    }
}

/// An id that was seen stays seen, and unless the completion signal was met
/// the id of every record of the page is seen after the page.
pub proof fn law_page_marks_its_records(seen: Set<Seq<char>>, page: Seq<ActivityView>)
    ensures
        seen.subset_of(page_result(seen, page).seen),
        !page_result(seen, page).completed ==> forall|i: int|
            0 <= i < page.len() ==> page_result(seen, page).seen.contains((#[trigger] page[i]).id),
    decreases page.len(),
{
    if page.len() > 0 {
        let oldest = page.last();
        let newer = page.drop_last();
        if seen.contains(oldest.id) {
            law_page_marks_its_records(seen, newer);
            assert forall|i: int|
                0 <= i < page.len() && !page_result(seen, page).completed implies page_result(
                seen,
                page,
            ).seen.contains((#[trigger] page[i]).id) by {
                if i < newer.len() {
                    assert(newer[i] == page[i]);
                }
            }
        } else if !signals_completion(oldest) {
            let marked = seen.insert(oldest.id);
            law_page_marks_its_records(marked, newer);
            assert forall|i: int|
                0 <= i < page.len() && !page_result(seen, page).completed implies page_result(
                seen,
                page,
            ).seen.contains((#[trigger] page[i]).id) by {
                if i < newer.len() {
                    assert(newer[i] == page[i]);
                }
            }
        }
    }
}

/// A page of records whose ids were all seen shows nothing and changes
/// nothing.
pub proof fn law_seen_records_show_nothing(seen: Set<Seq<char>>, page: Seq<ActivityView>)
    requires
        forall|i: int| 0 <= i < page.len() ==> seen.contains((#[trigger] page[i]).id),
    ensures
        page_result(seen, page) == (PageResult { seen, texts: Seq::empty(), completed: false }),
    decreases page.len(),
{
    if page.len() > 0 {
        let newer = page.drop_last();
        law_seen_records_show_nothing(seen, newer);
    }
}

/// A record whose id is seen when its turn comes shows nothing: the page
/// has the result that it has without the record. This holds of an id seen
/// in an earlier page and of one that an older record of the same page has.
pub proof fn law_each_id_shown_once(
    seen: Set<Seq<char>>,
    newer: Seq<ActivityView>,
    repeated: ActivityView,
    older: Seq<ActivityView>,
)
    requires
        page_result(seen, older).seen.contains(repeated.id),
    ensures
        page_result(seen, newer + seq![repeated] + older) == page_result(seen, newer + older),
{
    let past = page_result(seen, older);
    law_older_part_first(seen, newer + seq![repeated], older);
    law_older_part_first(seen, newer, older);
    if !past.completed {
        law_older_part_first(past.seen, newer, seq![repeated]);
        assert(page_result(past.seen, seq![repeated].drop_last()) == (PageResult {
            seen: past.seen,
            texts: Seq::empty(),
            completed: false,
        }));
    }
}

/// A page that was processed without the completion signal shows nothing
/// when it is fetched again.
pub proof fn law_repeated_page_shows_nothing(seen: Set<Seq<char>>, page: Seq<ActivityView>)
    requires
        !page_result(seen, page).completed,
    ensures
        page_result(page_result(seen, page).seen, page) == (PageResult {
            seen: page_result(seen, page).seen,
            texts: Seq::empty(),
            completed: false,
        }),
{
    law_page_marks_its_records(seen, page);
    law_seen_records_show_nothing(page_result(seen, page).seen, page);
}

/// The completion signal halts the page. Where a record that carries it
/// comes to its turn with an id not seen before, the page shows what its
/// older records show, then what the record shows, and nothing of the newer
/// records, which are not marked as seen either.
pub proof fn law_completion_halts_page(
    seen: Set<Seq<char>>,
    newer: Seq<ActivityView>,
    last: ActivityView,
    older: Seq<ActivityView>,
)
    requires
        signals_completion(last),
        !page_result(seen, older).completed,
        !page_result(seen, older).seen.contains(last.id),
    ensures
        page_result(seen, newer + seq![last] + older) == (PageResult {
            seen: page_result(seen, older).seen.insert(last.id),
            texts: page_result(seen, older).texts + shown(last),
            completed: true,
        }),
{
    let past = page_result(seen, older);
    law_older_part_first(seen, newer + seq![last], older);
    law_older_part_first(past.seen, newer, seq![last]);
}

/// Payloads that show nothing add nothing to the text.
proof fn lemma_silent_payloads(ps: Seq<PayloadView>)
    requires
        !any_emits(ps),
    ensures
        payloads_text(ps) == Seq::<char>::empty(),
    decreases ps.len(),
{
    if ps.len() > 0 {
        lemma_silent_payloads(ps.drop_last());
    }
}

/// The text of payloads of which one shows text has a second character, and
/// it is not the second character of the timeout notice.
proof fn lemma_rendering_start(ps: Seq<PayloadView>)
    requires
        any_emits(ps),
    ensures
        payloads_text(ps).len() >= 2,
        payloads_text(ps)[1] != '[',
    decreases ps.len(),
{
    let earlier = ps.drop_last();
    if any_emits(earlier) {
        lemma_rendering_start(earlier);
    } else {
        lemma_silent_payloads(earlier);
        let k = choose|k: int| 0 <= k < ps.len() && emits(#[trigger] ps[k]);
        if k < ps.len() - 1 {
            assert(emits(earlier[k]));
        }
        reveal_strlit("\n**Plan Generated:**\n");
        reveal_strlit("> ");
        reveal_strlit("```bash\n$ ");
        reveal_strlit("```diff\n[Code Change Applied]\n```\n");
    }
}

/// No activity shows the timeout notice.
pub proof fn law_rendering_is_not_the_notice(a: ActivityView)
    ensures
        rendered(a) != Some(TIMEOUT_NOTICE@),
{
    if any_emits(a.payloads) {
        lemma_rendering_start(a.payloads);
        reveal_strlit("\n[Timeout waiting for agent]\n");
    }
}

/// How often `text` stands among `texts`.
pub open spec fn occurrences(texts: Seq<Seq<char>>, text: Seq<char>) -> nat
    decreases texts.len(),
{
    if texts.len() == 0 {
        0
    } else {
        occurrences(texts.drop_last(), text) + if texts.last() == text {
            1nat
        } else {
            0nat
        }
    }
}

proof fn lemma_occurrences_add(a: Seq<Seq<char>>, b: Seq<Seq<char>>, text: Seq<char>)
    ensures
        occurrences(a + b, text) == occurrences(a, text) + occurrences(b, text),
    decreases b.len(),
{
    if b.len() > 0 {
        assert((a + b).drop_last() =~= a + b.drop_last());
        lemma_occurrences_add(a, b.drop_last(), text);
    }
}

/// The texts of a page never hold the timeout notice.
pub proof fn law_page_shows_no_notice(seen: Set<Seq<char>>, page: Seq<ActivityView>)
    ensures
        occurrences(page_result(seen, page).texts, TIMEOUT_NOTICE@) == 0,
    decreases page.len(),
{
    if page.len() > 0 {
        let oldest = page.last();
        let newer = page.drop_last();
        law_rendering_is_not_the_notice(oldest);
        assert(occurrences(shown(oldest), TIMEOUT_NOTICE@) == 0) by {
            if rendered(oldest) is Some {
                assert(occurrences(shown(oldest).drop_last(), TIMEOUT_NOTICE@) == 0);
            }
        }
        if seen.contains(oldest.id) {
            law_page_shows_no_notice(seen, newer);
        } else if !signals_completion(oldest) {
            let rest = page_result(seen.insert(oldest.id), newer);
            law_page_shows_no_notice(seen.insert(oldest.id), newer);
            lemma_occurrences_add(shown(oldest), rest.texts, TIMEOUT_NOTICE@);
        }
    }
}

// ---------------------------------------------------------------------------
// The loop
// ---------------------------------------------------------------------------

/// The loop after the outcomes of the listings `pages`, handed to it in
/// order.
pub open spec fn state_after(s: PollLoopView, pages: Seq<Option<Seq<ActivityView>>>) -> PollLoopView
    decreases pages.len(),
{
    if pages.len() == 0 {
        s
    } else {
        poll_step(state_after(s, pages.drop_last()), pages.last()).0
    }
}

/// All that the loop shows on the outcomes of the listings `pages`, in
/// order.
pub open spec fn texts_after(s: PollLoopView, pages: Seq<Option<Seq<ActivityView>>>) -> Seq<
    Seq<char>,
>
    decreases pages.len(),
{
    if pages.len() == 0 {
        Seq::empty()
    } else {
        texts_after(s, pages.drop_last()) + poll_step(
            state_after(s, pages.drop_last()),
            pages.last(),
        ).1.texts
    }
}

/// The step that the loop takes on the listing `k` of `pages`.
pub open spec fn step_at(s: PollLoopView, pages: Seq<Option<Seq<ActivityView>>>, k: int) -> StepView {
    poll_step(state_after(s, pages.take(k)), pages[k]).1
}

/// Whether the listing `k` of `pages` brings the completion signal to the
/// loop.
pub open spec fn completes_at(
    s: PollLoopView,
    pages: Seq<Option<Seq<ActivityView>>>,
    k: int,
) -> bool {
    fetched(state_after(s, pages.take(k)).seen, pages[k]).completed
}

/// What the loop has seen stays seen: an id that was processed before the
/// listings `pages` is still marked after them, so that a record with that
/// id shows nothing in any of them.
pub proof fn law_seen_stays_seen(
    s: PollLoopView,
    pages: Seq<Option<Seq<ActivityView>>>,
    id: Seq<char>,
)
    requires
        s.seen.contains(id),
    ensures
        state_after(s, pages).seen.contains(id),
    decreases pages.len(),
{
    if pages.len() > 0 {
        law_seen_stays_seen(s, pages.drop_last(), id);
        let before = state_after(s, pages.drop_last());
        match pages.last() {
            Some(page) => {
                law_page_marks_its_records(before.seen, page);
            },
            None => {},
        }
    }
}

/// The completion signal ends the loop as completed, in the last listing
/// as in any other: the step tells the caller to signal the end of the
/// stream, shows no timeout notice, and every later step does nothing.
pub proof fn law_completion_ends_loop(
    s: PollLoopView,
    page: Seq<ActivityView>,
    later: Option<Seq<ActivityView>>,
)
    requires
        s.phase == Phase::Polling,
        page_result(s.seen, page).completed,
    ensures
        poll_step(s, Some(page)).0.phase == Phase::Completed,
        poll_step(s, Some(page)).1.next == NextView::Done,
        poll_step(s, Some(page)).1.texts == page_result(s.seen, page).texts,
        occurrences(poll_step(s, Some(page)).1.texts, TIMEOUT_NOTICE@) == 0,
        poll_step(poll_step(s, Some(page)).0, later) == (
            poll_step(s, Some(page)).0,
            StepView { texts: Seq::empty(), next: NextView::Stopped },
        ),
{
    law_page_shows_no_notice(s.seen, page);
}

/// A listing that failed is passed over: the loop shows nothing and marks
/// nothing, and unless it was the last of its listings the loop goes on to
/// the next.
pub proof fn law_failed_listing_is_passed_over(s: PollLoopView)
    requires
        s.phase == Phase::Polling,
    ensures
        poll_step(s, None).0.seen == s.seen,
        s.iterations < MAX_POLLS ==> poll_step(s, None) == (
            PollLoopView { iterations: (s.iterations + 1) as u32, ..s },
            StepView { texts: Seq::empty(), next: NextView::Poll(next_listing(s)) },
        ),
{
}

proof fn lemma_still_polling(s: PollLoopView, pages: Seq<Option<Seq<ActivityView>>>, k: int)
    requires
        s.phase == Phase::Polling,
        s.iterations == 1,
        0 <= k < MAX_POLLS,
        k <= pages.len(),
        forall|i: int| 0 <= i < k ==> !completes_at(s, pages, i),
    ensures
        state_after(s, pages.take(k)).phase == Phase::Polling,
        state_after(s, pages.take(k)).iterations == k + 1,
        occurrences(texts_after(s, pages.take(k)), TIMEOUT_NOTICE@) == 0,
    decreases k,
{
    if k > 0 {
        lemma_still_polling(s, pages, k - 1);
        assert(pages.take(k).drop_last() =~= pages.take(k - 1));
        assert(!completes_at(s, pages, k - 1));
        let before = state_after(s, pages.take(k - 1));
        lemma_fetched_shows_no_notice(before.seen, pages[k - 1]);
        lemma_occurrences_add(
            texts_after(s, pages.take(k - 1)),
            poll_step(before, pages[k - 1]).1.texts,
            TIMEOUT_NOTICE@,
        );
    }
}

proof fn lemma_fetched_shows_no_notice(seen: Set<Seq<char>>, page: Option<Seq<ActivityView>>)
    ensures
        occurrences(fetched(seen, page).texts, TIMEOUT_NOTICE@) == 0,
{
    match page {
        Some(p) => {
            law_page_shows_no_notice(seen, p);
        },
        None => {},
    }
}

proof fn lemma_stays_timed_out(s: PollLoopView, pages: Seq<Option<Seq<ActivityView>>>, k: int)
    requires
        s.phase == Phase::Polling,
        s.iterations == 1,
        MAX_POLLS <= k <= pages.len(),
        forall|i: int| 0 <= i < MAX_POLLS ==> !completes_at(s, pages, i),
    ensures
        state_after(s, pages.take(k)).phase == Phase::TimedOut,
        occurrences(texts_after(s, pages.take(k)), TIMEOUT_NOTICE@) == 1,
    decreases k,
{
    assert(pages.take(k).drop_last() =~= pages.take(k - 1));
    let before = state_after(s, pages.take(k - 1));
    let step = poll_step(before, pages[k - 1]).1;
    if k == MAX_POLLS {
        lemma_still_polling(s, pages, k - 1);
        assert(!completes_at(s, pages, k - 1));
        let page_texts = fetched(before.seen, pages[k - 1]).texts;
        lemma_fetched_shows_no_notice(before.seen, pages[k - 1]);
        assert(step.texts.drop_last() =~= page_texts);
    } else {
        lemma_stays_timed_out(s, pages, k - 1);
    }
    lemma_occurrences_add(texts_after(s, pages.take(k - 1)), step.texts, TIMEOUT_NOTICE@);
}

/// Without a completion signal the loop times out, once. From the start of
/// polling the loop makes `MAX_POLLS` listings, the first of them asked for
/// at the start. Where none of them brings the completion signal, the step
/// on each listing but the last asks for the next one, the step on the last
/// ends the loop as timed out with the notice as its last text, and
/// whatever is handed to the loop after that does nothing: among all that
/// the loop shows the notice stands once. No step of the loop fails.
pub proof fn law_timeout(s: PollLoopView, pages: Seq<Option<Seq<ActivityView>>>)
    requires
        s.phase == Phase::Polling,
        s.iterations == 1,
        pages.len() >= MAX_POLLS,
        forall|k: int| 0 <= k < MAX_POLLS ==> !completes_at(s, pages, k),
    ensures
        forall|k: int| 0 <= k < MAX_POLLS - 1 ==> (#[trigger] step_at(s, pages, k)).next is Poll,
        step_at(s, pages, MAX_POLLS - 1).next == NextView::TimedOut,
        step_at(s, pages, MAX_POLLS - 1).texts.len() > 0,
        step_at(s, pages, MAX_POLLS - 1).texts.last() == TIMEOUT_NOTICE@,
        forall|k: int|
            MAX_POLLS <= k < pages.len() ==> #[trigger] step_at(s, pages, k) == (StepView {
                texts: Seq::empty(),
                next: NextView::Stopped,
            }),
        state_after(s, pages).phase == Phase::TimedOut,
        occurrences(texts_after(s, pages), TIMEOUT_NOTICE@) == 1,
{
    assert forall|k: int| 0 <= k < MAX_POLLS - 1 implies (#[trigger] step_at(s, pages, k)).next
        is Poll by {
        lemma_still_polling(s, pages, k);
        assert(!completes_at(s, pages, k));
    }
    lemma_still_polling(s, pages, MAX_POLLS - 1);
    assert(!completes_at(s, pages, MAX_POLLS - 1));
    assert forall|k: int| MAX_POLLS <= k < pages.len() implies #[trigger] step_at(s, pages, k) == (
    StepView { texts: Seq::empty(), next: NextView::Stopped }) by {
        lemma_stays_timed_out(s, pages, k);
    }
    lemma_stays_timed_out(s, pages, pages.len() as int);
    assert(pages.take(pages.len() as int) =~= pages);
}

// ---------------------------------------------------------------------------
// The session
// ---------------------------------------------------------------------------

/// A submission makes one call for its session. With a session stored for
/// the conversation it sends the prompt to that session and creates none,
/// whether a source is set or not; with none stored, or without a
/// conversation, it creates one on the source and sends no message.
pub proof fn law_one_session_call(
    api_key: Seq<char>,
    api_base: Option<Seq<char>>,
    source: Option<Seq<char>>,
    sessions: Map<Seq<char>, Seq<char>>,
    session_key: Option<Seq<char>>,
    prompt: Seq<char>,
)
    ensures
        ({
            let first = begun(Some(api_key), api_base, source, sessions, session_key, prompt);
            &&& stored_session(sessions, session_key) is Some ==> first is Ok && first->Ok_0.1.kind
                == RequestKind::SendMessage
            &&& stored_session(sessions, session_key) is None && source is Some ==> first is Ok
                && first->Ok_0.1.kind == RequestKind::CreateSession
        }),
{
}

/// A submission fails before any call exactly where the API key is not
/// set, or where it has to create a session and no source is set.
pub proof fn law_missing_settings(
    api_key: Option<Seq<char>>,
    api_base: Option<Seq<char>>,
    source: Option<Seq<char>>,
    sessions: Map<Seq<char>, Seq<char>>,
    session_key: Option<Seq<char>>,
    prompt: Seq<char>,
)
    ensures
        ({
            let first = begun(api_key, api_base, source, sessions, session_key, prompt);
            &&& first is Err <==> api_key is None || (stored_session(sessions, session_key) is None
                && source is None)
            &&& api_key is None ==> first == Err::<(AwaitingView, RequestView), JulesErrorView>(
                JulesErrorView::ConfigurationMissing { setting: "api_key"@ },
            )
            &&& api_key is Some && first is Err ==> first == Err::<
                (AwaitingView, RequestView),
                JulesErrorView,
            >(JulesErrorView::ConfigurationMissing { setting: "source"@ })
        }),
{
}

/// After the call for its session a submission only lists activities: the
/// request that follows the answer, and every request of the loop, is a
/// listing.
pub proof fn law_later_calls_are_listings(
    pending: AwaitingView,
    sessions: Map<Seq<char>, Seq<char>>,
    status: u16,
    body: Seq<char>,
    s: PollLoopView,
    page: Option<Seq<ActivityView>>,
)
    ensures
        session_step(pending, sessions, status, body).started matches Ok(started)
            ==> started.1.kind == RequestKind::ListActivities,
        poll_step(s, page).1.next matches NextView::Poll(request) ==> request.kind
            == RequestKind::ListActivities,
{
}

/// An answer to a creation that names no session is malformed, and
/// nothing is stored for it: the registry stays as it was.
pub proof fn law_unnamed_session_is_malformed(
    pending: AwaitingView,
    sessions: Map<Seq<char>, Seq<char>>,
    status: u16,
    body: Seq<char>,
)
    requires
        pending.resumed is None,
        is_success(status),
        document_of(body) matches Some(doc) ==> !(member(doc, "name"@) matches Some(
            JsonView::String(_),
        )),
    ensures
        session_step(pending, sessions, status, body) == failed(
            sessions,
            JulesErrorView::MalformedResponse,
        ),
{
}

/// A failure of the first request stores nothing, whatever the failure.
pub proof fn law_failure_stores_nothing(
    pending: AwaitingView,
    sessions: Map<Seq<char>, Seq<char>>,
    status: u16,
    body: Seq<char>,
)
    requires
        session_step(pending, sessions, status, body).started is Err,
    ensures
        session_step(pending, sessions, status, body).sessions == sessions,
{
}

/// A session that was created for a conversation is resumed by the next
/// submission of that conversation: the call of that submission is a
/// message to the session that the creation named.
pub proof fn law_created_session_is_resumed(
    pending: AwaitingView,
    sessions: Map<Seq<char>, Seq<char>>,
    status: u16,
    body: Seq<char>,
    api_key: Seq<char>,
    api_base: Option<Seq<char>>,
    source: Option<Seq<char>>,
    prompt: Seq<char>,
)
    requires
        pending.session_key is Some,
        pending.resumed is None,
        session_step(pending, sessions, status, body).started is Ok,
    ensures
        ({
            let outcome = session_step(pending, sessions, status, body);
            let next = begun(
                Some(api_key),
                api_base,
                source,
                outcome.sessions,
                pending.session_key,
                prompt,
            );
            &&& next matches Ok(started)
            &&& started.1.kind == RequestKind::SendMessage
            &&& started.0.resumed == Some(outcome.started->Ok_0.0.session_id)
        }),
{
}

/// A submission that resumes a session, and every step of the loop, leaves
/// the registry as it is: the id of a conversation changes only where a
/// creation stores one.
pub proof fn law_resuming_keeps_the_registry(
    pending: AwaitingView,
    sessions: Map<Seq<char>, Seq<char>>,
    status: u16,
    body: Seq<char>,
)
    requires
        pending.resumed is Some,
    ensures
        session_step(pending, sessions, status, body).sessions == sessions,
{
}

// ---------------------------------------------------------------------------
// The built-in functions
// ---------------------------------------------------------------------------

/// The names that a declaration requires: the strings of the member
/// `required` of its schema.
pub open spec fn required_arguments(d: DeclarationView) -> Seq<JsonView> {
    items_of(member(d.parameters, "required"@))
}

/// Whether `args` gives each of the arguments `required` as a text.
pub open spec fn all_given(args: JsonView, required: Seq<JsonView>) -> bool {
    forall|k: int| 0 <= k < required.len() ==> given(args, #[trigger] required[k])
}

/// Whether `args` gives the argument that `name` names as a text.
pub open spec fn given(args: JsonView, name: JsonView) -> bool {
    name matches JsonView::String(n) && text_argument(args, n) is Some
}

/// Whether a failure is for an argument that `d` requires and that `args`
/// does not give as a text.
pub open spec fn missing_required(e: ToolErrorView, args: JsonView, d: DeclarationView) -> bool {
    e matches ToolErrorView::MissingArgument { name } && text_argument(args, name) is None
        && required_arguments(d).contains(JsonView::String(name))
}

proof fn lemma_names_differ()
    ensures
        "fs_cat"@ != "fs_ls"@,
        "fs_cat"@ != "fs_mkdir"@,
        "fs_cat"@ != "fs_write"@,
        "fs_cat"@ != "fs_patch"@,
        "fs_cat"@ != "fs_search"@,
        "fs_cat"@ != "command_run"@,
        "fs_cat"@ != "web_search"@,
        "fs_cat"@ != "web_browse"@,
        "fs_ls"@ != "fs_mkdir"@,
        "fs_ls"@ != "fs_write"@,
        "fs_ls"@ != "fs_patch"@,
        "fs_ls"@ != "fs_search"@,
        "fs_ls"@ != "command_run"@,
        "fs_ls"@ != "web_search"@,
        "fs_ls"@ != "web_browse"@,
        "fs_mkdir"@ != "fs_write"@,
        "fs_mkdir"@ != "fs_patch"@,
        "fs_mkdir"@ != "fs_search"@,
        "fs_mkdir"@ != "command_run"@,
        "fs_mkdir"@ != "web_search"@,
        "fs_mkdir"@ != "web_browse"@,
        "fs_write"@ != "fs_patch"@,
        "fs_write"@ != "fs_search"@,
        "fs_write"@ != "command_run"@,
        "fs_write"@ != "web_search"@,
        "fs_write"@ != "web_browse"@,
        "fs_patch"@ != "fs_search"@,
        "fs_patch"@ != "command_run"@,
        "fs_patch"@ != "web_search"@,
        "fs_patch"@ != "web_browse"@,
        "fs_search"@ != "command_run"@,
        "fs_search"@ != "web_search"@,
        "fs_search"@ != "web_browse"@,
        "command_run"@ != "web_search"@,
        "command_run"@ != "web_browse"@,
        "web_search"@ != "web_browse"@,
        "required"@ != "type"@,
        "required"@ != "properties"@,
{
    reveal_strlit("fs_cat");
    reveal_strlit("fs_ls");
    reveal_strlit("fs_mkdir");
    reveal_strlit("fs_write");
    reveal_strlit("fs_patch");
    reveal_strlit("fs_search");
    reveal_strlit("command_run");
    reveal_strlit("web_search");
    reveal_strlit("web_browse");
    reveal_strlit("required");
    reveal_strlit("type");
    reveal_strlit("properties");
    assert("fs_cat"@.len() == 6 && "fs_ls"@.len() == 5 && "fs_search"@.len() == 9);
    assert("command_run"@.len() == 11 && "web_search"@.len() == 10 && "web_browse"@.len() == 10);
    assert("fs_mkdir"@.len() == 8 && "fs_write"@.len() == 8 && "fs_patch"@.len() == 8);
    assert("fs_mkdir"@[3] == 'm' && "fs_write"@[3] == 'w' && "fs_patch"@[3] == 'p');
    assert("web_search"@[4] == 's' && "web_browse"@[4] == 'b');
    assert("required"@.len() == 8 && "type"@.len() == 4 && "properties"@.len() == 10);
}

/// Whether a function of the name `name` is declared.
pub open spec fn is_declared(name: Seq<char>) -> bool {
    exists|i: int|
        0 <= i < declaration_table().len() && (#[trigger] declaration_table()[i]).name == name
}

/// A call fails as unknown exactly for the names that are not declared: a
/// declared name gives a call or fails for a missing argument, and any
/// other name fails with that name, whatever the arguments.
pub proof fn law_undeclared_names_fail(name: Seq<char>, args: JsonView)
    ensures
        is_declared(name) <==> !(planned(name, args) is Err && planned(name, args)->Err_0
            is UnknownFunction),
        !is_declared(name) ==> planned(name, args) == Err::<ToolCallView, ToolErrorView>(
            ToolErrorView::UnknownFunction { name },
        ),
{
    let table = declaration_table();
    if !(planned(name, args) is Err && planned(name, args)->Err_0 is UnknownFunction) {
        let i: int = if name == "fs_cat"@ {
            0
        } else if name == "fs_ls"@ {
            1
        } else if name == "fs_mkdir"@ {
            2
        } else if name == "fs_write"@ {
            3
        } else if name == "fs_patch"@ {
            4
        } else if name == "fs_search"@ {
            5
        } else if name == "command_run"@ {
            6
        } else if name == "web_search"@ {
            7
        } else {
            8
        };
        assert(table[i].name == name);
    }
}

/// A call of a declared function is read exactly where the arguments that
/// its declaration requires are given as texts; else the call fails for an
/// argument that is missing.
pub proof fn law_required_arguments_decide(i: int, args: JsonView)
    requires
        0 <= i < declaration_table().len(),
    ensures
        ({
            let d = declaration_table()[i];
            let read = planned(d.name, args);
            &&& read is Ok <==> all_given(args, required_arguments(d))
            &&& read is Err ==> missing_required(read->Err_0, args, d)
        }),
{
    lemma_names_differ();
    let d = declaration_table()[i];
    let required = required_arguments(d);
    if i == 1 {
        assert(required =~= Seq::<JsonView>::empty());
    } else if i == 3 {
        assert(required =~= seq![JsonView::String("path"@), JsonView::String("contents"@)]);
        assert(required[0] == JsonView::String("path"@));
        assert(required[1] == JsonView::String("contents"@));
    } else if i == 4 {
        assert(required =~= seq![
            JsonView::String("path"@),
            JsonView::String("search"@),
            JsonView::String("replace"@),
        ]);
        assert(required[0] == JsonView::String("path"@));
        assert(required[1] == JsonView::String("search"@));
        assert(required[2] == JsonView::String("replace"@));
    } else if i == 5 {
        assert(required =~= seq![JsonView::String("path"@), JsonView::String("text"@)]);
        assert(required[0] == JsonView::String("path"@));
        assert(required[1] == JsonView::String("text"@));
    } else {
        assert(required.len() == 1);
        assert(required[0] is String);
    }
}

} // verus!
