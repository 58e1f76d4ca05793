//! Activity records of a remote session: what a record is, how a JSON record
//! is classified, and the text each kind of record shows.

use vstd::prelude::*;
use vstd::string::*;
use crate::json::{
    JsonView, member, member_of, text_of, items_of, is_object, value_model, models, model_opt,
    get_member, text_or_empty, holds_object, value_as_array,
};

verus! {

/// One step of a generated plan.
#[derive(Debug, Clone)]
pub struct PlanStep {
    pub title: String,
}

/// What an activity record carries. A record may carry several of these.
#[derive(Debug, Clone)]
pub enum ActivityPayload {
    PlanGenerated { steps: Vec<PlanStep> },
    ProgressUpdate { title: String, description: String },
    ArtifactBashOutput { command: String, output: String },
    ArtifactChangeSet,
    SessionCompleted,
    Unclassified,
}

/// One event of a remote session.
#[derive(Debug, Clone)]
pub struct Activity {
    pub id: String,
    pub originator: String,
    pub payloads: Vec<ActivityPayload>,
}

pub enum PayloadView {
    PlanGenerated { steps: Seq<Seq<char>> },
    ProgressUpdate { title: Seq<char>, description: Seq<char> },
    ArtifactBashOutput { command: Seq<char>, output: Seq<char> },
    ArtifactChangeSet,
    SessionCompleted,
    Unclassified,
}

pub struct ActivityView {
    pub id: Seq<char>,
    pub originator: Seq<char>,
    pub payloads: Seq<PayloadView>,
}

/// The titles of a plan's steps, in order.
pub open spec fn titles(steps: Seq<PlanStep>) -> Seq<Seq<char>> {
    steps.map_values(|s: PlanStep| s.title@)
}

impl View for ActivityPayload {
    type V = PayloadView;

    open spec fn view(&self) -> PayloadView {
        match self {
            ActivityPayload::PlanGenerated { steps } => PayloadView::PlanGenerated {
                steps: titles(steps@),
            },
            ActivityPayload::ProgressUpdate { title, description } => PayloadView::ProgressUpdate {
                title: title@,
                description: description@,
            },
            ActivityPayload::ArtifactBashOutput { command, output } => PayloadView::ArtifactBashOutput {
                command: command@,
                output: output@,
            },
            ActivityPayload::ArtifactChangeSet => PayloadView::ArtifactChangeSet,
            ActivityPayload::SessionCompleted => PayloadView::SessionCompleted,
            ActivityPayload::Unclassified => PayloadView::Unclassified,
        }
    }
}

/// The views of a sequence of payloads, in order.
pub open spec fn payload_views(ps: Seq<ActivityPayload>) -> Seq<PayloadView> {
    ps.map_values(|p: ActivityPayload| p@)
}

impl View for Activity {
    type V = ActivityView;

    open spec fn view(&self) -> ActivityView {
        ActivityView {
            id: self.id@,
            originator: self.originator@,
            payloads: payload_views(self.payloads@),
        }
    }
}

/// The views of a page of activities, in order.
pub open spec fn page_view(page: Seq<Activity>) -> Seq<ActivityView> {
    page.map_values(|a: Activity| a@)
}

// ---------------------------------------------------------------------------
// Classification
// ---------------------------------------------------------------------------

/// The titles of the steps of a plan, a missing title read as empty.
pub open spec fn step_titles(steps: Seq<JsonView>) -> Seq<Seq<char>> {
    steps.map_values(|s: JsonView| text_of(member(s, "title"@)))
}

/// The plan that a record carries, if any: the member `plan` of its member
/// `planGenerated`, where that is an object.
pub open spec fn plan_payloads(j: JsonView) -> Seq<PayloadView> {
    let plan = member_of(member(j, "planGenerated"@), "plan"@);
    if is_object(plan) {
        seq![
            PayloadView::PlanGenerated {
                steps: step_titles(items_of(member_of(plan, "steps"@))),
            },
        ]
    } else {
        Seq::empty()
    }
}

/// The progress update that a record carries, if any: its member
/// `progressUpdated`, where that is an object.
pub open spec fn progress_payloads(j: JsonView) -> Seq<PayloadView> {
    let progress = member(j, "progressUpdated"@);
    if is_object(progress) {
        seq![
            PayloadView::ProgressUpdate {
                title: text_of(member_of(progress, "title"@)),
                description: text_of(member_of(progress, "description"@)),
            },
        ]
    } else {
        Seq::empty()
    }
}

/// What one artifact carries: its shell output, then its change set.
pub open spec fn artifact_payloads(j: JsonView) -> Seq<PayloadView> {
    let bash = member(j, "bashOutput"@);
    let shell = if is_object(bash) {
        seq![
            PayloadView::ArtifactBashOutput {
                command: text_of(member_of(bash, "command"@)),
                output: text_of(member_of(bash, "output"@)),
            },
        ]
    } else {
        Seq::empty()
    };
    let change = if is_object(member(j, "changeSet"@)) {
        seq![PayloadView::ArtifactChangeSet]
    } else {
        Seq::empty()
    };
    shell + change
}

/// What a list of artifacts carries, artifact by artifact in listed order.
pub open spec fn artifacts_payloads(items: Seq<JsonView>) -> Seq<PayloadView>
    decreases items.len(),
{
    if items.len() == 0 {
        Seq::empty()
    } else {
        artifacts_payloads(items.drop_last()) + artifact_payloads(items.last())
    }
}

/// The completion signal, where a record has a member `sessionCompleted`.
pub open spec fn completion_payloads(j: JsonView) -> Seq<PayloadView> {
    if member(j, "sessionCompleted"@) is Some {
        seq![PayloadView::SessionCompleted]
    } else {
        Seq::empty()
    }
}

/// Everything a record carries, in the fixed order plan, progress, artifacts,
/// completion.
pub open spec fn carried(j: JsonView) -> Seq<PayloadView> {
    plan_payloads(j) + progress_payloads(j) + artifacts_payloads(
        items_of(member(j, "artifacts"@)),
    ) + completion_payloads(j)
}

/// The payloads of a record: what it carries, or `Unclassified` alone where
/// it carries nothing.
pub open spec fn classify(j: JsonView) -> Seq<PayloadView> {
    if carried(j).len() == 0 {
        seq![PayloadView::Unclassified]
    } else {
        carried(j)
    }
}

/// The activity that a JSON record stands for. Its id is the member `name`;
/// a missing or ill-typed member reads as empty.
pub open spec fn activity_of(j: JsonView) -> ActivityView {
    ActivityView {
        id: text_of(member(j, "name"@)),
        originator: text_of(member(j, "originator"@)),
        payloads: classify(j),
    }
}

/// The page of activities in the answer to a listing: the elements of its
/// member `activities`, in order; no activity where that is no array.
pub open spec fn page_of(j: JsonView) -> Seq<ActivityView> {
    items_of(member(j, "activities"@)).map_values(|r: JsonView| activity_of(r))
}

/// The elements of `v`, where `v` is there and is an array.
fn elements<'a>(v: Option<&'a serde_json::Value>) -> (r: Option<&'a Vec<serde_json::Value>>)
    ensures
        match r {
            Some(items) => items_of(model_opt(v)) == models(items@),
            None => items_of(model_opt(v)) == Seq::<JsonView>::empty(),
        },
{
    match v {
        Some(x) => value_as_array(x),
        None => None,
    }
}

fn plan_steps(v: Option<&serde_json::Value>) -> (steps: Vec<PlanStep>)
    ensures
        titles(steps@) == step_titles(items_of(model_opt(v))),
{
    let mut steps: Vec<PlanStep> = Vec::new();
    match elements(v) {
        Some(items) => {
            let mut i: usize = 0;
            while i < items.len()
                invariant
                    i <= items.len(),
                    titles(steps@) == step_titles(models(items@).take(i as int)),
                decreases items.len() - i,
            {
                let title = text_or_empty(get_member(Some(&items[i]), "title"));
                proof {
                    let all = models(items@);
                    assert(step_titles(all.take(i + 1)) == step_titles(all.take(i as int)).push(
                        text_of(member(all[i as int], "title"@)),
                    ));
                }
                steps.push(PlanStep { title });
                i = i + 1;
            }
        },
        None => {},
    }
    steps
}

fn push_payload(out: &mut Vec<ActivityPayload>, p: ActivityPayload)
    ensures
        payload_views(final(out)@) == payload_views(old(out)@).push(p@),
{
    out.push(p);
}

fn push_plan(out: &mut Vec<ActivityPayload>, record: &serde_json::Value)
    ensures
        payload_views(final(out)@) == payload_views(old(out)@) + plan_payloads(value_model(*record)),
{
    let plan = get_member(get_member(Some(record), "planGenerated"), "plan");
    if holds_object(plan) {
        let steps = plan_steps(get_member(plan, "steps"));
        push_payload(out, ActivityPayload::PlanGenerated { steps });
    }
}

fn push_progress(out: &mut Vec<ActivityPayload>, record: &serde_json::Value)
    ensures
        payload_views(final(out)@) == payload_views(old(out)@) + progress_payloads(
            value_model(*record),
        ),
{
    let progress = get_member(Some(record), "progressUpdated");
    if holds_object(progress) {
        let title = text_or_empty(get_member(progress, "title"));
        let description = text_or_empty(get_member(progress, "description"));
        push_payload(out, ActivityPayload::ProgressUpdate { title, description });
    }
}

fn push_artifact(out: &mut Vec<ActivityPayload>, artifact: &serde_json::Value)
    ensures
        payload_views(final(out)@) == payload_views(old(out)@) + artifact_payloads(
            value_model(*artifact),
        ),
{
    let bash = get_member(Some(artifact), "bashOutput");
    if holds_object(bash) {
        let command = text_or_empty(get_member(bash, "command"));
        let output = text_or_empty(get_member(bash, "output"));
        push_payload(out, ActivityPayload::ArtifactBashOutput { command, output });
    }
    if holds_object(get_member(Some(artifact), "changeSet")) {
        push_payload(out, ActivityPayload::ArtifactChangeSet);
    }
}

fn push_artifacts(out: &mut Vec<ActivityPayload>, record: &serde_json::Value)
    ensures
        payload_views(final(out)@) == payload_views(old(out)@) + artifacts_payloads(
            items_of(member(value_model(*record), "artifacts"@)),
        ),
{
    match elements(get_member(Some(record), "artifacts")) {
        Some(items) => {
            let mut i: usize = 0;
            while i < items.len()
                invariant
                    i <= items.len(),
                    payload_views(out@) == payload_views(old(out)@) + artifacts_payloads(
                        models(items@).take(i as int),
                    ),
                decreases items.len() - i,
            {
                proof {
                    let all = models(items@);
                    assert(all.take(i + 1).drop_last() == all.take(i as int));
                }
                push_artifact(out, &items[i]);
                i = i + 1;
            }
            proof {
                assert(models(items@).take(i as int) == models(items@));
            }
        },
        None => {},
    }
}

impl Activity {
    /// Reads one JSON record of a listing. Nothing is required of the record:
    /// what is missing or of another type reads as empty or as not there.
    pub fn from_value(record: &serde_json::Value) -> (a: Activity)
        ensures
            a@ == activity_of(value_model(*record)),
    {
        let id = text_or_empty(get_member(Some(record), "name"));
        let originator = text_or_empty(get_member(Some(record), "originator"));
        let mut payloads: Vec<ActivityPayload> = Vec::new();
        push_plan(&mut payloads, record);
        push_progress(&mut payloads, record);
        push_artifacts(&mut payloads, record);
        if get_member(Some(record), "sessionCompleted").is_some() {
            push_payload(&mut payloads, ActivityPayload::SessionCompleted);
        }
        assert(payload_views(payloads@) == carried(value_model(*record)));
        if payloads.len() == 0 {
            push_payload(&mut payloads, ActivityPayload::Unclassified);
        }
        Activity { id, originator, payloads }
    }
}

/// The page of activities that the answer to a listing holds, in the order
/// of the answer.
pub fn activities_of(answer: &serde_json::Value) -> (page: Vec<Activity>)
    ensures
        page_view(page@) == page_of(value_model(*answer)),
{
    let mut page: Vec<Activity> = Vec::new();
    match elements(get_member(Some(answer), "activities")) {
        Some(items) => {
            let mut i: usize = 0;
            while i < items.len()
                invariant
                    i <= items.len(),
                    page_view(page@) == models(items@).take(i as int).map_values(
                        |r: JsonView| activity_of(r),
                    ),
                decreases items.len() - i,
            {
                let a = Activity::from_value(&items[i]);
                proof {
                    assert(page_view(page@.push(a)) == page_view(page@).push(a@));
                }
                page.push(a);
                i = i + 1;
            }
        },
        None => {},
    }
    page
}

// ---------------------------------------------------------------------------
// Rendering
// ---------------------------------------------------------------------------

/// One bullet line per step title, in order.
pub open spec fn bullets(steps: Seq<Seq<char>>) -> Seq<char>
    decreases steps.len(),
{
    if steps.len() == 0 {
        Seq::empty()
    } else {
        bullets(steps.drop_last()) + "- "@ + steps.last() + "\n"@
    }
}

/// The text that one payload shows.
pub open spec fn payload_text(p: PayloadView) -> Seq<char> {
    match p {
        PayloadView::PlanGenerated { steps } => "\n**Plan Generated:**\n"@ + bullets(steps) + "\n"@,
        PayloadView::ProgressUpdate { title, description } => "> "@ + title + " "@ + description
            + "\n"@,
        PayloadView::ArtifactBashOutput { command, output } => "```bash\n$ "@ + command + "\n"@
            + output + "\n```\n"@,
        PayloadView::ArtifactChangeSet => "```diff\n[Code Change Applied]\n```\n"@,
        PayloadView::SessionCompleted => Seq::empty(),
        PayloadView::Unclassified => Seq::empty(),
    }
}

/// Whether a payload shows any text.
pub open spec fn emits(p: PayloadView) -> bool {
    p is PlanGenerated || p is ProgressUpdate || p is ArtifactBashOutput || p is ArtifactChangeSet
}

/// The texts of a sequence of payloads, one after the other.
pub open spec fn payloads_text(ps: Seq<PayloadView>) -> Seq<char>
    decreases ps.len(),
{
    if ps.len() == 0 {
        Seq::empty()
    } else {
        payloads_text(ps.drop_last()) + payload_text(ps.last())
    }
}

/// Whether any of the payloads shows text.
pub open spec fn any_emits(ps: Seq<PayloadView>) -> bool {
    exists|i: int| 0 <= i < ps.len() && emits(#[trigger] ps[i])
}

/// The text that an activity shows: the texts of its payloads in their order,
/// or nothing where no payload shows any.
pub open spec fn rendered(a: ActivityView) -> Option<Seq<char>> {
    if any_emits(a.payloads) {
        Some(payloads_text(a.payloads))
    } else {
        None
    }
}

/// Whether an activity carries the completion signal.
pub open spec fn signals_completion(a: ActivityView) -> bool {
    exists|i: int| 0 <= i < a.payloads.len() && #[trigger] a.payloads[i] is SessionCompleted
}

fn render_plan(steps: &Vec<PlanStep>) -> (r: String)
    ensures
        r@ == payload_text(PayloadView::PlanGenerated { steps: titles(steps@) }),
{
    let mut lines: String = String::new();
    let mut i: usize = 0;
    while i < steps.len()
        invariant
            i <= steps.len(),
            lines@ == bullets(titles(steps@).take(i as int)),
        decreases steps.len() - i,
    {
        proof {
            let ts = titles(steps@);
            assert(ts.take(i + 1).drop_last() == ts.take(i as int));
        }
        lines.append("- ");
        lines.append(steps[i].title.as_str());
        lines.append("\n");
        i = i + 1;
    }
    proof {
        assert(titles(steps@).take(i as int) == titles(steps@));
    }
    let mut out: String = "\n**Plan Generated:**\n".to_owned();
    out.append(lines.as_str());
    out.append("\n");
    out
}

fn render_payload(p: &ActivityPayload) -> (r: String)
    ensures
        r@ == payload_text(p@),
{
    match p {
        ActivityPayload::PlanGenerated { steps } => render_plan(steps),
        ActivityPayload::ProgressUpdate { title, description } => {
            let mut out: String = "> ".to_owned();
            out.append(title.as_str());
            out.append(" ");
            out.append(description.as_str());
            out.append("\n");
            out
        },
        ActivityPayload::ArtifactBashOutput { command, output } => {
            let mut out: String = "```bash\n$ ".to_owned();
            out.append(command.as_str());
            out.append("\n");
            out.append(output.as_str());
            out.append("\n```\n");
            out
        },
        ActivityPayload::ArtifactChangeSet => "```diff\n[Code Change Applied]\n```\n".to_owned(),
        ActivityPayload::SessionCompleted => String::new(),
        ActivityPayload::Unclassified => String::new(),
    }
}

fn payload_emits(p: &ActivityPayload) -> (r: bool)
    ensures
        r == emits(p@),
{
    match p {
        ActivityPayload::PlanGenerated { .. } => true,
        ActivityPayload::ProgressUpdate { .. } => true,
        ActivityPayload::ArtifactBashOutput { .. } => true,
        ActivityPayload::ArtifactChangeSet => true,
        ActivityPayload::SessionCompleted => false,
        ActivityPayload::Unclassified => false,
    }
}

/// The text that `activity` shows, or nothing where it shows none.
pub fn classify_and_render(activity: &Activity) -> (r: Option<String>)
    ensures
        match r {
            Some(text) => rendered(activity@) == Some(text@),
            None => rendered(activity@) is None,
        },
{
    let ghost ps = payload_views(activity.payloads@);
    let mut text: String = String::new();
    let mut any: bool = false;
    let mut i: usize = 0;
    while i < activity.payloads.len()
        invariant
            i <= activity.payloads.len(),
            ps == payload_views(activity.payloads@),
            text@ == payloads_text(ps.take(i as int)),
            any == any_emits(ps.take(i as int)),
        decreases activity.payloads.len() - i,
    {
        let p = &activity.payloads[i];
        proof {
            assert(ps.take(i + 1).drop_last() == ps.take(i as int));
            assert(ps.take(i + 1).last() == p@);
        }
        let piece = render_payload(p);
        text.append(piece.as_str());
        if payload_emits(p) {
            any = true;
        }
        i = i + 1;
    }
    proof {
        assert(ps.take(i as int) == ps);
    }
    if any {
        Some(text)
    } else {
        None
    }
}

/// Whether `activity` carries the completion signal.
pub fn is_completion(activity: &Activity) -> (r: bool)
    ensures
        r == signals_completion(activity@),
{
    let ghost ps = payload_views(activity.payloads@);
    let mut i: usize = 0;
    while i < activity.payloads.len()
        invariant
            i <= activity.payloads.len(),
            ps == payload_views(activity.payloads@),
            forall|k: int| 0 <= k < i ==> !(#[trigger] ps[k] is SessionCompleted),
        decreases activity.payloads.len() - i,
    {
        match &activity.payloads[i] {
            ActivityPayload::SessionCompleted => {
                assert(ps[i as int] is SessionCompleted);
                return true;
            },
            _ => {},
        }
        i = i + 1;
    }
    false
}

} // verus!
