//! What holds of every run, proved from the model in [`crate::run`].

use vstd::prelude::*;
use crate::artifact::{artifact_path, joined, rendered};
use crate::error::{BuildError, RunError};
use crate::event::{ActionView, DirEntry, Event};
use crate::html::{converted_page, index_links, main_content, selected_inner_html};
use crate::run::{crawl_targets, is_target, output_dir, RunState, Stage};

verus! {

impl Stage {
    /// The content server has reported itself bound.
    pub open spec fn serving(self) -> bool {
        self is PreparingOutput || self is Listing || self is FetchingIndex || self is FetchingPage
            || self is Writing || self is Finished
    }
}

/// The state after a run has heard `events`, one after the other.
pub open spec fn after(state: RunState, events: Seq<Event>) -> RunState
    decreases events.len(),
{
    if events.len() == 0 {
        state
    } else {
        after(state, events.drop_last()).step(events.last()).0
    }
}

/// Every package that is crawled is a resolved package and names a
/// directory of the listing.
pub proof fn lemma_targets_are_resolved_directories(
    entries: Seq<DirEntry>,
    packages: Set<Seq<char>>,
)
    ensures
        forall|i: int|
            0 <= i < crawl_targets(entries, packages).len() ==> {
                let id = #[trigger] crawl_targets(entries, packages)[i];
                &&& packages.contains(id)
                &&& exists|k: int|
                    0 <= k < entries.len() && is_target(#[trigger] entries[k], packages)
                        && entries[k].name->0@ == id
            },
    decreases entries.len(),
{
    if entries.len() > 0 {
        let rest = entries.drop_last();
        lemma_targets_are_resolved_directories(rest, packages);
        let targets = crawl_targets(entries, packages);
        assert forall|i: int| 0 <= i < targets.len() implies {
            let id = #[trigger] targets[i];
            &&& packages.contains(id)
            &&& exists|k: int|
                0 <= k < entries.len() && is_target(#[trigger] entries[k], packages)
                    && entries[k].name->0@ == id
        } by {
            let id = targets[i];
            if i < crawl_targets(rest, packages).len() {
                assert(id == crawl_targets(rest, packages)[i]);
                let k = choose|k: int|
                    0 <= k < rest.len() && is_target(#[trigger] rest[k], packages)
                        && rest[k].name->0@ == id;
                assert(entries[k] == rest[k]);
            } else {
                assert(is_target(entries[entries.len() - 1], packages));
            }
        }
    }
}

/// A directory of the documentation tree whose name is no resolved package
/// is not crawled, so no artifact is made for it.
pub proof fn lemma_unresolved_directory_is_skipped(
    entries: Seq<DirEntry>,
    packages: Set<Seq<char>>,
    name: Seq<char>,
)
    requires
        !packages.contains(name),
    ensures
        !crawl_targets(entries, packages).contains(name),
{
    lemma_targets_are_resolved_directories(entries, packages);
}

/// Whatever the listing of the documentation tree holds, the run does not
/// fail on it: it turns to the first package or ends with its summary.
pub proof fn lemma_listing_is_no_error(state: RunState, entries: Vec<DirEntry>)
    requires
        state.stage is Listing,
    ensures
        !(state.step(Event::DocTree(Some(entries))).1 is Fail),
        !(state.step(Event::DocTree(Some(entries))).0.stage is Failed),
{
}

/// A step leads from a state that runs reach to a state that runs reach.
pub proof fn lemma_step_keeps_wf(state: RunState, event: Event)
    requires
        state.wf(),
    ensures
        state.step(event).0.wf(),
{
    if state.stage is Listing {
        if let Event::DocTree(Some(entries)) = event {
            lemma_targets_are_resolved_directories(entries@, state.packages);
        }
    }
}

/// A run that begins reaches only well-formed states.
pub proof fn lemma_run_keeps_wf(repo: Seq<char>, events: Seq<Event>)
    ensures
        after(RunState::initial(repo), events).wf(),
    decreases events.len(),
{
    if events.len() > 0 {
        lemma_run_keeps_wf(repo, events.drop_last());
        lemma_step_keeps_wf(after(RunState::initial(repo), events.drop_last()), events.last());
    }
}

/// Every artifact that the run asks to write belongs to a resolved package
/// that is being crawled, and is named after it.
pub proof fn lemma_artifacts_belong_to_packages(state: RunState, event: Event)
    requires
        state.wf(),
    ensures
        state.step(event).1 matches ActionView::Write { path, content } ==> {
            let next = state.step(event).0;
            &&& 0 <= next.target < next.targets.len()
            &&& next.packages.contains(next.targets[next.target])
            &&& path == artifact_path(output_dir(), next.targets[next.target])
            &&& content == joined(next.pages)
        },
{
    lemma_step_keeps_wf(state, event);
}

/// Nothing is fetched and nothing is written unless the content server has
/// reported itself bound.
pub proof fn lemma_fetch_waits_for_server(state: RunState, event: Event)
    ensures
        (state.step(event).1 is Fetch || state.step(event).1 is Write) ==> state.stage.serving(),
{
}

/// The only way into serving is the report that the server is bound.
pub proof fn lemma_serving_begins_when_bound(state: RunState, event: Event)
    requires
        !state.stage.serving(),
        state.step(event).0.stage.serving(),
    ensures
        state.stage is Binding,
        event == Event::ServerBound(true),
{
}

/// A failed run stays failed: whatever it hears, it answers with its
/// failure and asks for nothing.
pub proof fn lemma_failure_is_final(state: RunState, error: RunError, events: Seq<Event>)
    requires
        state.stage == Stage::Failed(error),
    ensures
        after(state, events) == state,
        forall|event: Event| #[trigger]
            state.step(event) == (state, ActionView::Fail { error }),
    decreases events.len(),
{
    if events.len() > 0 {
        lemma_failure_is_final(state, error, events.drop_last());
    }
}

/// A generator that leaves without success fails the run at once, before
/// the server is started or anything is fetched, and the run stays failed.
pub proof fn lemma_generator_failure_ends_run(state: RunState, events: Seq<Event>)
    requires
        state.stage is Generating,
    ensures
        state.step(Event::GeneratorExit(false)).1 == (ActionView::Fail {
            error: RunError::Build(BuildError::GeneratorFailed),
        }),
        !state.stage.serving(),
        after(state.step(Event::GeneratorExit(false)).0, events).stage == Stage::Failed(
            RunError::Build(BuildError::GeneratorFailed),
        ),
        after(state.step(Event::GeneratorExit(false)).0, events).written == state.written,
{
    let failed = state.step(Event::GeneratorExit(false)).0;
    lemma_failure_is_final(failed, RunError::Build(BuildError::GeneratorFailed), events);
}

/// A manifest that cannot be read or parsed fails the run before the
/// generator is started.
pub proof fn lemma_resolution_failure_ends_run(state: RunState, events: Seq<Event>)
    requires
        state.stage is Resolving,
    ensures
        state.step(Event::Packages(None)).1 == (ActionView::Fail { error: RunError::Resolution }),
        after(state.step(Event::Packages(None)).0, events).stage == Stage::Failed(
            RunError::Resolution,
        ),
{
    let failed = state.step(Event::Packages(None)).0;
    lemma_failure_is_final(failed, RunError::Resolution, events);
}

/// A package whose index page links to nothing is written all the same,
/// with empty text, and once written it is listed in the summary.
pub proof fn lemma_empty_artifact_is_written_and_listed(state: RunState, index: String)
    requires
        state.wf(),
        state.stage is FetchingIndex,
        index_links(index@).len() == 0,
    ensures
        ({
            let path = artifact_path(output_dir(), state.targets[state.target]);
            let (writing, action) = state.step(Event::Fetched(Some(index)));
            &&& action == (ActionView::Write { path, content: Seq::empty() })
            &&& writing.stage is Writing
            &&& writing.step(Event::Written(true)).0.written == state.written.push(path)
        }),
{
}

/// Whatever an artifact holds, once written it is listed last in the
/// summary; an artifact that could not be written is not listed, and the
/// run goes on with the next package either way.
pub proof fn lemma_written_artifact_is_listed(state: RunState, done: bool)
    requires
        state.wf(),
        state.stage is Writing,
    ensures
        ({
            let path = artifact_path(output_dir(), state.targets[state.target]);
            let (next, action) = state.step(Event::Written(done));
            &&& next.written == if done {
                state.written.push(path)
            } else {
                state.written
            }
            &&& next.target == state.target + 1
            &&& !(action is Fail)
            &&& action is Done ==> action == (ActionView::Done { summary: rendered(next.written) })
        }),
{
}

/// A fetch that fails costs the run one page or one package and nothing
/// more: the pages gathered before stay, in their order, and the run does
/// not fail.
pub proof fn lemma_failed_fetch_is_skipped(state: RunState)
    requires
        state.wf(),
        state.stage is FetchingIndex || state.stage is FetchingPage,
    ensures
        ({
            let (next, action) = state.step(Event::Fetched(None));
            &&& !(action is Fail)
            &&& next.written == state.written
            &&& state.stage is FetchingPage ==> next.pages == state.pages && next.target
                == state.target && next.link == state.link + 1
            &&& state.stage is FetchingIndex ==> next.target == state.target + 1
        }),
{
}

/// A fetched page adds at most its own markdown, behind the pages gathered
/// before it: pages stand in an artifact in the order of their links.
pub proof fn lemma_pages_keep_link_order(state: RunState, event: Event)
    requires
        state.stage is FetchingPage,
    ensures
        ({
            let next = state.step(event).0;
            next.pages == state.pages || (next.pages.len() == state.pages.len() + 1
                && next.pages.drop_last() == state.pages)
        }),
{
    let next = state.step(event).0;
    if next.pages != state.pages {
        assert(next.pages.drop_last() =~= state.pages);
    }
}

/// A page on which no element is marked as main content has empty content
/// and converts to nothing; fetched in a crawl, it leaves the artifact as it
/// was and the run goes on.
pub proof fn lemma_unmarked_page_adds_nothing(state: RunState, page: String)
    requires
        selected_inner_html(page@, "#main-content"@) matches Some(marked) ==> marked.len() == 0,
        state.stage is FetchingPage,
    ensures
        main_content(page@).len() == 0,
        converted_page(page@) is None,
        state.step(Event::Fetched(Some(page))).0.pages == state.pages,
        !(state.step(Event::Fetched(Some(page))).1 is Fail),
{
}

impl Stage {
    /// The run is still at work on packages and build: it has not asked for
    /// the server, and has neither failed nor ended.
    pub open spec fn building(self) -> bool {
        self is Resolving || self is LocatingRoot || self is FallingBack || self is Generating
            || self is CheckingOutput
    }
}

/// Whether an action touches the server, the network or the artifacts.
pub open spec fn reaches_out(action: ActionView) -> bool {
    action is Serve || action is CreateOutputDir || action is ListDocTree || action is Fetch
        || action is Write
}

/// The actions that a run answers with while it hears `events`, in order.
pub open spec fn answers(state: RunState, events: Seq<Event>) -> Seq<ActionView>
    decreases events.len(),
{
    if events.len() == 0 {
        Seq::empty()
    } else {
        answers(state, events.drop_last()).push(
            after(state, events.drop_last()).step(events.last()).1,
        )
    }
}

/// A run that is still building has been building all along and has not
/// reached out yet.
pub proof fn lemma_building_run_has_not_reached_out(state: RunState, events: Seq<Event>)
    requires
        after(state, events).stage.building(),
    ensures
        state.stage.building(),
        forall|i: int|
            0 <= i < answers(state, events).len() ==> !reaches_out(
                #[trigger] answers(state, events)[i],
            ),
    decreases events.len(),
{
    if events.len() > 0 {
        let before = after(state, events.drop_last());
        assert(before.stage.building());
        lemma_building_run_has_not_reached_out(state, events.drop_last());
        let earlier = answers(state, events.drop_last());
        let last = before.step(events.last()).1;
        assert(!reaches_out(last));
        assert forall|i: int| 0 <= i < answers(state, events).len() implies !reaches_out(
            #[trigger] answers(state, events)[i],
        ) by {
            if i < earlier.len() {
                assert(answers(state, events)[i] == earlier[i]);
            } else {
                assert(answers(state, events)[i] == last);
            }
        }
    }
}

/// A failed run has answered with nothing but its failure since it failed.
pub proof fn lemma_failed_run_only_fails(state: RunState, error: RunError, events: Seq<Event>)
    requires
        state.stage == Stage::Failed(error),
    ensures
        forall|i: int|
            0 <= i < answers(state, events).len() ==> #[trigger] answers(state, events)[i] == (
            ActionView::Fail { error }),
    decreases events.len(),
{
    if events.len() > 0 {
        lemma_failed_run_only_fails(state, error, events.drop_last());
        lemma_failure_is_final(state, error, events.drop_last());
    }
}

/// Hearing `first` and then `second` is hearing them joined.
pub proof fn lemma_answers_join(state: RunState, first: Seq<Event>, second: Seq<Event>)
    ensures
        after(state, first + second) == after(after(state, first), second),
        answers(state, first + second) == answers(state, first) + answers(
            after(state, first),
            second,
        ),
    decreases second.len(),
{
    if second.len() == 0 {
        assert(first + second =~= first);
        assert(answers(state, first) + Seq::<ActionView>::empty() =~= answers(state, first));
    } else {
        let joined = first + second;
        assert(joined.drop_last() =~= first + second.drop_last());
        assert(joined.last() == second.last());
        lemma_answers_join(state, first, second.drop_last());
        assert(answers(state, joined) =~= answers(state, first) + answers(
            after(state, first),
            second,
        ));
    }
}

/// In a run whose generator leaves without success, the server is never
/// started, nothing is ever fetched and nothing is ever written, whatever
/// the run heard before and whatever it hears afterwards.
pub proof fn lemma_failed_build_never_reaches_out(
    repo: Seq<char>,
    before: Seq<Event>,
    later: Seq<Event>,
)
    requires
        after(RunState::initial(repo), before).stage is Generating,
    ensures
        ({
            let events = before.push(Event::GeneratorExit(false)) + later;
            let run = answers(RunState::initial(repo), events);
            &&& run.len() == events.len()
            &&& run[before.len() as int] == (ActionView::Fail {
                error: RunError::Build(BuildError::GeneratorFailed),
            })
            &&& forall|i: int| 0 <= i < run.len() ==> !reaches_out(#[trigger] run[i])
            &&& after(RunState::initial(repo), events).written.len() == 0
        }),
{
    let start = RunState::initial(repo);
    let error = RunError::Build(BuildError::GeneratorFailed);
    let failing = before.push(Event::GeneratorExit(false));
    let events = failing + later;
    let generating = after(start, before);
    assert(failing.drop_last() =~= before);
    let failed = after(start, failing);
    assert(failed == generating.step(Event::GeneratorExit(false)).0);
    lemma_building_run_has_not_reached_out(start, before);
    lemma_written_stays_empty_while_building(start, before);
    lemma_answers_join(start, failing, later);
    lemma_failed_run_only_fails(failed, error, later);
    lemma_failure_is_final(failed, error, later);
    lemma_answers_len(start, events);
    lemma_answers_len(start, failing);
    lemma_answers_len(start, before);
    let run = answers(start, events);
    assert forall|i: int| 0 <= i < run.len() implies !reaches_out(#[trigger] run[i]) by {
        if i < before.len() {
            assert(run[i] == answers(start, failing)[i]);
            assert(answers(start, failing)[i] == answers(start, before)[i]);
        } else if i == before.len() {
            assert(run[i] == answers(start, failing)[i]);
        } else {
            assert(run[i] == answers(failed, later)[i - failing.len()]);
        }
    }
}

/// A run answers once for each thing it hears.
pub proof fn lemma_answers_len(state: RunState, events: Seq<Event>)
    ensures
        answers(state, events).len() == events.len(),
    decreases events.len(),
{
    if events.len() > 0 {
        lemma_answers_len(state, events.drop_last());
    }
}

/// A run that is still building has written nothing more than it had.
pub proof fn lemma_written_stays_empty_while_building(state: RunState, events: Seq<Event>)
    requires
        after(state, events).stage.building(),
    ensures
        after(state, events).written == state.written,
    decreases events.len(),
{
    if events.len() > 0 {
        let before = after(state, events.drop_last());
        assert(before.stage.building());
        lemma_written_stays_empty_while_building(state, events.drop_last());
    }
}

/// A run that is serving has heard that the server is bound.
pub proof fn lemma_serving_run_was_bound(repo: Seq<char>, events: Seq<Event>)
    requires
        after(RunState::initial(repo), events).stage.serving(),
    ensures
        exists|j: int| 0 <= j < events.len() && #[trigger] events[j] == Event::ServerBound(true),
    decreases events.len(),
{
    let start = RunState::initial(repo);
    if events.len() > 0 {
        let before = after(start, events.drop_last());
        if before.stage.serving() {
            lemma_serving_run_was_bound(repo, events.drop_last());
            let j = choose|j: int|
                0 <= j < events.drop_last().len() && #[trigger] events.drop_last()[j]
                    == Event::ServerBound(true);
            assert(events[j] == Event::ServerBound(true));
        } else {
            lemma_serving_begins_when_bound(before, events.last());
            assert(events[events.len() - 1] == Event::ServerBound(true));
        }
    }
}

/// The crawler's first request waits for the server: wherever a run asks
/// for a fetch or a write, it has heard before that the server is bound.
pub proof fn lemma_fetch_follows_bind(repo: Seq<char>, events: Seq<Event>, i: int)
    requires
        0 <= i < events.len(),
        answers(RunState::initial(repo), events)[i] is Fetch || answers(
            RunState::initial(repo),
            events,
        )[i] is Write,
    ensures
        exists|j: int| 0 <= j < i && #[trigger] events[j] == Event::ServerBound(true),
{
    let start = RunState::initial(repo);
    let heard = events.take(i);
    let rest = events.skip(i);
    assert(events =~= heard + rest);
    lemma_answers_join(start, heard, rest);
    lemma_answers_len(start, heard);
    lemma_answers_len(start, events);
    lemma_answers_first(after(start, heard), rest);
    let asking = after(start, heard);
    assert(answers(start, events)[i] == asking.step(rest[0]).1);
    lemma_fetch_waits_for_server(asking, rest[0]);
    lemma_serving_run_was_bound(repo, heard);
    let j = choose|j: int| 0 <= j < heard.len() && #[trigger] heard[j] == Event::ServerBound(true);
    assert(events[j] == Event::ServerBound(true));
}

/// The first answer of a run is the answer to the first thing it hears.
pub proof fn lemma_answers_first(state: RunState, events: Seq<Event>)
    requires
        events.len() > 0,
    ensures
        answers(state, events).len() > 0,
        answers(state, events)[0] == state.step(events[0]).1,
    decreases events.len(),
{
    if events.len() == 1 {
        assert(events.drop_last() =~= Seq::<Event>::empty());
        assert(answers(state, events.drop_last()) =~= Seq::<ActionView>::empty());
    } else {
        lemma_answers_first(state, events.drop_last());
    }
}

/// Whether `path` is where the artifact of a package belongs that the run
/// has dealt with.
pub open spec fn is_artifact_of_crawled(path: Seq<char>, state: RunState) -> bool {
    exists|j: int|
        0 <= j < state.target && j < state.targets.len() && path == artifact_path(
            output_dir(),
            #[trigger] state.targets[j],
        )
}

/// The summary lists nothing but artifacts of packages that were crawled,
/// and no more artifacts than packages were dealt with.
pub open spec fn summary_sound(state: RunState) -> bool {
    &&& state.written.len() <= state.target
    &&& state.stage.before_crawl() ==> state.written.len() == 0
    &&& forall|k: int|
        0 <= k < state.written.len() ==> is_artifact_of_crawled(#[trigger] state.written[k], state)
}

/// A step keeps the summary sound.
pub proof fn lemma_step_keeps_summary_sound(state: RunState, event: Event)
    requires
        state.wf(),
        summary_sound(state),
    ensures
        summary_sound(state.step(event).0),
{
    let next = state.step(event).0;
    if state.stage.before_crawl() {
        assert(next.written.len() == 0);
    } else {
        assert(next.targets == state.targets);
        assert(next.target >= state.target);
        assert forall|k: int| 0 <= k < next.written.len() implies is_artifact_of_crawled(
            #[trigger] next.written[k],
            next,
        ) by {
            if k < state.written.len() {
                assert(next.written[k] == state.written[k]);
                assert(is_artifact_of_crawled(state.written[k], state));
                let j = choose|j: int|
                    0 <= j < state.target && j < state.targets.len() && state.written[k]
                        == artifact_path(output_dir(), #[trigger] state.targets[j]);
                assert(next.written[k] == artifact_path(output_dir(), next.targets[j]));
            } else {
                assert(state.stage is Writing);
                assert(next.written[k] == artifact_path(
                    output_dir(),
                    next.targets[state.target],
                ));
            }
        }
    }
}

/// In every run the summary is sound: each file it lists is the artifact of
/// a resolved package whose directory was listed, and the run has dealt
/// with at least as many packages as it lists files.
pub proof fn lemma_run_keeps_summary_sound(repo: Seq<char>, events: Seq<Event>)
    ensures
        summary_sound(after(RunState::initial(repo), events)),
        after(RunState::initial(repo), events).wf(),
    decreases events.len(),
{
    lemma_run_keeps_wf(repo, events);
    if events.len() > 0 {
        lemma_run_keeps_summary_sound(repo, events.drop_last());
        lemma_step_keeps_summary_sound(
            after(RunState::initial(repo), events.drop_last()),
            events.last(),
        );
    }
}

/// No two entries of a listing bear the same name.
pub open spec fn distinct_names(entries: Seq<DirEntry>) -> bool {
    forall|i: int, j: int|
        0 <= i < j < entries.len() && (#[trigger] entries[i]).name is Some && (
        #[trigger] entries[j]).name is Some ==> entries[i].name->0@ != entries[j].name->0@
}

/// Whether the listing that an event reports, if it reports one, bears no
/// name twice.
pub open spec fn lists_distinct_names(event: Event) -> bool {
    event matches Event::DocTree(Some(entries)) ==> distinct_names(entries@)
}

/// A listing without repeated names gives each package to crawl once.
pub proof fn lemma_distinct_names_give_distinct_targets(
    entries: Seq<DirEntry>,
    packages: Set<Seq<char>>,
)
    requires
        distinct_names(entries),
    ensures
        crawl_targets(entries, packages).no_duplicates(),
    decreases entries.len(),
{
    if entries.len() > 0 {
        let rest = entries.drop_last();
        assert(distinct_names(rest)) by {
            assert forall|i: int, j: int|
                0 <= i < j < rest.len() && (#[trigger] rest[i]).name is Some && (
                #[trigger] rest[j]).name is Some implies rest[i].name->0@ != rest[j].name->0@ by {
                assert(rest[i] == entries[i] && rest[j] == entries[j]);
            }
        }
        lemma_distinct_names_give_distinct_targets(rest, packages);
        lemma_targets_are_resolved_directories(rest, packages);
        let before = crawl_targets(rest, packages);
        let last = entries[entries.len() - 1];
        if is_target(last, packages) {
            let id = last.name->0@;
            assert forall|i: int| 0 <= i < before.len() implies before[i] != id by {
                let k = choose|k: int|
                    0 <= k < rest.len() && is_target(#[trigger] rest[k], packages)
                        && rest[k].name->0@ == before[i];
                assert(rest[k] == entries[k]);
            }
            let targets = before.push(id);
            assert forall|i: int, j: int|
                0 <= i < targets.len() && 0 <= j < targets.len() && i != j implies targets[i]
                != targets[j] by {
                if i < before.len() && j < before.len() {
                    assert(before[i] != before[j]);
                }
            }
        }
    }
}

/// Two packages have two places for their artifacts.
pub proof fn lemma_artifact_paths_differ(dir: Seq<char>, first: Seq<char>, second: Seq<char>)
    requires
        first != second,
    ensures
        artifact_path(dir, first) != artifact_path(dir, second),
{
    let head = dir + "/"@;
    let tail = "_knowledge.md"@;
    if artifact_path(dir, first) == artifact_path(dir, second) {
        let one = head + (first + tail);
        let two = head + (second + tail);
        assert(one.len() == two.len());
        assert(first.len() == second.len());
        assert forall|i: int| 0 <= i < first.len() implies first[i] == second[i] by {
            assert(one[head.len() + i] == first[i]);
            assert(two[head.len() + i] == second[i]);
        }
        assert(first =~= second);
    }
}

/// A step keeps the packages to crawl and the listed files free of
/// repeats, where the listing bears no name twice.
pub proof fn lemma_step_keeps_paths_distinct(state: RunState, event: Event)
    requires
        state.wf(),
        summary_sound(state),
        state.targets.no_duplicates(),
        state.written.no_duplicates(),
        lists_distinct_names(event),
    ensures
        state.step(event).0.targets.no_duplicates(),
        state.step(event).0.written.no_duplicates(),
{
    let next = state.step(event).0;
    if state.stage is Listing {
        if let Event::DocTree(Some(entries)) = event {
            lemma_distinct_names_give_distinct_targets(entries@, state.packages);
        }
    }
    if state.stage is Writing && next.written != state.written {
        let id = state.targets[state.target];
        let path = artifact_path(output_dir(), id);
        assert(next.written == state.written.push(path));
        assert forall|k: int| 0 <= k < state.written.len() implies state.written[k] != path by {
            assert(is_artifact_of_crawled(state.written[k], state));
            let j = choose|j: int|
                0 <= j < state.target && j < state.targets.len() && state.written[k]
                    == artifact_path(output_dir(), #[trigger] state.targets[j]);
            assert(state.targets[j] != id);
            lemma_artifact_paths_differ(output_dir(), state.targets[j], id);
        }
        assert forall|a: int, b: int|
            0 <= a < next.written.len() && 0 <= b < next.written.len() && a != b implies next.written[a]
            != next.written[b] by {
            if a < state.written.len() && b < state.written.len() {
                assert(state.written[a] != state.written[b]);
            }
        }
    }
}

/// Where no listing bears a name twice, a run turns to no package twice and
/// lists no file twice: the packages it crawls are pairwise distinct, and so
/// are the paths of its summary.
pub proof fn lemma_run_lists_no_path_twice(repo: Seq<char>, events: Seq<Event>)
    requires
        forall|i: int| 0 <= i < events.len() ==> lists_distinct_names(#[trigger] events[i]),
    ensures
        after(RunState::initial(repo), events).targets.no_duplicates(),
        after(RunState::initial(repo), events).written.no_duplicates(),
    decreases events.len(),
{
    if events.len() > 0 {
        let earlier = events.drop_last();
        assert forall|i: int| 0 <= i < earlier.len() implies lists_distinct_names(
            #[trigger] earlier[i],
        ) by {
            assert(earlier[i] == events[i]);
        }
        lemma_run_lists_no_path_twice(repo, earlier);
        lemma_run_keeps_summary_sound(repo, earlier);
        lemma_step_keeps_paths_distinct(after(RunState::initial(repo), earlier), events.last());
    }
}

impl Stage {
    /// The run is at work on a package: it waits for its index page, for
    /// one of its pages, or for its artifact to be written.
    pub open spec fn crawling(self) -> bool {
        self is FetchingIndex || self is FetchingPage || self is Writing
    }

    /// The run is over, with a summary or with a failure.
    pub open spec fn over(self) -> bool {
        self is Finished || self is Failed
    }
}

/// How far a crawl has come: three steps for each package dealt with, and
/// one more for each of the two waits behind the index page of the current
/// one.
pub open spec fn progress(state: RunState) -> int {
    3 * state.target + if state.stage is FetchingPage {
        1int
    } else if state.stage is Writing {
        2int
    } else {
        0int
    }
}

/// A step of a crawl never goes back, and goes forward from the wait for an
/// index page and from the wait for a write.
pub proof fn lemma_step_goes_forward(state: RunState, event: Event)
    requires
        state.wf(),
        state.stage.crawling(),
        state.step(event).0.stage.crawling(),
    ensures
        state.step(event).0.targets == state.targets,
        progress(state.step(event).0) >= progress(state),
        state.stage is FetchingIndex || state.stage is Writing ==> progress(state.step(event).0)
            > progress(state),
{
}

/// A run that is over stays over, and a run that has chosen its packages
/// does not choose again.
pub proof fn lemma_no_way_back(state: RunState, events: Seq<Event>)
    ensures
        state.stage.over() ==> after(state, events).stage.over(),
        !state.stage.before_crawl() ==> !after(state, events).stage.before_crawl(),
    decreases events.len(),
{
    if events.len() > 0 {
        lemma_no_way_back(state, events.drop_last());
    }
}

/// Steps lead from a state that runs reach to states that runs reach.
pub proof fn lemma_steps_keep_wf(state: RunState, events: Seq<Event>)
    requires
        state.wf(),
    ensures
        after(state, events).wf(),
    decreases events.len(),
{
    if events.len() > 0 {
        lemma_steps_keep_wf(state, events.drop_last());
        lemma_step_keeps_wf(after(state, events.drop_last()), events.last());
    }
}

/// From one state of a crawl to a later one the crawl has not gone back.
pub proof fn lemma_crawl_goes_forward(state: RunState, events: Seq<Event>)
    requires
        state.wf(),
        state.stage.crawling(),
        after(state, events).stage.crawling(),
    ensures
        after(state, events).targets == state.targets,
        progress(after(state, events)) >= progress(state),
    decreases events.len(),
{
    if events.len() > 0 {
        let middle = after(state, events.drop_last());
        lemma_no_way_back(state, events.drop_last());
        lemma_steps_keep_wf(state, events.drop_last());
        assert(middle.stage.crawling());
        lemma_crawl_goes_forward(state, events.drop_last());
        lemma_step_goes_forward(middle, events.last());
    }
}

/// A run waits for the index page of a package once, and once for its
/// artifact to be written: of two such waits the later one is for a later
/// package, and for another one where the listing bore no name twice.
pub proof fn lemma_each_package_is_crawled_once(
    repo: Seq<char>,
    events: Seq<Event>,
    earlier: int,
    later: int,
)
    requires
        0 <= earlier < later <= events.len(),
        ({
            let first = after(RunState::initial(repo), events.take(earlier));
            let second = after(RunState::initial(repo), events.take(later));
            (first.stage is FetchingIndex && second.stage is FetchingIndex) || (first.stage
                is Writing && second.stage is Writing)
        }),
    ensures
        ({
            let first = after(RunState::initial(repo), events.take(earlier));
            let second = after(RunState::initial(repo), events.take(later));
            &&& first.targets == second.targets
            &&& 0 <= first.target < second.target < second.targets.len()
            &&& (forall|i: int| 0 <= i < events.len() ==> lists_distinct_names(#[trigger] events[i]))
                ==> first.targets[first.target] != second.targets[second.target]
        }),
{
    let start = RunState::initial(repo);
    let heard = events.take(earlier);
    let between = events.subrange(earlier, later);
    let first = after(start, heard);
    let second = after(start, events.take(later));
    assert(events.take(later) =~= heard + between);
    lemma_answers_join(start, heard, between);
    lemma_run_keeps_wf(repo, heard);
    lemma_run_keeps_wf(repo, events.take(later));
    // The step that follows the first wait goes forward, the rest not back.
    let next = seq![between[0]];
    let rest = between.skip(1);
    assert(between =~= next + rest);
    lemma_answers_join(first, next, rest);
    assert(next.drop_last() =~= Seq::<Event>::empty());
    let stepped = first.step(between[0]).0;
    assert(after(first, next) == stepped);
    assert(second == after(stepped, rest));
    lemma_no_way_back(stepped, rest);
    lemma_step_keeps_wf(first, between[0]);
    assert(stepped.stage.crawling());
    lemma_step_goes_forward(first, between[0]);
    lemma_crawl_goes_forward(stepped, rest);
    if forall|i: int| 0 <= i < events.len() ==> lists_distinct_names(#[trigger] events[i]) {
        let all = events.take(later);
        assert forall|i: int| 0 <= i < all.len() implies lists_distinct_names(#[trigger] all[i]) by {
            assert(all[i] == events[i]);
        }
        lemma_run_lists_no_path_twice(repo, all);
    }
}

} // verus!
