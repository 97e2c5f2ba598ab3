//! A run together with what lies outside it: the services that answer and
//! the files on disk. In this world every action is performed as asked, so
//! that whole runs can be spoken of, and one run can be followed by another.

use crate::model::RunView;
use crate::protocol::{ActionView, AssetView, EventView, NoticeView};
use crate::decimal::i32_of;
use crate::laws::law_step_keeps_wf;
use crate::settings::{final_path_of, url_of, SettingsView};
use crate::tally::{
    cid_at, lemma_frozen_stays, lemma_no_duplicate_is_replayable, lemma_replay,
    lemma_replay_fetches, lemma_tally_within_budget, recognised, replayable, Tally,
};
use vstd::prelude::*;

verus! {

/// What the services answer: the same on every call.
pub struct Services {
    /// The policy ids that the directory's answer makes known.
    pub known: Option<Set<Seq<char>>>,
    /// The assets of the collection.
    pub assets: Seq<AssetView>,
    /// The cover path in the metadata of each asset.
    pub cover: spec_fn(Seq<char>) -> Option<Seq<char>>,
    /// The title in the metadata of each asset.
    pub title: spec_fn(Seq<char>) -> Option<Seq<char>>,
    /// The bytes that the content fetcher returns for each address.
    pub content: spec_fn(Seq<char>) -> Seq<u8>,
}

/// The services and the files on disk, by path.
pub struct World {
    pub services: Services,
    pub files: Map<Seq<char>, Seq<u8>>,
}

impl World {
    /// Performs `action`: the world afterwards, and the event to report.
    pub open spec fn answer(self, action: ActionView) -> (World, EventView) {
        match action {
            ActionView::FetchDirectory => (
                self,
                EventView::Directory { known: self.services.known },
            ),
            ActionView::Enumerate { policy_id } => (self, EventView::Assets(self.services.assets)),
            ActionView::Probe { path } => (
                self,
                if self.files.contains_key(path) {
                    EventView::Present(self.files[path])
                } else {
                    EventView::Absent
                },
            ),
            ActionView::Resolve { asset } => (
                self,
                EventView::Details {
                    cover: (self.services.cover)(asset),
                    title: (self.services.title)(asset),
                },
            ),
            ActionView::Download { url } => (
                self,
                EventView::Downloaded((self.services.content)(url)),
            ),
            ActionView::Store { temp_path, final_path, data } => (
                World { files: self.files.insert(final_path, data), ..self },
                EventView::Stored,
            ),
            ActionView::Continue => (self, EventView::Resume),
            ActionView::Finish => (self, EventView::Resume),
        }
    }
}

/// A run in its world, with what it has done so far.
pub struct Trace {
    pub world: World,
    pub state: RunView,
    /// Number of actions performed that reached the network or the disk.
    pub calls: nat,
    /// Number of downloads asked for.
    pub downloads: nat,
    /// Number of assets passed over as duplicates.
    pub skipped: nat,
}

impl Trace {
    /// A run that has not begun.
    pub open spec fn begin(world: World, settings: SettingsView) -> Trace {
        Trace { world, state: RunView::initial(settings), calls: 0, downloads: 0, skipped: 0 }
    }

    /// Reports `event`, which answers `action`, to the run. Returns the trace
    /// afterwards and the action asked for next, if the run goes on.
    pub open spec fn report(self, world: World, action: ActionView, event: EventView) -> (
        Trace,
        Option<ActionView>,
    ) {
        let (state, answer) = self.state.step(event);
        let duplicate = answer matches Ok(reply) && reply.notice matches Some(
            NoticeView::Duplicate { .. },
        );
        let next = Trace {
            world,
            state,
            calls: self.calls + if action.is_outside_call() {
                1nat
            } else {
                0nat
            },
            downloads: self.downloads + if action is Download {
                1nat
            } else {
                0nat
            },
            skipped: self.skipped + if duplicate {
                1nat
            } else {
                0nat
            },
        };
        (
            next,
            match answer {
                Ok(reply) => Some(reply.action),
                Err(_) => None,
            },
        )
    }

    /// Performs `action` and whatever the run asks for next, until it asks
    /// for nothing from outside, fails, or `fuel` actions have been
    /// performed.
    pub open spec fn drive(self, action: ActionView, fuel: nat) -> Trace
        decreases fuel,
    {
        if fuel == 0 || !action.is_outside_call() {
            self
        } else {
            let (world, event) = self.world.answer(action);
            let (next, asked) = self.report(world, action, event);
            match asked {
                Some(following) => next.drive(following, (fuel - 1) as nat),
                None => next,
            }
        }
    }

    /// Resumes the run and performs what it asks for, up to its next
    /// decision that needs nothing from outside. No decision is more than
    /// four actions away from the next.
    pub open spec fn serve(self) -> Trace {
        let (next, asked) = self.report(self.world, ActionView::Continue, EventView::Resume);
        match asked {
            Some(following) => next.drive(following, 4),
            None => next,
        }
    }

    /// Whether the run stands between two assets, in a well-formed state.
    pub open spec fn ready(self) -> bool {
        self.state.phase is Ready && self.state.wf()
    }

    /// Serves the run until it is over.
    pub open spec fn settle(self) -> Trace
        decreases self.state.remaining(),
    {
        if self.ready() {
            let next = self.serve();
            if next.state.phase is Ready {
                proof {
                    lemma_serve_progress(self);
                }
                next.settle()
            } else {
                next
            }
        } else {
            self
        }
    }

    /// The account of the run so far.
    pub open spec fn account(self) -> Tally {
        Tally {
            files: self.world.files,
            seen: self.state.seen,
            existing: self.state.existing,
            stored: self.state.stored,
            downloads: self.downloads,
            skipped: self.skipped,
            failed: self.state.phase is Failed,
        }
    }

    /// Whether the run knows the assets that the services list.
    pub open spec fn aligned(self) -> bool {
        self.state.assets == self.world.services.assets
    }

    /// The whole run with settings `settings` in the world `world`.
    pub open spec fn run(world: World, settings: SettingsView) -> Trace {
        Trace::begin(world, settings).serve().settle()
    }
}

/// Serving a run that stands between two assets keeps its state well-formed,
/// leaves the services and the settings as they were, and brings the end
/// nearer.
pub proof fn lemma_serve_progress(t: Trace)
    requires
        t.ready(),
    ensures
        t.serve().state.wf(),
        t.serve().world.services == t.world.services,
        t.serve().state.settings == t.state.settings,
        t.serve().state.assets == t.state.assets,
        t.serve().state.phase is Ready || t.serve().state.phase is Finished
            || t.serve().state.phase is Failed,
        t.serve().state.phase is Ready ==> t.serve().state.remaining() < t.state.remaining(),
{
    reveal_with_fuel(Trace::drive, 5);
    let st = t.state;
    let s1 = st.step(EventView::Resume).0;
    law_step_keeps_wf(st, EventView::Resume);
    if s1.phase is AwaitProbe {
        let path = final_path_of(st.settings.work_dir, st.current().asset);
        let (w1, e1) = t.world.answer(ActionView::Probe { path });
        law_step_keeps_wf(s1, e1);
        let s2 = s1.step(e1).0;
        if s2.phase is AwaitDetails {
            let (w2, e2) = w1.answer(ActionView::Resolve { asset: st.current().asset });
            law_step_keeps_wf(s2, e2);
            let s3 = s2.step(e2).0;
            if s3.phase is AwaitDownload {
                let url = url_of(st.settings.gateway, s3.pending);
                let (w3, e3) = w2.answer(ActionView::Download { url });
                law_step_keeps_wf(s3, e3);
                let s4 = s3.step(e3).0;
                let a4 = s3.step(e3).1->Ok_0.action;
                let (w4, e4) = w3.answer(a4);
                law_step_keeps_wf(s4, e4);
            }
        }
    }
}

/// Serving a run that takes up an asset comes to what the account says of
/// that asset.
pub proof fn lemma_serve_tends(t: Trace)
    requires
        t.ready(),
        t.aligned(),
        t.state.cursor < t.state.chunk_end,
        !t.state.exhausted(),
    ensures
        t.serve().account() == t.account().tend(
            t.world.services,
            t.state.settings,
            t.state.cursor as int,
        ),
        t.serve().state.phase is Ready ==> t.serve().state.cursor == t.state.cursor + 1,
        t.serve().state.phase is Ready || t.serve().state.phase is Failed,
        t.serve().aligned(),
{
    reveal_with_fuel(Trace::drive, 5);
    lemma_serve_progress(t);
    assert(t.serve().account() =~= t.account().tend(
        t.world.services,
        t.state.settings,
        t.state.cursor as int,
    ));
}

/// An asset whose quantity is zero or negative is left behind without any
/// call to the network or the disk.
pub proof fn law_nonpositive_quantity_performs_nothing(t: Trace, quantity: i32)
    requires
        t.ready(),
        t.state.cursor < t.state.chunk_end,
        i32_of(t.state.current().quantity) == Some(quantity),
        quantity <= 0,
    ensures
        t.serve().calls == t.calls,
        t.serve().world == t.world,
        t.serve().account() == t.account(),
        t.serve().state.cursor > t.state.cursor,
{
    reveal_with_fuel(Trace::drive, 1);
}

/// When serving an asset downloads, the asset's file afterwards holds
/// exactly the bytes that the content fetcher returns for the content
/// identifier of its cover.
pub proof fn law_file_holds_what_was_fetched(t: Trace)
    requires
        t.ready(),
        t.aligned(),
        t.state.cursor < t.state.chunk_end,
        !t.state.exhausted(),
        t.serve().downloads > t.downloads,
    ensures
        ({
            let path = final_path_of(t.state.settings.work_dir, t.state.current().asset);
            let cid = cid_at(t.world.services, t.state.cursor as int);
            let url = url_of(t.state.settings.gateway, cid);
            &&& t.serve().world.files.contains_key(path)
            &&& t.serve().world.files[path] == (t.world.services.content)(url)
        }),
{
    lemma_serve_tends(t);
}

/// Serving a run until it is over comes to what the account says of the
/// assets that were left.
pub proof fn lemma_settle_tallies(t: Trace)
    requires
        t.ready(),
        t.aligned(),
    ensures
        t.settle().account() == t.account().tally(
            t.world.services,
            t.state.settings,
            t.state.cursor,
        ),
        t.settle().world.services == t.world.services,
    decreases t.state.remaining(),
{
    let services = t.world.services;
    let settings = t.state.settings;
    let next = t.serve();
    lemma_serve_progress(t);
    if t.state.cursor >= t.state.chunk_end {
        if t.state.cursor >= t.state.assets.len() || t.state.exhausted() {
            if t.state.exhausted() {
                lemma_frozen_stays(t.account(), services, settings, t.state.cursor);
            }
        } else {
            lemma_settle_tallies(next);
        }
    } else if t.state.exhausted() {
        lemma_frozen_stays(t.account(), services, settings, t.state.cursor);
        lemma_frozen_stays(t.account(), services, settings, t.state.chunk_end);
        lemma_settle_tallies(next);
    } else {
        lemma_serve_tends(t);
        if next.state.phase is Ready {
            lemma_settle_tallies(next);
        } else {
            lemma_frozen_stays(next.account(), services, settings, t.state.cursor + 1);
        }
    }
}

/// Serving a run until it is over keeps its state well-formed.
pub proof fn lemma_settle_keeps_wf(t: Trace)
    requires
        t.state.wf(),
    ensures
        t.settle().state.wf(),
    decreases t.state.remaining(),
{
    if t.ready() {
        lemma_serve_progress(t);
        if t.serve().state.phase is Ready {
            lemma_settle_keeps_wf(t.serve());
        }
    }
}

/// Whether the directory makes the policy id of `settings` known.
pub open spec fn proceeds(services: Services, settings: SettingsView) -> bool {
    services.known matches Some(ids) && ids.contains(settings.policy_id)
}

/// What a whole run comes to. If the directory makes the policy id known,
/// it is the account of all assets, begun over the files that were there.
/// If not, no file is touched and nothing downloaded.
pub proof fn lemma_run_tallies(world: World, settings: SettingsView)
    ensures
        Trace::run(world, settings).state.wf(),
        Trace::run(world, settings).world.services == world.services,
        proceeds(world.services, settings) ==> Trace::run(world, settings).account()
            == Tally::fresh(world.files).tally(world.services, settings, 0),
        !proceeds(world.services, settings) ==> {
            &&& Trace::run(world, settings).world.files == world.files
            &&& Trace::run(world, settings).calls == 1
            &&& !(Trace::run(world, settings).state.phase is Ready)
            &&& Trace::run(world, settings).downloads == 0
            &&& Trace::run(world, settings).skipped == 0
            &&& Trace::run(world, settings).state.count() == 0
        },
{
    reveal_with_fuel(Trace::drive, 5);
    let begin = Trace::begin(world, settings);
    let opened = begin.serve();
    let s0 = begin.state;
    let s1 = s0.step(EventView::Resume).0;
    let (w1, e1) = world.answer(ActionView::FetchDirectory);
    let s2 = s1.step(e1).0;
    law_step_keeps_wf(s0, EventView::Resume);
    law_step_keeps_wf(s1, e1);
    if proceeds(world.services, settings) {
        let (w2, e2) = w1.answer(ActionView::Enumerate { policy_id: settings.policy_id });
        let s3 = s2.step(e2).0;
        law_step_keeps_wf(s2, e2);
        // The assets are known now, and nothing has been done yet.
        assert(opened.state == s3);
        assert(opened.account() =~= Tally::fresh(world.files));
        lemma_settle_tallies(opened);
        lemma_settle_keeps_wf(opened);
    } else {
        // The run ended when the directory answered.
        assert(opened.state == s2);
    }
}

/// In a whole run, the files downloaded and written and the files found on
/// disk and counted never number more than the run was allowed.
pub proof fn law_run_stays_within_budget(world: World, settings: SettingsView)
    ensures
        ({
            let run = Trace::run(world, settings);
            &&& run.downloads == run.state.stored.len()
            &&& run.downloads + run.state.existing <= settings.max_files
        }),
{
    lemma_run_tallies(world, settings);
    if proceeds(world.services, settings) {
        lemma_tally_within_budget(
            Tally::fresh(world.files),
            world.services,
            settings,
            0,
        );
    }
}

/// A run for a policy id that the directory does not make known, be it
/// that the directory does not list it, that it answered without success,
/// or that its answer could not be read, calls the directory and nothing
/// else: no asset is listed, asked about, fetched or written.
pub proof fn law_unknown_policy_calls_only_the_directory(world: World, settings: SettingsView)
    requires
        !proceeds(world.services, settings),
    ensures
        ({
            let run = Trace::run(world, settings);
            &&& run.calls == 1
            &&& run.world == world
            &&& run.state.phase is Finished || run.state.phase is Failed
            &&& run.state.phase is Failed <==> world.services.known is None
        }),
{
    reveal_with_fuel(Trace::drive, 2);
}

/// No whole run writes two files with the same content identifier, and
/// whatever it has written it remembers.
pub proof fn law_run_writes_no_content_twice(world: World, settings: SettingsView)
    ensures
        ({
            let run = Trace::run(world, settings);
            &&& run.state.stored.no_duplicates()
            &&& forall|i: int|
                0 <= i < run.state.stored.len() ==> run.state.seen.contains(
                    #[trigger] run.state.stored[i],
                )
        }),
{
    lemma_run_tallies(world, settings);
}

/// A second run after a first one downloads nothing and leaves the files as
/// they were, provided the first run can be repeated: whatever it passed
/// over as a duplicate, the second run can recognise by the digest of an
/// earlier file.
///
/// A duplicate is passed over by its content identifier, while a file found
/// on disk is remembered by the digest of its bytes. Where the two differ,
/// the second run, which finds the first run's files on disk, does not
/// recognise the duplicate and fetches it.
pub proof fn law_second_run_downloads_nothing(world: World, settings: SettingsView)
    requires
        proceeds(world.services, settings) ==> replayable(
            Tally::fresh(world.files),
            world.services,
            settings,
        ),
    ensures
        ({
            let first = Trace::run(world, settings);
            let second = Trace::run(first.world, settings);
            &&& second.downloads == 0
            &&& second.world.files == first.world.files
        }),
{
    let first = Trace::run(world, settings);
    lemma_run_tallies(world, settings);
    lemma_run_tallies(first.world, settings);
    if proceeds(world.services, settings) {
        lemma_replay(
            Tally::fresh(world.files),
            Tally::fresh(first.world.files),
            world.services,
            settings,
            0,
        );
    }
}

/// A second run after a first one that passed over no duplicate downloads
/// nothing and leaves the files as they were.
pub proof fn law_second_run_downloads_nothing_without_duplicates(
    world: World,
    settings: SettingsView,
)
    requires
        Trace::run(world, settings).skipped == 0,
    ensures
        ({
            let first = Trace::run(world, settings);
            let second = Trace::run(first.world, settings);
            &&& second.downloads == 0
            &&& second.world.files == first.world.files
        }),
{
    lemma_run_tallies(world, settings);
    if proceeds(world.services, settings) {
        lemma_no_duplicate_is_replayable(
            Tally::fresh(world.files),
            world.services,
            settings,
        );
    }
    law_second_run_downloads_nothing(world, settings);
}

/// A second run after a first one that cannot be repeated downloads again:
/// it fetches a duplicate that the first run passed over and that it cannot
/// recognise.
pub proof fn law_second_run_fetches_unrecognised_duplicate(world: World, settings: SettingsView)
    requires
        proceeds(world.services, settings),
        !replayable(Tally::fresh(world.files), world.services, settings),
    ensures
        ({
            let first = Trace::run(world, settings);
            let second = Trace::run(first.world, settings);
            second.downloads > 0
        }),
{
    let first = Trace::run(world, settings);
    let base = Tally::fresh(world.files);
    let services = world.services;
    let left = base.tally(services, settings, 0).files;
    lemma_run_tallies(world, settings);
    lemma_run_tallies(first.world, settings);
    let bad = choose|i: int|
        0 <= i < services.assets.len() && #[trigger] base.upto(
            services,
            settings,
            i as nat,
        ).passes_over(services, settings, i) && !recognised(
            left,
            services,
            settings,
            i,
            cid_at(services, i),
        );
    lemma_replay_fetches(base, Tally::fresh(left), services, settings, 0, bad);
}

} // verus!
