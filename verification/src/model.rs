//! The run as a state machine over mathematical values: one transition for
//! each event that the caller reports.

use crate::decimal::i32_of;
use crate::digest::content_digest;
use crate::error::FetchError;
use crate::metadata::content_id_of;
use crate::protocol::{ActionView, AssetView, EventView, NoticeView, ReplyView};
use crate::settings::{final_path_of, temp_path_of, url_of, SettingsView, CHUNK_SIZE};
use vstd::prelude::*;

verus! {

/// Where a run stands: what it has asked for and waits to hear of.
#[derive(Debug, Clone, Copy, PartialEq, Eq)]
pub enum Phase {
    /// Nothing has been asked for yet.
    Start,
    /// The directory of collections has been asked for.
    AwaitDirectory,
    /// The assets of the collection have been asked for.
    AwaitAssets,
    /// Between two assets: the next decision needs nothing from outside.
    Ready,
    /// The file of the current asset has been probed for.
    AwaitProbe,
    /// The details of the current asset have been asked for.
    AwaitDetails,
    /// The cover of the current asset is being fetched.
    AwaitDownload,
    /// The cover of the current asset is being written.
    AwaitStore,
    /// The run is over.
    Finished,
    /// The run has failed.
    Failed,
}

/// The state of a run.
#[verifier::ext_equal]
pub struct RunView {
    /// What the run was asked to do.
    pub settings: SettingsView,
    /// What the run waits for.
    pub phase: Phase,
    /// The assets of the collection, once they are known.
    pub assets: Seq<AssetView>,
    /// The index of the current asset.
    pub cursor: nat,
    /// The index at which the current chunk ends.
    pub chunk_end: nat,
    /// The content identifiers and digests seen so far.
    pub seen: Set<Seq<char>>,
    /// Number of files that were found on disk and counted.
    pub existing: nat,
    /// The content identifiers of the files written, in order.
    pub stored: Seq<Seq<char>>,
    /// The content identifier of the cover that is being fetched or written.
    pub pending: Seq<char>,
}

/// The outcome of a transition: the next state, and the answer or the error.
pub type Outcome = (RunView, Result<ReplyView, FetchError>);

impl RunView {
    /// The state of a run that has not begun.
    pub open spec fn initial(settings: SettingsView) -> RunView {
        RunView {
            settings,
            phase: Phase::Start,
            assets: Seq::empty(),
            cursor: 0,
            chunk_end: 0,
            seen: Set::empty(),
            existing: 0,
            stored: Seq::empty(),
            pending: Seq::empty(),
        }
    }

    /// Number of files counted towards the budget: those found on disk and
    /// those written.
    pub open spec fn count(self) -> nat {
        self.existing + self.stored.len()
    }

    /// Whether the budget is used up.
    pub open spec fn exhausted(self) -> bool {
        self.count() >= self.settings.max_files
    }

    /// The asset under the cursor.
    pub open spec fn current(self) -> AssetView {
        self.assets[self.cursor as int]
    }

    /// Whether the run is busy with the asset under the cursor.
    pub open spec fn at_asset(self) -> bool {
        self.phase is AwaitProbe || self.phase is AwaitDetails || self.phase is AwaitDownload
            || self.phase is AwaitStore
    }

    /// What holds of every state that a run reaches: the cursor lies in the
    /// current chunk and the chunk among the assets; no more files are
    /// counted than the budget allows; no content identifier was written
    /// twice, and each one written is remembered; an asset is worked on only
    /// while the budget has room; and what is being fetched was not seen
    /// before.
    pub open spec fn wf(self) -> bool {
        &&& self.cursor <= self.chunk_end <= self.assets.len()
        &&& self.count() <= self.settings.max_files
        &&& self.stored.no_duplicates()
        &&& forall|i: int|
            0 <= i < self.stored.len() ==> self.seen.contains(#[trigger] self.stored[i])
        &&& self.at_asset() ==> self.cursor < self.chunk_end && !self.exhausted()
        &&& (self.phase is AwaitDownload || self.phase is AwaitStore) ==> !self.seen.contains(
            self.pending,
        )
    }

    /// The state after the current asset is done with.
    pub open spec fn next_asset(self) -> RunView {
        RunView { phase: Phase::Ready, cursor: self.cursor + 1, ..self }
    }

    /// The event does not answer what was asked: nothing changes.
    pub open spec fn refuse(self) -> Outcome {
        (self, Err(FetchError::UnexpectedEvent))
    }

    /// The run fails with `error`.
    pub open spec fn fail(self, error: FetchError) -> Outcome {
        (RunView { phase: Phase::Failed, ..self }, Err(error))
    }

    /// The policy id is not known: the run ends, saying so.
    pub open spec fn reject(self) -> Outcome {
        (
            RunView { phase: Phase::Finished, ..self },
            Ok(
                ReplyView::telling(
                    NoticeView::InvalidPolicy { policy_id: self.settings.policy_id },
                    ActionView::Finish,
                ),
            ),
        )
    }

    /// The directory has answered. A successful answer that could not be
    /// read fails the run. Otherwise the run goes on to list the assets if
    /// the policy id is among the known ones, and ends if it is not.
    pub open spec fn on_directory(self, known: Option<Set<Seq<char>>>) -> Outcome {
        match known {
            None => self.fail(FetchError::MalformedDirectory),
            Some(ids) => if ids.contains(self.settings.policy_id) {
                (
                    RunView { phase: Phase::AwaitAssets, ..self },
                    Ok(
                        ReplyView::silent(
                            ActionView::Enumerate { policy_id: self.settings.policy_id },
                        ),
                    ),
                )
            } else {
                self.reject()
            },
        }
    }

    /// The assets are known: the run starts before the first chunk.
    pub open spec fn on_assets(self, assets: Seq<AssetView>) -> Outcome {
        (
            RunView { phase: Phase::Ready, assets, cursor: 0, chunk_end: 0, ..self },
            Ok(ReplyView::silent(ActionView::Continue)),
        )
    }

    /// The next decision between two assets. At the end of a chunk the run
    /// ends if no asset is left or the budget is used up, and opens the next
    /// chunk otherwise. Inside a chunk, a budget that is used up abandons the
    /// rest of the chunk. Otherwise the current asset is taken up: a quantity
    /// that is no integer fails the run, one that is not positive passes the
    /// asset over, and a positive one has the asset's file probed for.
    pub open spec fn on_ready(self) -> Outcome {
        if self.cursor >= self.chunk_end {
            if self.cursor >= self.assets.len() || self.exhausted() {
                (
                    RunView { phase: Phase::Finished, ..self },
                    Ok(ReplyView::silent(ActionView::Finish)),
                )
            } else {
                (
                    RunView {
                        chunk_end: if self.cursor + CHUNK_SIZE <= self.assets.len() {
                            self.cursor + CHUNK_SIZE as nat
                        } else {
                            self.assets.len()
                        },
                        ..self
                    },
                    Ok(ReplyView::silent(ActionView::Continue)),
                )
            }
        } else if self.exhausted() {
            (
                RunView { cursor: self.chunk_end, ..self },
                Ok(ReplyView::silent(ActionView::Continue)),
            )
        } else {
            match i32_of(self.current().quantity) {
                None => self.fail(FetchError::MalformedQuantity),
                Some(quantity) => if quantity <= 0 {
                    (self.next_asset(), Ok(ReplyView::silent(ActionView::Continue)))
                } else {
                    (
                        RunView { phase: Phase::AwaitProbe, ..self },
                        Ok(
                            ReplyView::silent(
                                ActionView::Probe {
                                    path: final_path_of(
                                        self.settings.work_dir,
                                        self.current().asset,
                                    ),
                                },
                            ),
                        ),
                    )
                },
            }
        }
    }

    /// The file of the current asset exists and has the digest `digest`: the
    /// digest is remembered and the file counted.
    pub open spec fn on_present(self, digest: Seq<char>) -> Outcome {
        (
            RunView {
                seen: self.seen.insert(digest),
                existing: self.existing + 1,
                ..self.next_asset()
            },
            Ok(
                ReplyView::telling(
                    NoticeView::AlreadyDownloaded { asset: self.current().asset },
                    ActionView::Continue,
                ),
            ),
        )
    }

    /// The transition on a file found with digest `digest`, from any state:
    /// only a state that waits for a probe takes it.
    pub open spec fn step_present(self, digest: Seq<char>) -> Outcome {
        if self.phase is AwaitProbe {
            self.on_present(digest)
        } else {
            self.refuse()
        }
    }

    /// A file found keeps a well-formed state well-formed.
    pub proof fn lemma_step_present_keeps_wf(self, digest: Seq<char>)
        requires
            self.wf(),
        ensures
            self.step_present(digest).0.wf(),
    {
        let next = self.step_present(digest).0;
        if self.phase is AwaitProbe {
            assert forall|i: int| 0 <= i < next.stored.len() implies next.seen.contains(
                #[trigger] next.stored[i],
            ) by {
                assert(self.seen.contains(self.stored[i]));
            }
        }
    }

    /// The file of the current asset does not exist: its details are asked
    /// for.
    pub open spec fn on_absent(self) -> Outcome {
        (
            RunView { phase: Phase::AwaitDetails, ..self },
            Ok(ReplyView::silent(ActionView::Resolve { asset: self.current().asset })),
        )
    }

    /// The details of the current asset are known. Without a cover path the
    /// asset is passed over. A path too short to hold a content identifier
    /// fails the run. A content identifier seen before passes the asset over
    /// as a duplicate; a new one is fetched from the gateway.
    pub open spec fn on_details(
        self,
        cover: Option<Seq<char>>,
        title: Option<Seq<char>>,
    ) -> Outcome {
        match cover {
            None => (
                self.next_asset(),
                Ok(
                    ReplyView::telling(
                        NoticeView::NoCover { asset: self.current().asset },
                        ActionView::Continue,
                    ),
                ),
            ),
            Some(path) => match content_id_of(path) {
                None => self.fail(FetchError::MalformedCoverPath),
                Some(cid) => if self.seen.contains(cid) {
                    (
                        self.next_asset(),
                        Ok(
                            ReplyView::telling(
                                NoticeView::Duplicate { path, asset: self.current().asset },
                                ActionView::Continue,
                            ),
                        ),
                    )
                } else {
                    (
                        RunView { phase: Phase::AwaitDownload, pending: cid, ..self },
                        Ok(
                            ReplyView::telling(
                                NoticeView::CoverFound { title },
                                ActionView::Download { url: url_of(self.settings.gateway, cid) },
                            ),
                        ),
                    )
                },
            },
        }
    }

    /// The cover has been fetched: exactly the bytes that came are written,
    /// under the temporary name first and the final name then.
    pub open spec fn on_downloaded(self, data: Seq<u8>) -> Outcome {
        (
            RunView { phase: Phase::AwaitStore, ..self },
            Ok(
                ReplyView::silent(
                    ActionView::Store {
                        temp_path: temp_path_of(self.settings.work_dir, self.current().asset),
                        final_path: final_path_of(self.settings.work_dir, self.current().asset),
                        data,
                    },
                ),
            ),
        )
    }

    /// The cover has been written: its content identifier is remembered and
    /// the file counted.
    pub open spec fn on_stored(self) -> Outcome {
        (
            RunView {
                seen: self.seen.insert(self.pending),
                stored: self.stored.push(self.pending),
                ..self.next_asset()
            },
            Ok(ReplyView::silent(ActionView::Continue)),
        )
    }

    /// The transition that the event `event` causes.
    pub open spec fn step(self, event: EventView) -> Outcome {
        match self.phase {
            Phase::Start => match event {
                EventView::Resume => (
                    RunView { phase: Phase::AwaitDirectory, ..self },
                    Ok(ReplyView::silent(ActionView::FetchDirectory)),
                ),
                _ => self.refuse(),
            },
            Phase::AwaitDirectory => match event {
                EventView::Directory { known } => self.on_directory(known),
                EventView::Failure => self.reject(),
                _ => self.refuse(),
            },
            Phase::AwaitAssets => match event {
                EventView::Assets(assets) => self.on_assets(assets),
                EventView::Failure => self.fail(FetchError::ActionFailed),
                _ => self.refuse(),
            },
            Phase::Ready => match event {
                EventView::Resume => self.on_ready(),
                _ => self.refuse(),
            },
            Phase::AwaitProbe => match event {
                EventView::Present(bytes) => self.on_present(content_digest(bytes)),
                EventView::Absent => self.on_absent(),
                EventView::Failure => self.fail(FetchError::ActionFailed),
                _ => self.refuse(),
            },
            Phase::AwaitDetails => match event {
                EventView::Details { cover, title } => self.on_details(cover, title),
                EventView::Failure => self.fail(FetchError::ActionFailed),
                _ => self.refuse(),
            },
            Phase::AwaitDownload => match event {
                EventView::Downloaded(data) => self.on_downloaded(data),
                EventView::Failure => self.fail(FetchError::ActionFailed),
                _ => self.refuse(),
            },
            Phase::AwaitStore => match event {
                EventView::Stored => self.on_stored(),
                EventView::Failure => self.fail(FetchError::ActionFailed),
                _ => self.refuse(),
            },
            Phase::Finished => self.refuse(),
            Phase::Failed => self.refuse(),
        }
    }

    /// A bound on the decisions still to come between assets: two for each
    /// asset from the cursor on, and one more at the end of a chunk.
    pub open spec fn remaining(self) -> nat {
        (2 * (self.assets.len() - self.cursor) + if self.cursor >= self.chunk_end {
            1int
        } else {
            0int
        }) as nat
    }

    /// The state after the events `events`, taken in one after the other.
    pub open spec fn after(self, events: Seq<EventView>) -> RunView
        decreases events.len(),
    {
        if events.len() == 0 {
            self
        } else {
            self.after(events.drop_last()).step(events.last()).0
        }
    }
}

} // verus!
