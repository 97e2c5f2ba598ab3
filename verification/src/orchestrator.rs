//! The run itself: the state that is kept between two events, and the
//! decisions taken on each.

use crate::decimal::parse_i32;
use crate::digest::calculate_cid;
use crate::directory::collections;
use crate::error::FetchError;
use crate::laws::law_step_keeps_wf;
use crate::metadata::{content_id, get_high_res_cover_path, get_title};
use crate::model::{Phase, RunView};
use crate::protocol::{Action, AssetRecord, Event, Notice, Reply, ReplyView};
use crate::settings::{final_path, gateway_url, temp_path, Settings, CHUNK_SIZE};
use vstd::hash_set::StringHashSet;
use vstd::prelude::*;

verus! {

/// An answer or an error, as mathematical values.
pub open spec fn outcome_view(res: Result<Reply, FetchError>) -> Result<ReplyView, FetchError> {
    match res {
        Ok(reply) => Ok(reply@),
        Err(error) => Err(error),
    }
}

/// A run: the set of contents seen, the files counted, and the place among
/// the assets.
pub struct Orchestrator {
    settings: Settings,
    phase: Phase,
    assets: Vec<AssetRecord>,
    cursor: usize,
    chunk_end: usize,
    seen: StringHashSet,
    existing: u32,
    stored: Vec<String>,
    pending: String,
}

impl View for Orchestrator {
    type V = RunView;

    closed spec fn view(&self) -> RunView {
        RunView {
            settings: self.settings@,
            phase: self.phase,
            assets: self.assets.deep_view(),
            cursor: self.cursor as nat,
            chunk_end: self.chunk_end as nat,
            seen: self.seen@,
            existing: self.existing as nat,
            stored: self.stored.deep_view(),
            pending: self.pending@,
        }
    }
}

impl Orchestrator {
    /// Whether the state is one that a run can be in.
    pub open spec fn wf(&self) -> bool {
        self@.wf()
    }

    /// A run that has not begun.
    pub fn new(settings: Settings) -> (run: Orchestrator)
        ensures
            run.wf(),
            run@ =~~= RunView::initial(settings@),
    {
        let run = Orchestrator {
            settings,
            phase: Phase::Start,
            assets: Vec::new(),
            cursor: 0,
            chunk_end: 0,
            seen: StringHashSet::new(),
            existing: 0,
            stored: Vec::new(),
            pending: String::new(),
        };
        assert(run@ =~~= RunView::initial(settings@));
        run
    }

    /// What the run waits for.
    pub fn phase(&self) -> (phase: Phase)
        ensures
            phase == self@.phase,
    {
        self.phase
    }

    /// Number of files that were found on disk and counted.
    pub fn existing(&self) -> (n: u32)
        ensures
            n == self@.existing,
    {
        self.existing
    }

    /// The content identifiers of the files written, in order.
    pub fn stored(&self) -> (cids: &Vec<String>)
        ensures
            cids.deep_view() == self@.stored,
    {
        &self.stored
    }

    /// Number of files counted towards the budget.
    pub fn count(&self) -> (n: u64)
        requires
            self.wf(),
        ensures
            n == self@.count(),
    {
        self.existing as u64 + self.stored.len() as u64
    }

    /// Whether the budget is used up.
    pub fn exhausted(&self) -> (full: bool)
        requires
            self.wf(),
        ensures
            full == self@.exhausted(),
    {
        self.count() >= self.settings.max_files as u64
    }

    /// Whether content with this identifier or digest was seen before.
    pub fn has_seen(&self, key: &str) -> (seen: bool)
        ensures
            seen == self@.seen.contains(key@),
    {
        self.seen.contains(key)
    }

    /// Ends the run with `error`.
    fn fail(&mut self, error: FetchError) -> (res: Result<Reply, FetchError>)
        ensures
            final(self)@ =~~= old(self)@.fail(error).0,
            outcome_view(res) =~~= old(self)@.fail(error).1,
    {
        self.phase = Phase::Failed;
        Err(error)
    }

    /// Ends the run because the policy id is not known.
    fn reject(&mut self) -> (res: Result<Reply, FetchError>)
        ensures
            final(self)@ =~~= old(self)@.reject().0,
            outcome_view(res) =~~= old(self)@.reject().1,
    {
        self.phase = Phase::Finished;
        Ok(
            Reply {
                notice: Some(Notice::InvalidPolicy { policy_id: self.settings.policy_id.clone() }),
                action: Action::Finish,
            },
        )
    }

    /// Takes the decision between two assets.
    fn on_ready(&mut self) -> (res: Result<Reply, FetchError>)
        requires
            old(self).wf(),
            old(self)@.phase is Ready,
        ensures
            final(self)@ =~~= old(self)@.on_ready().0,
            outcome_view(res) =~~= old(self)@.on_ready().1,
    {
        let full = self.exhausted();
        if self.cursor >= self.chunk_end {
            if self.cursor >= self.assets.len() || full {
                self.phase = Phase::Finished;
                Ok(Reply { notice: None, action: Action::Finish })
            } else {
                self.chunk_end = if self.assets.len() - self.cursor >= CHUNK_SIZE {
                    self.cursor + CHUNK_SIZE
                } else {
                    self.assets.len()
                };
                Ok(Reply { notice: None, action: Action::Continue })
            }
        } else if full {
            self.cursor = self.chunk_end;
            Ok(Reply { notice: None, action: Action::Continue })
        } else {
            assert(self.assets.deep_view()[self.cursor as int] == self.assets[self.cursor as int]@);
            match parse_i32(self.assets[self.cursor].quantity.as_str()) {
                None => self.fail(FetchError::MalformedQuantity),
                Some(quantity) => {
                    if quantity <= 0 {
                        self.cursor = self.cursor + 1;
                        Ok(Reply { notice: None, action: Action::Continue })
                    } else {
                        self.phase = Phase::AwaitProbe;
                        let path = final_path(
                            &self.settings.work_dir,
                            &self.assets[self.cursor].asset,
                        );
                        Ok(Reply { notice: None, action: Action::Probe { path } })
                    }
                },
            }
        }
    }

    /// Records that the file of the current asset exists and has the digest
    /// `digest`. Any other state than the one after a probe refuses it.
    pub fn on_present(&mut self, digest: String) -> (res: Result<Reply, FetchError>)
        requires
            old(self).wf(),
        ensures
            final(self).wf(),
            final(self)@ =~~= old(self)@.step_present(digest@).0,
            outcome_view(res) =~~= old(self)@.step_present(digest@).1,
    {
        proof {
            old(self)@.lemma_step_present_keeps_wf(digest@);
        }
        match self.phase {
            Phase::AwaitProbe => {
                assert(self.assets.deep_view()[self.cursor as int]
                    == self.assets[self.cursor as int]@);
                let asset = self.assets[self.cursor].asset.clone();
                self.seen.insert(digest);
                self.existing = self.existing + 1;
                self.cursor = self.cursor + 1;
                self.phase = Phase::Ready;
                Ok(
                    Reply {
                        notice: Some(Notice::AlreadyDownloaded { asset }),
                        action: Action::Continue,
                    },
                )
            },
            _ => Err(FetchError::UnexpectedEvent),
        }
    }

    /// Asks for the details of the current asset.
    fn on_absent(&mut self) -> (res: Result<Reply, FetchError>)
        requires
            old(self).wf(),
            old(self)@.phase is AwaitProbe,
        ensures
            final(self)@ =~~= old(self)@.on_absent().0,
            outcome_view(res) =~~= old(self)@.on_absent().1,
    {
        assert(self.assets.deep_view()[self.cursor as int] == self.assets[self.cursor as int]@);
        let asset = self.assets[self.cursor].asset.clone();
        self.phase = Phase::AwaitDetails;
        Ok(Reply { notice: None, action: Action::Resolve { asset } })
    }

    /// Decides what the details of the current asset call for.
    fn on_details(&mut self, cover: Option<String>, title: Option<String>) -> (res: Result<
        Reply,
        FetchError,
    >)
        requires
            old(self).wf(),
            old(self)@.phase is AwaitDetails,
        ensures
            final(self)@ =~~= old(self)@.on_details(
                match cover {
                    Some(p) => Some(p@),
                    None => None,
                },
                match title {
                    Some(t) => Some(t@),
                    None => None,
                },
            ).0,
            outcome_view(res) =~~= old(self)@.on_details(
                match cover {
                    Some(p) => Some(p@),
                    None => None,
                },
                match title {
                    Some(t) => Some(t@),
                    None => None,
                },
            ).1,
    {
        assert(self.assets.deep_view()[self.cursor as int] == self.assets[self.cursor as int]@);
        match cover {
            None => {
                let asset = self.assets[self.cursor].asset.clone();
                self.cursor = self.cursor + 1;
                self.phase = Phase::Ready;
                Ok(Reply { notice: Some(Notice::NoCover { asset }), action: Action::Continue })
            },
            Some(path) => match content_id(path.as_str()) {
                None => self.fail(FetchError::MalformedCoverPath),
                Some(cid) => {
                    if self.seen.contains(cid.as_str()) {
                        let asset = self.assets[self.cursor].asset.clone();
                        self.cursor = self.cursor + 1;
                        self.phase = Phase::Ready;
                        Ok(
                            Reply {
                                notice: Some(Notice::Duplicate { path, asset }),
                                action: Action::Continue,
                            },
                        )
                    } else {
                        let url = gateway_url(&self.settings.gateway, &cid);
                        self.pending = cid;
                        self.phase = Phase::AwaitDownload;
                        Ok(
                            Reply {
                                notice: Some(Notice::CoverFound { title }),
                                action: Action::Download { url },
                            },
                        )
                    }
                },
            },
        }
    }

    /// Asks for the bytes fetched to be written.
    fn on_downloaded(&mut self, data: Vec<u8>) -> (res: Result<Reply, FetchError>)
        requires
            old(self).wf(),
            old(self)@.phase is AwaitDownload,
        ensures
            final(self)@ =~~= old(self)@.on_downloaded(data@).0,
            outcome_view(res) =~~= old(self)@.on_downloaded(data@).1,
    {
        assert(self.assets.deep_view()[self.cursor as int] == self.assets[self.cursor as int]@);
        let temp = temp_path(&self.settings.work_dir, &self.assets[self.cursor].asset);
        let path = final_path(&self.settings.work_dir, &self.assets[self.cursor].asset);
        self.phase = Phase::AwaitStore;
        Ok(
            Reply {
                notice: None,
                action: Action::Store { temp_path: temp, final_path: path, data },
            },
        )
    }

    /// Records that the cover of the current asset has been written.
    fn on_stored(&mut self) -> (res: Result<Reply, FetchError>)
        requires
            old(self).wf(),
            old(self)@.phase is AwaitStore,
        ensures
            final(self)@ =~~= old(self)@.on_stored().0,
            outcome_view(res) =~~= old(self)@.on_stored().1,
    {
        let cid = self.pending.clone();
        self.seen.insert(cid.clone());
        self.stored.push(cid);
        self.cursor = self.cursor + 1;
        self.phase = Phase::Ready;
        assert(self.stored.deep_view() =~= old(self).stored.deep_view().push(old(self).pending@));
        Ok(Reply { notice: None, action: Action::Continue })
    }

    /// Takes in what the caller reports and answers with what to do next.
    ///
    /// The state moves, and the answer is, as the state machine says.
    /// An event that does not answer the action last asked for is refused
    /// and changes nothing.
    pub fn step(&mut self, event: Event) -> (res: Result<Reply, FetchError>)
        requires
            old(self).wf(),
        ensures
            final(self).wf(),
            final(self)@ =~~= old(self)@.step(event@).0,
            outcome_view(res) =~~= old(self)@.step(event@).1,
    {
        proof {
            law_step_keeps_wf(old(self)@, event@);
        }
        let phase = self.phase;
        match phase {
            Phase::Start => match event {
                Event::Resume => {
                    self.phase = Phase::AwaitDirectory;
                    Ok(Reply { notice: None, action: Action::FetchDirectory })
                },
                _ => Err(FetchError::UnexpectedEvent),
            },
            Phase::AwaitDirectory => match event {
                Event::Directory { status, body } => match collections(status, &body) {
                    Err(error) => self.fail(error),
                    Ok(known) => {
                        if known.contains(self.settings.policy_id.as_str()) {
                            self.phase = Phase::AwaitAssets;
                            Ok(
                                Reply {
                                    notice: None,
                                    action: Action::Enumerate {
                                        policy_id: self.settings.policy_id.clone(),
                                    },
                                },
                            )
                        } else {
                            self.reject()
                        }
                    },
                },
                Event::Failure => self.reject(),
                _ => Err(FetchError::UnexpectedEvent),
            },
            Phase::AwaitAssets => match event {
                Event::Assets(assets) => {
                    self.assets = assets;
                    self.cursor = 0;
                    self.chunk_end = 0;
                    self.phase = Phase::Ready;
                    Ok(Reply { notice: None, action: Action::Continue })
                },
                Event::Failure => self.fail(FetchError::ActionFailed),
                _ => Err(FetchError::UnexpectedEvent),
            },
            Phase::Ready => match event {
                Event::Resume => self.on_ready(),
                _ => Err(FetchError::UnexpectedEvent),
            },
            Phase::AwaitProbe => match event {
                Event::Present(bytes) => {
                    let digest = calculate_cid(&bytes);
                    self.on_present(digest)
                },
                Event::Absent => self.on_absent(),
                Event::Failure => self.fail(FetchError::ActionFailed),
                _ => Err(FetchError::UnexpectedEvent),
            },
            Phase::AwaitDetails => match event {
                Event::Details(details) => {
                    let cover = get_high_res_cover_path(&details);
                    let title = get_title(&details);
                    self.on_details(cover, title)
                },
                Event::Failure => self.fail(FetchError::ActionFailed),
                _ => Err(FetchError::UnexpectedEvent),
            },
            Phase::AwaitDownload => match event {
                Event::Downloaded(data) => self.on_downloaded(data),
                Event::Failure => self.fail(FetchError::ActionFailed),
                _ => Err(FetchError::UnexpectedEvent),
            },
            Phase::AwaitStore => match event {
                Event::Stored => self.on_stored(),
                Event::Failure => self.fail(FetchError::ActionFailed),
                _ => Err(FetchError::UnexpectedEvent),
            },
            Phase::Finished => Err(FetchError::UnexpectedEvent),
            Phase::Failed => Err(FetchError::UnexpectedEvent),
        }
    }
}

} // verus!
