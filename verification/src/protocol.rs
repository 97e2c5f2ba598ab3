//! What a run and its caller say to each other. The run asks for one
//! [`Action`] at a time; the caller performs it and answers with an
//! [`Event`].

use crate::directory::{known_policy_ids, CollectionsResponse};
use crate::metadata::{cover_path, cover_title, AssetDetails};
use vstd::prelude::*;

verus! {

/// An asset of a collection, as the enumeration service lists it.
pub struct AssetRecord {
    /// The asset's identifier, which is also the name of its file.
    pub asset: String,
    /// How many of the asset exist, as decimal text.
    pub quantity: String,
}

/// An asset, as mathematical values.
pub struct AssetView {
    pub asset: Seq<char>,
    pub quantity: Seq<char>,
}

impl View for AssetRecord {
    type V = AssetView;

    open spec fn view(&self) -> AssetView {
        AssetView { asset: self.asset@, quantity: self.quantity@ }
    }
}

impl DeepView for AssetRecord {
    type V = AssetView;

    open spec fn deep_view(&self) -> AssetView {
        self@
    }
}

/// What the caller reports.
pub enum Event {
    /// Nothing was asked for, or what was asked for needs no answer.
    Resume,
    /// The action asked for could not be performed.
    Failure,
    /// The directory service answered with this status and, where it could be
    /// read, this body.
    Directory { status: u16, body: Option<CollectionsResponse> },
    /// The assets of the collection, in the order of the enumeration.
    Assets(Vec<AssetRecord>),
    /// The file probed for exists and holds these bytes.
    Present(Vec<u8>),
    /// The file probed for does not exist.
    Absent,
    /// The details of the asset asked about.
    Details(AssetDetails),
    /// The content fetcher returned these bytes.
    Downloaded(Vec<u8>),
    /// The bytes were written and the file has its final name.
    Stored,
}

/// What the caller reports, as mathematical values. Of a directory answer it
/// keeps the policy ids that the answer makes known, of an asset's details
/// the cover path and the title.
#[verifier::ext_equal]
pub enum EventView {
    Resume,
    Failure,
    Directory { known: Option<Set<Seq<char>>> },
    Assets(Seq<AssetView>),
    Present(Seq<u8>),
    Absent,
    Details { cover: Option<Seq<char>>, title: Option<Seq<char>> },
    Downloaded(Seq<u8>),
    Stored,
}

impl View for Event {
    type V = EventView;

    open spec fn view(&self) -> EventView {
        match self {
            Event::Resume => EventView::Resume,
            Event::Failure => EventView::Failure,
            Event::Directory { status, body } => EventView::Directory {
                known: known_policy_ids(*status, *body),
            },
            Event::Assets(assets) => EventView::Assets(assets.deep_view()),
            Event::Present(bytes) => EventView::Present(bytes@),
            Event::Absent => EventView::Absent,
            Event::Details(details) => EventView::Details {
                cover: cover_path(*details),
                title: cover_title(*details),
            },
            Event::Downloaded(bytes) => EventView::Downloaded(bytes@),
            Event::Stored => EventView::Stored,
        }
    }
}

/// What the run asks its caller to do next.
#[derive(Debug, PartialEq, Eq)]
pub enum Action {
    /// Ask the directory service for the known collections.
    FetchDirectory,
    /// List the assets of the collection `policy_id`.
    Enumerate { policy_id: String },
    /// Look for the file at `path`, and read it if it exists.
    Probe { path: String },
    /// Ask the asset-detail service about `asset`.
    Resolve { asset: String },
    /// Fetch the content at `url`.
    Download { url: String },
    /// Write `data` to `temp_path`, then rename that file to `final_path`.
    Store { temp_path: String, final_path: String, data: Vec<u8> },
    /// Nothing to do outside; report `Resume`.
    Continue,
    /// The run is over.
    Finish,
}

/// What the run asks for, as mathematical values.
#[verifier::ext_equal]
pub enum ActionView {
    FetchDirectory,
    Enumerate { policy_id: Seq<char> },
    Probe { path: Seq<char> },
    Resolve { asset: Seq<char> },
    Download { url: Seq<char> },
    Store { temp_path: Seq<char>, final_path: Seq<char>, data: Seq<u8> },
    Continue,
    Finish,
}

impl View for Action {
    type V = ActionView;

    open spec fn view(&self) -> ActionView {
        match self {
            Action::FetchDirectory => ActionView::FetchDirectory,
            Action::Enumerate { policy_id } => ActionView::Enumerate { policy_id: policy_id@ },
            Action::Probe { path } => ActionView::Probe { path: path@ },
            Action::Resolve { asset } => ActionView::Resolve { asset: asset@ },
            Action::Download { url } => ActionView::Download { url: url@ },
            Action::Store { temp_path, final_path, data } => ActionView::Store {
                temp_path: temp_path@,
                final_path: final_path@,
                data: data@,
            },
            Action::Continue => ActionView::Continue,
            Action::Finish => ActionView::Finish,
        }
    }
}

impl ActionView {
    /// Whether the action reaches the network or the file system.
    pub open spec fn is_outside_call(self) -> bool {
        !(self is Continue || self is Finish)
    }
}

/// What the run has to tell its user.
#[derive(Debug, PartialEq, Eq)]
pub enum Notice {
    /// The policy id is not one of the known collections.
    InvalidPolicy { policy_id: String },
    /// The file of `asset` is on disk already.
    AlreadyDownloaded { asset: String },
    /// The metadata of `asset` names no high-resolution cover.
    NoCover { asset: String },
    /// A cover was found for the asset with this title, if it has one.
    CoverFound { title: Option<String> },
    /// The cover at `path` of `asset` is the same as one seen before.
    Duplicate { path: String, asset: String },
}

/// What the run has to tell, as mathematical values.
#[verifier::ext_equal]
pub enum NoticeView {
    InvalidPolicy { policy_id: Seq<char> },
    AlreadyDownloaded { asset: Seq<char> },
    NoCover { asset: Seq<char> },
    CoverFound { title: Option<Seq<char>> },
    Duplicate { path: Seq<char>, asset: Seq<char> },
}

impl View for Notice {
    type V = NoticeView;

    open spec fn view(&self) -> NoticeView {
        match self {
            Notice::InvalidPolicy { policy_id } => NoticeView::InvalidPolicy {
                policy_id: policy_id@,
            },
            Notice::AlreadyDownloaded { asset } => NoticeView::AlreadyDownloaded {
                asset: asset@,
            },
            Notice::NoCover { asset } => NoticeView::NoCover { asset: asset@ },
            Notice::CoverFound { title } => NoticeView::CoverFound {
                title: match title {
                    Some(t) => Some(t@),
                    None => None,
                },
            },
            Notice::Duplicate { path, asset } => NoticeView::Duplicate {
                path: path@,
                asset: asset@,
            },
        }
    }
}

/// The answer of the run to an event: something to tell, perhaps, and what
/// to do next.
#[derive(Debug, PartialEq, Eq)]
pub struct Reply {
    pub notice: Option<Notice>,
    pub action: Action,
}

/// An answer of the run, as mathematical values.
#[verifier::ext_equal]
pub struct ReplyView {
    pub notice: Option<NoticeView>,
    pub action: ActionView,
}

impl View for Reply {
    type V = ReplyView;

    open spec fn view(&self) -> ReplyView {
        ReplyView {
            notice: match self.notice {
                Some(n) => Some(n@),
                None => None,
            },
            action: self.action@,
        }
    }
}

impl ReplyView {
    /// An answer that tells nothing.
    pub open spec fn silent(action: ActionView) -> ReplyView {
        ReplyView { notice: None, action }
    }

    /// An answer that tells `notice`.
    pub open spec fn telling(notice: NoticeView, action: ActionView) -> ReplyView {
        ReplyView { notice: Some(notice), action }
    }
}

} // verus!
