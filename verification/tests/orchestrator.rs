use std::collections::HashMap;

use book_covers::digest::calculate_cid;
use book_covers::directory::{CollectionsResponse, DataEntry};
use book_covers::error::FetchError;
use book_covers::metadata::{AssetDetails, Metadata};
use book_covers::model::Phase;
use book_covers::orchestrator::Orchestrator;
use book_covers::protocol::{Action, AssetRecord, Event, Notice, Reply};
use book_covers::settings::Settings;

/// Everything outside the run: the services and the disk.
struct World {
    status: u16,
    collections: Option<Vec<&'static str>>,
    assets: Vec<(&'static str, &'static str)>,
    covers: HashMap<&'static str, Metadata>,
    content: HashMap<String, Vec<u8>>,
    files: HashMap<String, Vec<u8>>,
    calls: Vec<String>,
    notices: Vec<Notice>,
}

fn cover(path: &str) -> Metadata {
    Metadata::Record(vec![
        ("name".to_string(), Metadata::Text("A Book".to_string())),
        (
            "files".to_string(),
            Metadata::List(vec![Metadata::Record(vec![(
                "src".to_string(),
                Metadata::Text(path.to_string()),
            )])]),
        ),
    ])
}

fn no_files() -> Metadata {
    Metadata::Record(vec![("name".to_string(), Metadata::Text("Plain".to_string()))])
}

fn world(assets: Vec<(&'static str, &'static str)>) -> World {
    World {
        status: 200,
        collections: Some(vec!["policy"]),
        assets,
        covers: HashMap::new(),
        content: HashMap::new(),
        files: HashMap::new(),
        calls: Vec::new(),
        notices: Vec::new(),
    }
}

fn settings(max_files: u32) -> Settings {
    Settings {
        policy_id: "policy".to_string(),
        work_dir: "out".to_string(),
        max_files,
        gateway: "gw/".to_string(),
    }
}

impl World {
    fn with_cover(mut self, asset: &'static str, cid: &str, bytes: &[u8]) -> World {
        self.covers.insert(asset, cover(&format!("ipfs://{}", cid)));
        self.content.insert(format!("gw/{}", cid), bytes.to_vec());
        self
    }

    fn with_file(mut self, asset: &str, bytes: &[u8]) -> World {
        self.files.insert(format!("out/{}", asset), bytes.to_vec());
        self
    }

    fn perform(&mut self, action: Action) -> Option<Event> {
        match action {
            Action::FetchDirectory => {
                self.calls.push("directory".to_string());
                let body = self.collections.as_ref().map(|ids| CollectionsResponse {
                    data_type: "collections".to_string(),
                    data: ids
                        .iter()
                        .map(|id| DataEntry {
                            collection_id: id.to_string(),
                            description: String::new(),
                            blockchain: "cardano".to_string(),
                            network: "mainnet".to_string(),
                        })
                        .collect(),
                });
                Some(Event::Directory { status: self.status, body })
            }
            Action::Enumerate { policy_id } => {
                self.calls.push(format!("enumerate {}", policy_id));
                Some(Event::Assets(
                    self.assets
                        .iter()
                        .map(|(asset, quantity)| AssetRecord {
                            asset: asset.to_string(),
                            quantity: quantity.to_string(),
                        })
                        .collect(),
                ))
            }
            Action::Probe { path } => {
                self.calls.push(format!("probe {}", path));
                match self.files.get(&path) {
                    Some(bytes) => Some(Event::Present(bytes.clone())),
                    None => Some(Event::Absent),
                }
            }
            Action::Resolve { asset } => {
                self.calls.push(format!("resolve {}", asset));
                let metadata = self.covers.get(asset.as_str()).map(copy);
                Some(Event::Details(AssetDetails { onchain_metadata: metadata }))
            }
            Action::Download { url } => {
                self.calls.push(format!("download {}", url));
                match self.content.get(&url) {
                    Some(bytes) => Some(Event::Downloaded(bytes.clone())),
                    None => Some(Event::Failure),
                }
            }
            Action::Store { temp_path, final_path, data } => {
                self.calls.push(format!("store {} {}", temp_path, final_path));
                self.files.insert(final_path, data);
                Some(Event::Stored)
            }
            Action::Continue => Some(Event::Resume),
            Action::Finish => None,
        }
    }

    fn run(&mut self, settings: Settings) -> Result<Orchestrator, FetchError> {
        let mut run = Orchestrator::new(settings);
        let mut event = Event::Resume;
        loop {
            let Reply { notice, action } = run.step(event)?;
            if let Some(n) = notice {
                self.notices.push(n);
            }
            match self.perform(action) {
                Some(next) => event = next,
                None => return Ok(run),
            }
        }
    }

    fn downloads(&self) -> usize {
        self.calls.iter().filter(|c| c.starts_with("download")).count()
    }

    fn stores(&self) -> usize {
        self.calls.iter().filter(|c| c.starts_with("store")).count()
    }

    fn calls_about(&self, asset: &str) -> usize {
        self.calls.iter().filter(|c| c.contains(asset)).count()
    }
}

fn copy(m: &Metadata) -> Metadata {
    match m {
        Metadata::Null => Metadata::Null,
        Metadata::Flag(b) => Metadata::Flag(*b),
        Metadata::Number(n) => Metadata::Number(n.clone()),
        Metadata::Text(t) => Metadata::Text(t.clone()),
        Metadata::List(items) => Metadata::List(items.iter().map(copy).collect()),
        Metadata::Record(fields) => {
            Metadata::Record(fields.iter().map(|(k, v)| (k.clone(), copy(v))).collect())
        }
    }
}

#[test]
fn covers_are_fetched_and_written() {
    let mut w = world(vec![("a1", "1"), ("a2", "1")])
        .with_cover("a1", "Qm1", b"one")
        .with_cover("a2", "Qm2", b"two");
    let run = w.run(settings(10)).unwrap();
    assert_eq!(run.phase(), Phase::Finished);
    assert_eq!(
        w.calls,
        vec![
            "directory",
            "enumerate policy",
            "probe out/a1",
            "resolve a1",
            "download gw/Qm1",
            "store out/a1.tmp out/a1",
            "probe out/a2",
            "resolve a2",
            "download gw/Qm2",
            "store out/a2.tmp out/a2",
        ]
    );
    assert_eq!(w.files.get("out/a1"), Some(&b"one".to_vec()));
    assert_eq!(w.files.get("out/a2"), Some(&b"two".to_vec()));
    assert_eq!(run.stored(), &vec!["Qm1".to_string(), "Qm2".to_string()]);
    assert_eq!(run.existing(), 0);
    assert_eq!(run.count(), 2);
    assert!(run.has_seen("Qm1"));
    assert!(run.has_seen("Qm2"));
    assert!(!run.has_seen("Qm3"));
    assert_eq!(
        w.notices,
        vec![
            Notice::CoverFound { title: Some("A Book".to_string()) },
            Notice::CoverFound { title: Some("A Book".to_string()) },
        ]
    );
}

#[test]
fn assets_without_quantity_cause_no_calls() {
    let mut w = world(vec![("zero", "0"), ("minus", "-3"), ("plus", "2")])
        .with_cover("zero", "Qm0", b"zero")
        .with_cover("minus", "QmM", b"minus")
        .with_cover("plus", "QmP", b"plus")
        .with_file("zero", b"already there");
    let run = w.run(settings(10)).unwrap();
    assert_eq!(w.calls_about("zero"), 0);
    assert_eq!(w.calls_about("minus"), 0);
    assert_eq!(w.calls_about("plus"), 3);
    assert_eq!(w.downloads(), 1);
    assert_eq!(run.count(), 1);
    assert_eq!(run.existing(), 0);
    assert!(w.notices.len() == 1);
}

#[test]
fn count_never_exceeds_the_budget() {
    for max in 0..6u32 {
        let mut w = world(vec![("a1", "1"), ("a2", "1"), ("a3", "1"), ("a4", "1")])
            .with_cover("a2", "Qm2", b"two")
            .with_cover("a3", "Qm3", b"three")
            .with_cover("a4", "Qm4", b"four")
            .with_file("a1", b"one");
        let run = w.run(settings(max)).unwrap();
        let expected = std::cmp::min(max as u64, 4);
        assert_eq!(run.count(), expected);
        assert_eq!(run.existing() as usize + w.stores(), expected as usize);
        assert!(run.count() <= max as u64);
    }
}

#[test]
fn zero_budget_touches_no_asset() {
    let mut w = world(vec![("a1", "1"), ("a2", "bad")]).with_cover("a1", "Qm1", b"one");
    let run = w.run(settings(0)).unwrap();
    assert_eq!(w.calls, vec!["directory", "enumerate policy"]);
    assert_eq!(run.count(), 0);
    assert_eq!(run.phase(), Phase::Finished);
}

#[test]
fn second_run_downloads_nothing() {
    let mut w = world(vec![("a1", "1"), ("a2", "0"), ("a3", "5"), ("a4", "1")])
        .with_cover("a1", "Qm1", b"one")
        .with_cover("a3", "Qm3", b"three");
    w.covers.insert("a4", no_files());
    let first = w.run(settings(10)).unwrap();
    assert_eq!(w.downloads(), 2);
    assert_eq!(first.count(), 2);
    let files_after_first = w.files.clone();
    w.calls.clear();
    w.notices.clear();
    let second = w.run(settings(10)).unwrap();
    assert_eq!(w.downloads(), 0);
    assert_eq!(w.stores(), 0);
    assert_eq!(w.files, files_after_first);
    assert_eq!(second.count(), 2);
    assert_eq!(second.existing(), 2);
    assert!(second.stored().is_empty());
    assert_eq!(
        w.notices,
        vec![
            Notice::AlreadyDownloaded { asset: "a1".to_string() },
            Notice::AlreadyDownloaded { asset: "a3".to_string() },
            Notice::NoCover { asset: "a4".to_string() },
        ]
    );
}

#[test]
fn second_run_with_small_budget_downloads_nothing() {
    let mut w = world(vec![("a1", "1"), ("a2", "1"), ("a3", "1")])
        .with_cover("a1", "Qm1", b"one")
        .with_cover("a2", "Qm2", b"two")
        .with_cover("a3", "Qm3", b"three");
    w.run(settings(2)).unwrap();
    assert_eq!(w.downloads(), 2);
    w.calls.clear();
    let second = w.run(settings(2)).unwrap();
    assert_eq!(w.downloads(), 0);
    assert_eq!(w.calls_about("a3"), 0);
    assert_eq!(second.existing(), 2);
}

#[test]
fn second_run_fetches_what_the_first_passed_over_as_duplicate() {
    let mut w = world(vec![("a1", "1"), ("a2", "1")])
        .with_cover("a1", "QmSame", b"same")
        .with_cover("a2", "QmSame", b"same");
    let first = w.run(settings(10)).unwrap();
    assert_eq!(first.count(), 1);
    assert_eq!(w.downloads(), 1);
    w.calls.clear();
    let second = w.run(settings(10)).unwrap();
    assert_eq!(w.downloads(), 1);
    assert_eq!(second.existing(), 1);
    assert_eq!(second.stored(), &vec!["QmSame".to_string()]);
    assert!(w.files.contains_key("out/a2"));
}

#[test]
fn existing_file_is_hashed_and_counted() {
    let mut w = world(vec![("a1", "1")]).with_file("a1", b"on disk").with_cover("a1", "Qm1", b"x");
    let run = w.run(settings(10)).unwrap();
    assert_eq!(w.calls, vec!["directory", "enumerate policy", "probe out/a1"]);
    assert_eq!(run.existing(), 1);
    assert_eq!(run.count(), 1);
    assert!(run.has_seen(&calculate_cid(&b"on disk".to_vec())));
    assert!(!run.has_seen("Qm1"));
    assert_eq!(w.notices, vec![Notice::AlreadyDownloaded { asset: "a1".to_string() }]);
}

#[test]
fn same_content_is_written_once() {
    let mut w = world(vec![("a1", "1"), ("a2", "1"), ("a3", "1")])
        .with_cover("a1", "QmSame", b"same")
        .with_cover("a2", "QmSame", b"same")
        .with_cover("a3", "QmOther", b"other");
    let run = w.run(settings(10)).unwrap();
    assert_eq!(w.stores(), 2);
    assert_eq!(w.downloads(), 2);
    assert!(w.files.contains_key("out/a1"));
    assert!(!w.files.contains_key("out/a2"));
    assert!(w.files.contains_key("out/a3"));
    assert_eq!(run.stored(), &vec!["QmSame".to_string(), "QmOther".to_string()]);
    assert_eq!(run.count(), 2);
    assert!(w.notices.contains(&Notice::Duplicate {
        path: "ipfs://QmSame".to_string(),
        asset: "a2".to_string()
    }));
}

#[test]
fn duplicate_does_not_use_up_the_budget() {
    let mut w = world(vec![("a1", "1"), ("a2", "1"), ("a3", "1")])
        .with_cover("a1", "QmSame", b"same")
        .with_cover("a2", "QmSame", b"same")
        .with_cover("a3", "QmOther", b"other");
    let run = w.run(settings(2)).unwrap();
    assert_eq!(run.count(), 2);
    assert!(w.files.contains_key("out/a3"));
}

#[test]
fn content_seen_on_disk_is_not_fetched_again() {
    let on_disk = b"cover bytes".to_vec();
    let digest = calculate_cid(&on_disk);
    let mut w = world(vec![("a1", "1"), ("a2", "1")]).with_file("a1", &on_disk);
    w.covers.insert("a2", cover(&format!("ipfs://{}", digest)));
    let run = w.run(settings(10)).unwrap();
    assert_eq!(w.downloads(), 0);
    assert_eq!(run.count(), 1);
    assert_eq!(w.notices.len(), 2);
}

#[test]
fn written_bytes_are_the_fetched_bytes() {
    let bytes: Vec<u8> = (0..=255u8).collect();
    let mut run = Orchestrator::new(settings(10));
    run.step(Event::Resume).unwrap();
    run.step(Event::Directory {
        status: 200,
        body: Some(CollectionsResponse {
            data_type: String::new(),
            data: vec![DataEntry {
                collection_id: "policy".to_string(),
                description: String::new(),
                blockchain: String::new(),
                network: String::new(),
            }],
        }),
    })
    .unwrap();
    run.step(Event::Assets(vec![AssetRecord {
        asset: "a1".to_string(),
        quantity: "1".to_string(),
    }]))
    .unwrap();
    assert_eq!(run.step(Event::Resume).unwrap().action, Action::Continue);
    assert_eq!(
        run.step(Event::Resume).unwrap().action,
        Action::Probe { path: "out/a1".to_string() }
    );
    assert_eq!(
        run.step(Event::Absent).unwrap().action,
        Action::Resolve { asset: "a1".to_string() }
    );
    assert_eq!(
        run.step(Event::Details(AssetDetails { onchain_metadata: Some(cover("ipfs://Qm1")) }))
            .unwrap(),
        Reply {
            notice: Some(Notice::CoverFound { title: Some("A Book".to_string()) }),
            action: Action::Download { url: "gw/Qm1".to_string() }
        }
    );
    assert_eq!(run.count(), 0);
    assert_eq!(
        run.step(Event::Downloaded(bytes.clone())).unwrap(),
        Reply {
            notice: None,
            action: Action::Store {
                temp_path: "out/a1.tmp".to_string(),
                final_path: "out/a1".to_string(),
                data: bytes
            }
        }
    );
    assert_eq!(run.count(), 0);
    assert!(!run.has_seen("Qm1"));
    assert_eq!(run.step(Event::Stored).unwrap().action, Action::Continue);
    assert_eq!(run.count(), 1);
    assert!(run.has_seen("Qm1"));
    assert_eq!(run.step(Event::Resume).unwrap().action, Action::Finish);
    assert_eq!(run.phase(), Phase::Finished);
}

#[test]
fn unknown_policy_ends_the_run_before_any_enumeration() {
    let mut w = world(vec![("a1", "1")]).with_cover("a1", "Qm1", b"one");
    w.collections = Some(vec!["other", "another"]);
    let run = w.run(settings(10)).unwrap();
    assert_eq!(w.calls, vec!["directory"]);
    assert_eq!(w.notices, vec![Notice::InvalidPolicy { policy_id: "policy".to_string() }]);
    assert_eq!(run.phase(), Phase::Finished);
    assert_eq!(run.count(), 0);
}

#[test]
fn failed_directory_call_makes_the_policy_unknown() {
    let mut w = world(vec![("a1", "1")]).with_cover("a1", "Qm1", b"one");
    w.status = 503;
    let run = w.run(settings(10)).unwrap();
    assert_eq!(w.calls, vec!["directory"]);
    assert_eq!(w.notices, vec![Notice::InvalidPolicy { policy_id: "policy".to_string() }]);
    assert_eq!(run.phase(), Phase::Finished);

    let mut w = world(vec![("a1", "1")]);
    w.status = 404;
    w.collections = None;
    w.run(settings(10)).unwrap();
    assert_eq!(w.calls, vec!["directory"]);
    assert_eq!(w.notices, vec![Notice::InvalidPolicy { policy_id: "policy".to_string() }]);
}

#[test]
fn unreachable_directory_makes_the_policy_unknown() {
    let mut run = Orchestrator::new(settings(10));
    assert_eq!(run.step(Event::Resume).unwrap().action, Action::FetchDirectory);
    assert_eq!(
        run.step(Event::Failure).unwrap(),
        Reply {
            notice: Some(Notice::InvalidPolicy { policy_id: "policy".to_string() }),
            action: Action::Finish
        }
    );
    assert_eq!(run.phase(), Phase::Finished);
}

#[test]
fn unreadable_directory_fails_the_run() {
    let mut w = world(vec![("a1", "1")]);
    w.collections = None;
    assert_eq!(w.run(settings(10)).err(), Some(FetchError::MalformedDirectory));
    assert_eq!(w.calls, vec!["directory"]);
}

#[test]
fn asset_without_files_is_skipped_and_not_counted() {
    let mut w = world(vec![("a1", "1"), ("a2", "1")]).with_cover("a2", "Qm2", b"two");
    w.covers.insert("a1", no_files());
    let run = w.run(settings(1)).unwrap();
    assert_eq!(w.notices[0], Notice::NoCover { asset: "a1".to_string() });
    assert_eq!(w.calls_about("a1"), 2);
    assert!(!w.files.contains_key("out/a1"));
    assert!(w.files.contains_key("out/a2"));
    assert_eq!(run.count(), 1);
}

#[test]
fn asset_without_metadata_is_skipped() {
    let mut w = world(vec![("a1", "1")]);
    let run = w.run(settings(10)).unwrap();
    assert_eq!(w.notices, vec![Notice::NoCover { asset: "a1".to_string() }]);
    assert_eq!(run.count(), 0);
    assert_eq!(w.downloads(), 0);
}

#[test]
fn budget_of_one_stops_after_the_first_file() {
    let mut w = world(vec![("a1", "1"), ("a2", "1")])
        .with_cover("a1", "Qm1", b"one")
        .with_cover("a2", "Qm2", b"two");
    let run = w.run(settings(1)).unwrap();
    assert_eq!(w.stores(), 1);
    assert_eq!(w.calls_about("a2"), 0);
    assert_eq!(
        w.calls,
        vec![
            "directory",
            "enumerate policy",
            "probe out/a1",
            "resolve a1",
            "download gw/Qm1",
            "store out/a1.tmp out/a1",
        ]
    );
    assert!(w.files.contains_key("out/a1"));
    assert!(!w.files.contains_key("out/a2"));
    assert_eq!(run.count(), 1);
    assert_eq!(run.phase(), Phase::Finished);
}

#[test]
fn assets_are_walked_across_chunks() {
    let names = [
        "b01", "b02", "b03", "b04", "b05", "b06", "b07", "b08", "b09", "b10", "b11", "b12",
        "b13", "b14", "b15", "b16", "b17", "b18", "b19", "b20", "b21", "b22", "b23",
    ];
    let mut w = world(names.iter().map(|n| (*n, "1")).collect());
    for (i, name) in names.iter().enumerate() {
        w = w.with_cover(name, &format!("Qm{}", i), name.as_bytes());
    }
    let run = w.run(settings(21)).unwrap();
    assert_eq!(run.count(), 21);
    assert_eq!(w.stores(), 21);
    assert!(w.files.contains_key("out/b21"));
    assert!(!w.files.contains_key("out/b22"));
    assert_eq!(w.calls_about("b22"), 0);

    let mut all = world(names.iter().map(|n| (*n, "1")).collect());
    for (i, name) in names.iter().enumerate() {
        all = all.with_cover(name, &format!("Qm{}", i), name.as_bytes());
    }
    let run = all.run(settings(100)).unwrap();
    assert_eq!(run.count(), 23);
    assert_eq!(run.phase(), Phase::Finished);
}

#[test]
fn mid_chunk_exhaustion_abandons_the_chunk() {
    let mut run2 = Orchestrator::new(settings(1));
    run2.step(Event::Resume).unwrap();
    run2.step(Event::Directory {
        status: 200,
        body: Some(CollectionsResponse {
            data_type: String::new(),
            data: vec![DataEntry {
                collection_id: "policy".to_string(),
                description: String::new(),
                blockchain: String::new(),
                network: String::new(),
            }],
        }),
    })
    .unwrap();
    run2.step(Event::Assets(vec![
        AssetRecord { asset: "a1".to_string(), quantity: "1".to_string() },
        AssetRecord { asset: "a2".to_string(), quantity: "not a number".to_string() },
    ]))
    .unwrap();
    assert_eq!(run2.step(Event::Resume).unwrap().action, Action::Continue);
    assert_eq!(
        run2.step(Event::Resume).unwrap().action,
        Action::Probe { path: "out/a1".to_string() }
    );
    assert_eq!(
        run2.step(Event::Present(b"x".to_vec())).unwrap(),
        Reply {
            notice: Some(Notice::AlreadyDownloaded { asset: "a1".to_string() }),
            action: Action::Continue
        }
    );
    assert_eq!(run2.step(Event::Resume).unwrap().action, Action::Continue);
    assert_eq!(run2.step(Event::Resume).unwrap().action, Action::Finish);
    assert_eq!(run2.phase(), Phase::Finished);
}

#[test]
fn malformed_quantity_fails_the_run() {
    let mut w = world(vec![("a1", "1"), ("a2", "lots"), ("a3", "1")])
        .with_cover("a1", "Qm1", b"one")
        .with_cover("a3", "Qm3", b"three");
    assert_eq!(w.run(settings(10)).err(), Some(FetchError::MalformedQuantity));
    assert!(w.files.contains_key("out/a1"));
    assert_eq!(w.calls_about("a2"), 0);
    assert_eq!(w.calls_about("a3"), 0);
}

#[test]
fn quantity_beyond_32_bits_fails_the_run() {
    let mut w = world(vec![("a1", "45000000000")]).with_cover("a1", "Qm1", b"one");
    assert_eq!(w.run(settings(10)).err(), Some(FetchError::MalformedQuantity));
}

#[test]
fn short_cover_path_fails_the_run() {
    let mut w = world(vec![("a1", "1")]);
    w.covers.insert("a1", cover("ipfs"));
    assert_eq!(w.run(settings(10)).err(), Some(FetchError::MalformedCoverPath));
    assert_eq!(w.downloads(), 0);
}

#[test]
fn failed_download_fails_the_run_and_leaves_files_alone() {
    let mut w = world(vec![("a1", "1"), ("a2", "1"), ("a3", "1")])
        .with_cover("a1", "Qm1", b"one")
        .with_cover("a3", "Qm3", b"three");
    w.covers.insert("a2", cover("ipfs://QmMissing"));
    assert_eq!(w.run(settings(10)).err(), Some(FetchError::ActionFailed));
    assert_eq!(w.files.get("out/a1"), Some(&b"one".to_vec()));
    assert!(!w.files.contains_key("out/a2"));
    assert!(!w.files.contains_key("out/a3"));
}

#[test]
fn failures_of_other_actions_fail_the_run() {
    let directory = || Event::Directory {
        status: 200,
        body: Some(CollectionsResponse {
            data_type: String::new(),
            data: vec![DataEntry {
                collection_id: "policy".to_string(),
                description: String::new(),
                blockchain: String::new(),
                network: String::new(),
            }],
        }),
    };
    let assets = || {
        Event::Assets(vec![AssetRecord { asset: "a1".to_string(), quantity: "1".to_string() }])
    };
    let mut run = Orchestrator::new(settings(10));
    run.step(Event::Resume).unwrap();
    run.step(directory()).unwrap();
    assert_eq!(run.step(Event::Failure).err(), Some(FetchError::ActionFailed));
    assert_eq!(run.phase(), Phase::Failed);

    let mut run = Orchestrator::new(settings(10));
    run.step(Event::Resume).unwrap();
    run.step(directory()).unwrap();
    run.step(assets()).unwrap();
    run.step(Event::Resume).unwrap();
    run.step(Event::Resume).unwrap();
    assert_eq!(run.phase(), Phase::AwaitProbe);
    assert_eq!(run.step(Event::Failure).err(), Some(FetchError::ActionFailed));

    let mut run = Orchestrator::new(settings(10));
    run.step(Event::Resume).unwrap();
    run.step(directory()).unwrap();
    run.step(assets()).unwrap();
    run.step(Event::Resume).unwrap();
    run.step(Event::Resume).unwrap();
    run.step(Event::Absent).unwrap();
    assert_eq!(run.phase(), Phase::AwaitDetails);
    assert_eq!(run.step(Event::Failure).err(), Some(FetchError::ActionFailed));

    let mut run = Orchestrator::new(settings(10));
    run.step(Event::Resume).unwrap();
    run.step(directory()).unwrap();
    run.step(assets()).unwrap();
    run.step(Event::Resume).unwrap();
    run.step(Event::Resume).unwrap();
    run.step(Event::Absent).unwrap();
    run.step(Event::Details(AssetDetails { onchain_metadata: Some(cover("ipfs://Qm1")) }))
        .unwrap();
    run.step(Event::Downloaded(vec![1])).unwrap();
    assert_eq!(run.phase(), Phase::AwaitStore);
    assert_eq!(run.step(Event::Failure).err(), Some(FetchError::ActionFailed));
    assert_eq!(run.count(), 0);
    assert!(!run.has_seen("Qm1"));
}

#[test]
fn events_out_of_turn_are_refused_and_change_nothing() {
    let mut run = Orchestrator::new(settings(10));
    assert_eq!(run.step(Event::Stored).err(), Some(FetchError::UnexpectedEvent));
    assert_eq!(run.step(Event::Absent).err(), Some(FetchError::UnexpectedEvent));
    assert_eq!(run.phase(), Phase::Start);
    assert_eq!(run.on_present("digest".to_string()).err(), Some(FetchError::UnexpectedEvent));
    assert!(!run.has_seen("digest"));
    assert_eq!(run.step(Event::Resume).unwrap().action, Action::FetchDirectory);
    assert_eq!(run.step(Event::Resume).err(), Some(FetchError::UnexpectedEvent));
    assert_eq!(run.phase(), Phase::AwaitDirectory);
}

#[test]
fn finished_and_failed_runs_accept_nothing() {
    let mut w = world(vec![]);
    let mut run = w.run(settings(10)).unwrap();
    assert_eq!(run.phase(), Phase::Finished);
    assert_eq!(run.step(Event::Resume).err(), Some(FetchError::UnexpectedEvent));
    assert_eq!(run.phase(), Phase::Finished);

    let mut failed = Orchestrator::new(settings(10));
    failed.step(Event::Resume).unwrap();
    assert_eq!(
        failed.step(Event::Directory { status: 200, body: None }).err(),
        Some(FetchError::MalformedDirectory)
    );
    assert_eq!(failed.phase(), Phase::Failed);
    assert_eq!(failed.step(Event::Resume).err(), Some(FetchError::UnexpectedEvent));
    assert_eq!(failed.phase(), Phase::Failed);
}

#[test]
fn present_file_with_given_digest_is_remembered() {
    let mut w = world(vec![("a1", "1"), ("a2", "1")]);
    w.covers.insert("a2", cover("ipfs://the-digest"));
    let mut run = Orchestrator::new(settings(10));
    let mut event = Event::Resume;
    loop {
        let reply = run.step(event).unwrap();
        if let Action::Probe { .. } = reply.action {
            break;
        }
        event = w.perform(reply.action).unwrap();
    }
    assert_eq!(
        run.on_present("the-digest".to_string()).unwrap(),
        Reply {
            notice: Some(Notice::AlreadyDownloaded { asset: "a1".to_string() }),
            action: Action::Continue
        }
    );
    assert!(run.has_seen("the-digest"));
    assert_eq!(run.existing(), 1);
    assert_eq!(run.step(Event::Resume).unwrap().action, Action::Probe {
        path: "out/a2".to_string()
    });
    run.step(Event::Absent).unwrap();
    assert_eq!(
        run.step(Event::Details(AssetDetails {
            onchain_metadata: Some(cover("ipfs://the-digest"))
        }))
        .unwrap(),
        Reply {
            notice: Some(Notice::Duplicate {
                path: "ipfs://the-digest".to_string(),
                asset: "a2".to_string()
            }),
            action: Action::Continue
        }
    );
    assert_eq!(run.count(), 1);
}

#[test]
fn empty_collection_finishes_at_once() {
    let mut w = world(vec![]);
    let run = w.run(settings(10)).unwrap();
    assert_eq!(w.calls, vec!["directory", "enumerate policy"]);
    assert_eq!(run.count(), 0);
    assert!(w.notices.is_empty());
}
