//! What a run comes to, asset by asset: the files on disk, the contents
//! seen and the files counted, without the steps in between.

use crate::decimal::i32_of;
use crate::digest::content_digest;
use crate::metadata::content_id_of;
use crate::settings::{final_path_of, url_of, SettingsView};
use crate::world::Services;
use vstd::prelude::*;

verus! {

/// The account of a run at some point among the assets.
#[verifier::ext_equal]
pub struct Tally {
    /// The files on disk, by path.
    pub files: Map<Seq<char>, Seq<u8>>,
    /// The content identifiers and digests seen.
    pub seen: Set<Seq<char>>,
    /// Number of files found on disk and counted.
    pub existing: nat,
    /// The content identifiers of the files written, in order.
    pub stored: Seq<Seq<char>>,
    /// Number of downloads.
    pub downloads: nat,
    /// Number of assets passed over as duplicates.
    pub skipped: nat,
    /// Whether the run has failed.
    pub failed: bool,
}

impl Tally {
    /// The account of a run that has done nothing yet, over the files
    /// `files`.
    pub open spec fn fresh(files: Map<Seq<char>, Seq<u8>>) -> Tally {
        Tally {
            files,
            seen: Set::empty(),
            existing: 0,
            stored: Seq::empty(),
            downloads: 0,
            skipped: 0,
            failed: false,
        }
    }

    /// Number of files counted towards the budget.
    pub open spec fn count(self) -> nat {
        self.existing + self.stored.len()
    }

    /// Whether nothing more will happen: the run has failed, or the budget
    /// of `settings` is used up.
    pub open spec fn frozen(self, settings: SettingsView) -> bool {
        self.failed || self.count() >= settings.max_files
    }

    /// The account after the asset `asset` has been dealt with.
    ///
    /// Nothing happens once the run has failed or the budget is used up. A
    /// quantity that is no integer fails the run; one that is not positive
    /// changes nothing. A file that exists is counted and its digest seen.
    /// Otherwise the cover decides: without one nothing happens, a path
    /// without content identifier fails the run, an identifier seen before
    /// is passed over, and a new one is downloaded, written, seen and
    /// counted.
    pub open spec fn tend(self, services: Services, settings: SettingsView, index: int) -> Tally {
        let asset = services.assets[index];
        let path = final_path_of(settings.work_dir, asset.asset);
        if self.frozen(settings) {
            self
        } else {
            match i32_of(asset.quantity) {
                None => Tally { failed: true, ..self },
                Some(quantity) => if quantity <= 0 {
                    self
                } else if self.files.contains_key(path) {
                    Tally {
                        seen: self.seen.insert(content_digest(self.files[path])),
                        existing: self.existing + 1,
                        ..self
                    }
                } else {
                    match (services.cover)(asset.asset) {
                        None => self,
                        Some(cover) => match content_id_of(cover) {
                            None => Tally { failed: true, ..self },
                            Some(cid) => if self.seen.contains(cid) {
                                Tally { skipped: self.skipped + 1, ..self }
                            } else {
                                Tally {
                                    files: self.files.insert(
                                        path,
                                        (services.content)(url_of(settings.gateway, cid)),
                                    ),
                                    seen: self.seen.insert(cid),
                                    stored: self.stored.push(cid),
                                    downloads: self.downloads + 1,
                                    ..self
                                }
                            },
                        },
                    }
                },
            }
        }
    }

    /// The account after all assets from index `from` on have been dealt
    /// with, in order.
    pub open spec fn tally(self, services: Services, settings: SettingsView, from: nat) -> Tally
        decreases services.assets.len() - from,
    {
        if from >= services.assets.len() {
            self
        } else {
            self.tend(services, settings, from as int).tally(services, settings, from + 1)
        }
    }
}

/// Once a run has failed or used up its budget, the remaining assets change
/// nothing.
pub proof fn lemma_frozen_stays(t: Tally, services: Services, settings: SettingsView, from: nat)
    requires
        t.frozen(settings),
    ensures
        t.tally(services, settings, from) == t,
    decreases services.assets.len() - from,
{
    if from < services.assets.len() {
        lemma_frozen_stays(t, services, settings, from + 1);
    }
}

/// A run never removes or rewrites a file, and only ever adds to its counts.
pub proof fn lemma_tally_grows(t: Tally, services: Services, settings: SettingsView, from: nat)
    ensures
        t.files.submap_of(t.tally(services, settings, from).files),
        t.skipped <= t.tally(services, settings, from).skipped,
        t.downloads <= t.tally(services, settings, from).downloads,
        t.failed ==> t.tally(services, settings, from).failed,
    decreases services.assets.len() - from,
{
    if from < services.assets.len() {
        let next = t.tend(services, settings, from as int);
        let last = t.tally(services, settings, from);
        lemma_tally_grows(next, services, settings, from + 1);
        assert(t.files.submap_of(next.files));
        assert forall|path: Seq<char>|
            t.files.dom().contains(path) implies #[trigger] last.files.dom().contains(path)
            && t.files[path] == last.files[path] by {
            assert(next.files.dom().contains(path));
        }
    }
}

/// Every download is written, and the files counted stay within the budget.
pub proof fn lemma_tally_within_budget(
    t: Tally,
    services: Services,
    settings: SettingsView,
    from: nat,
)
    requires
        t.downloads == t.stored.len(),
        t.count() <= settings.max_files,
    ensures
        ({
            let last = t.tally(services, settings, from);
            &&& last.downloads == last.stored.len()
            &&& last.count() <= settings.max_files
        }),
    decreases services.assets.len() - from,
{
    if from < services.assets.len() {
        lemma_tally_within_budget(
            t.tend(services, settings, from as int),
            services,
            settings,
            from + 1,
        );
    }
}

impl Tally {
    /// The account after the first `n` assets have been dealt with.
    pub open spec fn upto(self, services: Services, settings: SettingsView, n: nat) -> Tally
        decreases n,
    {
        if n == 0 {
            self
        } else {
            self.upto(services, settings, (n - 1) as nat).tend(services, settings, n - 1)
        }
    }

    /// Whether the asset `index` is passed over as a duplicate.
    pub open spec fn passes_over(
        self,
        services: Services,
        settings: SettingsView,
        index: int,
    ) -> bool {
        self.tend(services, settings, index).skipped > self.skipped
    }
}

/// The content identifier that the cover of the asset `index` holds.
pub open spec fn cid_at(services: Services, index: int) -> Seq<char> {
    content_id_of((services.cover)(services.assets[index].asset)->0)->0
}

/// The digest of the file that the asset `index` has among `files`, if its
/// quantity is positive and it has one: the digest that a run over `files`
/// remembers when it comes to that asset.
pub open spec fn kept_digest(
    files: Map<Seq<char>, Seq<u8>>,
    services: Services,
    settings: SettingsView,
    index: int,
) -> Option<Seq<char>> {
    let asset = services.assets[index];
    let path = final_path_of(settings.work_dir, asset.asset);
    if (i32_of(asset.quantity) matches Some(quantity) && quantity > 0) && files.contains_key(path) {
        Some(content_digest(files[path]))
    } else {
        None
    }
}

/// Whether `cid` is the digest kept for one of the assets before `index`.
pub open spec fn recognised(
    files: Map<Seq<char>, Seq<u8>>,
    services: Services,
    settings: SettingsView,
    index: int,
    cid: Seq<char>,
) -> bool {
    exists|j: int|
        0 <= j < index && #[trigger] kept_digest(files, services, settings, j) == Some(cid)
}

/// Whether a run that begins with the account `base` can be repeated
/// without a download: of every asset that it passes over as a duplicate,
/// the content identifier is the digest of the file that an earlier asset
/// has when the run is over. A second run finds that file, remembers its
/// digest, and so recognises the duplicate. A run that passes over no
/// duplicate is of this kind.
pub open spec fn replayable(base: Tally, services: Services, settings: SettingsView) -> bool {
    let left = base.tally(services, settings, 0).files;
    forall|i: int|
        0 <= i < services.assets.len() && #[trigger] base.upto(
            services,
            settings,
            i as nat,
        ).passes_over(services, settings, i) ==> recognised(
            left,
            services,
            settings,
            i,
            cid_at(services, i),
        )
}

/// Dealing with the first `n` assets and then with the rest is dealing with
/// all.
pub proof fn lemma_upto_then_tally(base: Tally, services: Services, settings: SettingsView, n: nat)
    requires
        n <= services.assets.len(),
    ensures
        base.upto(services, settings, n).tally(services, settings, n) == base.tally(
            services,
            settings,
            0,
        ),
    decreases n,
{
    if n > 0 {
        lemma_upto_then_tally(base, services, settings, (n - 1) as nat);
    }
}

/// A run that passes over no duplicate can be repeated.
pub proof fn lemma_no_duplicate_is_replayable(
    base: Tally,
    services: Services,
    settings: SettingsView,
)
    requires
        base.tally(services, settings, 0).skipped == base.skipped,
    ensures
        replayable(base, services, settings),
{
    assert forall|i: int|
        0 <= i < services.assets.len() implies !(#[trigger] base.upto(
        services,
        settings,
        i as nat,
    ).passes_over(services, settings, i)) by {
        let before = base.upto(services, settings, i as nat);
        lemma_upto_then_tally(base, services, settings, i as nat);
        lemma_upto_then_tally(base, services, settings, (i + 1) as nat);
        lemma_tally_grows(before.tend(services, settings, i), services, settings, (i + 1) as nat);
        lemma_upto_grows(base, services, settings, i as nat);
    }
}

/// The counts of a run only ever grow.
pub proof fn lemma_upto_grows(base: Tally, services: Services, settings: SettingsView, n: nat)
    ensures
        base.skipped <= base.upto(services, settings, n).skipped,
    decreases n,
{
    if n > 0 {
        lemma_upto_grows(base, services, settings, (n - 1) as nat);
    }
}

/// Running again over the files that a first run has left downloads
/// nothing, if the first run can be repeated.
///
/// `base` is the account with which the first run began and `second` that
/// of the second run before the asset `from`. The second run has downloaded
/// nothing so far; unless it is frozen, it has counted at least as many
/// files as the first, and it remembers the digest kept for each asset
/// before `from`.
pub proof fn lemma_replay(
    base: Tally,
    second: Tally,
    services: Services,
    settings: SettingsView,
    from: nat,
)
    requires
        from <= services.assets.len(),
        replayable(base, services, settings),
        second.files == base.tally(services, settings, 0).files,
        second.downloads == 0,
        second.frozen(settings) || (!base.upto(services, settings, from).failed && second.count()
            >= base.upto(services, settings, from).count()),
        second.frozen(settings) || forall|j: int|
            0 <= j < from ==> ((#[trigger] kept_digest(second.files, services, settings, j))
                matches Some(digest) ==> second.seen.contains(digest)),
    ensures
        second.tally(services, settings, from).downloads == 0,
        second.tally(services, settings, from).files == second.files,
    decreases services.assets.len() - from,
{
    if from < services.assets.len() {
        let first = base.upto(services, settings, from);
        let first_next = first.tend(services, settings, from as int);
        let second_next = second.tend(services, settings, from as int);
        // What the first run has on disk, before and after this asset, is
        // among the files it leaves.
        lemma_upto_then_tally(base, services, settings, from);
        lemma_upto_then_tally(base, services, settings, from + 1);
        lemma_tally_grows(first, services, settings, from);
        lemma_tally_grows(first_next, services, settings, from + 1);
        if first_next.frozen(settings) {
            lemma_frozen_stays(first_next, services, settings, from + 1);
        }
        if !second.frozen(settings) {
            let path = final_path_of(settings.work_dir, services.assets[from as int].asset);
            if first_next.files.contains_key(path) {
                // What the first run has on disk, it leaves there.
                assert(second.files.contains_key(path));
            }
            if first.passes_over(services, settings, from as int) {
                // The second run has found the file by which the duplicate
                // is recognised.
                let cid = cid_at(services, from as int);
                let j = choose|j: int|
                    0 <= j < from && #[trigger] kept_digest(second.files, services, settings, j)
                        == Some(cid);
                assert(second.seen.contains(cid));
            }
        }
        assert(second_next.downloads == 0 && second_next.files == second.files);
        if !second_next.frozen(settings) {
            assert forall|j: int| 0 <= j < from + 1 implies ((#[trigger] kept_digest(
                second_next.files,
                services,
                settings,
                j,
            )) matches Some(digest) ==> second_next.seen.contains(digest)) by {}
        }
        lemma_replay(base, second_next, services, settings, from + 1);
    }
}

/// Two assets with the same file are the same asset.
pub proof fn lemma_path_names_asset(work_dir: Seq<char>, a: Seq<char>, b: Seq<char>)
    requires
        final_path_of(work_dir, a) == final_path_of(work_dir, b),
    ensures
        a == b,
{
    let prefix = work_dir + "/"@;
    assert((prefix + a).skip(prefix.len() as int) =~= a);
    assert((prefix + b).skip(prefix.len() as int) =~= b);
}

/// Whether dealing with the asset `asset` writes nothing while `seen` is
/// remembered: it has no cover, or a cover without content identifier, or
/// one whose content identifier is in `seen`.
pub open spec fn never_stored(services: Services, asset: Seq<char>, seen: Set<Seq<char>>) -> bool {
    match (services.cover)(asset) {
        None => true,
        Some(cover) => match content_id_of(cover) {
            None => true,
            Some(cid) => seen.contains(cid),
        },
    }
}

/// The file of an asset that is never stored does not come to be.
pub proof fn lemma_never_written(
    t: Tally,
    services: Services,
    settings: SettingsView,
    from: nat,
    asset: Seq<char>,
)
    requires
        !t.files.contains_key(final_path_of(settings.work_dir, asset)),
        never_stored(services, asset, t.seen),
    ensures
        !t.tally(services, settings, from).files.contains_key(
            final_path_of(settings.work_dir, asset),
        ),
    decreases services.assets.len() - from,
{
    if from < services.assets.len() {
        let next = t.tend(services, settings, from as int);
        let other = services.assets[from as int].asset;
        if final_path_of(settings.work_dir, other) == final_path_of(settings.work_dir, asset) {
            lemma_path_names_asset(settings.work_dir, other, asset);
        }
        lemma_never_written(next, services, settings, from + 1, asset);
    }
}

/// Running again over the files that a first run has left fetches a
/// duplicate that the first run passed over and the second cannot
/// recognise.
///
/// `base` is the account with which the first run began and `second` that
/// of the second run before the asset `from`; `bad` is such a duplicate, at
/// or after `from`. Unless the second run has downloaded something already,
/// it stands as the first run stood at this asset, and remembers nothing but
/// the digests kept for earlier assets.
pub proof fn lemma_replay_fetches(
    base: Tally,
    second: Tally,
    services: Services,
    settings: SettingsView,
    from: nat,
    bad: int,
)
    requires
        from <= bad < services.assets.len(),
        base.upto(services, settings, bad as nat).passes_over(services, settings, bad),
        !recognised(
            base.tally(services, settings, 0).files,
            services,
            settings,
            bad,
            cid_at(services, bad),
        ),
        second.downloads == 0 ==> {
            &&& second.files == base.tally(services, settings, 0).files
            &&& second.failed == base.upto(services, settings, from).failed
            &&& second.count() == base.upto(services, settings, from).count()
            &&& forall|digest: Seq<char>| #[trigger]
                second.seen.contains(digest) ==> recognised(
                    second.files,
                    services,
                    settings,
                    from as int,
                    digest,
                )
        },
    ensures
        second.tally(services, settings, from).downloads > 0,
    decreases services.assets.len() - from,
{
    lemma_tally_grows(second, services, settings, from);
    if second.downloads == 0 {
        let first = base.upto(services, settings, from);
        let first_next = first.tend(services, settings, from as int);
        let second_next = second.tend(services, settings, from as int);
        let left = second.files;
        let asset = services.assets[from as int];
        let path = final_path_of(settings.work_dir, asset.asset);
        lemma_upto_then_tally(base, services, settings, from);
        lemma_upto_then_tally(base, services, settings, from + 1);
        lemma_tally_grows(first, services, settings, from);
        lemma_tally_grows(first_next, services, settings, from + 1);
        lemma_tally_grows(second_next, services, settings, from + 1);
        if first_next.frozen(settings) {
            lemma_frozen_stays(first_next, services, settings, from + 1);
        }
        if !first.frozen(settings) && !first_next.files.contains_key(path) && !first_next.failed
            && (i32_of(asset.quantity) matches Some(quantity) && quantity > 0) {
            // The first run took this asset up and wrote nothing for it: it
            // never will, so the second run does not find its file.
            lemma_never_written(first_next, services, settings, from + 1, asset.asset);
            assert(!left.contains_key(path));
        }
        if from == bad {
            assert(!left.contains_key(path));
            assert(!second.seen.contains(cid_at(services, bad)));
            assert(second_next.downloads == 1);
        } else {
            if second_next.downloads == 0 {
                assert forall|digest: Seq<char>| #[trigger]
                    second_next.seen.contains(digest) implies recognised(
                    second_next.files,
                    services,
                    settings,
                    (from + 1) as int,
                    digest,
                ) by {
                    if second.seen.contains(digest) {
                        let j = choose|j: int|
                            0 <= j < from && #[trigger] kept_digest(left, services, settings, j)
                                == Some(digest);
                        assert(kept_digest(left, services, settings, j) == Some(digest));
                    } else {
                        assert(kept_digest(left, services, settings, from as int) == Some(
                            digest,
                        ));
                    }
                }
            }
            lemma_replay_fetches(base, second_next, services, settings, from + 1, bad);
        }
    }
}

} // verus!
