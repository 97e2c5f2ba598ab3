//! What holds of every run, proved of the state machine.

use crate::decimal::i32_of;
use crate::metadata::content_id_of;
use crate::model::RunView;
use crate::protocol::{ActionView, EventView, NoticeView, ReplyView};
use crate::settings::{final_path_of, temp_path_of, SettingsView};
use vstd::prelude::*;

verus! {

/// Every transition keeps a well-formed state well-formed, whatever the
/// caller reports.
pub proof fn law_step_keeps_wf(st: RunView, event: EventView)
    requires
        st.wf(),
    ensures
        st.step(event).0.wf(),
{
    let next = st.step(event).0;
    if st.phase is AwaitStore && event is Stored {
        // What is written now was not seen before, and all that was written
        // before was.
        let written = next.stored;
        assert forall|i: int, j: int|
            0 <= i < written.len() && 0 <= j < written.len() && i != j implies written[i]
            != written[j] by {
            if i < st.stored.len() {
                assert(st.seen.contains(st.stored[i]));
            }
            if j < st.stored.len() {
                assert(st.seen.contains(st.stored[j]));
            }
        }
    }
}

/// Every state that a run reaches is well-formed, whatever the caller
/// reports and in whatever order.
pub proof fn law_reachable_states_are_wf(settings: SettingsView, events: Seq<EventView>)
    ensures
        RunView::initial(settings).after(events).wf(),
    decreases events.len(),
{
    if events.len() > 0 {
        law_reachable_states_are_wf(settings, events.drop_last());
        law_step_keeps_wf(RunView::initial(settings).after(events.drop_last()), events.last());
    }
}

/// The files written and the files found on disk and counted never number
/// more than the run was allowed, at any point of any run.
pub proof fn law_budget_is_never_exceeded(settings: SettingsView, events: Seq<EventView>)
    ensures
        ({
            let st = RunView::initial(settings).after(events);
            st.stored.len() + st.existing <= settings.max_files
        }),
{
    law_reachable_states_are_wf(settings, events);
    lemma_settings_stay(RunView::initial(settings), events);
}

/// No run writes two files with the same content identifier.
pub proof fn law_no_content_is_written_twice(
    settings: SettingsView,
    events: Seq<EventView>,
    i: int,
    j: int,
)
    requires
        0 <= i < j < RunView::initial(settings).after(events).stored.len(),
    ensures
        ({
            let st = RunView::initial(settings).after(events);
            st.stored[i] != st.stored[j]
        }),
{
    law_reachable_states_are_wf(settings, events);
}

/// The settings of a run never change.
pub proof fn lemma_settings_stay(st: RunView, events: Seq<EventView>)
    ensures
        st.after(events).settings == st.settings,
    decreases events.len(),
{
    if events.len() > 0 {
        lemma_settings_stay(st, events.drop_last());
    }
}

/// What a run has seen it never forgets.
pub proof fn law_seen_only_grows(st: RunView, events: Seq<EventView>, key: Seq<char>)
    requires
        st.seen.contains(key),
    ensures
        st.after(events).seen.contains(key),
    decreases events.len(),
{
    if events.len() > 0 {
        law_seen_only_grows(st, events.drop_last(), key);
    }
}

/// An asset whose quantity is zero or negative causes no call to the network
/// or the file system: when the run comes to it, it is left behind at once,
/// and nothing is counted or remembered on its account.
pub proof fn law_nonpositive_quantity_causes_no_call(st: RunView, quantity: i32)
    requires
        st.wf(),
        st.phase is Ready,
        st.cursor < st.chunk_end,
        i32_of(st.current().quantity) == Some(quantity),
        quantity <= 0,
    ensures
        ({
            let (next, answer) = st.step(EventView::Resume);
            &&& answer == Ok::<ReplyView, crate::error::FetchError>(
                ReplyView::silent(ActionView::Continue),
            )
            &&& !ActionView::Continue.is_outside_call()
            &&& next.phase is Ready
            &&& next.cursor > st.cursor
            &&& next.seen == st.seen
            &&& next.existing == st.existing
            &&& next.stored == st.stored
        }),
{
}

/// Once content has been written, an asset whose cover is the same content
/// is passed over: from the state `st` in which the content identifier is
/// remembered, through whatever happens next, to the moment the details of
/// such an asset arrive, which fetches and writes nothing.
pub proof fn law_same_content_is_written_once(
    st: RunView,
    events: Seq<EventView>,
    path: Seq<char>,
    title: Option<Seq<char>>,
)
    requires
        content_id_of(path) is Some,
        st.seen.contains(content_id_of(path)->0),
        st.after(events).phase is AwaitDetails,
    ensures
        ({
            let then = st.after(events);
            let (next, answer) = then.step(EventView::Details { cover: Some(path), title });
            &&& answer == Ok::<ReplyView, crate::error::FetchError>(
                ReplyView::telling(
                    NoticeView::Duplicate { path, asset: then.current().asset },
                    ActionView::Continue,
                ),
            )
            &&& next.stored == then.stored
            &&& next.existing == then.existing
            &&& next.phase is Ready
        }),
{
    law_seen_only_grows(st, events, content_id_of(path)->0);
}

/// The content identifier of a file that has been written is remembered
/// from then on, and the file is counted.
pub proof fn law_written_content_is_remembered(st: RunView)
    requires
        st.phase is AwaitStore,
    ensures
        ({
            let next = st.step(EventView::Stored).0;
            &&& next.seen.contains(st.pending)
            &&& next.stored == st.stored.push(st.pending)
            &&& next.count() == st.count() + 1
        }),
{
}

/// What is written is what was fetched: the bytes that the content fetcher
/// returned for the current asset go unchanged to that asset's file.
pub proof fn law_store_writes_what_was_fetched(st: RunView, data: Seq<u8>)
    requires
        st.phase is AwaitDownload,
    ensures
        st.step(EventView::Downloaded(data)).1 == Ok::<ReplyView, crate::error::FetchError>(
            ReplyView::silent(
                ActionView::Store {
                    temp_path: temp_path_of(st.settings.work_dir, st.current().asset),
                    final_path: final_path_of(st.settings.work_dir, st.current().asset),
                    data,
                },
            ),
        ),
{
}

/// A file is written only after it was fetched in full: the only state that
/// asks for a file to be written is the one that has just received the
/// bytes, and nothing is counted before the write is reported.
pub proof fn law_store_follows_download(st: RunView, event: EventView)
    requires
        st.step(event).1 is Ok,
        st.step(event).1->Ok_0.action is Store,
    ensures
        st.phase is AwaitDownload,
        event is Downloaded,
        st.step(event).0.count() == st.count(),
{
}

} // verus!
