//! What happens when the followed file is reported to have changed: one
//! drain pass over its unread bytes, and one dispatch for every line of the
//! pass that reports an event.

use crate::dispatch::DispatchState;
use crate::dispatch::DispatchTask;
use crate::dispatch::DispatchTaskView;
use crate::log_file_reader::drained_len;
use crate::log_file_reader::given_up;
use crate::log_file_reader::drained_lines;
use crate::log_file_reader::LogFileReader;
use crate::log_file_reader::LogFileReaderView;
use crate::marker::classification;
use crate::marker::classify;
use crate::marker::EventKind;
use crate::pishock_client::PiShockClient;
use crate::pishock_client::PiShockClientView;
use crate::settings::SyncedSettings;
use std::sync::Arc;
use vstd::prelude::*;

verus! {

/// The quiescence window, in milliseconds: change reports that follow one
/// another more closely than this are to be handed over as one.
pub const QUIESCENCE_MILLIS: u64 = 100;

/// The events that `lines` report, in the order of the lines, where
/// `expected` is the marker of a minor event. Each line is judged by itself.
pub open spec fn detections(lines: Seq<Seq<char>>, expected: Seq<char>) -> Seq<EventKind>
    decreases lines.len(),
{
    if lines.len() == 0 {
        Seq::empty()
    } else {
        let before = detections(lines.drop_last(), expected);
        match classification(lines.last(), expected) {
            Some(kind) => before.push(kind),
            None => before,
        }
    }
}

/// What a handler holds, as mathematical values.
pub struct LogFileDebounceHandlerView {
    /// The account and device that dispatches send for.
    pub client: PiShockClientView,
    /// The cursor into the followed file.
    pub reader: LogFileReaderView,
    /// The marker of a minor event.
    pub expected: Seq<char>,
    /// The shared configuration that dispatches read.
    pub settings: Arc<SyncedSettings>,
}

/// The handler of change reports for one followed file. It alone owns the
/// reader, so no two drain passes ever run at once.
#[derive(Debug)]
pub struct LogFileDebounceHandler {
    pishock_client: PiShockClient,
    reader: LogFileReader,
    expected_string: String,
    settings: Arc<SyncedSettings>,
}

impl View for LogFileDebounceHandler {
    type V = LogFileDebounceHandlerView;

    closed spec fn view(&self) -> LogFileDebounceHandlerView {
        LogFileDebounceHandlerView {
            client: self.pishock_client@,
            reader: self.reader@,
            expected: self.expected_string@,
            settings: self.settings,
        }
    }
}

/// What handling one change report gave.
#[derive(Debug)]
pub struct HandledEvent {
    /// One dispatch, not yet begun, for each line of the pass that reports
    /// an event, in file order.
    pub tasks: Vec<DispatchTask>,
    /// The number of bytes that the pass gave up for not being UTF-8.
    pub given_up: usize,
}

/// A dispatch for an event of `kind` that has not begun, with its own handle
/// on the account `client` and on the shared configuration `settings`.
pub open spec fn fresh_task(
    client: PiShockClientView,
    settings: Arc<SyncedSettings>,
    kind: EventKind,
) -> DispatchTaskView {
    DispatchTaskView { client, settings, kind, state: DispatchState::Pending }
}

/// A handler after one drain pass over `unread`.
pub open spec fn after_pass(
    handler: LogFileDebounceHandlerView,
    unread: Seq<u8>,
) -> LogFileDebounceHandlerView {
    LogFileDebounceHandlerView {
        client: handler.client,
        reader: LogFileReaderView {
            log_file: handler.reader.log_file,
            offset: handler.reader.offset + drained_len(unread),
        },
        expected: handler.expected,
        settings: handler.settings,
    }
}

impl LogFileDebounceHandler {
    pub fn new(
        pishock_client: PiShockClient,
        reader: LogFileReader,
        expected_string: String,
        settings: Arc<SyncedSettings>,
    ) -> (r: Self)
        ensures
            r@ == (LogFileDebounceHandlerView {
                client: pishock_client@,
                reader: reader@,
                expected: expected_string@,
                settings,
            }),
    {
        LogFileDebounceHandler { pishock_client, reader, expected_string, settings }
    }

    /// The followed file's reader.
    pub fn reader(&self) -> (r: &LogFileReader)
        ensures
            r@ == self@.reader,
    {
        &self.reader
    }

    /// Makes the dispatch that answers one event of `kind`. The dispatch is
    /// the caller's to run: the handler keeps no tie to it and goes on
    /// reading.
    pub fn shock_with_delay(&self, kind: EventKind) -> (r: DispatchTask)
        ensures
            r@ == fresh_task(self@.client, self@.settings, kind),
    {
        DispatchTask::new(self.pishock_client.clone(), self.settings.clone(), kind)
    }

    /// Handles one report that the followed file has changed, however many
    /// changes it stands for: runs one drain pass over `unread`, the bytes of
    /// the file from the cursor to its present end, and makes one dispatch
    /// for each line of the pass that reports an event, in file order.
    /// No dispatch has begun when this returns.
    pub fn handle_event(&mut self, unread: &[u8]) -> (r: HandledEvent)
        requires
            old(self)@.reader.offset + unread@.len() <= u64::MAX,
        ensures
            final(self)@ == after_pass(old(self)@, unread@),
            r.given_up == given_up(unread@),
            r.tasks@.len() == detections(drained_lines(unread@), old(self)@.expected).len(),
            forall|i: int|
                0 <= i < r.tasks@.len() ==> (#[trigger] r.tasks@[i])@ == fresh_task(
                    old(self)@.client,
                    old(self)@.settings,
                    detections(drained_lines(unread@), old(self)@.expected)[i],
                ),
    {
        let pass = self.reader.drain(unread);
        let lines = &pass.lines;
        let ghost texts = lines.deep_view();
        let ghost expected = self.expected_string@;
        let mut tasks: Vec<DispatchTask> = Vec::new();
        let mut k: usize = 0;
        assert(texts.take(0) =~= Seq::<Seq<char>>::empty());
        while k < lines.len()
            invariant
                k <= lines.len(),
                texts == lines.deep_view(),
                texts.len() == lines@.len(),
                expected == self@.expected,
                self@ == after_pass(old(self)@, unread@),
                tasks@.len() == detections(texts.take(k as int), expected).len(),
                forall|i: int|
                    0 <= i < tasks@.len() ==> (#[trigger] tasks@[i])@ == fresh_task(
                        self@.client,
                        self@.settings,
                        detections(texts.take(k as int), expected)[i],
                    ),
            decreases lines.len() - k,
        {
            assert(texts.take(k + 1).drop_last() =~= texts.take(k as int));
            assert(texts.take(k + 1).last() == lines@[k as int]@);
            match classify(lines[k].as_str(), self.expected_string.as_str()) {
                Some(kind) => {
                    let task = self.shock_with_delay(kind);
                    tasks.push(task);
                },
                None => {},
            }
            k += 1;
        }
        assert(texts.take(k as int) =~= texts);
        HandledEvent { tasks, given_up: pass.given_up }
    }
}

} // verus!
