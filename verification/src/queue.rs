//! The queue of files to store, and the worker that goes through it.

use std::sync::Arc;
use vstd::arithmetic::power2::{lemma2_to64, lemma_pow2_unfold, pow2};
use vstd::prelude::*;
use vstd::utf8::{
    decode_utf8, decode_utf8_encode_utf8, decode_utf8_split, encode_scalar, encode_utf8,
    encode_utf8_decode_utf8, encode_utf8_first_scalar, encode_utf8_valid_utf8, is_char_boundary,
    pop_first_scalar, valid_utf8_split,
};

use crate::message::Message;
use crate::text::{
    decimal, decimal_text, law_decimal_reads_back, numeral, numeral_value, optional,
};

verus! {

// ---------------------------------------------------------------------------------------------
// Items
// ---------------------------------------------------------------------------------------------

/// A file to store: one that a message carries, or one to fetch from a URL.
#[derive(Debug)]
pub struct FileQueueItem {
    /// The message that asks for the file to be stored.
    pub message: Arc<Message>,
    /// The message that shows how far the work has got.
    pub queue_message: Arc<Message>,
    pub file_id: Option<String>,
    pub file_name: Option<String>,
    pub url: Option<String>,
}

impl Clone for FileQueueItem {
    fn clone(&self) -> (res: FileQueueItem)
        ensures
            res == *self,
    {
        FileQueueItem {
            message: self.message.clone(),
            queue_message: self.queue_message.clone(),
            file_id: self.file_id.clone(),
            file_name: self.file_name.clone(),
            url: self.url.clone(),
        }
    }
}

/// The number of bytes of a URL that a summary shows.
pub const SHOWN_URL_BYTES: usize = 48;

/// A URL cut to its first bytes, with an ellipsis in place of the rest.
pub open spec fn short_url(url: Seq<char>) -> Seq<char> {
    let bytes = encode_utf8(url);
    if bytes.len() > SHOWN_URL_BYTES {
        decode_utf8(bytes.subrange(0, SHOWN_URL_BYTES as int)) + "…"@
    } else {
        url
    }
}

/// The URL can be cut: the cut falls between two characters.
pub open spec fn cuts_between_chars(url: Seq<char>) -> bool {
    let bytes = encode_utf8(url);
    bytes.len() > SHOWN_URL_BYTES ==> is_char_boundary(bytes, SHOWN_URL_BYTES as int)
}

impl FileQueueItem {
    /// The item has a summary: it need not cut a URL in the middle of a character.
    pub open spec fn has_summary(self) -> bool {
        self.file_name is None && self.url is Some ==> cuts_between_chars(self.url->0@)
    }

    /// The item as the queue shows it: by the name of the file, or its URL, or its identifier.
    pub open spec fn summary_text(self) -> Seq<char> {
        if self.file_name is Some {
            self.file_name->0@
        } else if self.url is Some {
            "URL: "@ + short_url(self.url->0@)
        } else if self.file_id is Some {
            "file_id: "@ + self.file_id->0@
        } else {
            "<unknown>"@
        }
    }

    /// Makes an item.
    pub fn new(
        message: Arc<Message>,
        queue_message: Arc<Message>,
        file_id: Option<String>,
        file_name: Option<String>,
        url: Option<String>,
    ) -> (res: FileQueueItem)
        ensures
            res == (FileQueueItem { message, queue_message, file_id, file_name, url }),
    {
        FileQueueItem { message, queue_message, file_id, file_name, url }
    }

    /// Where the progress on the item is shown: the chat that asks for the file, and the queue
    /// message in it.
    pub fn progress_message(&self) -> (res: (i64, i32))
        ensures
            res == (self.message.chat_id, self.queue_message.id),
    {
        (self.message.chat_id, self.queue_message.id)
    }

    /// Tells whether the item has a summary.
    pub fn can_summarize(&self) -> (res: bool)
        ensures
            res == self.has_summary(),
    {
        if self.file_name.is_some() {
            return true;
        }
        match &self.url {
            Some(url) => {
                let url = url.as_str();
                url.as_bytes().len() <= SHOWN_URL_BYTES || url.is_char_boundary(SHOWN_URL_BYTES)
            },
            None => true,
        }
    }

    /// The item as the queue shows it.
    pub fn summary(&self) -> (res: String)
        requires
            self.has_summary(),
        ensures
            res@ == self.summary_text(),
    {
        if let Some(name) = &self.file_name {
            return name.clone();
        }
        if let Some(url) = &self.url {
            let url = url.as_str();
            let short = if url.as_bytes().len() > SHOWN_URL_BYTES {
                let (head, _rest) = url.split_at(SHOWN_URL_BYTES);
                proof {
                    encode_utf8_decode_utf8(head@);
                }
                head.to_owned().concat("…")
            } else {
                url.to_owned()
            };
            return "URL: ".to_owned().concat(short.as_str());
        }
        if let Some(file_id) = &self.file_id {
            return "file_id: ".to_owned().concat(file_id.as_str());
        }
        "<unknown>".to_owned()
    }
}

// ---------------------------------------------------------------------------------------------
// The queue
// ---------------------------------------------------------------------------------------------

/// The number of items that a snapshot shows.
pub open spec fn shown(length: nat, limit: nat) -> nat {
    if limit < length {
        limit
    } else {
        length
    }
}

/// Each item that a snapshot shows has a summary.
pub open spec fn has_snapshot(queue: Seq<FileQueueItem>, limit: nat) -> bool {
    forall|i: int| 0 <= i < shown(queue.len(), limit) ==> (#[trigger] queue[i]).has_summary()
}

/// A line of a snapshot: the place in the queue, counted from 1, and the summary.
pub open spec fn snapshot_line(queue: Seq<FileQueueItem>, i: int) -> Seq<char> {
    decimal((i + 1) as nat) + ". "@ + queue[i].summary_text()
}

/// Tells whether each item that a snapshot shows has a summary.
pub fn can_snapshot(queue: &Vec<FileQueueItem>, limit: usize) -> (res: bool)
    ensures
        res == has_snapshot(queue@, limit as nat),
{
    let count: usize = if limit < queue.len() {
        limit
    } else {
        queue.len()
    };
    for i in 0..count
        invariant
            count == shown(queue@.len(), limit as nat),
            forall|k: int| 0 <= k < i ==> (#[trigger] queue@[k]).has_summary(),
    {
        if !queue[i].can_summarize() {
            assert(!queue@[i as int].has_summary());
            return false;
        }
    }
    true
}

/// The length of the queue, and its first `limit` items as lines of text.
pub fn get_queue_snapshot(queue: &Vec<FileQueueItem>, limit: usize) -> (res: (usize, Vec<String>))
    requires
        has_snapshot(queue@, limit as nat),
    ensures
        res.0 == queue@.len(),
        res.1@.len() == shown(queue@.len(), limit as nat),
        forall|i: int|
            0 <= i < res.1@.len() ==> (#[trigger] res.1@[i])@ == snapshot_line(queue@, i),
        res.1@.len() == if limit < queue@.len() {
            limit as nat
        } else {
            queue@.len()
        },
{
    let total: usize = queue.len();
    let count: usize = if limit < total {
        limit
    } else {
        total
    };
    let mut items: Vec<String> = Vec::new();
    for i in 0..count
        invariant
            has_snapshot(queue@, limit as nat),
            count == shown(queue@.len(), limit as nat),
            total == queue@.len(),
            items@.len() == i,
            forall|k: int| 0 <= k < i ==> (#[trigger] items@[k])@ == snapshot_line(queue@, k),
    {
        let line = decimal_text((i + 1) as u64).concat(". ").concat(queue[i].summary().as_str());
        items.push(line);
    }
    (total, items)
}

/// Empties the queue and tells how many items it held.
pub fn clear_queue_all(queue: &mut Vec<FileQueueItem>) -> (res: usize)
    ensures
        res == old(queue)@.len(),
        final(queue)@ == Seq::<FileQueueItem>::empty(),
{
    let n: usize = queue.len();
    queue.clear();
    n
}

// ---------------------------------------------------------------------------------------------
// The worker
// ---------------------------------------------------------------------------------------------

/// How often the worker tries to show that it has taken an item up.
pub const MAX_ATTEMPTS: u32 = 3;

/// What the worker shows when it takes an item up.
pub const PROCESSING_TEXT: &'static str = "Processing file...";

/// The worker. Each state names what is to be done next.
#[derive(Debug)]
pub enum Worker {
    /// Note why the last item was given up, if it was, and wait for a signal.
    Wait { failure: Option<String> },
    /// Write `text` into the message in which the progress on the item is shown.
    Announce {
        item: FileQueueItem,
        attempt: u32,
        chat_id: i64,
        message_id: i32,
        text: &'static str,
    },
    /// Wait before the next attempt.
    Pause { item: FileQueueItem, attempt: u32, seconds: u64 },
    /// Fetch the file from its URL, store it and announce its link.
    Download { item: FileQueueItem, url: String },
    /// Forward the file that the message carries to the storage channel, and announce its link.
    Forward { item: FileQueueItem, file_id: String },
    /// Write `text` into the queue message of the item that is next.
    Report { chat_id: i64, message_id: i32, text: String },
}

/// The contents of a `Worker`.
pub enum WorkerView {
    Wait { failure: Option<Seq<char>> },
    Announce {
        item: FileQueueItem,
        attempt: u32,
        chat_id: i64,
        message_id: i32,
        text: Seq<char>,
    },
    Pause { item: FileQueueItem, attempt: u32, seconds: u64 },
    Download { item: FileQueueItem, url: Seq<char> },
    Forward { item: FileQueueItem, file_id: Seq<char> },
    Report { chat_id: i64, message_id: i32, text: Seq<char> },
}

impl View for Worker {
    type V = WorkerView;

    open spec fn view(&self) -> WorkerView {
        match *self {
            Worker::Wait { failure } => WorkerView::Wait { failure: optional(failure) },
            Worker::Announce { item, attempt, chat_id, message_id, text } => {
                WorkerView::Announce { item, attempt, chat_id, message_id, text: text@ }
            },
            Worker::Pause { item, attempt, seconds } => WorkerView::Pause { item, attempt, seconds },
            Worker::Download { item, url } => WorkerView::Download { item, url: url@ },
            Worker::Forward { item, file_id } => WorkerView::Forward { item, file_id: file_id@ },
            Worker::Report { chat_id, message_id, text } => WorkerView::Report {
                chat_id,
                message_id,
                text: text@,
            },
        }
    }
}

/// What came of the work that a state asks for.
#[derive(Debug)]
pub enum WorkerEvent {
    /// There is something in the queue.
    Signal,
    /// Whether the queue message was edited.
    Edited(bool),
    /// The pause is over.
    Resumed,
    /// The item was stored and its link announced, or why not. A file that is stored but whose
    /// link could not be announced counts as a failure.
    Finished(Result<(), String>),
    /// The queue message of the next item was edited.
    Reported,
}

impl WorkerView {
    /// The attempts are counted from 1, and the pause after each is twice the one before.
    pub open spec fn wf(self) -> bool {
        match self {
            WorkerView::Announce { attempt, .. } => 1 <= attempt <= MAX_ATTEMPTS,
            WorkerView::Pause { attempt, seconds, .. } => {
                &&& 1 <= attempt < MAX_ATTEMPTS
                &&& seconds == pow2((attempt - 1) as nat)
            },
            _ => true,
        }
    }
}

/// The worker shows that it has taken the item up.
pub open spec fn announce(item: FileQueueItem, attempt: u32) -> WorkerView {
    WorkerView::Announce {
        item,
        attempt,
        chat_id: item.message.chat_id,
        message_id: item.queue_message.id,
        text: "Processing file..."@,
    }
}

/// The work on an item: a URL goes before a file of the message, and with neither the item is
/// given up.
pub open spec fn work_on(item: FileQueueItem) -> WorkerView {
    if item.url is Some {
        WorkerView::Download { item, url: item.url->0@ }
    } else if item.file_id is Some {
        WorkerView::Forward { item, file_id: item.file_id->0@ }
    } else {
        WorkerView::Wait { failure: Some("No file_id or url found"@) }
    }
}

/// What follows once the front item has left the queue.
pub open spec fn after_removal(queue: Seq<FileQueueItem>) -> WorkerView {
    if queue.len() > 0 {
        WorkerView::Report {
            chat_id: queue[0].queue_message.chat_id,
            message_id: queue[0].queue_message.id,
            text: "File processed. Remaining files in queue: "@ + decimal(queue.len()),
        }
    } else {
        WorkerView::Wait { failure: None }
    }
}

/// With this step the front item is done, stored and announced, and leaves the queue.
pub open spec fn finishes_front(state: WorkerView, event: WorkerEvent) -> bool {
    (state is Download || state is Forward) && event matches WorkerEvent::Finished(Ok(_))
}

/// The state that follows `state` on `event`, where the event answers what the state asks for.
pub open spec fn next_worker(
    state: WorkerView,
    event: WorkerEvent,
    queue: Seq<FileQueueItem>,
) -> Option<WorkerView> {
    match (state, event) {
        (WorkerView::Wait { .. }, WorkerEvent::Signal) => Some(
            if queue.len() > 0 {
                announce(queue[0], 1)
            } else {
                WorkerView::Wait { failure: None }
            },
        ),
        (WorkerView::Announce { item, attempt, .. }, WorkerEvent::Edited(edited)) => Some(
            if edited || attempt == MAX_ATTEMPTS {
                work_on(item)
            } else {
                WorkerView::Pause { item, attempt, seconds: pow2((attempt - 1) as nat) as u64 }
            },
        ),
        (WorkerView::Pause { item, attempt, .. }, WorkerEvent::Resumed) => Some(
            announce(item, (attempt + 1) as u32),
        ),
        (WorkerView::Download { .. } | WorkerView::Forward { .. }, WorkerEvent::Finished(result)) => Some(
            match result {
                Ok(_) => after_removal(queue.drop_first()),
                Err(error) => WorkerView::Wait { failure: Some(error@) },
            },
        ),
        (WorkerView::Report { .. }, WorkerEvent::Reported) => Some(
            WorkerView::Wait { failure: None },
        ),
        _ => None,
    }
}

/// The queue after a step: the front item leaves it once it is done, and only then.
pub open spec fn next_queue(
    state: WorkerView,
    event: WorkerEvent,
    queue: Seq<FileQueueItem>,
) -> Seq<FileQueueItem> {
    if finishes_front(state, event) {
        queue.drop_first()
    } else {
        queue
    }
}

/// A state that may be missing.
pub open spec fn worker_view(state: Option<Worker>) -> Option<WorkerView> {
    match state {
        Some(state) => Some(state@),
        None => None,
    }
}

impl Worker {
    /// A worker that has done nothing yet.
    pub fn new() -> (res: Worker)
        ensures
            res@ == (WorkerView::Wait { failure: None }),
            res@.wf(),
    {
        Worker::Wait { failure: None }
    }
}

/// The seconds to wait after an attempt that failed.
fn pause_after(attempt: u32) -> (seconds: u64)
    requires
        1 <= attempt < MAX_ATTEMPTS,
    ensures
        seconds == pow2((attempt - 1) as nat),
{
    let mut seconds: u64 = 1;
    let mut k: u32 = 1;
    assert(pow2(0) == 1) by {
        lemma2_to64();
    }
    while k < attempt
        invariant
            1 <= k <= attempt < MAX_ATTEMPTS,
            seconds == pow2((k - 1) as nat),
            seconds <= k * k,
        decreases attempt - k,
    {
        proof {
            lemma_pow2_unfold(k as nat);
        }
        seconds = 2 * seconds;
        k = k + 1;
    }
    seconds
}

fn take_up(item: FileQueueItem, attempt: u32) -> (res: Worker)
    ensures
        res@ == announce(item, attempt),
{
    let (chat_id, message_id) = item.progress_message();
    Worker::Announce { item, attempt, chat_id, message_id, text: PROCESSING_TEXT }
}

fn start_work(item: FileQueueItem) -> (res: Worker)
    ensures
        res@ == work_on(item),
{
    match item.url.clone() {
        Some(url) => Worker::Download { item, url },
        None => match item.file_id.clone() {
            Some(file_id) => Worker::Forward { item, file_id },
            None => Worker::Wait { failure: Some("No file_id or url found".to_owned()) },
        },
    }
}

/// Takes the front item off the queue.
fn remove_front(queue: &mut Vec<FileQueueItem>) -> (res: Worker)
    requires
        old(queue)@.len() > 0,
    ensures
        final(queue)@ == old(queue)@.drop_first(),
        res@ == after_removal(final(queue)@),
{
    queue.remove(0);
    assert(queue@ =~= old(queue)@.drop_first());
    if queue.len() > 0 {
        Worker::Report {
            chat_id: queue[0].queue_message.chat_id,
            message_id: queue[0].queue_message.id,
            text: "File processed. Remaining files in queue: ".to_owned().concat(
                decimal_text(queue.len() as u64).as_str(),
            ),
        }
    } else {
        Worker::Wait { failure: None }
    }
}

/// Takes the worker one step on. An event that does not answer what the state asks for leads
/// nowhere.
pub fn process_queue(state: Worker, event: WorkerEvent, queue: &mut Vec<FileQueueItem>) -> (res:
    Option<Worker>)
    requires
        state@.wf(),
        finishes_front(state@, event) ==> old(queue)@.len() > 0,
    ensures
        worker_view(res) == next_worker(state@, event, old(queue)@),
        final(queue)@ == next_queue(state@, event, old(queue)@),
        res is Some ==> res->0@.wf(),
        state is Wait && event is Signal && old(queue)@.len() > 0 ==> {
            &&& res is Some && res->0 is Announce
            &&& res->0->Announce_item == old(queue)@[0]
            &&& res->0->Announce_chat_id == old(queue)@[0].message.chat_id
            &&& res->0->Announce_message_id == old(queue)@[0].queue_message.id
        },
        (state is Download || state is Forward) && event is Finished && event->Finished_0 is Ok ==> {
            &&& final(queue)@.len() == old(queue)@.len() - 1
            &&& forall|i: int|
                0 <= i < final(queue)@.len() ==> #[trigger] final(queue)@[i] == old(queue)@[i + 1]
        },
        !((state is Download || state is Forward) && event is Finished && event->Finished_0 is Ok)
            ==> final(queue)@ == old(queue)@,
{
    match (state, event) {
        (Worker::Wait { .. }, WorkerEvent::Signal) => {
            if queue.len() > 0 {
                Some(take_up(queue[0].clone(), 1))
            } else {
                Some(Worker::Wait { failure: None })
            }
        },
        (Worker::Announce { item, attempt, .. }, WorkerEvent::Edited(edited)) => {
            if edited || attempt == MAX_ATTEMPTS {
                Some(start_work(item))
            } else {
                Some(Worker::Pause { item, attempt, seconds: pause_after(attempt) })
            }
        },
        (Worker::Pause { item, attempt, .. }, WorkerEvent::Resumed) => Some(
            take_up(item, attempt + 1),
        ),
        (Worker::Download { .. }, WorkerEvent::Finished(result)) => match result {
            Ok(_) => Some(remove_front(queue)),
            Err(error) => Some(Worker::Wait { failure: Some(error) }),
        },
        (Worker::Forward { .. }, WorkerEvent::Finished(result)) => match result {
            Ok(_) => Some(remove_front(queue)),
            Err(error) => Some(Worker::Wait { failure: Some(error) }),
        },
        (Worker::Report { .. }, WorkerEvent::Reported) => Some(Worker::Wait { failure: None }),
        _ => None,
    }
}

// ---------------------------------------------------------------------------------------------
// Whole items
// ---------------------------------------------------------------------------------------------

/// The worker and the queue after `events`, as far as they lead.
pub open spec fn worker_end(
    state: WorkerView,
    events: Seq<WorkerEvent>,
    queue: Seq<FileQueueItem>,
) -> (WorkerView, Seq<FileQueueItem>)
    decreases events.len(),
{
    if events.len() == 0 {
        (state, queue)
    } else {
        match next_worker(state, events[0], queue) {
            Some(next) => worker_end(
                next,
                events.drop_first(),
                next_queue(state, events[0], queue),
            ),
            None => (state, queue),
        }
    }
}

/// The worker takes up the item at the front, whatever the queue holds behind it, and shows so in
/// the queue message of the chat that asked for the file.
pub proof fn law_front_item_is_taken_up(queue: Seq<FileQueueItem>, failure: Option<Seq<char>>)
    requires
        queue.len() > 0,
    ensures
        next_worker(WorkerView::Wait { failure }, WorkerEvent::Signal, queue) == Some(
            announce(queue[0], 1),
        ),
{
}

/// A step takes nothing from the queue but the front item, and that only once it is done: the
/// items are dealt with in the order in which they came, and one that fails stays.
pub proof fn law_items_leave_in_order(
    state: WorkerView,
    event: WorkerEvent,
    queue: Seq<FileQueueItem>,
)
    requires
        finishes_front(state, event) ==> queue.len() > 0,
    ensures
        finishes_front(state, event) ==> queue == seq![queue[0]] + next_queue(state, event, queue),
        !finishes_front(state, event) ==> next_queue(state, event, queue) == queue,
{
    if finishes_front(state, event) {
        assert(queue =~= seq![queue[0]] + queue.drop_first());
    }
}

/// An item is worked on whether or not the worker could announce it. An announcement is tried
/// three times at most, with pauses of one second and of two.
pub proof fn law_announcing_never_stops_the_work(
    item: FileQueueItem,
    first: bool,
    second: bool,
    third: bool,
    queue: Seq<FileQueueItem>,
)
    ensures
        ({
            let start = announce(item, 1);
            let one = seq![WorkerEvent::Edited(first)];
            let two = seq![
                WorkerEvent::Edited(first),
                WorkerEvent::Resumed,
                WorkerEvent::Edited(second),
            ];
            let three = seq![
                WorkerEvent::Edited(first),
                WorkerEvent::Resumed,
                WorkerEvent::Edited(second),
                WorkerEvent::Resumed,
                WorkerEvent::Edited(third),
            ];
            &&& first ==> worker_end(start, one, queue) == (work_on(item), queue)
            &&& !first ==> worker_end(start, one, queue) == (
                WorkerView::Pause { item, attempt: 1, seconds: 1 },
                queue,
            )
            &&& !first && second ==> worker_end(start, two, queue) == (work_on(item), queue)
            &&& !first && !second ==> worker_end(start, two, queue) == (
                WorkerView::Pause { item, attempt: 2, seconds: 2 },
                queue,
            )
            &&& !first && !second ==> worker_end(start, three, queue) == (work_on(item), queue)
        }),
{
    reveal_with_fuel(worker_end, 6);
    assert(pow2(0) == 1 && pow2(1) == 2) by {
        lemma2_to64();
    }
}

/// The events while the worker tries to announce an item, by which of its attempts succeed: the
/// first that does is the last.
pub open spec fn announcing(first: bool, second: bool, third: bool) -> Seq<WorkerEvent> {
    if first {
        seq![WorkerEvent::Edited(true)]
    } else if second {
        seq![WorkerEvent::Edited(false), WorkerEvent::Resumed, WorkerEvent::Edited(true)]
    } else {
        seq![
            WorkerEvent::Edited(false),
            WorkerEvent::Resumed,
            WorkerEvent::Edited(false),
            WorkerEvent::Resumed,
            WorkerEvent::Edited(third),
        ]
    }
}

/// One signal deals with the item at the front, however the announcement goes: it leaves the
/// queue once it is stored and announced, and stays at its place if it is not, or if there is
/// nothing to store.
pub proof fn law_signal_deals_with_front(
    queue: Seq<FileQueueItem>,
    failure: Option<Seq<char>>,
    first: bool,
    second: bool,
    third: bool,
    result: Result<(), String>,
)
    requires
        queue.len() > 0,
    ensures
        ({
            let end = worker_end(
                WorkerView::Wait { failure },
                seq![WorkerEvent::Signal] + announcing(first, second, third) + seq![
                    WorkerEvent::Finished(result),
                ],
                queue,
            );
            if queue[0].url is None && queue[0].file_id is None {
                end == (WorkerView::Wait { failure: Some("No file_id or url found"@) }, queue)
            } else {
                &&& result is Ok ==> end == (after_removal(queue.drop_first()), queue.drop_first())
                &&& result matches Err(error) ==> end == (
                    WorkerView::Wait { failure: Some(error@) },
                    queue,
                )
            }
        }),
{
    reveal_with_fuel(worker_end, 8);
    let events = seq![WorkerEvent::Signal] + announcing(first, second, third) + seq![
        WorkerEvent::Finished(result),
    ];
    let finished = WorkerEvent::Finished(result);
    if first {
        assert(events =~= seq![WorkerEvent::Signal, WorkerEvent::Edited(true), finished]);
    } else if second {
        assert(events =~= seq![
            WorkerEvent::Signal,
            WorkerEvent::Edited(false),
            WorkerEvent::Resumed,
            WorkerEvent::Edited(true),
            finished,
        ]);
    } else {
        assert(events =~= seq![
            WorkerEvent::Signal,
            WorkerEvent::Edited(false),
            WorkerEvent::Resumed,
            WorkerEvent::Edited(false),
            WorkerEvent::Resumed,
            WorkerEvent::Edited(third),
            finished,
        ]);
    }
}

proof fn lemma_cut(head: Seq<char>, tail: Seq<char>)
    ensures
        encode_utf8(head + tail) == encode_utf8(head) + encode_utf8(tail),
        is_char_boundary(encode_utf8(head + tail), encode_utf8(head).len() as int),
    decreases head.len(),
{
    let chars = head + tail;
    encode_utf8_valid_utf8(chars);
    if head.len() == 0 {
        assert(chars =~= tail);
        assert(encode_utf8(head) + encode_utf8(tail) =~= encode_utf8(tail));
    } else {
        let rest = head.drop_first();
        assert(chars.drop_first() =~= rest + tail);
        assert(chars[0] == head[0]);
        lemma_cut(rest, tail);
        encode_utf8_first_scalar(chars);
        let bytes = encode_utf8(chars);
        let first = encode_scalar(chars[0] as u32);
        assert(pop_first_scalar(bytes) =~= encode_utf8(rest + tail));
        assert(bytes =~= encode_utf8(head) + encode_utf8(tail));
        assert(encode_utf8(head).len() == first.len() + encode_utf8(rest).len());
    }
}

/// An item is shown by the name of its file; without a name by its URL; without a URL by its
/// identifier. A URL of more than 48 bytes is shown by its first 48 and an ellipsis.
pub proof fn law_summary(item: FileQueueItem, head: Seq<char>, tail: Seq<char>)
    ensures
        item.file_name matches Some(name) ==> item.summary_text() == name@ && item.has_summary(),
        item.file_name is None && item.url is Some ==> {
            let url = item.url->0@;
            &&& encode_utf8(url).len() <= 48 ==> item.summary_text() == "URL: "@ + url
                && item.has_summary()
            &&& url == head + tail && encode_utf8(head).len() == 48 && tail.len() > 0
                ==> item.summary_text() == "URL: "@ + (head + "…"@) && item.has_summary()
        },
        item.file_name is None && item.url is None ==> item.has_summary() && item.summary_text()
            == match item.file_id {
            Some(file_id) => "file_id: "@ + file_id@,
            None => "<unknown>"@,
        },
{
    if item.file_name is None && item.url is Some {
        let url = item.url->0@;
        if url == head + tail && encode_utf8(head).len() == 48 && tail.len() > 0 {
            lemma_cut(head, tail);
            encode_utf8_decode_utf8(head);
            encode_utf8_first_scalar(tail);
            assert(encode_utf8(url).subrange(0, 48) =~= encode_utf8(head));
        }
    }
}

/// A URL can be cut unless its first 48 bytes end within a character.
pub proof fn law_cut_falls_between_chars(url: Seq<char>)
    requires
        encode_utf8(url).len() > 48,
    ensures
        cuts_between_chars(url) <==> exists|head: Seq<char>, tail: Seq<char>|
            url == #[trigger] (head + tail) && encode_utf8(head).len() == 48,
{
    let bytes = encode_utf8(url);
    encode_utf8_valid_utf8(url);
    encode_utf8_decode_utf8(url);
    if cuts_between_chars(url) {
        let (front, back) = (bytes.subrange(0, 48), bytes.subrange(48, bytes.len() as int));
        valid_utf8_split(bytes, 48);
        decode_utf8_split(bytes, 48);
        decode_utf8_encode_utf8(front);
        assert(url == decode_utf8(front) + decode_utf8(back));
    }
    if exists|head: Seq<char>, tail: Seq<char>|
        url == #[trigger] (head + tail) && encode_utf8(head).len() == 48 {
        let (head, tail) = choose|head: Seq<char>, tail: Seq<char>|
            url == #[trigger] (head + tail) && encode_utf8(head).len() == 48;
        lemma_cut(head, tail);
    }
}

/// A line of a snapshot tells the place of its item, counted from 1, and shows it. A snapshot needs
/// a summary of each of the first `limit` items, and of no other.
pub proof fn law_snapshot_line(queue: Seq<FileQueueItem>, limit: nat, i: int)
    requires
        0 <= i < queue.len(),
    ensures
        exists|place: Seq<char>|
            {
                &&& snapshot_line(queue, i) == #[trigger] (place + ". "@ + queue[i].summary_text())
                &&& numeral(place)
                &&& numeral_value(place) == i + 1
            },
        has_snapshot(queue, limit) <==> forall|k: int|
            0 <= k < queue.len() && k < limit ==> (#[trigger] queue[k]).has_summary(),
{
    law_decimal_reads_back((i + 1) as nat);
    assert(snapshot_line(queue, i) == decimal((i + 1) as nat) + ". "@ + queue[i].summary_text());
}

/// A signal makes the worker take up the item at the front of the queue, and say so in the chat
/// that asked for the file; with nothing in the queue it waits on.
pub proof fn law_signal_takes_up_the_front(
    queue: Seq<FileQueueItem>,
    failure: Option<Seq<char>>,
)
    ensures
        ({
            let next = next_worker(WorkerView::Wait { failure }, WorkerEvent::Signal, queue);
            &&& queue.len() == 0 ==> next == Some(WorkerView::Wait { failure: None })
            &&& queue.len() > 0 ==> next == Some(
                WorkerView::Announce {
                    item: queue[0],
                    attempt: 1,
                    chat_id: queue[0].message.chat_id,
                    message_id: queue[0].queue_message.id,
                    text: "Processing file..."@,
                },
            )
        }),
{
}

/// An announcement that succeeds, or fails a third time, is followed by the work on the same item:
/// by its URL if it has one, or else by its file, and with neither it is given up. One that fails
/// before is tried again, after one second and after two.
pub proof fn law_announcement_leads_to_the_work(
    item: FileQueueItem,
    attempt: u32,
    seconds: u64,
    edited: bool,
    chat_id: i64,
    message_id: i32,
    text: Seq<char>,
    queue: Seq<FileQueueItem>,
)
    requires
        1 <= attempt <= 3,
    ensures
        ({
            let next = next_worker(
                WorkerView::Announce { item, attempt, chat_id, message_id, text },
                WorkerEvent::Edited(edited),
                queue,
            );
            &&& edited || attempt == 3 ==> next == Some(
                match (item.url, item.file_id) {
                    (Some(url), _) => WorkerView::Download { item, url: url@ },
                    (None, Some(file_id)) => WorkerView::Forward { item, file_id: file_id@ },
                    (None, None) => WorkerView::Wait {
                        failure: Some("No file_id or url found"@),
                    },
                },
            )
            &&& !edited && attempt < 3 ==> next == Some(
                WorkerView::Pause { item, attempt, seconds: attempt as u64 },
            )
        }),
        attempt < 3 ==> next_worker(
            WorkerView::Pause { item, attempt, seconds },
            WorkerEvent::Resumed,
            queue,
        ) == Some(
            WorkerView::Announce {
                item,
                attempt: (attempt + 1) as u32,
                chat_id: item.message.chat_id,
                message_id: item.queue_message.id,
                text: "Processing file..."@,
            },
        ),
{
    assert(pow2(0) == 1 && pow2(1) == 2) by {
        lemma2_to64();
    }
}

/// Once the work on an item is done, the worker tells the item that is now at the front how many
/// are left, itself among them, or waits where none is left; once it has told, it waits. Work that
/// fails leaves the worker waiting, with the reason.
pub proof fn law_done_work_is_reported(
    state: WorkerView,
    error: String,
    queue: Seq<FileQueueItem>,
    chat_id: i64,
    message_id: i32,
    text: Seq<char>,
)
    requires
        state is Download || state is Forward,
        queue.len() > 0,
    ensures
        ({
            let next = next_worker(state, WorkerEvent::Finished(Ok(())), queue);
            &&& queue.len() == 1 ==> next == Some(WorkerView::Wait { failure: None })
            &&& queue.len() > 1 ==> (next matches Some(
                WorkerView::Report { chat_id, message_id, text },
            ) && {
                &&& chat_id == queue[1].queue_message.chat_id
                &&& message_id == queue[1].queue_message.id
                &&& exists|left: Seq<char>|
                    {
                        &&& text == #[trigger] ("File processed. Remaining files in queue: "@
                            + left)
                        &&& numeral(left)
                        &&& numeral_value(left) == queue.len() - 1
                    }
            })
        }),
        next_worker(state, WorkerEvent::Finished(Err(error)), queue) == Some(
            WorkerView::Wait { failure: Some(error@) },
        ),
        next_worker(
            WorkerView::Report { chat_id, message_id, text },
            WorkerEvent::Reported,
            queue,
        ) == Some(WorkerView::Wait { failure: None }),
{
    law_decimal_reads_back((queue.len() - 1) as nat);
    let left = decimal((queue.len() - 1) as nat);
    assert(queue.drop_first().len() == queue.len() - 1);
    if queue.len() > 1 {
        assert(queue.drop_first()[0] == queue[1]);
    }
    assert("File processed. Remaining files in queue: "@ + left
        == "File processed. Remaining files in queue: "@ + decimal(queue.drop_first().len()));
}

/// The queue changes in one way only: when the work on an item has succeeded, the front item
/// leaves, and those behind it move up in their order.
pub proof fn law_queue_changes_in_one_way(
    state: WorkerView,
    event: WorkerEvent,
    queue: Seq<FileQueueItem>,
)
    requires
        queue.len() > 0,
    ensures
        (state is Download || state is Forward) && event is Finished && event->Finished_0 is Ok ==> {
            &&& next_queue(state, event, queue).len() == queue.len() - 1
            &&& forall|i: int|
                0 <= i < queue.len() - 1 ==> #[trigger] next_queue(state, event, queue)[i]
                    == queue[i + 1]
        },
        !((state is Download || state is Forward) && event is Finished && event->Finished_0 is Ok)
            ==> next_queue(state, event, queue) == queue,
{
}

/// The worker takes a step if and only if the event answers what its state asks for.
pub proof fn law_worker_takes_only_answers(
    state: WorkerView,
    event: WorkerEvent,
    queue: Seq<FileQueueItem>,
)
    ensures
        next_worker(state, event, queue) is Some <==> {
            ||| state is Wait && event is Signal
            ||| state is Announce && event is Edited
            ||| state is Pause && event is Resumed
            ||| (state is Download || state is Forward) && event is Finished
            ||| state is Report && event is Reported
        },
{
}

/// The contents of a state are those of its parts.
pub proof fn law_worker_contents(state: Worker)
    ensures
        state matches Worker::Announce { item, attempt, chat_id, message_id, text } ==> state@ == (WorkerView::Announce {
            item,
            attempt,
            chat_id,
            message_id,
            text: text@,
        }),
        state matches Worker::Pause { item, attempt, seconds } ==> state@ == (WorkerView::Pause {
            item,
            attempt,
            seconds,
        }),
        state matches Worker::Download { item, url } ==> state@ == (WorkerView::Download {
            item,
            url: url@,
        }),
        state matches Worker::Forward { item, file_id } ==> state@ == (WorkerView::Forward {
            item,
            file_id: file_id@,
        }),
        state matches Worker::Report { chat_id, message_id, text } ==> state@ == (WorkerView::Report {
            chat_id,
            message_id,
            text: text@,
        }),
        state matches Worker::Wait { failure } ==> state@ == (WorkerView::Wait {
            failure: match failure {
                Some(error) => Some(error@),
                None => None,
            },
        }),
        worker_view(Some(state)) == Some(state@),
        worker_view(None) is None,
{
}

} // verus!
