//! The WebSocket client's bookkeeping: the table of requests that wait for
//! a reply, what the reader and writer tasks do with each event, and how
//! a wait ends.
use vstd::prelude::*;

use crate::errors::NeuroWsClientError;
use crate::text::str_eq;

verus! {

/// The map that a list of distinct-id entries stands for.
pub open spec fn map_of<W>(entries: Seq<(String, W)>) -> Map<Seq<char>, W>
    decreases entries.len(),
{
    if entries.len() == 0 {
        Map::empty()
    } else {
        map_of(entries.drop_last()).insert(entries.last().0@, entries.last().1)
    }
}

/// No id occurs twice among the entries.
pub open spec fn distinct_ids<W>(entries: Seq<(String, W)>) -> bool {
    forall|i: int, j: int|
        0 <= i < entries.len() && 0 <= j < entries.len() && i != j ==> #[trigger] entries[i].0@
            != #[trigger] entries[j].0@
}

/// The ids of the entries are the keys of their map, and each maps to its
/// waiter.
pub proof fn lemma_map_of<W>(entries: Seq<(String, W)>)
    requires
        distinct_ids(entries),
    ensures
        forall|k: Seq<char>|
            map_of(entries).dom().contains(k) <==> exists|i: int|
                0 <= i < entries.len() && #[trigger] entries[i].0@ == k,
        forall|i: int|
            0 <= i < entries.len() ==> #[trigger] map_of(entries)[entries[i].0@] == entries[i].1,
        map_of(entries).dom().finite(),
        map_of(entries).dom().len() == entries.len(),
    decreases entries.len(),
{
    if entries.len() > 0 {
        let rest = entries.drop_last();
        assert(distinct_ids(rest)) by {
            assert forall|i: int, j: int|
                0 <= i < rest.len() && 0 <= j < rest.len() && i != j implies #[trigger] rest[i].0@
                != #[trigger] rest[j].0@ by {
                assert(rest[i] == entries[i]);
                assert(rest[j] == entries[j]);
            }
        }
        lemma_map_of(rest);
        let last = entries.last();
        assert(!map_of(rest).dom().contains(last.0@)) by {
            if map_of(rest).dom().contains(last.0@) {
                let i = choose|i: int| 0 <= i < rest.len() && #[trigger] rest[i].0@ == last.0@;
                assert(entries[i].0@ == entries[entries.len() - 1].0@);
            }
        }
        assert forall|k: Seq<char>|
            map_of(entries).dom().contains(k) <==> exists|i: int|
                0 <= i < entries.len() && #[trigger] entries[i].0@ == k by {
            if map_of(entries).dom().contains(k) && k != last.0@ {
                let i = choose|i: int| 0 <= i < rest.len() && #[trigger] rest[i].0@ == k;
                assert(entries[i].0@ == k);
            }
            if exists|i: int| 0 <= i < entries.len() && #[trigger] entries[i].0@ == k {
                let i = choose|i: int| 0 <= i < entries.len() && #[trigger] entries[i].0@ == k;
                if i < entries.len() - 1 {
                    assert(rest[i].0@ == k);
                }
            }
        }
        assert forall|i: int| 0 <= i < entries.len() implies #[trigger] map_of(entries)[entries[i].0@]
            == entries[i].1 by {
            if i < entries.len() - 1 {
                assert(rest[i] == entries[i]);
                assert(entries[i].0@ != last.0@);
            }
        }
    }
}

/// Removing the `i`-th entry removes its id from the map.
pub proof fn lemma_map_of_remove<W>(entries: Seq<(String, W)>, i: int)
    requires
        distinct_ids(entries),
        0 <= i < entries.len(),
    ensures
        distinct_ids(entries.remove(i)),
        map_of(entries.remove(i)) == map_of(entries).remove(entries[i].0@),
{
    let rest = entries.remove(i);
    assert(distinct_ids(rest)) by {
        assert forall|a: int, b: int|
            0 <= a < rest.len() && 0 <= b < rest.len() && a != b implies #[trigger] rest[a].0@
            != #[trigger] rest[b].0@ by {
            let a2 = if a < i { a } else { a + 1 };
            let b2 = if b < i { b } else { b + 1 };
            assert(rest[a] == entries[a2]);
            assert(rest[b] == entries[b2]);
        }
    }
    lemma_map_of(entries);
    lemma_map_of(rest);
    let key = entries[i].0@;
    assert forall|k: Seq<char>| #[trigger] map_of(rest).dom().contains(k) <==> map_of(entries).remove(
        key,
    ).dom().contains(k) by {
        if map_of(rest).dom().contains(k) {
            let a = choose|a: int| 0 <= a < rest.len() && #[trigger] rest[a].0@ == k;
            let a2 = if a < i { a } else { a + 1 };
            assert(entries[a2].0@ == k);
            assert(a2 != i);
        }
        if map_of(entries).remove(key).dom().contains(k) {
            let a = choose|a: int| 0 <= a < entries.len() && #[trigger] entries[a].0@ == k;
            assert(a != i);
            let a1 = if a < i { a } else { a - 1 };
            assert(rest[a1] == entries[a]);
        }
    }
    assert forall|k: Seq<char>| #[trigger] map_of(rest).dom().contains(k) implies map_of(rest)[k]
        == map_of(entries).remove(key)[k] by {
        let a = choose|a: int| 0 <= a < rest.len() && #[trigger] rest[a].0@ == k;
        let a2 = if a < i { a } else { a + 1 };
        assert(rest[a] == entries[a2]);
    }
    assert(map_of(rest) =~= map_of(entries).remove(key));
}

/// The requests that wait for a reply, by request id, each with what
/// will hand the reply to its waiter.
pub struct PendingTable<W> {
    entries: Vec<(String, W)>,
}

impl<W> PendingTable<W> {
    /// The waiters by request id.
    pub closed spec fn waiting(&self) -> Map<Seq<char>, W> {
        map_of(self.entries@)
    }

    /// The waiters in the order their requests were registered.
    pub closed spec fn waiters(&self) -> Seq<W> {
        self.entries@.map_values(|e: (String, W)| e.1)
    }

    /// No request id is registered twice.
    pub closed spec fn well_formed(&self) -> bool {
        distinct_ids(self.entries@)
    }

    /// An empty table.
    pub fn new() -> (r: Self)
        ensures
            r.well_formed(),
            r.waiting() == Map::<Seq<char>, W>::empty(),
            r.waiters().len() == 0,
    {
        PendingTable { entries: Vec::new() }
    }

    /// How many requests wait.
    pub fn len(&self) -> (r: usize)
        requires
            self.well_formed(),
        ensures
            r == self.waiting().dom().len(),
    {
        proof {
            lemma_map_of(self.entries@);
        }
        self.entries.len()
    }

    /// The position of the entry for `id`, if any.
    fn position(&self, id: &str) -> (r: Option<usize>)
        requires
            self.well_formed(),
        ensures
            match r {
                Some(i) => i < self.entries@.len() && self.entries@[i as int].0@ == id@,
                None => !self.waiting().dom().contains(id@),
            },
    {
        proof {
            lemma_map_of(self.entries@);
        }
        let mut i: usize = 0;
        while i < self.entries.len()
            invariant
                i <= self.entries@.len(),
                forall|k: int| 0 <= k < i ==> self.entries@[k].0@ != id@,
            decreases self.entries@.len() - i,
        {
            if str_eq(self.entries[i].0.as_str(), id) {
                return Some(i);
            }
            i += 1;
        }
        None
    }

    /// Registers the waiter of request `id`; a waiter already registered
    /// under that id is replaced and given back.
    pub fn insert(&mut self, id: String, waiter: W) -> (r: Option<W>)
        requires
            old(self).well_formed(),
        ensures
            final(self).well_formed(),
            final(self).waiting() == old(self).waiting().insert(id@, waiter),
            final(self).waiters().len() > 0 && final(self).waiters().last() == waiter,
            !old(self).waiting().dom().contains(id@) ==> final(self).waiters() == old(self).waiters().push(
                waiter,
            ),
            r == (if old(self).waiting().dom().contains(id@) {
                Some(old(self).waiting()[id@])
            } else {
                None
            }),
    {
        proof {
            lemma_map_of(self.entries@);
        }
        let ghost before = self.entries@;
        let replaced = match self.position(id.as_str()) {
            Some(i) => {
                proof {
                    lemma_map_of_remove(before, i as int);
                }
                let (_, old_waiter) = self.entries.remove(i);
                Some(old_waiter)
            },
            None => None,
        };
        let ghost mid = self.entries@;
        proof {
            lemma_map_of(mid);
        }
        self.entries.push((id, waiter));
        proof {
            let after = self.entries@;
            assert(after.drop_last() == mid);
            assert forall|a: int, b: int|
                0 <= a < after.len() && 0 <= b < after.len() && a != b implies #[trigger] after[a].0@
                != #[trigger] after[b].0@ by {
                if a < mid.len() && b < mid.len() {
                    assert(after[a] == mid[a]);
                    assert(after[b] == mid[b]);
                } else if a < mid.len() {
                    assert(after[a] == mid[a]);
                    assert(map_of(mid).dom().contains(mid[a].0@));
                } else {
                    assert(after[b] == mid[b]);
                    assert(map_of(mid).dom().contains(mid[b].0@));
                }
            }
            assert(map_of(after) =~= map_of(before).insert(id@, waiter));
        }
        proof {
            let after = self.entries@;
            assert(self.waiters() =~= mid.map_values(|e: (String, W)| e.1).push(waiter));
            if replaced is None {
                assert(mid == before);
            }
        }
        replaced
    }

    /// Takes the waiter of request `id` out of the table, if it waits.
    pub fn remove(&mut self, id: &str) -> (r: Option<W>)
        requires
            old(self).well_formed(),
        ensures
            final(self).well_formed(),
            final(self).waiting() == old(self).waiting().remove(id@),
            r == (if old(self).waiting().dom().contains(id@) {
                Some(old(self).waiting()[id@])
            } else {
                None
            }),
    {
        proof {
            lemma_map_of(self.entries@);
        }
        let ghost before = self.entries@;
        match self.position(id) {
            Some(i) => {
                proof {
                    lemma_map_of_remove(before, i as int);
                }
                let (_, waiter) = self.entries.remove(i);
                Some(waiter)
            },
            None => {
                assert(map_of(before).remove(id@) =~= map_of(before));
                None
            },
        }
    }

    /// The waiter that a reply with this id goes to, taken out of the
    /// table: none for an empty id, which no request has.
    pub fn dispatch(&mut self, id: &str) -> (r: Option<W>)
        requires
            old(self).well_formed(),
        ensures
            final(self).well_formed(),
            id@.len() == 0 ==> final(self).waiting() == old(self).waiting() && r is None,
            id@.len() > 0 ==> final(self).waiting() == old(self).waiting().remove(id@) && r == (
            if old(self).waiting().dom().contains(id@) {
                Some(old(self).waiting()[id@])
            } else {
                None
            }),
    {
        if id.is_empty() {
            return None;
        }
        self.remove(id)
    }

    /// Takes every waiter out of the table, in the order their requests
    /// were registered; the table is left empty.
    pub fn drain(&mut self) -> (r: Vec<W>)
        requires
            old(self).well_formed(),
        ensures
            final(self).well_formed(),
            final(self).waiting() == Map::<Seq<char>, W>::empty(),
            r@ == old(self).waiters(),
            r@.len() == old(self).waiting().dom().len(),
    {
        proof {
            lemma_map_of(self.entries@);
        }
        let ghost all = self.entries@;
        let mut out: Vec<W> = Vec::new();
        while self.entries.len() > 0
            invariant
                all.len() == out@.len() + self.entries@.len(),
                self.entries@ == all.skip(out@.len() as int),
                out@ == all.take(out@.len() as int).map_values(|e: (String, W)| e.1),
            decreases self.entries@.len(),
        {
            let ghost n: int = out@.len() as int;
            let (_, waiter) = self.entries.remove(0);
            out.push(waiter);
            assert(self.entries@ =~= all.skip(n + 1));
            assert(out@ =~= all.take(n + 1).map_values(|e: (String, W)| e.1));
        }
        assert(all.take(all.len() as int) =~= all);
        out
    }
}

/// A reply is handed to the waiter registered under its id: after
/// `insert(id, w)`, a `dispatch(id)` (with `id` not empty) gives back `w`
/// and leaves the table as it was before, without `id`; the other waiters
/// stay where they were.
pub proof fn law_reply_reaches_registered_waiter<W>(t: PendingTable<W>, id: Seq<char>, w: W)
    requires
        t.well_formed(),
        id.len() > 0,
    ensures
        t.waiting().insert(id, w).dom().contains(id),
        t.waiting().insert(id, w)[id] == w,
        t.waiting().insert(id, w).remove(id) == t.waiting().remove(id),
        forall|k: Seq<char>|
            k != id && #[trigger] t.waiting().dom().contains(k) ==> t.waiting().insert(id, w).remove(
                id,
            ).dom().contains(k) && t.waiting().insert(id, w).remove(id)[k] == t.waiting()[k],
{
    assert(t.waiting().insert(id, w).remove(id) =~= t.waiting().remove(id));
}

/// The waiters of a table are those of its requests, one per request id:
/// every waiter registered under an id is among `waiters()`, and there are
/// as many waiters as ids. So the waiters that `drain` and
/// `fail_pending` hand out are those of every pending request.
pub proof fn law_waiters_are_the_pending_requests<W>(t: PendingTable<W>)
    requires
        t.well_formed(),
    ensures
        forall|k: Seq<char>| #[trigger] t.waiting().dom().contains(k) ==> t.waiters().contains(t.waiting()[k]),
        t.waiters().len() == t.waiting().dom().len(),
{
    t.lemma_waiters();
}

impl<W> PendingTable<W> {
    proof fn lemma_waiters(&self)
        requires
            self.well_formed(),
        ensures
            forall|k: Seq<char>| #[trigger] self.waiting().dom().contains(k) ==> self.waiters().contains(
                self.waiting()[k],
            ),
            self.waiters().len() == self.waiting().dom().len(),
    {
        let e = self.entries@;
        lemma_map_of(e);
        assert forall|k: Seq<char>| #[trigger] self.waiting().dom().contains(k) implies self.waiters().contains(
            self.waiting()[k],
        ) by {
            let i = choose|i: int| 0 <= i < e.len() && #[trigger] e[i].0@ == k;
            assert(self.waiters()[i] == e[i].1);
        }
    }
}

/// What the reader task sees next on the connection.
#[derive(Debug)]
pub enum ReaderEvent {
    /// A text frame.
    Text(String),
    /// A binary frame.
    Binary(Vec<u8>),
    /// A close frame.
    Close,
    /// Any other frame (ping, pong, raw frame).
    Other,
    /// A failure to read, with its message.
    Failure(String),
    /// The end of the stream, without a close frame.
    End,
}

/// What the reader task does with an event.
#[derive(Clone, Debug, PartialEq, Eq)]
pub enum ReaderAction {
    /// Hand this text to the waiting request it answers.
    Dispatch(String),
    /// Go on reading.
    Ignore,
    /// Fail every waiting request with this reason and stop reading.
    FailAll(String),
}

/// What the reader task does with an event: a text frame, or a binary
/// frame that is valid UTF-8, is dispatched; a close frame, a read
/// failure and the end of the stream fail every waiting request and end
/// the task; anything else is ignored.
pub open spec fn reader_action_ok(event: ReaderEvent, action: ReaderAction) -> bool {
    match event {
        ReaderEvent::Text(t) => action matches ReaderAction::Dispatch(d) && d@ == t@,
        ReaderEvent::Binary(b) => if vstd::utf8::valid_utf8(b@) {
            action matches ReaderAction::Dispatch(d) && d@ == vstd::utf8::decode_utf8(b@)
        } else {
            action is Ignore
        },
        ReaderEvent::Close => action matches ReaderAction::FailAll(r) && r@
            == "remote endpoint closed the websocket"@,
        ReaderEvent::Other => action is Ignore,
        ReaderEvent::Failure(m) => action matches ReaderAction::FailAll(r) && r@ == "reader failure: "@
            + m@,
        ReaderEvent::End => action matches ReaderAction::FailAll(r) && r@
            == "reader terminated without close frame"@,
    }
}

/// What the reader task does with an event.
pub fn reader_step(event: ReaderEvent) -> (r: ReaderAction)
    ensures
        reader_action_ok(event, r),
{
    match event {
        ReaderEvent::Text(t) => ReaderAction::Dispatch(t),
        ReaderEvent::Binary(b) => match crate::adt::utf8_string(b) {
            Ok(text) => ReaderAction::Dispatch(text),
            Err(_) => ReaderAction::Ignore,
        },
        ReaderEvent::Close => ReaderAction::FailAll("remote endpoint closed the websocket".to_owned()),
        ReaderEvent::Other => ReaderAction::Ignore,
        ReaderEvent::Failure(m) => ReaderAction::FailAll(crate::text::concat("reader failure: ", m.as_str())),
        ReaderEvent::End => ReaderAction::FailAll("reader terminated without close frame".to_owned()),
    }
}

/// How the writer task failed.
#[derive(Clone, Copy, Debug, PartialEq, Eq, Structural)]
pub enum WriterFailure {
    /// A frame could not be sent.
    Send,
    /// The connection could not be closed.
    Close,
}

/// The reason that waiting requests are failed with when the writer fails.
pub open spec fn spec_writer_failure_reason(f: WriterFailure) -> Seq<char> {
    match f {
        WriterFailure::Send => "writer failed to send frame"@,
        WriterFailure::Close => "writer failed to close connection"@,
    }
}

/// The reason that waiting requests are failed with when the writer fails.
pub fn writer_failure_reason(f: WriterFailure) -> (r: String)
    ensures
        r@ == spec_writer_failure_reason(f),
{
    match f {
        WriterFailure::Send => "writer failed to send frame".to_owned(),
        WriterFailure::Close => "writer failed to close connection".to_owned(),
    }
}

/// The error that a request fails with when the connection closes.
pub open spec fn is_closed_with(e: NeuroWsClientError, reason: Seq<char>) -> bool {
    e matches NeuroWsClientError::ConnectionClosed { reason: r } && r@ == reason
}

/// Takes every waiter out of the table, each paired with the error that
/// tells it the connection closed for `reason`.
pub fn fail_pending<W>(table: &mut PendingTable<W>, reason: &str) -> (r: Vec<(W, NeuroWsClientError)>)
    requires
        old(table).well_formed(),
    ensures
        final(table).well_formed(),
        final(table).waiting() == Map::<Seq<char>, W>::empty(),
        r@.len() == old(table).waiters().len(),
        forall|i: int|
            0 <= i < r@.len() ==> (#[trigger] r@[i]).0 == old(table).waiters()[i] && is_closed_with(
                r@[i].1,
                reason@,
            ),
        forall|k: Seq<char>| #[trigger] old(table).waiting().dom().contains(k) ==> exists|i: int|
            0 <= i < r@.len() && (#[trigger] r@[i]).0 == old(table).waiting()[k] && is_closed_with(r@[i].1, reason@),
{
    proof {
        table.lemma_waiters();
    }
    let ghost before_waiting = table.waiting();
    let ghost before_waiters = table.waiters();
    let waiters = table.drain();
    let mut out: Vec<(W, NeuroWsClientError)> = Vec::new();
    let ghost all = waiters@;
    let mut rest = waiters;
    while rest.len() > 0
        invariant
            all.len() == out@.len() + rest@.len(),
            rest@ == all.skip(out@.len() as int),
            forall|k: int|
                0 <= k < out@.len() ==> (#[trigger] out@[k]).0 == all[k] && is_closed_with(
                    out@[k].1,
                    reason@,
                ),
        decreases rest@.len(),
    {
        let ghost n: int = out@.len() as int;
        let waiter = rest.remove(0);
        assert(waiter == all[n]);
        out.push(
            (waiter, NeuroWsClientError::ConnectionClosed { reason: crate::text::owned(reason) }),
        );
        assert(rest@ =~= all.skip(n + 1));
    }
    proof {
        assert forall|k: Seq<char>| #[trigger] before_waiting.dom().contains(k) implies exists|i: int|
            0 <= i < out@.len() && (#[trigger] out@[i]).0 == before_waiting[k] && is_closed_with(out@[i].1, reason@) by {
            let i = choose|i: int| 0 <= i < before_waiters.len() && before_waiters[i] == before_waiting[k];
            assert(out@[i].0 == all[i]);
        }
    }
    out
}

/// How the wait for a reply ended.
#[derive(Debug)]
pub enum WaitOutcome<T> {
    /// The reader answered: the reply, or the error the connection failed
    /// with.
    Answered(Result<T, NeuroWsClientError>),
    /// The answering side went away without a word.
    Dropped,
    /// No answer came in time.
    TimedOut,
}

/// The result of a request whose wait ended with `outcome`, and whether
/// its entry must still be taken out of the table (after a timeout, when
/// nobody else will).
pub fn settle_request<T>(outcome: WaitOutcome<T>, timeout_secs: u64) -> (r: (
    Result<T, NeuroWsClientError>,
    bool,
))
    ensures
        match outcome {
            WaitOutcome::Answered(a) => r.0 == a && !r.1,
            WaitOutcome::Dropped => r.0 matches Err(NeuroWsClientError::ResponseChannelDropped)
                && !r.1,
            WaitOutcome::TimedOut => r.0 matches Err(NeuroWsClientError::Timeout { timeout_secs: t })
                && t == timeout_secs && r.1,
        },
{
    match outcome {
        WaitOutcome::Answered(a) => (a, false),
        WaitOutcome::Dropped => (Err(NeuroWsClientError::ResponseChannelDropped), false),
        WaitOutcome::TimedOut => (Err(NeuroWsClientError::Timeout { timeout_secs }), true),
    }
}

/// The error of a request that could not be handed to the writer.
pub fn outbound_closed() -> (r: NeuroWsClientError)
    ensures
        is_closed_with(r, "outbound channel is closed"@),
{
    NeuroWsClientError::ConnectionClosed { reason: "outbound channel is closed".to_owned() }
}

/// A fresh request id (`uuid::Uuid::new_v4`, hyphenated). Nothing is
/// claimed of it: it is random.
#[verifier::external_body]
fn new_request_id() -> (r: String) {
    uuid::Uuid::new_v4().to_string()
}

/// A request on the channel: a fresh id, the domain, action and payload,
/// neither outcome nor error set.
pub fn prepare_request<T>(domain: &str, action: &str, payload: T) -> (r: crate::types::WsMessageEnvelope<T>)
    ensures
        r.domain@ == domain@,
        r.action@ == action@,
        r.payload == payload,
        r.ok is None,
        r.error is None,
{
    crate::types::WsMessageEnvelope {
        id: new_request_id(),
        domain: crate::text::owned(domain),
        action: crate::text::owned(action),
        payload,
        ok: None,
        error: None,
    }
}

/// The error message that `http::HeaderName::from_bytes` gives for a
/// header name, `None` when the name is valid.
pub uninterp spec fn header_name_error(name: Seq<char>) -> Option<Seq<char>>;

/// The error message that `http::HeaderValue::from_str` gives for a
/// header value, `None` when the value is valid.
pub uninterp spec fn header_value_error(value: Seq<char>) -> Option<Seq<char>>;

/// Checks a header name with `HeaderName::from_bytes` over its UTF-8
/// bytes. Claimed: the outcome depends on the name alone.
#[verifier::external_body]
fn check_header_name(name: &str) -> (r: Option<String>)
    ensures
        crate::xml::opt_text(r) == header_name_error(name@),
{
    http::header::HeaderName::from_bytes(name.as_bytes()).err().map(|error| error.to_string())
}

/// Checks a header value with `HeaderValue::from_str`. Claimed: the
/// outcome depends on the value alone.
#[verifier::external_body]
fn check_header_value(value: &str) -> (r: Option<String>)
    ensures
        crate::xml::opt_text(r) == header_value_error(value@),
{
    http::header::HeaderValue::from_str(value).err().map(|error| error.to_string())
}

/// The first connect header, in order, whose name or value is refused,
/// with the refusal; the name is checked before the value.
pub open spec fn first_bad_header(headers: Seq<(Seq<char>, Seq<char>)>) -> Option<(Seq<char>, Seq<char>)>
    decreases headers.len(),
{
    if headers.len() == 0 {
        None
    } else {
        match header_name_error(headers[0].0) {
            Some(m) => Some((headers[0].0, m)),
            None => match header_value_error(headers[0].1) {
                Some(m) => Some((headers[0].0, m)),
                None => first_bad_header(headers.drop_first()),
            },
        }
    }
}

/// Checks the connect headers, in order: the first name or value that is
/// refused fails the connection, naming the header.
pub fn check_connect_headers(headers: &Vec<(String, String)>) -> (r: Result<(), NeuroWsClientError>)
    ensures
        match first_bad_header(headers@.map_values(|h: (String, String)| (h.0@, h.1@))) {
            None => r is Ok,
            Some((name, message)) => r matches Err(NeuroWsClientError::InvalidHeader { name: n, message: m })
                && n@ == name && m@ == message,
        },
{
    let ghost all = headers@.map_values(|h: (String, String)| (h.0@, h.1@));
    let mut i: usize = 0;
    assert(all.skip(0) =~= all);
    while i < headers.len()
        invariant
            i <= headers@.len(),
            all == headers@.map_values(|h: (String, String)| (h.0@, h.1@)),
            first_bad_header(all) == first_bad_header(all.skip(i as int)),
        decreases headers@.len() - i,
    {
        assert(all.skip(i as int).drop_first() =~= all.skip(i + 1));
        assert(all.skip(i as int)[0] == all[i as int]);
        let (name, value) = &headers[i];
        match check_header_name(name.as_str()) {
            Some(message) => {
                return Err(NeuroWsClientError::InvalidHeader { name: name.clone(), message });
            },
            None => {},
        }
        match check_header_value(value.as_str()) {
            Some(message) => {
                return Err(NeuroWsClientError::InvalidHeader { name: name.clone(), message });
            },
            None => {},
        }
        i += 1;
    }
    Ok(())
}

} // verus!
