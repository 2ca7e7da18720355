//! Guest GUI sessions in native mode.
//!
//! A GUI program runs on a guest thread of its own. Two kinds of events
//! feed it: IDE events (clicks, keys), sent with `GuestHandle::send_event`,
//! whose caller waits for the render the event produces; and platform
//! events from timer, animation-frame and game-loop threads, whose renders
//! the guest pushes to a separate channel that the IDE polls with
//! `PushReceiver::poll`. Keeping the two apart means an IDE event always
//! gets its own render back and no platform render is lost or misrouted.
//!
//! This module holds the channel ends and the decisions around them: what a
//! caller gets back, which render a poll keeps, what the guest does after
//! each event, how timers are registered and cancelled, and the tables that
//! map script-visible ids to running guests. Threads, timers and the VM
//! itself are driven from outside.

use vstd::prelude::*;
use vstd::utf8::encode_utf8;
use std::collections::HashMap;
use std::sync::mpsc::{Receiver, Sender};
use std::sync::Mutex;

use crate::handles::{HandleTable, emptied, entry, first_free, slot_index, stored};
use crate::text::{push_int, sdec};
use crate::wire::extend_bytes;

verus! {

// =============================================================================
// Channels
// =============================================================================

#[verifier::external_type_specification]
#[verifier::external_body]
#[verifier::reject_recursive_types(T)]
pub struct ExSender<T>(std::sync::mpsc::Sender<T>);

#[verifier::external_type_specification]
#[verifier::external_body]
#[verifier::reject_recursive_types(T)]
pub struct ExReceiver<T>(std::sync::mpsc::Receiver<T>);

#[verifier::external_type_specification]
#[verifier::external_body]
#[verifier::reject_recursive_types(T)]
pub struct ExMutex<T: ?Sized>(std::sync::Mutex<T>);

/// The sending end of a channel, with a log of every value handed to it.
#[verifier::reject_recursive_types(T)]
pub struct LoggedSender<T> {
    tx: Sender<T>,
    handed: Ghost<Seq<(T, bool)>>,
}

impl<T> LoggedSender<T> {
    /// The channel that values are sent on.
    pub closed spec fn channel(&self) -> Sender<T> {
        self.tx
    }

    /// Every value handed to the channel, oldest first, each with whether
    /// the channel reported it delivered.
    pub closed spec fn log(&self) -> Seq<(T, bool)> {
        self.handed@
    }

    /// A logged sender over `tx` that has sent nothing yet.
    pub closed spec fn fresh(tx: Sender<T>) -> Self {
        LoggedSender { tx, handed: Ghost(Seq::empty()) }
    }

    /// A logged sender over `tx` that has sent nothing yet.
    pub fn new(tx: Sender<T>) -> (s: Self)
        ensures
            s == Self::fresh(tx),
            s.channel() == tx,
            s.log() == Seq::<(T, bool)>::empty(),
    {
        LoggedSender { tx, handed: Ghost(Seq::empty()) }
    }
}

/// Hands `value` to `s`'s channel and records it in `s`'s log, with
/// whether it was delivered.
///
/// Calls `Sender::send`, which never blocks and fails, by returning an
/// error rather than by panicking, only when the receiving end has been
/// dropped. The contract claims that the value was handed to the channel
/// and that `sent` is what the call reported; whether the receiving end is
/// still there is not known here, so nothing is claimed of `sent` itself.
#[verifier::external_body]
fn send_logged<T>(s: &mut LoggedSender<T>, value: T) -> (sent: bool)
    ensures
        final(s).channel() == old(s).channel(),
        final(s).log() == old(s).log().push((value, sent)),
    opens_invariants none
    no_unwind
{
    s.tx.send(value).is_ok()
}

/// The receiving end of a channel, with a log of every result of waiting
/// on it.
#[verifier::reject_recursive_types(T)]
pub struct LoggedReceiver<T> {
    rx: Receiver<T>,
    got: Ghost<Seq<Option<T>>>,
}

impl<T> LoggedReceiver<T> {
    /// The channel that values are received from.
    pub closed spec fn channel(&self) -> Receiver<T> {
        self.rx
    }

    /// What each wait on the channel gave, oldest first: the value that
    /// arrived, or `None` when every sender was gone.
    pub closed spec fn log(&self) -> Seq<Option<T>> {
        self.got@
    }

    /// A logged receiver over `rx` that has received nothing yet.
    pub fn new(rx: Receiver<T>) -> (r: Self)
        ensures
            r.channel() == rx,
            r.log() == Seq::<Option<T>>::empty(),
    {
        LoggedReceiver { rx, got: Ghost(Seq::empty()) }
    }
}

/// Waits for the next value on `r`'s channel and records what the wait
/// gave in `r`'s log: the value, or `None` once every sender is gone.
///
/// Calls `Receiver::recv`, which blocks until a value arrives or every
/// sender has been dropped, and then returns an error rather than
/// panicking. The contract claims that the value returned is the one
/// recorded; what arrives depends on the other thread, so nothing more is
/// claimed of it.
#[verifier::external_body]
fn recv_logged<T>(r: &mut LoggedReceiver<T>) -> (v: Option<T>)
    ensures
        final(r).channel() == old(r).channel(),
        final(r).log() == old(r).log().push(v),
{
    r.rx.recv().ok()
}

/// A lock around `value`.
///
/// Calls `Mutex::new`. The lock is opaque here, so nothing is claimed.
#[verifier::external_body]
fn new_lock<T>(value: T) -> Mutex<T> {
    Mutex::new(value)
}

/// Takes every value already waiting on the receiver behind `rx`, oldest
/// first, without blocking.
///
/// Calls `Receiver::try_iter` on the receiver, reached by locking `rx` for
/// the length of the call (a lock poisoned by a panicking holder is taken
/// over rather than propagated), and collects what it yields. The lock is
/// released before returning and no other code in this crate locks it, so
/// the lock is never taken twice by one thread. What is waiting depends on
/// other threads, so nothing is claimed of it.
#[verifier::external_body]
fn take_waiting<T>(rx: &Mutex<Receiver<T>>) -> (values: Vec<T>) {
    let guard = match rx.lock() {
        Ok(guard) => guard,
        Err(poisoned) => poisoned.into_inner(),
    };
    guard.try_iter().collect()
}

// =============================================================================
// Events
// =============================================================================

/// Handler id of timer events (timeouts and intervals).
pub const EVENT_ID_TIMER: i32 = -1;

/// Handler id of animation-frame events.
pub const EVENT_ID_ANIM_FRAME: i32 = -4;

/// Handler id of game-loop events.
pub const EVENT_ID_GAME_LOOP: i32 = -5;

/// What the guest thread receives.
pub enum GuestEvent {
    /// From the IDE; the guest must reply with the render it produces.
    Ide { handler_id: i32, payload: String },
    /// From a timer or game-loop thread; a render goes to the push channel.
    Platform { handler_id: i32, payload: String },
    /// The guest thread should end.
    Shutdown,
}

// =============================================================================
// The IDE side
// =============================================================================

/// The handle that the IDE holds for a running guest.
pub struct GuestHandle {
    event_tx: LoggedSender<GuestEvent>,
    render_rx: LoggedReceiver<Result<Vec<u8>, String>>,
}

/// The error of an event that could not be delivered or answered.
pub open spec fn stopped_message() -> Seq<char> {
    "guest VM stopped"@
}

/// The prefix of the error of an event the guest failed to handle.
pub open spec fn event_failed_prefix() -> Seq<char> {
    "guest event failed: "@
}

/// What `send_event` returns for the guest's reply: the render, the
/// guest's error after `event_failed_prefix`, or `stopped_message` when no
/// reply came.
pub open spec fn ide_outcome_text(reply: Option<Result<Vec<u8>, String>>) -> Result<Seq<u8>, Seq<char>> {
    match reply {
        None => Err(stopped_message()),
        Some(Ok(bytes)) => Ok(bytes@),
        Some(Err(e)) => Err(event_failed_prefix() + e@),
    }
}

/// Turns the guest's reply to an IDE event into the caller's result.
pub fn ide_outcome(reply: Option<Result<Vec<u8>, String>>) -> (r: Result<Vec<u8>, String>)
    ensures
        match (r, ide_outcome_text(reply)) {
            (Ok(b), Ok(t)) => b@ == t,
            (Err(e), Err(t)) => e@ == t,
            _ => false,
        },
{
    match reply {
        None => Err(String::from_str("guest VM stopped")),
        Some(Ok(bytes)) => Ok(bytes),
        Some(Err(e)) => {
            let mut msg = String::from_str("guest event failed: ");
            msg.append(e.as_str());
            Err(msg)
        },
    }
}

/// Whether `e` is the IDE event of handler `handler_id` with `payload`.
pub open spec fn is_ide_event(e: GuestEvent, handler_id: i32, payload: Seq<char>) -> bool {
    e matches GuestEvent::Ide { handler_id: h, payload: p } && h == handler_id && p@ == payload
}

/// `after` is the log `before` with one more event handed to the channel.
pub open spec fn handed_one(before: Seq<(GuestEvent, bool)>, after: Seq<(GuestEvent, bool)>) -> bool {
    after.len() == before.len() + 1 && after.drop_last() == before
}

/// `r` is what `ide_outcome` makes of `reply`.
pub open spec fn is_outcome(r: Result<Vec<u8>, String>, reply: Option<Result<Vec<u8>, String>>) -> bool {
    match (r, ide_outcome_text(reply)) {
        (Ok(b), Ok(t)) => b@ == t,
        (Err(e), Err(t)) => e@ == t,
        _ => false,
    }
}

/// `after` is the handle `before` once `send_event(handler_id, payload)`
/// has returned `r`: the same channels, the IDE event handed to the guest;
/// when it could not be delivered, `stopped_message` and no wait for a
/// reply; otherwise exactly one wait, and `r` is what `ide_outcome` makes
/// of the reply it gave.
pub open spec fn sent_ide_event(
    before: GuestHandle,
    after: GuestHandle,
    handler_id: i32,
    payload: Seq<char>,
    r: Result<Vec<u8>, String>,
) -> bool {
    &&& after.events() == before.events()
    &&& after.renders() == before.renders()
    &&& handed_one(before.sent(), after.sent())
    &&& is_ide_event(after.sent().last().0, handler_id, payload)
    &&& !after.sent().last().1 ==> (r matches Err(e) && e@ == stopped_message())
        && after.replies() == before.replies()
    &&& after.sent().last().1 ==> after.replies().len() == before.replies().len() + 1
        && after.replies().drop_last() == before.replies()
        && is_outcome(r, after.replies().last())
    &&& r matches Err(e) ==> e@ == stopped_message() || event_failed_prefix().is_prefix_of(e@)
}

impl GuestHandle {
    /// The channel that events are sent to the guest on.
    pub closed spec fn events(&self) -> Sender<GuestEvent> {
        self.event_tx.channel()
    }

    /// Every event handed to the guest's channel through this handle,
    /// oldest first, each with whether the channel took it.
    pub closed spec fn sent(&self) -> Seq<(GuestEvent, bool)> {
        self.event_tx.log()
    }

    /// The channel that the guest's renders for IDE events arrive on.
    pub closed spec fn renders(&self) -> Receiver<Result<Vec<u8>, String>> {
        self.render_rx.channel()
    }

    /// What each wait for a reply through this handle gave, oldest first.
    pub closed spec fn replies(&self) -> Seq<Option<Result<Vec<u8>, String>>> {
        self.render_rx.log()
    }

    /// A handle over the two channel ends that connect the IDE to a guest.
    pub fn new(event_tx: Sender<GuestEvent>, render_rx: Receiver<Result<Vec<u8>, String>>) -> (h: Self)
        ensures
            h.events() == event_tx,
            h.renders() == render_rx,
            h.sent() == Seq::<(GuestEvent, bool)>::empty(),
            h.replies() == Seq::<Option<Result<Vec<u8>, String>>>::empty(),
    {
        GuestHandle { event_tx: LoggedSender::new(event_tx), render_rx: LoggedReceiver::new(render_rx) }
    }

    /// Sends an IDE event and waits for the render it produces.
    ///
    /// The event `Ide { handler_id, payload }` is handed to the guest. When
    /// the guest is gone and the event cannot be delivered, the result is
    /// `stopped_message`; otherwise it is what `ide_outcome` makes of the
    /// guest's reply: the render, the guest's own error after
    /// `event_failed_prefix`, or `stopped_message` when no reply came.
    pub fn send_event(&mut self, handler_id: i32, payload: &str) -> (r: Result<Vec<u8>, String>)
        ensures
            sent_ide_event(*old(self), *final(self), handler_id, payload@, r),
    {
        let event = GuestEvent::Ide { handler_id, payload: String::from_str(payload) };
        let delivered = send_logged(&mut self.event_tx, event);
        assert(self.sent().drop_last() =~= old(self).sent());
        if !delivered {
            return Err(String::from_str("guest VM stopped"));
        }
        let reply = recv_logged(&mut self.render_rx);
        let ghost received = reply;
        assert(self.replies().drop_last() =~= old(self).replies());
        assert(self.replies().last() == received);
        let r = ide_outcome(reply);
        assert(is_outcome(r, received));
        proof {
            if let Some(Err(g)) = received {
                lemma_is_prefix_of_concat(event_failed_prefix(), g@);
            }
        }
        r
    }

    /// Tells the guest thread to end: hands it `Shutdown`. Dropping the
    /// handle does the same.
    pub fn shutdown(&mut self)
        ensures
            final(self).events() == old(self).events(),
            final(self).renders() == old(self).renders(),
            final(self).replies() == old(self).replies(),
            handed_one(old(self).sent(), final(self).sent()),
            final(self).sent().last().0 is Shutdown,
        opens_invariants none
        no_unwind
    {
        let _ = send_logged(&mut self.event_tx, GuestEvent::Shutdown);
        assert(self.sent().drop_last() =~= old(self).sent());
    }
}

impl Drop for GuestHandle {
    /// A dropped handle tells its guest thread to end.
    fn drop(&mut self)
        opens_invariants none
        no_unwind
    {
        self.shutdown();
    }
}

/// `p` is a prefix of `p + s`.
pub proof fn lemma_is_prefix_of_concat(p: Seq<char>, s: Seq<char>)
    ensures
        p.is_prefix_of(p + s),
{
    assert((p + s).subrange(0, p.len() as int) =~= p);
}

/// The render that a poll keeps out of those that were waiting: the last
/// non-empty one.
pub open spec fn latest_nonempty(frames: Seq<Seq<u8>>) -> Option<Seq<u8>>
    decreases frames.len(),
{
    if frames.len() == 0 {
        None
    } else if frames.last().len() > 0 {
        Some(frames.last())
    } else {
        latest_nonempty(frames.drop_last())
    }
}

/// The contents of each buffer of `frames`.
pub open spec fn byte_views(frames: Seq<Vec<u8>>) -> Seq<Seq<u8>> {
    frames.map_values(|f: Vec<u8>| f@)
}

/// Keeps the last non-empty render of `frames`, in arrival order.
pub fn latest_render(frames: Vec<Vec<u8>>) -> (r: Option<Vec<u8>>)
    ensures
        r is None <==> latest_nonempty(byte_views(frames@)) is None,
        r matches Some(b) ==> latest_nonempty(byte_views(frames@)) == Some(b@),
{
    let ghost views = byte_views(frames@);
    let mut buffers = frames;
    let mut k = buffers.len();
    assert(views.subrange(0, k as int) =~= views);
    while k > 0
        invariant
            k <= buffers@.len(),
            byte_views(buffers@) == views,
            views == byte_views(frames@),
            latest_nonempty(views) == latest_nonempty(views.subrange(0, k as int)),
        decreases k,
    {
        if buffers[k - 1].len() > 0 {
            assert(views[k - 1] == buffers@[k - 1]@);
            assert(views.subrange(0, k as int).last() == views[k - 1]);
            let mut found: Vec<u8> = Vec::new();
            buffers.set_and_swap(k - 1, &mut found);
            assert(found@ == views[k - 1]);
            return Some(found);
        }
        assert(views[k - 1] == buffers@[k - 1]@);
        assert(views.subrange(0, k as int).drop_last() =~= views.subrange(0, k - 1));
        k = k - 1;
    }
    None
}

/// Receiver for renders driven by the platform (game loop, timers,
/// animation frames). The channel sits behind a lock so that the receiver
/// can be shared between threads.
pub struct PushReceiver {
    rx: Mutex<Receiver<Vec<u8>>>,
}

impl PushReceiver {
    /// A receiver over the push channel's receiving end.
    pub fn new(rx: Receiver<Vec<u8>>) -> Self {
        PushReceiver { rx: new_lock(rx) }
    }

    /// Takes every waiting render and returns only the latest non-empty
    /// one; the ones before it are dropped.
    pub fn poll(&self) -> (r: Option<Vec<u8>>)
        ensures
            r matches Some(b) ==> b@.len() > 0,
    {
        let frames = take_waiting(&self.rx);
        let ghost views = byte_views(frames@);
        let r = latest_render(frames);
        proof {
            lemma_latest_nonempty_is_nonempty(views);
        }
        r
    }
}

/// The render a poll keeps is the last non-empty render among those that
/// were waiting, in arrival order: there is one exactly when some waiting
/// render is non-empty, it is one of them, and every render that arrived
/// after it is empty.
pub proof fn law_latest_is_last_nonempty(frames: Seq<Seq<u8>>)
    ensures
        latest_nonempty(frames) is None <==> (forall|k: int| 0 <= k < frames.len() ==> (#[trigger] frames[k]).len() == 0),
        latest_nonempty(frames) matches Some(b) ==> exists|k: int| 0 <= k < frames.len() && frames[k] == b && b.len() > 0
            && forall|j: int| k < j < frames.len() ==> (#[trigger] frames[j]).len() == 0,
    decreases frames.len(),
{
    if frames.len() > 0 {
        let n = frames.len() - 1;
        if frames.last().len() > 0 {
            assert(frames[n] == frames.last());
        } else {
            let rest = frames.drop_last();
            law_latest_is_last_nonempty(rest);
            assert forall|k: int| 0 <= k < rest.len() implies rest[k] == frames[k] by {}
            if let Some(b) = latest_nonempty(frames) {
                let k = choose|k: int| 0 <= k < rest.len() && rest[k] == b && b.len() > 0
                    && forall|j: int| k < j < rest.len() ==> (#[trigger] rest[j]).len() == 0;
                assert forall|j: int| k < j < frames.len() implies (#[trigger] frames[j]).len() == 0 by {
                    if j < n {
                        assert(rest[j] == frames[j]);
                    }
                }
            }
            if forall|k: int| 0 <= k < rest.len() ==> (#[trigger] rest[k]).len() == 0 {
                assert forall|k: int| 0 <= k < frames.len() implies (#[trigger] frames[k]).len() == 0 by {
                    if k < n {
                        assert(rest[k] == frames[k]);
                    }
                }
            }
        }
    }
}

/// What `latest_nonempty` keeps is non-empty.
pub proof fn lemma_latest_nonempty_is_nonempty(frames: Seq<Seq<u8>>)
    ensures
        latest_nonempty(frames) matches Some(b) ==> b.len() > 0,
    decreases frames.len(),
{
    if frames.len() > 0 && frames.last().len() == 0 {
        lemma_latest_nonempty_is_nonempty(frames.drop_last());
    }
}

// =============================================================================
// The guest thread
// =============================================================================

/// What the guest thread does after an event has been processed.
pub enum GuestAction {
    /// Reply to the waiting IDE caller with this render.
    Reply(Vec<u8>),
    /// Reply to the waiting IDE caller with this error, then end.
    ReplyErrorAndStop(String),
    /// Push this render to the platform render channel.
    Push(Vec<u8>),
    /// Nothing to deliver.
    Nothing,
    /// Report this error, then end.
    ReportAndStop(String),
}

/// Whether `a` answers the IDE caller that waits on the reply channel.
pub open spec fn replies(a: GuestAction) -> bool {
    a is Reply || a is ReplyErrorAndStop
}

/// What the guest does with the result of an IDE event: reply with the
/// render, or reply with the error and end. An IDE event is always
/// answered, so its caller gets back the render of its own event.
pub fn ide_action(result: Result<Vec<u8>, String>) -> (a: GuestAction)
    ensures
        replies(a),
        match result {
            Ok(b) => a == GuestAction::Reply(b),
            Err(e) => a == GuestAction::ReplyErrorAndStop(e),
        },
{
    match result {
        Ok(bytes) => GuestAction::Reply(bytes),
        Err(e) => GuestAction::ReplyErrorAndStop(e),
    }
}

/// What the guest does with the result of a platform event: push a
/// non-empty render, drop an empty one, or report the error and end. A
/// platform event is never answered on the reply channel, so it cannot
/// take the place of an IDE caller's render.
pub fn platform_action(result: Result<Vec<u8>, String>) -> (a: GuestAction)
    ensures
        !replies(a),
        match result {
            Ok(b) => if b@.len() > 0 { a == GuestAction::Push(b) } else { a is Nothing },
            Err(e) => a matches GuestAction::ReportAndStop(m)
                && m@ == "guest VM error on platform event: "@ + e@,
        },
{
    match result {
        Ok(bytes) => {
            if bytes.len() > 0 {
                GuestAction::Push(bytes)
            } else {
                GuestAction::Nothing
            }
        },
        Err(e) => {
            let mut msg = String::from_str("guest VM error on platform event: ");
            msg.append(e.as_str());
            GuestAction::ReportAndStop(msg)
        },
    }
}

/// Whether the guest thread ends after `a`.
pub open spec fn stops(a: GuestAction) -> bool {
    a is ReplyErrorAndStop || a is ReportAndStop
}

/// Whether the guest thread ends after `a`.
pub fn is_stop(a: &GuestAction) -> (r: bool)
    ensures
        r == stops(*a),
{
    match a {
        GuestAction::ReplyErrorAndStop(_) => true,
        GuestAction::ReportAndStop(_) => true,
        _ => false,
    }
}

/// The data a waiting main fiber is woken with: the handler id's 4
/// little-endian bytes, then the payload's UTF-8 bytes.
pub open spec fn event_data_bytes(handler_id: i32, payload: Seq<char>) -> Seq<u8> {
    crate::wire::le_u32(handler_id as u32) + encode_utf8(payload)
}

/// Builds the data a waiting main fiber is woken with.
pub fn event_data(handler_id: i32, payload: &str) -> (data: Vec<u8>)
    ensures
        data@ == event_data_bytes(handler_id, payload@),
{
    let mut data = Vec::new();
    let h = handler_id as u32;
    data.push((h & 0xff) as u8);
    data.push(((h >> 8) & 0xff) as u8);
    data.push(((h >> 16) & 0xff) as u8);
    data.push(((h >> 24) & 0xff) as u8);
    let ghost head = data@;
    extend_bytes(&mut data, payload.as_bytes());
    assert(head =~= crate::wire::le_u32(handler_id as u32));
    data
}

/// The token to wake the main fiber with: that of the first pending host
/// event, or an error when the main fiber is not waiting for events.
pub fn wake_token(pending: &Vec<u64>) -> (r: Result<u64, String>)
    ensures
        pending@.len() > 0 ==> r == Ok::<u64, String>(pending@[0]),
        pending@.len() == 0 ==> (r matches Err(e) && e@ == "Main fiber not waiting for events"@),
{
    if pending.len() > 0 {
        Ok(pending[0])
    } else {
        Err(String::from_str("Main fiber not waiting for events"))
    }
}

/// What starting a guest yields: its initial render, or why it could not
/// start. `received` is the first message from the guest thread, or the
/// text of the receive error when the thread ended without one.
pub fn initial_render(received: Result<Result<Vec<u8>, String>, String>) -> (r: Result<Vec<u8>, String>)
    ensures
        match received {
            Err(t) => r matches Err(e) && e@ == "guest thread died: "@ + t@,
            Ok(Err(t)) => r matches Err(e) && e@ == "guest init failed: "@ + t@,
            Ok(Ok(b)) => r == Ok::<Vec<u8>, String>(b),
        },
{
    match received {
        Err(t) => {
            let mut e = String::from_str("guest thread died: ");
            e.append(t.as_str());
            Err(e)
        },
        Ok(Err(t)) => {
            let mut e = String::from_str("guest init failed: ");
            e.append(t.as_str());
            Err(e)
        },
        Ok(Ok(bytes)) => Ok(bytes),
    }
}

/// The error for an extension that could not be loaded.
pub fn extension_load_error(name: &str, err: &str) -> (e: String)
    ensures
        e@ == "failed to load extension '"@ + name@ + "': "@ + err@,
{
    let mut e = String::from_str("failed to load extension '");
    e.append(name);
    e.append("': ");
    e.append(err);
    e
}

// =============================================================================
// Platform timers
// =============================================================================

/// The payload of a timer or animation-frame event: `{"Id":<id>}`.
pub open spec fn timer_payload_text(id: i32) -> Seq<char> {
    "{\"Id\":"@ + sdec(id as int) + "}"@
}

/// Builds the payload of a timer or animation-frame event.
pub fn timer_payload(id: i32) -> (s: String)
    ensures
        s@ == timer_payload_text(id),
{
    let mut s = String::from_str("{\"Id\":");
    push_int(&mut s, id as i64);
    s.append("}");
    s
}

/// The delay of a timeout of `ms` milliseconds; negative delays fire at once.
pub fn timeout_delay_ms(ms: i32) -> (d: u64)
    ensures
        d == if ms < 0 { 0 } else { ms as int },
{
    if ms < 0 {
        0
    } else {
        ms as u64
    }
}

/// The period of an interval of `ms` milliseconds; at least one millisecond.
pub fn interval_period_ms(ms: i32) -> (d: u64)
    ensures
        d == if ms < 1 { 1 } else { ms as int },
{
    if ms < 1 {
        1
    } else {
        ms as u64
    }
}

/// The delay before an animation frame fires.
pub const ANIM_FRAME_DELAY_MS: u64 = 16;

/// The game loop's target frame time (about 60 frames a second).
pub const GAME_LOOP_FRAME_MICROS: u64 = 16_667;

/// How long the game loop waits before its next frame, `elapsed_micros`
/// after the last one: the rest of the frame time, or not at all.
pub fn frame_wait_micros(elapsed_micros: u64) -> (w: Option<u64>)
    ensures
        elapsed_micros < GAME_LOOP_FRAME_MICROS ==> w == Some((GAME_LOOP_FRAME_MICROS - elapsed_micros) as u64),
        elapsed_micros >= GAME_LOOP_FRAME_MICROS ==> w is None,
{
    if elapsed_micros < GAME_LOOP_FRAME_MICROS {
        Some(GAME_LOOP_FRAME_MICROS - elapsed_micros)
    } else {
        None
    }
}

/// Per-session platform state: the channel into the guest and the cancel
/// channel of every running timer, animation frame and game loop by id.
pub struct NativeGuiPlatform {
    event_tx: Sender<GuestEvent>,
    cancels: HashMap<i32, LoggedSender<()>>,
    stopped: Ghost<Seq<(i32, LoggedSender<()>)>>,
}

/// `after` is the cancel sender `before` with one more stop signal handed
/// to its channel.
pub open spec fn signalled(before: LoggedSender<()>, after: LoggedSender<()>) -> bool {
    &&& after.channel() == before.channel()
    &&& after.log().len() == before.log().len() + 1
    &&& after.log().drop_last() == before.log()
}

impl NativeGuiPlatform {
    /// The cancel sender of each running timer, by id.
    pub closed spec fn cancel_senders(&self) -> Map<i32, LoggedSender<()>> {
        self.cancels@
    }

    /// The ids of the running timers.
    pub open spec fn timers(&self) -> Set<i32> {
        self.cancel_senders().dom()
    }

    /// The timers cancelled so far, oldest first: each id with its cancel
    /// sender as it was left after the stop signal.
    pub closed spec fn cancelled(&self) -> Seq<(i32, LoggedSender<()>)> {
        self.stopped@
    }

    /// The channel into the guest that timer events are sent on.
    pub closed spec fn sender(&self) -> Sender<GuestEvent> {
        self.event_tx
    }

    /// A platform with no running timers, sending on `event_tx`.
    pub fn new(event_tx: Sender<GuestEvent>) -> (p: Self)
        ensures
            p.cancel_senders() == Map::<i32, LoggedSender<()>>::empty(),
            p.timers() == Set::<i32>::empty(),
            p.cancelled() == Seq::<(i32, LoggedSender<()>)>::empty(),
            p.sender() == event_tx,
    {
        let cancels = HashMap::new();
        let p = NativeGuiPlatform { event_tx, cancels, stopped: Ghost(Seq::empty()) };
        assert(p.cancels@ =~= Map::<i32, LoggedSender<()>>::empty());
        p
    }

    /// The channel into the guest, for timer threads to send events on.
    pub fn event_sender(&self) -> (s: &Sender<GuestEvent>)
        ensures
            *s == self.sender(),
    {
        &self.event_tx
    }

    /// Records the cancel channel of the timer `id`. A timer already under
    /// that id loses its cancel channel, whose sender is no longer held,
    /// which stops it.
    pub fn register(&mut self, id: i32, cancel_tx: Sender<()>)
        ensures
            final(self).cancel_senders() == old(self).cancel_senders().insert(id, LoggedSender::fresh(cancel_tx)),
            final(self).timers() == old(self).timers().insert(id),
            final(self).cancelled() == old(self).cancelled(),
            final(self).sender() == old(self).sender(),
    {
        broadcast use vstd::std_specs::hash::group_hash_axioms;
        let _ = self.cancels.insert(id, LoggedSender::new(cancel_tx));
        assert(self.cancels@.dom() =~= old(self).cancels@.dom().insert(id));
    }

    /// Cancels the timer `id`: forgets it and hands a stop signal to its
    /// cancel channel. Returns whether there was such a timer.
    pub fn cancel(&mut self, id: i32) -> (found: bool)
        ensures
            found == old(self).timers().contains(id),
            final(self).cancel_senders() == old(self).cancel_senders().remove(id),
            final(self).timers() == old(self).timers().remove(id),
            found ==> {
                &&& final(self).cancelled().len() == old(self).cancelled().len() + 1
                &&& final(self).cancelled().drop_last() == old(self).cancelled()
                &&& final(self).cancelled().last().0 == id
                &&& signalled(old(self).cancel_senders()[id], final(self).cancelled().last().1)
            },
            !found ==> final(self).cancelled() == old(self).cancelled(),
            final(self).sender() == old(self).sender(),
    {
        broadcast use vstd::std_specs::hash::group_hash_axioms;
        match self.cancels.remove(&id) {
            Some(mut cancel_tx) => {
                let ghost before = cancel_tx;
                let _ = send_logged(&mut cancel_tx, ());
                assert(before == old(self).cancels@[id]);
                assert(cancel_tx.log().drop_last() =~= before.log());
                proof {
                    self.stopped@ = self.stopped@.push((id, cancel_tx));
                    assert(self.stopped@.drop_last() =~= old(self).stopped@);
                }
                assert(self.cancels@ =~= old(self).cancels@.remove(id));
                assert(self.cancels@.dom() =~= old(self).cancels@.dom().remove(id));
                true
            },
            None => {
                assert(self.cancels@ =~= old(self).cancels@.remove(id));
                assert(self.cancels@.dom() =~= old(self).cancels@.dom().remove(id));
                false
            },
        }
    }
}

/// Cancelling a timer right after registering it finds it, and leaves the
/// running timers as they were before, less that id.
pub proof fn law_cancel_after_register(timers: Set<i32>, id: i32)
    ensures
        timers.insert(id).contains(id),
        timers.insert(id).remove(id) == timers.remove(id),
{
    assert(timers.insert(id).remove(id) =~= timers.remove(id));
}

// =============================================================================
// Guest and module tables
// =============================================================================

/// Keeps a running guest's handle and returns its id.
pub fn store_guest_handle(handles: &mut HandleTable<GuestHandle>, handle: GuestHandle) -> (id: i64)
    ensures
        id == first_free(old(handles).slots()) as i64,
        slot_index(id) == first_free(old(handles).slots()),
        final(handles).slots() == stored(old(handles).slots(), handle),
        final(handles).lookup(id) == Some(handle),
        old(handles).lookup(id) is None,
        forall|other: i64| slot_index(other) != slot_index(id)
            ==> #[trigger] final(handles).lookup(other) == old(handles).lookup(other),
{
    handles.store(handle)
}

/// Runs `f` on the guest handle under `id`, if there is one, and returns
/// its result; the handle, as `f` left it, stays under `id`.
pub fn with_guest_handle<F, R>(handles: &mut HandleTable<GuestHandle>, id: i64, f: F) -> (r: Option<R>)
    where
        F: FnOnce(&mut GuestHandle) -> R,
    requires
        forall|h: &mut GuestHandle| f.requires((h,)),
    ensures
        r is Some <==> old(handles).lookup(id) is Some,
        final(handles).lookup(id) is Some <==> old(handles).lookup(id) is Some,
        final(handles).slots().len() == old(handles).slots().len(),
        forall|j: int| 0 <= j < old(handles).slots().len() && j != slot_index(id)
            ==> final(handles).slots()[j] == old(handles).slots()[j],
        old(handles).lookup(id) is None ==> final(handles).slots() == old(handles).slots(),
        old(handles).lookup(id) matches Some(v) ==> r matches Some(res) && final(handles).lookup(id) matches Some(w)
            && exists|x: &mut GuestHandle| *x == v && #[trigger] f.ensures((x,), res) && *final(x) == w,
{
    handles.with_entry(id, f)
}

/// Removes and returns the guest handle under `id`.
pub fn take_guest_handle(handles: &mut HandleTable<GuestHandle>, id: i64) -> (r: Option<GuestHandle>)
    ensures
        r == old(handles).lookup(id),
        final(handles).slots() == emptied(old(handles).slots(), id),
{
    handles.take(id)
}

/// Which guest, if any, runs each module: entry `m` is the guest id of
/// module `m`.
pub struct ModuleGuests {
    map: Vec<Option<i64>>,
}

/// The entries after recording `guest_id` for `module_id`: the table is
/// first extended with empty entries up to that module.
pub open spec fn with_guest(map: Seq<Option<i64>>, module_id: i64, guest_id: i64) -> Seq<Option<i64>> {
    let idx = slot_index(module_id);
    let grown = if idx < map.len() { map } else { map + Seq::new((idx + 1 - map.len()) as nat, |_i: int| None) };
    grown.update(idx, Some(guest_id))
}

impl ModuleGuests {
    /// The entries in module order.
    pub closed spec fn entries(&self) -> Seq<Option<i64>> {
        self.map@
    }

    /// The guest recorded for `module_id`.
    pub open spec fn guest_of(&self, module_id: i64) -> Option<i64> {
        entry(self.entries(), module_id)
    }

    /// A table with no guests.
    pub fn new() -> (m: Self)
        ensures
            m.entries() == Seq::<Option<i64>>::empty(),
    {
        ModuleGuests { map: Vec::new() }
    }
}

/// Records that `guest_id` runs module `module_id`.
pub fn set_module_guest(map: &mut ModuleGuests, module_id: i64, guest_id: i64)
    requires
        (module_id as usize) < usize::MAX,
    ensures
        final(map).entries() == with_guest(old(map).entries(), module_id, guest_id),
{
    let idx = module_id as usize;
    let ghost m0 = map.map@;
    if idx < map.map.len() {
        map.map.set(idx, Some(guest_id));
        assert(map.map@ =~= with_guest(m0, module_id, guest_id));
        return;
    }
    while map.map.len() <= idx
        invariant
            idx < usize::MAX,
            idx == slot_index(module_id),
            m0.len() <= map.map@.len() <= idx + 1,
            map.map@.subrange(0, m0.len() as int) == m0,
            forall|j: int| m0.len() <= j < map.map@.len() ==> map.map@[j] is None,
        decreases idx + 1 - map.map@.len(),
    {
        map.map.push(None);
    }
    map.map.set(idx, Some(guest_id));
    assert(map.map@ =~= with_guest(m0, module_id, guest_id));
}

/// The guest that runs module `module_id`, if any.
pub fn get_module_guest(map: &ModuleGuests, module_id: i64) -> (r: Option<i64>)
    ensures
        r == map.guest_of(module_id),
{
    let idx = module_id as usize;
    if idx < map.map.len() {
        map.map[idx]
    } else {
        None
    }
}

/// Forgets which guest runs module `module_id`.
pub fn clear_module_guest(map: &mut ModuleGuests, module_id: i64)
    ensures
        final(map).entries() == emptied(old(map).entries(), module_id),
{
    let idx = module_id as usize;
    if idx < map.map.len() {
        map.map.set(idx, None);
    }
}

/// After recording a module's guest, the module's lookup gives that guest,
/// and every other module keeps its guest.
pub proof fn law_guest_after_set(map: Seq<Option<i64>>, module_id: i64, guest_id: i64, other: i64)
    requires
        slot_index(other) != slot_index(module_id),
    ensures
        entry(with_guest(map, module_id, guest_id), module_id) == Some(guest_id),
        entry(with_guest(map, module_id, guest_id), other) == entry(map, other),
{
}

/// After forgetting a module's guest, the module has none.
pub proof fn law_no_guest_after_clear(map: Seq<Option<i64>>, module_id: i64)
    ensures
        entry(emptied(map, module_id), module_id) is None,
{
}

} // verus!
