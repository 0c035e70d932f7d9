//! What holds of the transport as a whole.

use vstd::prelude::*;
use crate::command::SpawnFailure;
use crate::environment::{
    assignments_come_last, child_variable, first_of, is_safe_name, last_of, Host, Platform,
};
use crate::error::ErrorView;
use crate::exchange::{ExchangeActionView, ExchangeEventView, ExchangeView, Pending, ReplyView};
use crate::json::json_document;
use crate::message::{
    frame_of, message_of, named_version, progress_token, request_key, FrameView, MessageView,
    NotificationView, RequestIdView, RequestView, ResponseView,
};
use crate::startup::{
    init_params_text, ActionView, Connection, EventView, ProfileView, RejectionView, StartupView,
};
use crate::text::{is_line, lemma_decimal_injective, single_line};
use crate::transport::{
    count_after, count_key, id_number, DeliveryView, ReadEventView, ReadOutcomeView, TransportView,
};
use crate::version::{best_mutual, best_version, lemma_best_version_exists, mutual};

verus! {

// Request ids

/// The count that the n-th request of a new transport has, counted from zero.
pub open spec fn nth_count(n: nat) -> u64
    decreases n,
{
    if n == 0 {
        1
    } else {
        count_after(nth_count((n - 1) as nat))
    }
}

/// The requests of a transport are numbered from one, without a gap.
pub proof fn law_ids_count_up(n: nat)
    requires
        n < i64::MAX,
    ensures
        id_number(nth_count(n)) == n + 1,
    decreases n,
{
    if n > 0 {
        law_ids_count_up((n - 1) as nat);
    }
}

/// Something that happens to a transport.
pub enum Deed {
    /// An id is taken.
    Numbered,
    /// A request is opened.
    Opened,
    /// A request is closed.
    Ended(Seq<char>),
    /// A request makes a step.
    Requested { exchange: ExchangeView, event: ExchangeEventView },
    /// Something is read from the peer.
    Read(ReadEventView),
    /// A token is registered.
    Registered(Seq<char>),
    /// What was kept for a token is taken.
    Taken(Seq<char>),
    /// The start of a backend makes a step.
    Started { phase: StartupView, told: EventView, profile: ProfileView },
    /// The transport is asked whether it is connected, with the process ended or
    /// not.
    Asked(bool),
    /// The transport is closed.
    Closed,
}

/// The transport after something happened to it.
pub open spec fn after_deed(t: TransportView, deed: Deed) -> TransportView {
    match deed {
        Deed::Numbered => TransportView { next: count_after(t.next), ..t },
        Deed::Opened => t.after_begin(),
        Deed::Ended(key) => t.after_end(key),
        Deed::Requested { exchange, event } => (Pending { transport: t, exchange }).step(
            event,
        ).0.transport,
        Deed::Read(event) => t.after_read(event),
        Deed::Registered(token) => t.after_register(token),
        Deed::Taken(token) => t.after_take(token),
        Deed::Started { phase, told, profile } => (Connection { transport: t, phase }).step(
            told,
            profile,
        ).0.transport,
        Deed::Asked(ended) => TransportView { connected: t.connected && !ended, ..t },
        Deed::Closed => t.closed(),
    }
}

/// Whether it takes an id.
pub open spec fn takes_id(deed: Deed) -> bool {
    match deed {
        Deed::Numbered => true,
        Deed::Opened => true,
        Deed::Requested { exchange, event } => exchange is New && event is Send,
        _ => false,
    }
}

/// The transport after a number of things happened to it.
pub open spec fn after_deeds(t: TransportView, deeds: Seq<Deed>) -> TransportView
    decreases deeds.len(),
{
    if deeds.len() == 0 {
        t
    } else {
        after_deed(after_deeds(t, deeds.drop_last()), deeds.last())
    }
}

/// How many ids were taken.
pub open spec fn ids_taken(deeds: Seq<Deed>) -> nat
    decreases deeds.len(),
{
    if deeds.len() == 0 {
        0
    } else {
        ids_taken(deeds.drop_last()) + if takes_id(deeds.last()) {
            1nat
        } else {
            0nat
        }
    }
}

/// What happens to a transport moves the counter by one where it takes an id, and
/// else not at all. Nobody begins to wait but under the key of that id.
pub proof fn law_deed_is_confined(t: TransportView, deed: Deed)
    ensures
        after_deed(t, deed).next == if takes_id(deed) {
            count_after(t.next)
        } else {
            t.next
        },
        forall|key: Seq<char>| #[trigger]
            after_deed(t, deed).waiting.contains_key(key) ==> if t.waiting.contains_key(key) {
                after_deed(t, deed).waiting[key] == t.waiting[key] || key == count_key(t.next)
            } else {
                takes_id(deed) && key == count_key(t.next)
            },
{
    match deed {
        Deed::Read(ReadEventView::Line(line)) => law_line_is_confined(t, line),
        _ => {},
    }
}

/// What a transport was made with stays as it is, whatever happens to it: the
/// command, the variables, the working directory and the time that a request has.
pub proof fn law_configuration_is_fixed(t: TransportView, deeds: Seq<Deed>)
    ensures
        after_deeds(t, deeds).command == t.command,
        after_deeds(t, deeds).env == t.env,
        after_deeds(t, deeds).cwd == t.cwd,
        after_deeds(t, deeds).request_timeout == t.request_timeout,
    decreases deeds.len(),
{
    if deeds.len() > 0 {
        law_configuration_is_fixed(t, deeds.drop_last());
    }
}

/// The ids of a new transport are handed out from one on, without a gap, whatever
/// else happens to it in between: after so many ids, the next one is the number
/// that follows.
pub proof fn law_next_id_follows_the_ids_taken(t: TransportView, deeds: Seq<Deed>)
    requires
        t.next == 1,
    ensures
        after_deeds(t, deeds).next == nth_count(ids_taken(deeds)),
        ids_taken(deeds) < i64::MAX ==> id_number(after_deeds(t, deeds).next) == ids_taken(deeds)
            + 1,
    decreases deeds.len(),
{
    if deeds.len() > 0 {
        let before = deeds.drop_last();
        law_next_id_follows_the_ids_taken(t, before);
        law_deed_is_confined(after_deeds(t, before), deeds.last());
    }
    if ids_taken(deeds) < i64::MAX {
        law_ids_count_up(ids_taken(deeds));
    }
}

/// Two requests with different counts wait under different keys.
pub proof fn law_keys_are_distinct(a: u64, b: u64)
    requires
        a != b,
    ensures
        count_key(a) != count_key(b),
{
    if count_key(a) == count_key(b) {
        lemma_decimal_injective(id_number(a), id_number(b));
    }
}

// Answers

/// Every caller waits under the key of its own request.
pub open spec fn well_keyed(t: TransportView) -> bool {
    forall|key: Seq<char>| #[trigger]
        t.waiting.contains_key(key) ==> key == count_key(t.waiting[key])
}

/// The answer to a request reaches the caller that opened it, who then waits no
/// more.
pub proof fn law_answer_reaches_its_caller(t: TransportView, response: ResponseView)
    requires
        response.id == Some(RequestIdView::Number(id_number(t.next))),
    ensures
        t.after_begin().delivery(response) == Some(DeliveryView { caller: t.next, response }),
        !t.after_begin().after_response(response).waiting.contains_key(count_key(t.next)),
{
}

/// An answer with a numeric id reaches the caller of that number and nobody
/// else.
pub proof fn law_answer_reaches_nobody_else(
    t: TransportView,
    response: ResponseView,
    n: int,
    delivery: DeliveryView,
)
    requires
        well_keyed(t),
        response.id == Some(RequestIdView::Number(n)),
        t.delivery(response) == Some(delivery),
    ensures
        n == id_number(delivery.caller),
        delivery.response == response,
{
    assert(t.waiting.contains_key(request_key(RequestIdView::Number(n))));
    lemma_decimal_injective(n, id_number(delivery.caller));
}

/// An answer leaves every caller waiting that waits under another key.
pub proof fn law_answer_leaves_others_waiting(
    t: TransportView,
    response: ResponseView,
    key: Seq<char>,
)
    requires
        t.waiting.contains_key(key),
        response.id matches Some(id) ==> request_key(id) != key,
    ensures
        t.after_response(response).waiting.contains_key(key),
        t.after_response(response).waiting[key] == t.waiting[key],
{
}

/// The same answer is delivered once at most.
pub proof fn law_answer_is_delivered_once(t: TransportView, response: ResponseView)
    ensures
        t.after_response(response).delivery(response) is None,
{
}

/// A frame that carries `method` is never taken for an answer.
pub proof fn law_frame_with_method_is_no_answer(frame: FrameView)
    requires
        frame.method is Some,
    ensures
        !(message_of(frame) matches Some(MessageView::Response(_))),
{
}

/// A request of the peer is refused, whatever its id, and no caller is
/// disturbed.
pub proof fn law_request_is_refused(t: TransportView, request: RequestView)
    ensures
        t.after_message(MessageView::Request(request)) == t,
        t.message_outcome(MessageView::Request(request)) matches Err(ErrorView::Protocol(_)),
{
}

/// Whatever happens to a transport keeps every caller under the key of its own
/// request.
pub proof fn law_callers_stay_well_keyed(t: TransportView, deed: Deed)
    requires
        well_keyed(t),
    ensures
        well_keyed(after_deed(t, deed)),
{
    match deed {
        Deed::Read(ReadEventView::Line(line)) => law_line_is_confined(t, line),
        _ => {},
    }
}

/// A request that is opened and then closed leaves nobody waiting who did not
/// wait before, however it ended.
pub proof fn law_closed_request_leaves_no_trace(t: TransportView)
    requires
        !t.waiting.contains_key(count_key(t.next)),
    ensures
        t.after_begin().after_end(count_key(t.next)).waiting == t.waiting,
{
}

/// A request that is written and answered under its id returns that answer to
/// its caller, and leaves nobody waiting who did not wait before.
pub proof fn law_request_gets_its_answer(
    p: Pending,
    method: Seq<char>,
    params: Option<Seq<char>>,
    response: ResponseView,
)
    requires
        p.exchange == (ExchangeView::New { method, params }),
        p.transport.writer_open,
        !p.transport.waiting.contains_key(count_key(p.transport.next)),
        response.id == Some(RequestIdView::Number(id_number(p.transport.next))),
    ensures
        ({
            let caller = p.transport.next;
            let answer = MessageView::Response(response);
            let sent = p.step(ExchangeEventView::Send);
            let waiting = sent.0.step(ExchangeEventView::Written);
            let answered = Pending {
                transport: waiting.0.transport.after_message(answer),
                ..waiting.0
            };
            let done = answered.step(ExchangeEventView::Replied(ReplyView::Answered(response)));
            &&& sent.1 matches ExchangeActionView::Write { caller: c, .. } && c == caller
            &&& waiting.1 == (ExchangeActionView::Wait {
                caller,
                timeout: p.transport.request_timeout,
            })
            &&& waiting.0.transport.message_outcome(answer) == Ok::<_, ErrorView>(
                Some(DeliveryView { caller, response }),
            )
            &&& done.1 == ExchangeActionView::Return(Ok(response))
            &&& done.0.transport.waiting == p.transport.waiting
        }),
{
    let sent = p.step(ExchangeEventView::Send).0;
    let key = count_key(p.transport.next);
    assert(sent.transport.waiting.remove(key) == p.transport.waiting);
    assert(p.transport.waiting.remove(key) == p.transport.waiting);
}

/// The message that a line is, if it is one.
pub open spec fn message_in(line: Seq<char>) -> Option<MessageView> {
    match json_document(line) {
        Some(d) => message_of(frame_of(d.node)),
        None => None,
    }
}

/// A line is an answer to the request of a key.
pub open spec fn is_answer_to(line: Seq<char>, key: Seq<char>) -> bool {
    match message_in(line) {
        Some(MessageView::Response(response)) => match response.id {
            Some(id) => request_key(id) == key,
            None => false,
        },
        _ => false,
    }
}

/// What happens to a transport is about the request of a key: an answer to it, its
/// end, a step of it, or the opening of a request that gets the same key.
pub open spec fn is_about(t: TransportView, deed: Deed, key: Seq<char>) -> bool {
    match deed {
        Deed::Opened => count_key(t.next) == key,
        Deed::Ended(ended) => ended == key,
        Deed::Requested { exchange, event } => match exchange {
            ExchangeView::New { .. } => event is Send && count_key(t.next) == key,
            ExchangeView::Writing { key: own, .. } => own == key,
            ExchangeView::Waiting { key: own, .. } => own == key,
            ExchangeView::Closed => false,
        },
        Deed::Read(ReadEventView::Line(line)) => is_answer_to(line, key),
        _ => false,
    }
}

/// Nothing that happens is about the request of a key.
pub open spec fn leave_alone(t: TransportView, deeds: Seq<Deed>, key: Seq<char>) -> bool
    decreases deeds.len(),
{
    deeds.len() > 0 ==> {
        &&& leave_alone(t, deeds.drop_last(), key)
        &&& !is_about(after_deeds(t, deeds.drop_last()), deeds.last(), key)
    }
}

/// A caller that waits goes on waiting, under the same number, as long as nothing
/// happens that is about its request.
pub proof fn law_caller_waits_until_its_turn(t: TransportView, deeds: Seq<Deed>, key: Seq<char>)
    requires
        t.waiting.contains_key(key),
        leave_alone(t, deeds, key),
    ensures
        after_deeds(t, deeds).waiting.contains_key(key),
        after_deeds(t, deeds).waiting[key] == t.waiting[key],
    decreases deeds.len(),
{
    if deeds.len() > 0 {
        law_caller_waits_until_its_turn(t, deeds.drop_last(), key);
    }
}

/// A request that is written and answered under its id returns that answer to its
/// caller, whatever else happens to the transport before it is written, before it
/// is answered and before its caller wakes. Its caller then waits no more.
pub proof fn law_request_gets_its_answer_among_others(
    p: Pending,
    method: Seq<char>,
    params: Option<Seq<char>>,
    response: ResponseView,
    first: Seq<Deed>,
    second: Seq<Deed>,
    third: Seq<Deed>,
)
    requires
        p.exchange == (ExchangeView::New { method, params }),
        p.transport.writer_open,
        response.id == Some(RequestIdView::Number(id_number(p.transport.next))),
        ({
            let key = count_key(p.transport.next);
            let opened = p.transport.after_begin();
            &&& leave_alone(opened, first, key)
            &&& leave_alone(after_deeds(opened, first), second, key)
        }),
    ensures
        ({
            let caller = p.transport.next;
            let key = count_key(caller);
            let answer = MessageView::Response(response);
            let sent = p.step(ExchangeEventView::Send);
            let waiting = (Pending {
                transport: after_deeds(sent.0.transport, first),
                ..sent.0
            }).step(ExchangeEventView::Written);
            let reached = after_deeds(waiting.0.transport, second);
            let done = (Pending {
                transport: after_deeds(reached.after_message(answer), third),
                ..waiting.0
            }).step(ExchangeEventView::Replied(ReplyView::Answered(response)));
            &&& sent.1 matches ExchangeActionView::Write { caller: c, .. } && c == caller
            &&& waiting.1 == (ExchangeActionView::Wait {
                caller,
                timeout: p.transport.request_timeout,
            })
            &&& reached.message_outcome(answer) == Ok::<_, ErrorView>(
                Some(DeliveryView { caller, response }),
            )
            &&& done.1 == ExchangeActionView::Return(Ok(response))
            &&& !done.0.transport.waiting.contains_key(key)
        }),
{
    let opened = p.transport.after_begin();
    let key = count_key(p.transport.next);
    law_configuration_is_fixed(opened, first);
    law_caller_waits_until_its_turn(opened, first, key);
    law_caller_waits_until_its_turn(after_deeds(opened, first), second, key);
}

/// The step that ends a request takes its caller out, and no other.
pub proof fn law_ended_request_frees_its_caller(
    p: Pending,
    event: ExchangeEventView,
    key: Seq<char>,
    caller: u64,
    other: Seq<char>,
)
    requires
        p.exchange == (ExchangeView::Writing { key, caller }) || p.exchange == (
        ExchangeView::Waiting { key, caller }),
        p.step(event).0.exchange is Closed,
        other != key,
    ensures
        !p.step(event).0.transport.waiting.contains_key(key),
        p.step(event).0.transport.waiting.contains_key(other) == p.transport.waiting.contains_key(
            other,
        ),
        p.transport.waiting.contains_key(other) ==> p.step(event).0.transport.waiting[other]
            == p.transport.waiting[other],
{
}

/// What can happen while a request is on its way.
pub enum Happening {
    /// Something happens to the request itself.
    Own(ExchangeEventView),
    /// Something else happens to the transport.
    Other(Deed),
}

/// A request after a number of things happened.
pub open spec fn after_happenings(p: Pending, happenings: Seq<Happening>) -> Pending
    decreases happenings.len(),
{
    if happenings.len() == 0 {
        p
    } else {
        let before = after_happenings(p, happenings.drop_last());
        match happenings.last() {
            Happening::Own(event) => before.step(event).0,
            Happening::Other(deed) => Pending {
                transport: after_deed(before.transport, deed),
                ..before
            },
        }
    }
}

/// A count, so many counts later.
pub open spec fn count_later(count: u64, steps: nat) -> u64
    decreases steps,
{
    if steps == 0 {
        count
    } else {
        count_after(count_later(count, (steps - 1) as nat))
    }
}

/// Counts come back after all others had their turn, and not before.
proof fn lemma_count_later(count: u64, steps: nat)
    requires
        steps <= u64::MAX,
    ensures
        count_later(count, steps) == if count + steps <= u64::MAX {
            count + steps
        } else {
            count + steps - u64::MAX - 1
        },
    decreases steps,
{
    if steps > 0 {
        lemma_count_later(count, (steps - 1) as nat);
    }
}

/// What holds of a request on its way, whatever happens around it.
proof fn lemma_request_on_its_way(p: Pending, caller: u64, happenings: Seq<Happening>) -> (opened:
    nat)
    requires
        happenings.len() < u64::MAX,
        p.transport.next == count_after(caller),
        p.exchange == (ExchangeView::Writing { key: count_key(caller), caller }),
    ensures
        opened <= happenings.len(),
        after_happenings(p, happenings).transport.next == count_later(caller, opened + 1),
        ({
            let end = after_happenings(p, happenings);
            ||| end.exchange == (ExchangeView::Writing { key: count_key(caller), caller })
            ||| end.exchange == (ExchangeView::Waiting { key: count_key(caller), caller })
            ||| end.exchange is Closed && !end.transport.waiting.contains_key(count_key(caller))
        }),
    decreases happenings.len(),
{
    if happenings.len() == 0 {
        assert(count_later(caller, 0) == caller);
        0
    } else {
        let before = after_happenings(p, happenings.drop_last());
        let opened = lemma_request_on_its_way(p, caller, happenings.drop_last());
        match happenings.last() {
            Happening::Other(deed) => {
                law_deed_is_confined(before.transport, deed);
                if takes_id(deed) {
                    lemma_count_later(caller, opened + 1);
                    law_keys_are_distinct(caller, before.transport.next);
                    assert(count_later(caller, opened + 2) == count_after(
                        count_later(caller, opened + 1),
                    ));
                    opened + 1
                } else {
                    opened
                }
            },
            Happening::Own(_) => opened,
        }
    }
}

/// Once a request that was sent is over, its caller does not wait any more,
/// whatever else happened to the transport meanwhile. (Fewer things than the
/// counter can tell apart.)
pub proof fn law_request_strands_no_caller(p: Pending, caller: u64, happenings: Seq<Happening>)
    requires
        happenings.len() < u64::MAX,
        p.transport.next == count_after(caller),
        p.exchange == (ExchangeView::Writing { key: count_key(caller), caller }),
        after_happenings(p, happenings).exchange is Closed,
    ensures
        !after_happenings(p, happenings).transport.waiting.contains_key(count_key(caller)),
{
    let _ = lemma_request_on_its_way(p, caller, happenings);
}

/// A request that cannot be written fails at once, and nobody waits for it.
pub proof fn law_unwritten_request_leaves_no_trace(
    p: Pending,
    method: Seq<char>,
    params: Option<Seq<char>>,
)
    requires
        p.exchange == (ExchangeView::New { method, params }),
        !p.transport.writer_open,
        !p.transport.waiting.contains_key(count_key(p.transport.next)),
    ensures
        p.step(ExchangeEventView::Send).0.transport.waiting == p.transport.waiting,
        p.step(ExchangeEventView::Send).0.exchange is Closed,
        p.step(ExchangeEventView::Send).1 == ExchangeActionView::Return(
            Err(ErrorView::Transport("Not connected"@)),
        ),
{
}

/// A line that is refused changes nothing.
pub proof fn law_refused_line_changes_nothing(t: TransportView, line: Seq<char>)
    requires
        t.line_outcome(line) is Err,
    ensures
        t.after_line(line) == t,
{
}

/// A line makes nobody wait, registers no token, and touches nothing but the
/// callers and what was kept. Where it is an answer, nothing is kept.
pub proof fn law_line_is_confined(t: TransportView, line: Seq<char>)
    ensures
        t.after_line(line).waiting.submap_of(t.waiting),
        t.after_line(line).captured.dom() == t.captured.dom(),
        t.after_line(line) == (TransportView {
            waiting: t.after_line(line).waiting,
            captured: t.after_line(line).captured,
            ..t
        }),
        t.line_outcome(line) matches Ok(Some(_)) ==> t.after_line(line).captured == t.captured,
{
    assert(t.after_line(line).captured.dom() =~= t.captured.dom());
}

// Reading

/// The transport after lines arrived one after the other.
pub open spec fn after_lines(t: TransportView, lines: Seq<Seq<char>>) -> TransportView
    decreases lines.len(),
{
    if lines.len() == 0 {
        t
    } else {
        after_lines(t.after_line(lines[0]), lines.drop_first())
    }
}

/// What reading comes to that goes on until it is over: the transport then, and
/// what each event that was read came to.
pub open spec fn read_all(t: TransportView, events: Seq<ReadEventView>) -> (
    TransportView,
    Seq<ReadOutcomeView>,
)
    decreases events.len(),
{
    if events.len() == 0 {
        (t, Seq::empty())
    } else {
        let outcome = t.read_outcome(events[0]);
        let next = t.after_read(events[0]);
        if outcome is Stopped {
            (next, seq![outcome])
        } else {
            let rest = read_all(next, events.drop_first());
            (rest.0, seq![outcome] + rest.1)
        }
    }
}

/// The events of lines that arrive one after the other.
pub open spec fn line_events(lines: Seq<Seq<char>>) -> Seq<ReadEventView> {
    lines.map_values(|line: Seq<char>| ReadEventView::Line(line))
}

/// Where lines arrive and then the stream ends or fails, every line is handled
/// once and in its turn, also after one that was refused. Then the transport is
/// not connected, and nothing more is read.
pub proof fn law_every_line_is_handled_in_its_turn(
    t: TransportView,
    lines: Seq<Seq<char>>,
    end: ReadEventView,
    more: Seq<ReadEventView>,
)
    requires
        !(end is Line),
    ensures
        ({
            let read = read_all(t, line_events(lines) + seq![end] + more);
            &&& read.0 == (TransportView { connected: false, ..after_lines(t, lines) })
            &&& read.1.len() == lines.len() + 1
            &&& read.1.last() is Stopped
            &&& forall|i: int|
                #![trigger read.1[i]]
                0 <= i < lines.len() ==> match after_lines(t, lines.take(i)).line_outcome(
                    lines[i],
                ) {
                    Ok(delivery) => read.1[i] == ReadOutcomeView::Handled(delivery),
                    Err(e) => read.1[i] == ReadOutcomeView::Refused(e),
                }
        }),
    decreases lines.len(),
{
    let events = line_events(lines) + seq![end] + more;
    let read = read_all(t, events);
    if lines.len() == 0 {
        assert(events[0] == end);
    } else {
        let next = t.after_line(lines[0]);
        let rest = lines.drop_first();
        assert(events[0] == ReadEventView::Line(lines[0]));
        assert(events.drop_first() == line_events(rest) + seq![end] + more);
        law_every_line_is_handled_in_its_turn(next, rest, end, more);
        let later = read_all(next, events.drop_first());
        assert(read.1 == seq![t.read_outcome(events[0])] + later.1);
        assert forall|i: int|
            #![trigger read.1[i]]
            0 <= i < lines.len() implies match after_lines(t, lines.take(i)).line_outcome(
            lines[i],
        ) {
            Ok(delivery) => read.1[i] == ReadOutcomeView::Handled(delivery),
            Err(e) => read.1[i] == ReadOutcomeView::Refused(e),
        } by {
            if i > 0 {
                assert(lines.take(i).drop_first() == rest.take(i - 1));
                assert(read.1[i] == later.1[i - 1]);
                assert(lines[i] == rest[i - 1]);
            }
        }
    }
}

// Notifications

/// A notification is kept for the token that it carries and for no other.
pub proof fn law_capture_is_isolated(
    t: TransportView,
    token: Option<Seq<char>>,
    notification: NotificationView,
    other: Seq<char>,
)
    requires
        token != Some(other),
    ensures
        t.after_capture(token, notification).kept_for(other) == t.kept_for(other),
{
}

/// A notification that carries no token, or one that is not registered, is
/// dropped.
pub proof fn law_unclaimed_notification_is_dropped(
    t: TransportView,
    token: Option<Seq<char>>,
    notification: NotificationView,
)
    requires
        token matches Some(name) ==> !t.captured.contains_key(name),
    ensures
        t.after_capture(token, notification) == t,
{
}

/// The notification with a token that something is that happens to a transport.
pub open spec fn arrival(deed: Deed, token: Seq<char>) -> Option<NotificationView> {
    match deed {
        Deed::Read(ReadEventView::Line(line)) => match message_in(line) {
            Some(MessageView::Notification(n)) => if progress_token(n.params) == Some(token) {
                Some(n)
            } else {
                None
            },
            _ => None,
        },
        _ => None,
    }
}

/// The notifications with a token that arrive, the oldest first.
pub open spec fn arrivals(deeds: Seq<Deed>, token: Seq<char>) -> Seq<NotificationView>
    decreases deeds.len(),
{
    if deeds.len() == 0 {
        Seq::empty()
    } else {
        let before = arrivals(deeds.drop_last(), token);
        match arrival(deeds.last(), token) {
            Some(n) => before.push(n),
            None => before,
        }
    }
}

/// Nothing that happens registers a token or takes what was kept for it.
pub open spec fn keep_registration(deeds: Seq<Deed>, token: Seq<char>) -> bool {
    forall|i: int|
        0 <= i < deeds.len() ==> #[trigger] deeds[i] != Deed::Registered(token) && deeds[i]
            != Deed::Taken(token)
}

/// From the registration of a token on, until it is registered again or taken,
/// what is kept for it is what arrived with it, all of it and in order, whatever
/// else happens to the transport.
pub proof fn law_kept_is_what_arrived(t: TransportView, token: Seq<char>, deeds: Seq<Deed>)
    requires
        keep_registration(deeds, token),
    ensures
        after_deeds(t.after_register(token), deeds).captured.contains_key(token),
        after_deeds(t.after_register(token), deeds).kept_for(token) == arrivals(deeds, token),
    decreases deeds.len(),
{
    if deeds.len() > 0 {
        let before = deeds.drop_last();
        assert forall|i: int| 0 <= i < before.len() implies #[trigger] before[i]
            != Deed::Registered(token) && before[i] != Deed::Taken(token) by {
            assert(before[i] == deeds[i]);
        }
        law_kept_is_what_arrived(t, token, before);
        assert(deeds[deeds.len() - 1] == deeds.last());
    }
}

/// Taking what was kept for a token ends its registration: nothing is left, and
/// what arrives later is dropped.
pub proof fn law_taking_ends_the_registration(
    t: TransportView,
    token: Seq<char>,
    later: NotificationView,
)
    ensures
        t.after_take(token).kept_for(token) == Seq::<NotificationView>::empty(),
        t.after_take(token).after_capture(Some(token), later) == t.after_take(token),
{
}

// Writing

/// A message that stands on one line is written as that line and its end, and
/// as nothing else.
pub proof fn law_message_is_one_line(t: TransportView, message: Seq<char>)
    requires
        t.writer_open,
        single_line(message),
    ensures
        t.message_line(message) matches Ok(line) && is_line(line) && line.drop_last() == message,
{
    reveal_strlit("\n");
    assert((message + "\n"@).drop_last() == message);
}

/// A transport that was closed writes nothing and is not connected.
pub proof fn law_closed_transport_writes_nothing(t: TransportView, message: Seq<char>)
    ensures
        !t.closed().connected,
        t.closed().message_line(message) matches Err(ErrorView::Transport(_)),
        t.closed().closed() == t.closed(),
{
}

// The start of a backend

/// What events, one after the other, lead to.
pub open spec fn run(c: Connection, events: Seq<EventView>, profile: ProfileView) -> Connection
    decreases events.len(),
{
    if events.len() == 0 {
        c
    } else {
        run(c, events.drop_last(), profile).step(events.last(), profile).0
    }
}

/// How often `initialize` is asked for.
pub open spec fn times_asked(c: Connection, events: Seq<EventView>, profile: ProfileView) -> nat
    decreases events.len(),
{
    if events.len() == 0 {
        0
    } else {
        let before = events.drop_last();
        let asked = run(c, before, profile).step(events.last(), profile).1 is Initialize;
        times_asked(c, before, profile) + if asked {
            1nat
        } else {
            0nat
        }
    }
}

/// How often the notification that the client is ready is asked for.
pub open spec fn times_announced(c: Connection, events: Seq<EventView>, profile: ProfileView) -> nat
    decreases events.len(),
{
    if events.len() == 0 {
        0
    } else {
        let before = events.drop_last();
        let announced = run(c, before, profile).step(events.last(), profile).1 is Announce;
        times_announced(c, before, profile) + if announced {
            1nat
        } else {
            0nat
        }
    }
}

/// The start is not so far that the notification was asked for.
pub open spec fn is_before_announcing(phase: StartupView) -> bool {
    ||| phase is Start
    ||| phase is Launching
    ||| phase is Asked
    ||| phase is AskedAgain
    ||| phase is Agreed
}

/// The notification that the client is ready is asked for once at most: not
/// before the version is agreed on, and exactly once where the start goes on from
/// there, so also where it is done.
pub proof fn law_ready_is_announced_once(
    c: Connection,
    events: Seq<EventView>,
    profile: ProfileView,
)
    requires
        is_before_announcing(c.phase),
    ensures
        ({
            let end = run(c, events, profile).phase;
            let announced = times_announced(c, events, profile);
            if is_before_announcing(end) {
                announced == 0
            } else if end is Failed {
                announced <= 1
            } else {
                announced == 1
            }
        }),
    decreases events.len(),
{
    if events.len() > 0 {
        law_ready_is_announced_once(c, events.drop_last(), profile);
    }
}

/// How many steps the start can still take.
pub open spec fn steps_left(phase: StartupView) -> nat {
    match phase {
        StartupView::Start => 8,
        StartupView::Launching => 7,
        StartupView::Asked { .. } => 6,
        StartupView::AskedAgain { .. } => 5,
        StartupView::Agreed => 4,
        StartupView::Announcing => 3,
        StartupView::Announced => 2,
        StartupView::Settling => 1,
        StartupView::Done => 0,
        StartupView::Failed => 0,
    }
}

/// How often the start can still ask for `initialize`.
pub open spec fn asks_left(phase: StartupView) -> nat {
    match phase {
        StartupView::Start => 2,
        StartupView::Launching => 2,
        StartupView::Asked { .. } => 1,
        _ => 0,
    }
}

/// Every event either is ignored and changes nothing, or brings the start nearer
/// to its end.
pub proof fn law_start_comes_to_an_end(c: Connection, event: EventView, profile: ProfileView)
    ensures
        if c.step(event, profile).1 is Ignore {
            c.step(event, profile).0 == c
        } else {
            steps_left(c.step(event, profile).0.phase) < steps_left(c.phase)
        },
{
}

/// `initialize` is asked for twice at most.
pub proof fn law_initialize_is_asked_at_most_twice(
    c: Connection,
    events: Seq<EventView>,
    profile: ProfileView,
)
    ensures
        times_asked(c, events, profile) + asks_left(run(c, events, profile).phase) <= asks_left(
            c.phase,
        ),
        times_asked(c, events, profile) <= 2,
    decreases events.len(),
{
    if events.len() > 0 {
        law_initialize_is_asked_at_most_twice(c, events.drop_last(), profile);
    }
}

/// The flags of a transport fit how far its start is.
pub open spec fn flags_fit(c: Connection) -> bool {
    &&& c.transport.connected == (c.phase is Done)
    &&& c.transport.writer_open == !(c.phase is Start || c.phase is Launching || c.phase is Failed)
}

/// A transport that was not connected is connected when its start is done, and
/// not before. One whose start failed is closed.
pub proof fn law_connected_when_the_start_is_done(
    c: Connection,
    events: Seq<EventView>,
    profile: ProfileView,
)
    requires
        flags_fit(c),
    ensures
        flags_fit(run(c, events, profile)),
        run(c, events, profile).transport.connected <==> run(c, events, profile).phase is Done,
        run(c, events, profile).phase is Failed ==> !run(c, events, profile).transport.writer_open,
    decreases events.len(),
{
    if events.len() > 0 {
        law_connected_when_the_start_is_done(c, events.drop_last(), profile);
    }
}

/// A handshake that fails leaves the transport as it is. It is the start that then
/// closes it.
pub proof fn law_failed_handshake_is_closed_by_the_start(
    c: Connection,
    event: EventView,
    profile: ProfileView,
)
    requires
        c.shakes_hands(event, profile).1 is Fail,
    ensures
        c.shakes_hands(event, profile).0 == c.enters(StartupView::Failed),
        c.step(event, profile) == (c.gives_up(), c.shakes_hands(event, profile).1),
{
}

/// The events from the agreement on a version to the open connection.
pub open spec fn finishing_events() -> Seq<EventView> {
    seq![EventView::Yielded, EventView::AnnounceSent, EventView::Yielded, EventView::Slept]
}

/// From the agreement on a version, the notification and its wait lead to the
/// open connection, and to no other change.
proof fn lemma_finishing_connects(c: Connection, profile: ProfileView)
    requires
        c.phase is Agreed,
    ensures
        run(c, finishing_events(), profile) == (Connection {
            transport: TransportView { connected: true, ..c.transport },
            phase: StartupView::Done,
        }),
{
    let events = finishing_events();
    assert(events.drop_last() == seq![
        EventView::Yielded,
        EventView::AnnounceSent,
        EventView::Yielded,
    ]);
    assert(events.drop_last().drop_last() == seq![EventView::Yielded, EventView::AnnounceSent]);
    assert(events.drop_last().drop_last().drop_last() == seq![EventView::Yielded]);
    assert(events.drop_last().drop_last().drop_last().drop_last() == Seq::<EventView>::empty());
    reveal_with_fuel(run, 5);
}

/// Events can be carried out in two parts.
proof fn lemma_run_in_parts(
    c: Connection,
    first: Seq<EventView>,
    second: Seq<EventView>,
    profile: ProfileView,
)
    ensures
        run(c, first + second, profile) == run(run(c, first, profile), second, profile),
    decreases second.len(),
{
    if second.len() == 0 {
        assert(first + second == first);
    } else {
        assert((first + second).drop_last() == first + second.drop_last());
        lemma_run_in_parts(c, first, second.drop_last(), profile);
    }
}

/// What one event leads to.
proof fn lemma_run_one(c: Connection, event: EventView, profile: ProfileView)
    ensures
        run(c, seq![event], profile) == c.step(event, profile).0,
{
    assert(seq![event].drop_last() == Seq::<EventView>::empty());
    reveal_with_fuel(run, 2);
}

/// Where the peer accepts the version that it was asked for, the connection
/// opens. The version on record is the one that the peer named, if it named
/// another, and else what it was.
pub proof fn law_accepted_version_opens_the_connection(
    c: Connection,
    version: Seq<char>,
    response: ResponseView,
    rejection: RejectionView,
    profile: ProfileView,
)
    requires
        c.phase == (StartupView::Asked { version }),
        response.error is None,
    ensures
        run(
            c,
            seq![EventView::Answered { response, rejection }] + finishing_events(),
            profile,
        ) == (Connection {
            transport: TransportView {
                connected: true,
                protocol_version: match named_version(response.result) {
                    Some(named) => if named == version {
                        c.transport.protocol_version
                    } else {
                        Some(named)
                    },
                    None => c.transport.protocol_version,
                },
                ..c.transport
            },
            phase: StartupView::Done,
        }),
{
    let event = EventView::Answered { response, rejection };
    lemma_run_one(c, event, profile);
    lemma_run_in_parts(c, seq![event], finishing_events(), profile);
    lemma_finishing_connects(c.step(event, profile).0, profile);
}

/// Where the peer rejects the version and offers others, and the two sides share
/// one, the latest version that they share is asked for. Where the peer then
/// accepts it, the connection opens with that version on record.
pub proof fn law_rejected_version_is_negotiated(
    c: Connection,
    version: Seq<char>,
    error_response: ResponseView,
    theirs: Seq<String>,
    shared: Seq<char>,
    response: ResponseView,
    rejection: RejectionView,
    profile: ProfileView,
)
    requires
        c.phase == (StartupView::Asked { version }),
        error_response.error is Some,
        mutual(theirs, profile.supported_versions, shared),
        response.error is None,
    ensures
        ({
            let offer = RejectionView { version_mismatch: true, server_versions: Some(theirs) };
            let rejected = EventView::Answered { response: error_response, rejection: offer };
            let accepted = EventView::Answered { response, rejection };
            let best = best_version(theirs, profile.supported_versions)->0;
            &&& best_mutual(theirs, profile.supported_versions, best)
            &&& c.step(rejected, profile) == (
                c.enters(StartupView::AskedAgain { version: best }),
                ActionView::Initialize { params: init_params_text(best) },
            )
            &&& run(c, seq![rejected, accepted] + finishing_events(), profile) == (Connection {
                transport: TransportView {
                    connected: true,
                    protocol_version: Some(best),
                    ..c.transport
                },
                phase: StartupView::Done,
            })
        }),
{
    let offer = RejectionView { version_mismatch: true, server_versions: Some(theirs) };
    let rejected = EventView::Answered { response: error_response, rejection: offer };
    let accepted = EventView::Answered { response, rejection };
    lemma_best_version_exists(theirs, profile.supported_versions, shared);
    let asked_again = c.step(rejected, profile).0;
    lemma_run_one(c, rejected, profile);
    lemma_run_one(asked_again, accepted, profile);
    lemma_run_in_parts(c, seq![rejected], seq![accepted], profile);
    assert(seq![rejected] + seq![accepted] == seq![rejected, accepted]);
    lemma_run_in_parts(c, seq![rejected, accepted], finishing_events(), profile);
    lemma_finishing_connects(asked_again.step(accepted, profile).0, profile);
}

/// Where the peer rejects the version and the two sides share none, or the peer
/// names none, nothing more is asked and the transport is closed.
pub proof fn law_no_shared_version_gives_up(
    c: Connection,
    version: Seq<char>,
    response: ResponseView,
    rejection: RejectionView,
    profile: ProfileView,
)
    requires
        c.phase == (StartupView::Asked { version }),
        response.error is Some,
        rejection.server_versions matches Some(theirs) ==> forall|v: Seq<char>|
            !mutual(theirs, profile.supported_versions, v),
    ensures
        ({
            let next = c.step(EventView::Answered { response, rejection }, profile);
            &&& next.0 == c.gives_up()
            &&& next.1 matches ActionView::Fail(ErrorView::Protocol(_))
        }),
{
    assert(rejection.server_versions matches Some(theirs) ==> best_version(
        theirs,
        profile.supported_versions,
    ) is None);
}

/// A program that does not exist or may not be executed is a lasting failure;
/// any other reason may pass.
pub proof fn law_missing_program_is_permanent(
    c: Connection,
    failure: SpawnFailure,
    reason: Seq<char>,
    profile: ProfileView,
)
    requires
        c.phase is Launching,
    ensures
        ({
            let action = c.step(EventView::SpawnFailed { failure, reason }, profile).1;
            if failure == SpawnFailure::Other {
                action matches ActionView::Fail(ErrorView::Transport(_))
            } else {
                action matches ActionView::Fail(ErrorView::TransportPermanent(_))
            }
        }),
{
}

// The environment of a backend

/// A backend has no variable but the safe ones and those that it is assigned.
pub proof fn law_environment_is_minimal<V>(
    host: Host<V>,
    backend: Seq<(String, V)>,
    name: Seq<char>,
)
    requires
        child_variable(host, backend, name) is Some,
    ensures
        is_safe_name(host.platform, name) || last_of(backend, name) is Some,
{
}

/// What the host holds under any other name makes no difference to a backend:
/// two hosts that agree on the safe names give it the same environment.
pub proof fn law_host_secrets_make_no_difference<V>(
    host: Host<V>,
    other: Host<V>,
    backend: Seq<(String, V)>,
    name: Seq<char>,
)
    requires
        host.platform == other.platform,
        host.fallback_path == other.fallback_path,
        host.home_dir == other.home_dir,
        host.temp_dir == other.temp_dir,
        forall|safe: Seq<char>|
            is_safe_name(host.platform, safe) ==> #[trigger] first_of(host.variables@, safe)
                == first_of(other.variables@, safe),
    ensures
        child_variable(host, backend, name) == child_variable(other, backend, name),
{
    assert(first_of(host.variables@, name) == first_of(host.variables@, name));
}

/// What a backend is assigned has precedence over every default.
pub proof fn law_assignment_has_precedence<V>(
    host: Host<V>,
    backend: Seq<(String, V)>,
    name: Seq<char>,
)
    requires
        last_of(backend, name) is Some,
    ensures
        child_variable(host, backend, name) == last_of(backend, name),
{
}

/// However the system compares names: where the backend assigns a variable under
/// some spelling, the last value that the list gives the variable is the last one
/// that the backend assigned, and where it does not, the variable is a safe one.
/// `same` are the spellings of the variable, `place` is where it is set last.
pub proof fn law_assignment_wins_under_any_spelling<V>(
    platform: Platform,
    list: Seq<(String, &V)>,
    backend: Seq<(String, V)>,
    same: spec_fn(Seq<char>) -> bool,
    place: int,
)
    requires
        assignments_come_last(platform, list, backend),
        0 <= place < list.len(),
        same(list[place].0@),
        forall|k: int| place < k < list.len() ==> !same((#[trigger] list[k]).0@),
    ensures
        ({
            let own = place - (list.len() - backend.len());
            if exists|j: int| 0 <= j < backend.len() && same((#[trigger] backend[j]).0@) {
                &&& 0 <= own < backend.len()
                &&& same(backend[own].0@)
                &&& *list[place].1 == backend[own].1
                &&& forall|k: int| own < k < backend.len() ==> !same((#[trigger] backend[k]).0@)
            } else {
                is_safe_name(platform, list[place].0@)
            }
        }),
{
    let start = list.len() - backend.len();
    assert forall|k: int| 0 <= k < backend.len() implies (#[trigger] backend[k]).0@ == list[start
        + k].0@ by {
        assert(list[start + k].0@ == backend[k].0@);
    }
    if place < start {
        assert(list.take(start)[place] == list[place]);
    }
}

/// A backend always has a search path and a directory for temporary files.
pub proof fn law_path_and_tmpdir_are_set<V>(host: Host<V>, backend: Seq<(String, V)>)
    ensures
        child_variable(host, backend, "PATH"@) is Some,
        child_variable(host, backend, "TMPDIR"@) is Some,
{
    reveal_strlit("PATH");
    reveal_strlit("HOME");
    reveal_strlit("TMPDIR");
    assert("TMPDIR"@.len() != "HOME"@.len());
}

/// No name occurs twice in a list.
pub open spec fn names_once<V>(list: Seq<(String, V)>) -> bool {
    forall|i: int, j: int|
        0 <= i < j < list.len() ==> (#[trigger] list[i]).0@ != (#[trigger] list[j]).0@
}

/// A list gives a name that value.
pub open spec fn gives<V>(list: Seq<(String, V)>, name: Seq<char>, value: V) -> bool {
    exists|i: int|
        0 <= i < list.len() && (#[trigger] list[i]).0@ == name && list[i].1 == value
}

/// In a list that names nothing twice, the last value of a name is the value of
/// the name.
proof fn lemma_last_of_gives<V>(list: Seq<(String, V)>, name: Seq<char>)
    requires
        names_once(list),
    ensures
        forall|value: V| last_of(list, name) == Some(value) <==> #[trigger] gives(list, name, value),
    decreases list.len(),
{
    if list.len() > 0 {
        let before = list.drop_last();
        lemma_last_of_gives(before, name);
        assert forall|value: V|
            last_of(list, name) == Some(value) <==> #[trigger] gives(list, name, value) by {
            if gives(list, name, value) {
                let i = choose|i: int|
                    0 <= i < list.len() && (#[trigger] list[i]).0@ == name && list[i].1 == value;
                if i < list.len() - 1 {
                    assert(before[i] == list[i]);
                    assert(gives(before, name, value));
                    assert(list[i].0@ != list[list.len() - 1].0@);
                }
            }
            if last_of(list, name) == Some(value) {
                if list.last().0@ == name {
                    assert(list[list.len() - 1].0@ == name);
                } else {
                    assert(gives(before, name, value));
                    let i = choose|i: int|
                        0 <= i < before.len() && (#[trigger] before[i]).0@ == name && before[i].1
                            == value;
                    assert(list[i] == before[i]);
                }
            }
        }
    }
}

/// The order in which the variables of a backend are listed makes no difference,
/// as long as none is listed twice.
pub proof fn law_assignments_have_no_order<V>(
    host: Host<V>,
    backend: Seq<(String, V)>,
    reordered: Seq<(String, V)>,
    name: Seq<char>,
)
    requires
        names_once(backend),
        names_once(reordered),
        forall|n: Seq<char>, value: V| #[trigger]
            gives(backend, n, value) <==> gives(reordered, n, value),
    ensures
        child_variable(host, backend, name) == child_variable(host, reordered, name),
{
    lemma_last_of_gives(backend, name);
    lemma_last_of_gives(reordered, name);
    if last_of(backend, name) is Some {
        assert(gives(backend, name, last_of(backend, name)->0));
    }
    if last_of(reordered, name) is Some {
        assert(gives(reordered, name, last_of(reordered, name)->0));
        assert(gives(backend, name, last_of(reordered, name)->0));
    }
}

} // verus!
