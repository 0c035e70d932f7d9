//! What each operation changes in a transport, what it leaves alone, and what a
//! request comes to, word by word.

use vstd::prelude::*;
use crate::error::ErrorView;
use crate::exchange::{
    outcome_of, ExchangeActionView, ExchangeEventView, ExchangeView, Pending, ReplyView,
};
use crate::json::json_quoted;
use crate::laws_of_messages::{is_key_of, law_request_on_the_wire};
use crate::message::{
    request_key, request_text, MessageView, NotificationView, RequestIdView, ResponseView,
};
use crate::text::{decimal, digit, digits};
use crate::transport::{
    count_after, count_key, id_number, DeliveryView, ReadEventView, ReadOutcomeView, TransportView,
};

verus! {

// Numbers

/// Decimal notation: a number below ten is one digit, any other is the notation
/// of its tenth with one digit more, and a negative number has a hyphen in front.
pub proof fn law_decimal_notation(n: int, d: int)
    requires
        n > 0,
        0 <= d < 10,
    ensures
        decimal(d).len() == 1,
        decimal(d)[0] as int == '0' as int + d,
        decimal(10 * n + d).len() == decimal(n).len() + 1,
        decimal(10 * n + d).drop_last() == decimal(n),
        decimal(10 * n + d).last() as int == '0' as int + d,
        decimal(-n).len() == decimal(n).len() + 1,
        decimal(-n)[0] == '-',
        decimal(-n).skip(1) == decimal(n),
{
    assert((10 * n + d) / 10 == n && (10 * n + d) % 10 == d);
    assert(digits((10 * n + d) as nat) == digits(n as nat).push(digit(d as nat)));
    assert(decimal(10 * n + d).drop_last() =~= decimal(n));
    assert(decimal(-n).skip(1) =~= decimal(n));
}

/// The counter of requests is a counter of 64 bits: it goes on by one and comes
/// back to zero after the last number. Its ids are the same number in 64 bits with
/// a sign.
pub proof fn law_counter_has_64_bits(count: u64)
    ensures
        (count_after(count) - count - 1) % 0x1_0000_0000_0000_0000 == 0,
        (id_number(count) - count) % 0x1_0000_0000_0000_0000 == 0,
        i64::MIN <= id_number(count) <= i64::MAX,
{
}

/// The key of a request is its number in decimal notation, or its string as it is.
pub proof fn law_key_of_an_id(id: RequestIdView, count: u64)
    ensures
        is_key_of(request_key(id), id),
        count_key(count) == decimal(id_number(count)),
{
}

// Operations

/// Opening a request makes its caller wait under the key of its id, moves the
/// counter by one, and changes nothing else.
pub proof fn law_opening_changes(t: TransportView, other: Seq<char>)
    requires
        other != decimal(id_number(t.next)),
    ensures
        t.after_begin().waiting.contains_key(decimal(id_number(t.next))),
        t.after_begin().waiting[decimal(id_number(t.next))] == t.next,
        t.after_begin().waiting.contains_key(other) == t.waiting.contains_key(other),
        t.waiting.contains_key(other) ==> t.after_begin().waiting[other] == t.waiting[other],
        (t.after_begin().next - t.next - 1) % 0x1_0000_0000_0000_0000 == 0,
        t.after_begin() == (TransportView {
            waiting: t.after_begin().waiting,
            next: t.after_begin().next,
            ..t
        }),
{
}

/// Closing a request takes out its caller and changes nothing else.
pub proof fn law_ending_changes(t: TransportView, key: Seq<char>, other: Seq<char>)
    requires
        other != key,
    ensures
        !t.after_end(key).waiting.contains_key(key),
        t.after_end(key).waiting.contains_key(other) == t.waiting.contains_key(other),
        t.waiting.contains_key(other) ==> t.after_end(key).waiting[other] == t.waiting[other],
        t.after_end(key) == (TransportView { waiting: t.after_end(key).waiting, ..t }),
{
}

/// An answer reaches whoever waits under the key of its id, as it is, and takes
/// that caller out; it changes nothing else. Without an id it reaches nobody and
/// changes nothing.
pub proof fn law_answer_changes(
    t: TransportView,
    response: ResponseView,
    id: RequestIdView,
    key: Seq<char>,
)
    requires
        is_key_of(key, id),
    ensures
        response.id == Some(id) ==> t.after_response(response) == (TransportView {
            waiting: t.waiting.remove(key),
            ..t
        }),
        response.id == Some(id) && t.waiting.contains_key(key) ==> t.delivery(response) == Some(
            DeliveryView { caller: t.waiting[key], response },
        ),
        response.id == Some(id) && !t.waiting.contains_key(key) ==> t.delivery(response) is None,
        response.id is None ==> t.after_response(response) == t && t.delivery(response) is None,
        t.after_message(MessageView::Response(response)) == t.after_response(response),
        t.message_outcome(MessageView::Response(response)) == Ok::<_, ErrorView>(
            t.delivery(response),
        ),
{
}

/// Registering a token makes it known with nothing kept for it; taking ends its
/// registration; keeping adds one notification at the end. Each leaves every other
/// token and everything else alone.
pub proof fn law_tokens_change(
    t: TransportView,
    token: Seq<char>,
    other: Seq<char>,
    n: NotificationView,
)
    requires
        other != token,
    ensures
        ({
            let registered = t.after_register(token);
            let taken = t.after_take(token);
            let kept = t.after_capture(Some(token), n);
            &&& registered.captured.contains_key(token)
            &&& registered.captured[token].len() == 0
            &&& registered.captured.contains_key(other) == t.captured.contains_key(other)
            &&& registered.kept_for(other) == t.kept_for(other)
            &&& registered == (TransportView { captured: registered.captured, ..t })
            &&& !taken.captured.contains_key(token)
            &&& taken.captured.contains_key(other) == t.captured.contains_key(other)
            &&& taken.kept_for(other) == t.kept_for(other)
            &&& taken == (TransportView { captured: taken.captured, ..t })
            &&& kept.captured.contains_key(token) == t.captured.contains_key(token)
            &&& kept.captured.contains_key(other) == t.captured.contains_key(other)
            &&& kept.kept_for(other) == t.kept_for(other)
            &&& kept == (TransportView { captured: kept.captured, ..t })
            &&& t.captured.contains_key(token) ==> kept.kept_for(token) == t.kept_for(token).push(n)
            &&& !t.captured.contains_key(token) ==> kept == t
            &&& t.after_capture(None, n) == t
        }),
{
}

/// What is handed out for a token is all that is kept for it, and nothing where it
/// is not registered.
pub proof fn law_all_that_is_kept_is_handed_out(t: TransportView, token: Seq<char>)
    ensures
        t.captured.contains_key(token) ==> t.kept_for(token) == t.captured[token],
        !t.captured.contains_key(token) ==> t.kept_for(token).len() == 0,
{
}

/// A transport that is closed is not connected and cannot be written to, and is
/// otherwise as it was. The end of the stream, or its failure, only ends the
/// connection.
pub proof fn law_closing_changes(t: TransportView)
    ensures
        t.closed() == (TransportView { connected: false, writer_open: false, ..t }),
        t.after_read(ReadEventView::EndOfStream) == (TransportView { connected: false, ..t }),
        t.after_read(ReadEventView::Failed) == (TransportView { connected: false, ..t }),
        t.read_outcome(ReadEventView::EndOfStream) == ReadOutcomeView::Stopped,
        t.read_outcome(ReadEventView::Failed) == ReadOutcomeView::Stopped,
{
}

/// A line that is read is handled as a line, and its outcome handed on.
pub proof fn law_line_that_is_read_is_handled(t: TransportView, line: Seq<char>)
    ensures
        t.after_read(ReadEventView::Line(line)) == t.after_line(line),
        t.line_outcome(line) matches Ok(d) ==> t.read_outcome(ReadEventView::Line(line))
            == ReadOutcomeView::Handled(d),
        t.line_outcome(line) matches Err(e) ==> t.read_outcome(ReadEventView::Line(line))
            == ReadOutcomeView::Refused(e),
{
}

/// A message is written as it is with one line break after it, and not at all
/// where there is nothing to write to.
pub proof fn law_message_is_written_as_it_is(t: TransportView, message: Seq<char>)
    ensures
        t.writer_open ==> t.message_line(message) == Ok::<Seq<char>, ErrorView>(
            message.push('\n'),
        ),
        !t.writer_open ==> t.message_line(message) == Err::<Seq<char>, ErrorView>(
            ErrorView::Transport("Not connected"@),
        ),
{
    reveal_strlit("\n");
    assert(message + "\n"@ =~= message.push('\n'));
}

// Requests

/// Sending makes the caller wait and hands out the line of the request, with its
/// id, its method and its parameters. Where nothing can be written, the request is
/// over at once, and whoever waited under its key waits no more.
pub proof fn law_sending_writes_the_request(
    t: TransportView,
    method: Seq<char>,
    params: Seq<char>,
)
    ensures
        ({
            let caller = t.next;
            let key = decimal(id_number(caller));
            let head = "{\"jsonrpc\":\"2.0\",\"id\":"@ + key + ",\"method\":"@ + json_quoted(method);
            let with = Pending {
                transport: t,
                exchange: ExchangeView::New { method, params: Some(params) },
            };
            let without = Pending {
                transport: t,
                exchange: ExchangeView::New { method, params: None },
            };
            let sent = Pending {
                transport: t.after_begin(),
                exchange: ExchangeView::Writing { key, caller },
            };
            let over = (
                Pending {
                    transport: t.after_begin().after_end(key),
                    exchange: ExchangeView::Closed,
                },
                ExchangeActionView::Return(Err(ErrorView::Transport("Not connected"@))),
            );
            &&& t.writer_open ==> with.step(ExchangeEventView::Send) == (
                sent,
                ExchangeActionView::Write {
                    caller,
                    line: (head + ",\"params\":"@ + params + "}"@).push('\n'),
                },
            )
            &&& t.writer_open ==> without.step(ExchangeEventView::Send) == (
                sent,
                ExchangeActionView::Write { caller, line: (head + "}"@).push('\n') },
            )
            &&& !t.writer_open ==> with.step(ExchangeEventView::Send) == over
            &&& !t.writer_open ==> without.step(ExchangeEventView::Send) == over
        }),
{
    law_request_on_the_wire(id_number(t.next), method, params);
    let number = RequestIdView::Number(id_number(t.next));
    law_message_is_written_as_it_is(t, request_text(number, method, Some(params)));
    law_message_is_written_as_it_is(t, request_text(number, method, None));
}

/// What each event makes of a request that was sent: written, it waits as long as
/// the transport says; however it ends, its caller is taken out and gets the
/// answer, the error of the write, or the reason why there is no answer.
pub proof fn law_request_ends_with_what_happened(
    t: TransportView,
    key: Seq<char>,
    caller: u64,
    response: ResponseView,
    error: ErrorView,
)
    ensures
        ({
            let writing = Pending {
                transport: t,
                exchange: ExchangeView::Writing { key, caller },
            };
            let waiting = Pending {
                transport: t,
                exchange: ExchangeView::Waiting { key, caller },
            };
            let over = Pending { transport: t.after_end(key), exchange: ExchangeView::Closed };
            &&& writing.step(ExchangeEventView::Written) == (
                waiting,
                ExchangeActionView::Wait { caller, timeout: t.request_timeout },
            )
            &&& writing.step(ExchangeEventView::WriteFailed(error)) == (
                over,
                ExchangeActionView::Return(Err(error)),
            )
            &&& writing.step(ExchangeEventView::Cancelled) == (over, ExchangeActionView::Nothing)
            &&& waiting.step(ExchangeEventView::Cancelled) == (over, ExchangeActionView::Nothing)
            &&& waiting.step(ExchangeEventView::Replied(ReplyView::Answered(response))) == (
                over,
                ExchangeActionView::Return(Ok(response)),
            )
            &&& waiting.step(ExchangeEventView::Replied(ReplyView::ChannelClosed)) == (
                over,
                ExchangeActionView::Return(Err(ErrorView::Transport("Response channel closed"@))),
            )
            &&& waiting.step(ExchangeEventView::Replied(ReplyView::TimedOut)) == (
                over,
                ExchangeActionView::Return(Err(ErrorView::BackendTimeout("Request timed out"@))),
            )
        }),
{
}

/// A request that is over, or that did not begin and is not wanted, does nothing.
pub proof fn law_request_that_is_over_does_nothing(
    t: TransportView,
    method: Seq<char>,
    params: Option<Seq<char>>,
    event: ExchangeEventView,
)
    ensures
        ({
            let over = Pending { transport: t, exchange: ExchangeView::Closed };
            let fresh = Pending { transport: t, exchange: ExchangeView::New { method, params } };
            &&& over.step(event) == (over, ExchangeActionView::Nothing)
            &&& fresh.step(ExchangeEventView::Cancelled) == (over, ExchangeActionView::Nothing)
        }),
{
}

/// An event that a request does not wait for does nothing.
pub proof fn law_event_out_of_turn_does_nothing(p: Pending, event: ExchangeEventView)
    requires
        match p.exchange {
            ExchangeView::New { .. } => !(event is Send || event is Cancelled),
            ExchangeView::Writing { .. } => !(event is Written || event is WriteFailed
                || event is Cancelled),
            ExchangeView::Waiting { .. } => !(event is Replied || event is Cancelled),
            ExchangeView::Closed => true,
        },
    ensures
        p.step(event) == (p, ExchangeActionView::Nothing),
{
}

/// What a wait comes to for its caller.
pub proof fn law_wait_ends_with_its_reply(response: ResponseView)
    ensures
        outcome_of(ReplyView::Answered(response)) == Ok::<_, ErrorView>(response),
        outcome_of(ReplyView::ChannelClosed) == Err::<ResponseView, ErrorView>(
            ErrorView::Transport("Response channel closed"@),
        ),
        outcome_of(ReplyView::TimedOut) == Err::<ResponseView, ErrorView>(
            ErrorView::BackendTimeout("Request timed out"@),
        ),
{
}

} // verus!
