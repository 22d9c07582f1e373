//! The ping session: a per-session identifier stamped into outbound Echo
//! Requests, per-event receive decisions that filter inbound traffic down
//! to this session's replies, and the deadline-bounded receive itself.

use crate::codec::Classification;
use crate::codec::ClassificationView;
use crate::codec::Ipv4Address;
use crate::codec::decode;
use crate::codec::decode_spec;
use crate::codec::echo_packet_bytes;
use crate::codec::encode_echo;
use crate::codec::ECHO_REQUEST_TYPE;
use crate::codec::MAX_PAYLOAD_LEN;
use vstd::prelude::*;

verus! {

/// The session-level outcome of one receive call. `Timeout` is a normal,
/// expected outcome, not an error.
#[derive(Debug)]
pub enum Reply {
    EchoReply { from: Ipv4Address, sequence_number: u16, payload: Vec<u8> },
    TimeToLiveExceeded { from: Ipv4Address },
    Timeout,
}

/// The mathematical model of a `Reply`.
pub enum ReplyView {
    EchoReply { from: Ipv4Address, sequence_number: u16, payload: Seq<u8> },
    TimeToLiveExceeded { from: Ipv4Address },
    Timeout,
}

impl View for Reply {
    type V = ReplyView;

    open spec fn view(&self) -> ReplyView {
        match self {
            Reply::EchoReply { from, sequence_number, payload } => {
                ReplyView::EchoReply {
                    from: *from,
                    sequence_number: *sequence_number,
                    payload: payload@,
                }
            },
            Reply::TimeToLiveExceeded { from } => {
                ReplyView::TimeToLiveExceeded { from: *from }
            },
            Reply::Timeout => ReplyView::Timeout,
        }
    }
}

/// Why a session call failed. A malformed or unhandled ICMP message is
/// surfaced here rather than skipped, so that it cannot mask a protocol
/// bug; a reply with a foreign identifier is not an error at all.
#[derive(Debug)]
pub enum PingError {
    ChannelOpen,
    IcmpSend,
    IcmpRecv,
    UnexpectedPacket { packet: Vec<u8> },
    MalformedPacket { packet: Vec<u8> },
}

/// The mathematical model of a `PingError`.
pub enum PingErrorView {
    ChannelOpen,
    IcmpSend,
    IcmpRecv,
    UnexpectedPacket { packet: Seq<u8> },
    MalformedPacket { packet: Seq<u8> },
}

impl View for PingError {
    type V = PingErrorView;

    open spec fn view(&self) -> PingErrorView {
        match self {
            PingError::ChannelOpen => PingErrorView::ChannelOpen,
            PingError::IcmpSend => PingErrorView::IcmpSend,
            PingError::IcmpRecv => PingErrorView::IcmpRecv,
            PingError::UnexpectedPacket { packet } => {
                PingErrorView::UnexpectedPacket { packet: packet@ }
            },
            PingError::MalformedPacket { packet } => {
                PingErrorView::MalformedPacket { packet: packet@ }
            },
        }
    }
}

/// One event the transport hands the session while it waits: the next
/// datagram, the deadline elapsing with nothing more, or an OS-level read
/// failure.
pub enum RecvEvent {
    Datagram { bytes: Vec<u8>, from: Ipv4Address },
    DeadlineElapsed,
    ReadFailed,
}

/// The mathematical model of a `RecvEvent`.
pub enum RecvEventView {
    Datagram { bytes: Seq<u8>, from: Ipv4Address },
    DeadlineElapsed,
    ReadFailed,
}

impl View for RecvEvent {
    type V = RecvEventView;

    open spec fn view(&self) -> RecvEventView {
        match self {
            RecvEvent::Datagram { bytes, from } => {
                RecvEventView::Datagram { bytes: bytes@, from: *from }
            },
            RecvEvent::DeadlineElapsed => RecvEventView::DeadlineElapsed,
            RecvEvent::ReadFailed => RecvEventView::ReadFailed,
        }
    }
}

/// What the session decides to do with one receive event: deliver a reply
/// and stop, fail and stop, or keep waiting with the remaining deadline.
pub enum RecvStep {
    Deliver { reply: Reply },
    Fail { error: PingError },
    KeepWaiting,
}

/// The mathematical model of a `RecvStep`.
pub enum RecvStepView {
    Deliver { reply: ReplyView },
    Fail { error: PingErrorView },
    KeepWaiting,
}

impl View for RecvStep {
    type V = RecvStepView;

    open spec fn view(&self) -> RecvStepView {
        match self {
            RecvStep::Deliver { reply } => RecvStepView::Deliver { reply: reply@ },
            RecvStep::Fail { error } => RecvStepView::Fail { error: error@ },
            RecvStep::KeepWaiting => RecvStepView::KeepWaiting,
        }
    }
}

/// The decision the session takes on one receive event: the deadline
/// elapsing is a Timeout reply; a read failure is a receive error; a
/// datagram is decoded and classified, where a malformed or unhandled
/// message fails the call, a Time Exceeded message is delivered with no
/// identifier check, an echo reply bearing a foreign identifier is
/// silently discarded, and an echo reply bearing `identifier` is delivered.
pub open spec fn recv_step_spec(identifier: u16, event: RecvEventView) -> RecvStepView {
    match event {
        RecvEventView::DeadlineElapsed => RecvStepView::Deliver { reply: ReplyView::Timeout },
        RecvEventView::ReadFailed => RecvStepView::Fail { error: PingErrorView::IcmpRecv },
        RecvEventView::Datagram { bytes, from } => match decode_spec(bytes, from) {
            ClassificationView::Malformed { raw } => {
                RecvStepView::Fail { error: PingErrorView::MalformedPacket { packet: raw } }
            },
            ClassificationView::Unexpected { raw } => {
                RecvStepView::Fail { error: PingErrorView::UnexpectedPacket { packet: raw } }
            },
            ClassificationView::TimeToLiveExceeded { from } => {
                RecvStepView::Deliver { reply: ReplyView::TimeToLiveExceeded { from } }
            },
            ClassificationView::EchoReply { from, identifier: reply_id, sequence_number, payload } => {
                if reply_id == identifier {
                    RecvStepView::Deliver {
                        reply: ReplyView::EchoReply { from, sequence_number, payload },
                    }
                } else {
                    RecvStepView::KeepWaiting
                }
            },
        },
    }
}

/// Relies on rand::random of rand 0.8: a pseudo-random value of the asked
/// type, drawn from a thread-local generator seeded from process entropy;
/// nothing further is promised of the value.
pub assume_specification<T>[ rand::random::<T> ]() -> (r: T)
    where
        rand::distributions::Standard: rand::distributions::Distribution<T>,
;

/// One ping session: the identifier stamped into every outbound Echo
/// Request and matched against inbound Echo Replies, and the TTL the
/// session's raw transport is to use for outbound packets. The identifier
/// is constant for the session's lifetime.
pub struct Pinger {
    pub identifier: u16,
    pub ttl: u8,
}

impl Pinger {
    /// Begin a session: draw a fresh pseudo-random identifier and record
    /// the TTL for the caller's raw transport. The caller owns the
    /// transport itself and releases it when the session ends.
    pub fn open(ttl: u8) -> (p: Pinger)
        ensures
            p.ttl == ttl,
    {
        let identifier: u16 = rand::random();
        Pinger { identifier, ttl }
    }

    /// Encode the Echo Request for `sequence_number` under this session's
    /// identifier: exactly the wire bytes, checksum included, that the
    /// transport is to hand to the destination unchanged.
    pub fn send(&self, sequence_number: u16, payload: &Vec<u8>) -> (buf: Vec<u8>)
        requires
            payload@.len() <= MAX_PAYLOAD_LEN,
        ensures
            buf@ == echo_packet_bytes(
                ECHO_REQUEST_TYPE,
                self.identifier,
                sequence_number,
                payload@,
            ),
    {
        encode_echo(ECHO_REQUEST_TYPE, self.identifier, sequence_number, payload)
    }

    /// Decide what one receive event means for this session, exactly as
    /// `recv_step_spec` describes. A caller that drives a real transport
    /// feeds each read result in as an event and acts on the decision.
    pub fn recv_step(&self, event: RecvEvent) -> (step: RecvStep)
        ensures
            step@ == recv_step_spec(self.identifier, event@),
    {
        match event {
            RecvEvent::DeadlineElapsed => RecvStep::Deliver { reply: Reply::Timeout },
            RecvEvent::ReadFailed => RecvStep::Fail { error: PingError::IcmpRecv },
            RecvEvent::Datagram { bytes, from } => match decode(&bytes, from) {
                Classification::Malformed { raw } => {
                    RecvStep::Fail { error: PingError::MalformedPacket { packet: raw } }
                },
                Classification::Unexpected { raw } => {
                    RecvStep::Fail { error: PingError::UnexpectedPacket { packet: raw } }
                },
                Classification::TimeToLiveExceeded { from } => {
                    RecvStep::Deliver { reply: Reply::TimeToLiveExceeded { from } }
                },
                Classification::EchoReply { from, identifier, sequence_number, payload } => {
                    if identifier == self.identifier {
                        RecvStep::Deliver {
                            reply: Reply::EchoReply { from, sequence_number, payload },
                        }
                    } else {
                        RecvStep::KeepWaiting
                    }
                },
            },
        }
    }
}

/// One inbound datagram as the transport delivers it: its ICMP bytes, the
/// source address from the surrounding network-layer header, and how many
/// milliseconds the transport waited for it after the previous event.
pub struct Delivery {
    pub bytes: Vec<u8>,
    pub from: Ipv4Address,
    pub delay_ms: u64,
}

/// The mathematical model of a `Delivery`.
pub struct DeliveryView {
    pub bytes: Seq<u8>,
    pub from: Ipv4Address,
    pub delay_ms: u64,
}

impl View for Delivery {
    type V = DeliveryView;

    open spec fn view(&self) -> DeliveryView {
        DeliveryView { bytes: self.bytes@, from: self.from, delay_ms: self.delay_ms }
    }
}

/// The models of a queue of deliveries, in order.
pub open spec fn deliveries_view(inbound: Seq<Delivery>) -> Seq<DeliveryView> {
    inbound.map_values(|d: Delivery| d@)
}

/// The model of a receive result.
pub open spec fn recv_result_view(r: Result<Reply, PingError>) -> Result<ReplyView, PingErrorView> {
    match r {
        Result::Ok(reply) => Result::Ok(reply@),
        Result::Err(error) => Result::Err(error@),
    }
}

/// What one receive call returns when the inbound datagrams arrive as
/// `inbound` describes and `remaining` milliseconds are left before the
/// deadline. Datagrams are taken in order; each one's decision is
/// `recv_step_spec`. A discarded foreign reply costs its delay out of the
/// remaining time — the deadline is never reset. A datagram that would
/// arrive only once the remaining time is spent, or an exhausted stream,
/// means Timeout.
pub open spec fn recv_spec(
    identifier: u16,
    inbound: Seq<DeliveryView>,
    remaining: int,
) -> Result<ReplyView, PingErrorView>
    decreases inbound.len(),
{
    if inbound.len() == 0 {
        Result::Ok(ReplyView::Timeout)
    } else {
        let d = inbound[0];
        if d.delay_ms >= remaining {
            Result::Ok(ReplyView::Timeout)
        } else {
            match recv_step_spec(
                identifier,
                RecvEventView::Datagram { bytes: d.bytes, from: d.from },
            ) {
                RecvStepView::Deliver { reply } => Result::Ok(reply),
                RecvStepView::Fail { error } => Result::Err(error),
                RecvStepView::KeepWaiting => recv_spec(
                    identifier,
                    inbound.drop_first(),
                    remaining - d.delay_ms,
                ),
            }
        }
    }
}

impl Pinger {
    /// One deadline-bounded receive over a queue of inbound datagrams,
    /// exactly as `recv_spec` describes: loop over the queue in order,
    /// discarding echo replies that carry a foreign identifier while the
    /// remaining time runs down, until a reply is delivered, the call
    /// fails, or the deadline is spent.
    #[verifier::loop_isolation(false)]
    pub fn recv(&self, inbound: Vec<Delivery>, timeout_ms: u64) -> (r: Result<Reply, PingError>)
        ensures
            recv_result_view(r) == recv_spec(
                self.identifier,
                deliveries_view(inbound@),
                timeout_ms as int,
            ),
    {
        let ghost orig = deliveries_view(inbound@);
        let mut queue = inbound;
        let mut remaining: u64 = timeout_ms;
        loop
            invariant
                recv_spec(self.identifier, deliveries_view(queue@), remaining as int)
                    == recv_spec(self.identifier, orig, timeout_ms as int),
            decreases queue@.len(),
        {
            if queue.len() == 0 {
                return Result::Ok(Reply::Timeout);
            }
            let ghost pre = deliveries_view(queue@);
            let d = queue.remove(0);
            assert(deliveries_view(queue@) =~= pre.drop_first());
            assert(d@ == pre[0]);
            if d.delay_ms >= remaining {
                return Result::Ok(Reply::Timeout);
            }
            remaining = remaining - d.delay_ms;
            match self.recv_step(RecvEvent::Datagram { bytes: d.bytes, from: d.from }) {
                RecvStep::Deliver { reply } => {
                    return Result::Ok(reply);
                },
                RecvStep::Fail { error } => {
                    return Result::Err(error);
                },
                RecvStep::KeepWaiting => {},
            }
        }
    }
}

/// Whether a delivered datagram decodes to an Echo Reply.
pub open spec fn decodes_to_echo_reply(d: DeliveryView) -> bool {
    decode_spec(d.bytes, d.from) is EchoReply
}

/// The identifier a delivered Echo Reply carries.
pub open spec fn delivered_identifier(d: DeliveryView) -> u16 {
    decode_spec(d.bytes, d.from)->identifier
}

/// The delays of the first `n` deliveries, summed.
pub open spec fn total_delay(inbound: Seq<DeliveryView>, n: int) -> int
    decreases n,
{
    if n <= 0 {
        0
    } else {
        total_delay(inbound, n - 1) + inbound[n - 1].delay_ms
    }
}

pub proof fn lemma_total_delay_mono(inbound: Seq<DeliveryView>, n: int, m: int)
    requires
        0 <= n <= m,
    ensures
        total_delay(inbound, n) <= total_delay(inbound, m),
    decreases m,
{
    if m > n {
        lemma_total_delay_mono(inbound, n, m - 1);
    }
}

pub proof fn lemma_total_delay_drop_first(inbound: Seq<DeliveryView>, n: int)
    requires
        0 <= n,
        n + 1 <= inbound.len(),
    ensures
        total_delay(inbound.drop_first(), n) == total_delay(inbound, n + 1)
            - inbound[0].delay_ms,
    decreases n,
{
    if n == 0 {
        assert(total_delay(inbound.drop_first(), 0) == 0);
        assert(total_delay(inbound, 0) == 0);
        assert(total_delay(inbound, 1) == inbound[0].delay_ms);
    } else {
        lemma_total_delay_drop_first(inbound, n - 1);
        assert(inbound.drop_first()[n - 1] == inbound[n]);
        assert(total_delay(inbound.drop_first(), n)
            == total_delay(inbound.drop_first(), n - 1) + inbound[n].delay_ms);
        assert(total_delay(inbound, n + 1) == total_delay(inbound, n) + inbound[n].delay_ms);
    }
}

/// Identifier filtering: when every delivered datagram decodes to an Echo
/// Reply, those before the k-th all carry a foreign identifier, the k-th
/// carries the session's own, and the delays up to and including the k-th
/// total less than the remaining time, the receive returns exactly the
/// k-th reply: the foreign ones around it are discarded, in whatever
/// order they come.
pub proof fn lemma_identifier_filtering(
    identifier: u16,
    inbound: Seq<DeliveryView>,
    remaining: int,
    k: int,
)
    requires
        0 <= k < inbound.len(),
        forall|j: int| 0 <= j <= k ==> decodes_to_echo_reply(#[trigger] inbound[j]),
        forall|j: int| 0 <= j < k ==> delivered_identifier(#[trigger] inbound[j]) != identifier,
        delivered_identifier(inbound[k]) == identifier,
        total_delay(inbound, k + 1) < remaining,
    ensures
        recv_spec(identifier, inbound, remaining) == Result::<ReplyView, PingErrorView>::Ok(
            ReplyView::EchoReply {
                from: inbound[k].from,
                sequence_number: decode_spec(inbound[k].bytes, inbound[k].from)->sequence_number,
                payload: decode_spec(inbound[k].bytes, inbound[k].from)->payload,
            },
        ),
    decreases k,
{
    lemma_total_delay_mono(inbound, 1, k + 1);
    assert(total_delay(inbound, 1) == total_delay(inbound, 0) + inbound[0].delay_ms);
    assert(total_delay(inbound, 0) == 0);
    assert(inbound[0].delay_ms < remaining);
    if k > 0 {
        lemma_total_delay_drop_first(inbound, k);
        assert(forall|j: int| 0 <= j < inbound.len() - 1
            ==> #[trigger] inbound.drop_first()[j] == inbound[j + 1]);
        lemma_identifier_filtering(
            identifier,
            inbound.drop_first(),
            remaining - inbound[0].delay_ms,
            k - 1,
        );
        assert(inbound.drop_first()[k - 1] == inbound[k]);
    }
}

/// When every delivered datagram is an Echo Reply bearing a foreign
/// identifier, the receive reports Timeout, however many datagrams arrive
/// and however they are spaced.
pub proof fn lemma_foreign_replies_time_out(
    identifier: u16,
    inbound: Seq<DeliveryView>,
    remaining: int,
)
    requires
        forall|j: int| 0 <= j < inbound.len() ==> decodes_to_echo_reply(#[trigger] inbound[j])
            && delivered_identifier(inbound[j]) != identifier,
    ensures
        recv_spec(identifier, inbound, remaining) == Result::<ReplyView, PingErrorView>::Ok(
            ReplyView::Timeout,
        ),
    decreases inbound.len(),
{
    if inbound.len() > 0 && inbound[0].delay_ms < remaining {
        assert(forall|j: int| 0 <= j < inbound.len() - 1
            ==> #[trigger] inbound.drop_first()[j] == inbound[j + 1]);
        lemma_foreign_replies_time_out(
            identifier,
            inbound.drop_first(),
            remaining - inbound[0].delay_ms,
        );
    }
}

/// The wall-clock time one receive call consumes out of `remaining`
/// milliseconds: the delays of the datagrams it examines before stopping,
/// plus, when the stream is exhausted or the next datagram comes too late,
/// the rest of the wait until the deadline.
pub open spec fn recv_elapsed(identifier: u16, inbound: Seq<DeliveryView>, remaining: int) -> int
    decreases inbound.len(),
{
    if remaining <= 0 {
        0
    } else if inbound.len() == 0 {
        remaining
    } else {
        let d = inbound[0];
        if d.delay_ms >= remaining {
            remaining
        } else {
            match recv_step_spec(
                identifier,
                RecvEventView::Datagram { bytes: d.bytes, from: d.from },
            ) {
                RecvStepView::KeepWaiting => d.delay_ms + recv_elapsed(
                    identifier,
                    inbound.drop_first(),
                    remaining - d.delay_ms,
                ),
                _ => d.delay_ms as int,
            }
        }
    }
}

/// Deadline monotonicity: a receive call never takes longer than the time
/// it was given, whatever traffic arrives. Discarding a foreign reply
/// spends that reply's delay out of the remaining time; it never resets
/// the clock.
pub proof fn lemma_recv_within_deadline(
    identifier: u16,
    inbound: Seq<DeliveryView>,
    remaining: int,
)
    requires
        remaining >= 0,
    ensures
        0 <= recv_elapsed(identifier, inbound, remaining) <= remaining,
    decreases inbound.len(),
{
    if remaining > 0 && inbound.len() > 0 && inbound[0].delay_ms < remaining {
        lemma_recv_within_deadline(
            identifier,
            inbound.drop_first(),
            remaining - inbound[0].delay_ms,
        );
    }
}

/// Time-Exceeded bypass: a datagram that decodes to Time Exceeded is
/// delivered at once, with no identifier check — the decision is the same
/// under every session identifier, so no prior send of the session can
/// matter to it.
pub proof fn lemma_time_exceeded_bypass(
    identifier: u16,
    other: u16,
    bytes: Seq<u8>,
    from: Ipv4Address,
)
    requires
        decode_spec(bytes, from) is TimeToLiveExceeded,
    ensures
        recv_step_spec(identifier, RecvEventView::Datagram { bytes, from })
            == (RecvStepView::Deliver { reply: ReplyView::TimeToLiveExceeded { from } }),
        recv_step_spec(identifier, RecvEventView::Datagram { bytes, from })
            == recv_step_spec(other, RecvEventView::Datagram { bytes, from }),
{
}

} // verus!
