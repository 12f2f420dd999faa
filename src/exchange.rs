use vstd::prelude::*;

use crate::error::Error;
use crate::packet::{handshake_view, opening_packets, ping_request, HandshakeView, Inbound, Outbound, StatusPacket, PING_TIME};
use crate::resolve::Endpoint;

verus! {

/// Seconds the status phase may take, from the first write to the status
/// response.
pub const STATUS_DEADLINE_SECS: u64 = 5;

/// What the status phase does with one inbound frame.
#[derive(Clone, Debug)]
pub enum WaitStep {
    /// Another status-channel packet: drop it and read the next frame.
    KeepReading,
    /// The status response: the phase is over.
    Accept(String),
    /// A frame that could not be decoded: the whole lookup ends.
    Abort(Error),
}

/// Whether a frame is a decoded status-channel packet other than the status
/// response.
pub open spec fn is_skippable(i: Inbound) -> bool {
    i matches Inbound::Packet(p) && p is Pong
}

/// How the status phase ends on the frames `s`, read in order: `None` while
/// no frame has decided it, else the status text or the error.
pub open spec fn wait_outcome(s: Seq<Inbound>) -> Option<Result<String, Error>>
    decreases s.len(),
{
    if s.len() == 0 {
        None
    } else {
        match s[0] {
            Inbound::Packet(StatusPacket::Response(text)) => Some(Ok(text)),
            Inbound::Packet(StatusPacket::Pong { .. }) => wait_outcome(s.drop_first()),
            Inbound::Undecodable => Some(Err(Error::DecodingFailed)),
        }
    }
}

/// Decides on one frame read while waiting for the status response.
pub fn status_step(frame: &Inbound) -> (r: WaitStep)
    ensures
        *frame matches Inbound::Packet(StatusPacket::Response(t)) ==> r == WaitStep::Accept(t),
        is_skippable(*frame) ==> r is KeepReading,
        frame is Undecodable ==> r == WaitStep::Abort(Error::DecodingFailed),
{
    match frame {
        Inbound::Packet(StatusPacket::Response(text)) => WaitStep::Accept(text.clone()),
        Inbound::Packet(StatusPacket::Pong { .. }) => WaitStep::KeepReading,
        Inbound::Undecodable => WaitStep::Abort(Error::DecodingFailed),
    }
}

/// Runs the status phase over frames already read, in order: the first frame
/// that decides ends it, and the frames after it are not looked at.
pub fn await_status(frames: &Vec<Inbound>) -> (r: Option<Result<String, Error>>)
    ensures
        r == wait_outcome(frames@),
{
    let n = frames.len();
    let mut i: usize = 0;
    assert(frames@.subrange(0, n as int) =~= frames@);
    while i < n
        invariant
            n == frames@.len(),
            i <= n,
            wait_outcome(frames@) == wait_outcome(frames@.subrange(i as int, n as int)),
        decreases n - i,
    {
        assert(frames@.subrange(i as int, n as int).drop_first() =~= frames@.subrange(
            i + 1,
            n as int,
        ));
        match status_step(&frames[i]) {
            WaitStep::Accept(text) => {
                return Some(Ok(text));
            },
            WaitStep::Abort(e) => {
                return Some(Err(e));
            },
            WaitStep::KeepReading => {},
        }
        i = i + 1;
    }
    assert(frames@.subrange(n as int, n as int).len() == 0);
    None
}

/// Dropping frames that are skippable, however many, does not change how
/// the status phase ends.
pub proof fn lemma_skipped_frames_discarded(skipped: Seq<Inbound>, rest: Seq<Inbound>)
    requires
        forall|k: int| 0 <= k < skipped.len() ==> is_skippable(#[trigger] skipped[k]),
    ensures
        wait_outcome(skipped + rest) == wait_outcome(rest),
    decreases skipped.len(),
{
    if skipped.len() > 0 {
        let s = skipped + rest;
        assert(s[0] == skipped[0]);
        assert(s.drop_first() =~= skipped.drop_first() + rest);
        assert forall|k: int| 0 <= k < skipped.drop_first().len() implies is_skippable(
            #[trigger] skipped.drop_first()[k],
        ) by {
            assert(skipped.drop_first()[k] == skipped[k + 1]);
        }
        lemma_skipped_frames_discarded(skipped.drop_first(), rest);
    } else {
        assert(skipped + rest =~= rest);
    }
}

/// The status phase accepts the first status response that follows any
/// number of other status-channel packets, whatever comes after it.
pub proof fn lemma_first_response_accepted(skipped: Seq<Inbound>, text: String, rest: Seq<Inbound>)
    requires
        forall|k: int| 0 <= k < skipped.len() ==> is_skippable(#[trigger] skipped[k]),
    ensures
        wait_outcome(skipped + seq![Inbound::Packet(StatusPacket::Response(text))] + rest)
            == Some(Ok::<String, Error>(text)),
{
    let tail = seq![Inbound::Packet(StatusPacket::Response(text))] + rest;
    assert(skipped + seq![Inbound::Packet(StatusPacket::Response(text))] + rest =~= skipped
        + tail);
    lemma_skipped_frames_discarded(skipped, tail);
    assert(tail[0] == Inbound::Packet(StatusPacket::Response(text)));
}

/// A frame that cannot be decoded ends the whole lookup with a decoding
/// error, however many other status-channel packets came before it.
pub proof fn lemma_undecodable_frame_aborts(skipped: Seq<Inbound>, rest: Seq<Inbound>)
    requires
        forall|k: int| 0 <= k < skipped.len() ==> is_skippable(#[trigger] skipped[k]),
    ensures
        wait_outcome(skipped + seq![Inbound::Undecodable] + rest) == Some(
            Err::<String, Error>(Error::DecodingFailed),
        ),
{
    let tail = seq![Inbound::Undecodable] + rest;
    assert(skipped + seq![Inbound::Undecodable] + rest =~= skipped + tail);
    lemma_skipped_frames_discarded(skipped, tail);
    assert(tail[0] == Inbound::Undecodable);
}

/// Ends the status phase: `waited` is `None` where the deadline passed before
/// the phase was decided, else how it ended. A timeout gives no status text.
pub fn settle_status_phase(waited: Option<Result<String, Error>>) -> (r: Result<String, Error>)
    ensures
        waited is None ==> r == Err::<String, Error>(Error::Timeout),
        waited is Some ==> r == waited->0,
{
    match waited {
        None => Err(Error::Timeout),
        Some(outcome) => outcome,
    }
}

/// What became of the ping exchange.
#[derive(Clone, Debug)]
pub enum PingReply {
    /// A frame came back `elapsed_nanos` nanoseconds after the ping request
    /// was flushed.
    Received { frame: Inbound, elapsed_nanos: u64 },
    /// The request could not be sent, or no frame could be read.
    Failed,
}

/// The latency a ping exchange yields: the measured time where the reply
/// decoded as a status-channel packet, and nothing otherwise.
pub open spec fn latency_of(reply: PingReply) -> Option<u64> {
    match reply {
        PingReply::Received { frame: Inbound::Packet(_), elapsed_nanos } => Some(elapsed_nanos),
        _ => None,
    }
}

/// The outcome of a successful lookup.
#[derive(Clone, Debug)]
pub struct JavaResult {
    /// The server's status document, as sent.
    pub resp: String,
    /// The measured round trip of the ping exchange, in nanoseconds, where
    /// it completed with a recognisable reply.
    pub ping_nanos: Option<u64>,
}

/// The latency to report for a ping exchange.
pub fn ping_latency(reply: &PingReply) -> (r: Option<u64>)
    ensures
        r == latency_of(*reply),
{
    match reply {
        PingReply::Received { frame: Inbound::Packet(_), elapsed_nanos } => Some(*elapsed_nanos),
        _ => None,
    }
}

/// Puts the result together once the status response is in: whatever became
/// of the ping, the lookup succeeds.
pub fn assemble(status: String, reply: &PingReply) -> (r: JavaResult)
    ensures
        r.resp == status,
        r.ping_nanos == latency_of(*reply),
        reply is Failed ==> r.ping_nanos is None,
        reply matches PingReply::Received { frame, .. } && frame is Undecodable ==> r.ping_nanos
            is None,
{
    JavaResult { resp: status, ping_nanos: ping_latency(reply) }
}

/// While the status phase is undecided, every frame read so far was a
/// skippable one.
proof fn lemma_undecided_frames_skippable(s: Seq<Inbound>)
    requires
        wait_outcome(s) is None,
    ensures
        forall|k: int| 0 <= k < s.len() ==> is_skippable(#[trigger] s[k]),
    decreases s.len(),
{
    if s.len() > 0 {
        lemma_undecided_frames_skippable(s.drop_first());
        assert forall|k: int| 0 <= k < s.len() implies is_skippable(#[trigger] s[k]) by {
            if k > 0 {
                assert(s[k] == s.drop_first()[k - 1]);
            }
        }
    }
}

/// Where a status lookup stands once its connection is open.
#[derive(Clone, Debug)]
pub enum Phase {
    /// Nothing sent yet.
    Idle,
    /// Handshake and status request sent; reading frames until the status
    /// response.
    AwaitingStatus,
    /// The status response is in; the ping is not sent yet.
    StatusReceived(String),
    /// The ping request is sent; its reply is awaited.
    PingSent(String),
    /// The lookup failed.
    Failed(Error),
}

/// One status lookup over an open connection. The caller performs the I/O
/// that each method asks for and reports what it observed.
pub struct Session {
    /// The host name the lookup was asked for.
    pub hostname: String,
    /// Where the connection was opened.
    pub endpoint: Endpoint,
    /// The protocol version the caller asked for, if any.
    pub version: Option<i32>,
    pub phase: Phase,
    /// The frames read during the status phase, in order.
    pub frames: Ghost<Seq<Inbound>>,
    /// The packets handed out to be written, in order.
    pub sent: Ghost<Seq<Outbound>>,
}

impl Session {
    /// The packets sent are exactly one handshake declaring this lookup,
    /// then exactly one status request.
    pub open spec fn opened(&self) -> bool {
        &&& self.sent@.len() >= 2
        &&& self.sent@[0] matches Outbound::Handshake(h) && h@ == self.declared()
        &&& self.sent@[1] is StatusRequest
    }

    /// The phase agrees with the packets sent and the frames read so far:
    /// nothing is read before the handshake and the status request are sent,
    /// and the ping follows the status response.
    pub open spec fn wf(&self) -> bool {
        match self.phase {
            Phase::Idle => self.frames@.len() == 0 && self.sent@.len() == 0,
            Phase::AwaitingStatus => {
                &&& wait_outcome(self.frames@) is None
                &&& self.opened()
                &&& self.sent@.len() == 2
            },
            Phase::StatusReceived(t) => {
                &&& wait_outcome(self.frames@) == Some(Ok::<String, Error>(t))
                &&& self.opened()
                &&& self.sent@.len() == 2
            },
            Phase::PingSent(t) => {
                &&& wait_outcome(self.frames@) == Some(Ok::<String, Error>(t))
                &&& self.opened()
                &&& self.sent@.len() == 3
                &&& self.sent@[2] is Ping
            },
            Phase::Failed(_) => true,
        }
    }

    /// The handshake this lookup declares.
    pub open spec fn declared(&self) -> HandshakeView {
        handshake_view(self.hostname@, self.endpoint@, self.version)
    }

    /// Whether `next` is this session with only its phase and frames changed.
    pub open spec fn same_target(&self, next: &Session) -> bool {
        &&& next.hostname == self.hostname
        &&& next.endpoint == self.endpoint
        &&& next.version == self.version
    }

    /// A session for a lookup of `hostname` over a connection to `endpoint`.
    pub fn new(hostname: &str, endpoint: Endpoint, version: Option<i32>) -> (r: Session)
        ensures
            r.wf(),
            r.phase is Idle,
            r.hostname@ == hostname@,
            r.endpoint == endpoint,
            r.version == version,
    {
        Session {
            hostname: String::from_str(hostname),
            endpoint,
            version,
            phase: Phase::Idle,
            frames: Ghost(Seq::empty()),
            sent: Ghost(Seq::empty()),
        }
    }

    /// Starts the lookup: returns the packets to write and flush, the
    /// handshake first and the status request second. The status phase,
    /// bounded by the deadline, begins.
    pub fn start(&mut self) -> (r: Vec<Outbound>)
        requires
            old(self).wf(),
            old(self).phase is Idle,
        ensures
            final(self).wf(),
            old(self).same_target(final(self)),
            final(self).phase is AwaitingStatus,
            final(self).frames@ == old(self).frames@,
            final(self).sent@ == old(self).sent@ + r@,
            r@.len() == 2,
            r@[0] matches Outbound::Handshake(h) && h@ == old(self).declared(),
            r@[0] matches Outbound::Handshake(h) && h.server_port == old(self).endpoint.port,
            r@[1] is StatusRequest,
    {
        let packets = opening_packets(self.hostname.as_str(), &self.endpoint, self.version);
        self.sent = Ghost(self.sent@ + packets@);
        assert(self.sent@ =~= packets@);
        self.phase = Phase::AwaitingStatus;
        packets
    }

    /// Takes one frame read during the status phase. A skippable packet
    /// leaves the phase as it is; the status response ends it; an
    /// undecodable frame fails the lookup.
    pub fn on_status_frame(&mut self, frame: Inbound) -> (r: WaitStep)
        requires
            old(self).wf(),
            old(self).phase is AwaitingStatus,
        ensures
            final(self).wf(),
            old(self).same_target(final(self)),
            final(self).frames@ == old(self).frames@.push(frame),
            final(self).sent@ == old(self).sent@,
            wait_outcome(final(self).frames@) == wait_outcome(seq![frame]),
            frame matches Inbound::Packet(StatusPacket::Response(t)) ==> r == WaitStep::Accept(t)
                && final(self).phase == Phase::StatusReceived(t),
            is_skippable(frame) ==> r is KeepReading && final(self).phase is AwaitingStatus,
            frame is Undecodable ==> r == WaitStep::Abort(Error::DecodingFailed)
                && final(self).phase == Phase::Failed(Error::DecodingFailed),
    {
        let ghost before = self.frames@;
        proof {
            lemma_undecided_frames_skippable(before);
            lemma_skipped_frames_discarded(before, seq![frame]);
            assert(before + seq![frame] =~= before.push(frame));
            assert(seq![frame].drop_first() =~= Seq::<Inbound>::empty());
            assert(wait_outcome(Seq::<Inbound>::empty()) is None);
        }
        self.frames = Ghost(before.push(frame));
        let step = status_step(&frame);
        match &step {
            WaitStep::Accept(text) => {
                self.phase = Phase::StatusReceived(text.clone());
            },
            WaitStep::Abort(e) => {
                self.phase = Phase::Failed(*e);
            },
            WaitStep::KeepReading => {},
        }
        step
    }

    /// The deadline passed while the status phase was undecided: the lookup
    /// fails with a timeout.
    pub fn on_deadline(&mut self)
        requires
            old(self).wf(),
            old(self).phase is AwaitingStatus,
        ensures
            final(self).wf(),
            old(self).same_target(final(self)),
            final(self).phase == Phase::Failed(Error::Timeout),
    {
        self.phase = Phase::Failed(Error::Timeout);
    }

    /// Writing or reading failed before the status response was in.
    pub fn on_transport_error(&mut self, e: Error)
        requires
            old(self).wf(),
            old(self).phase is Idle || old(self).phase is AwaitingStatus,
        ensures
            final(self).wf(),
            old(self).same_target(final(self)),
            final(self).phase == Phase::Failed(e),
    {
        self.phase = Phase::Failed(e);
    }

    /// Returns the ping request to write and flush; the clock starts once it
    /// is flushed.
    pub fn send_ping(&mut self) -> (r: Outbound)
        requires
            old(self).wf(),
            old(self).phase is StatusReceived,
        ensures
            final(self).wf(),
            old(self).same_target(final(self)),
            final(self).frames@ == old(self).frames@,
            final(self).phase == Phase::PingSent(old(self).phase->StatusReceived_0),
            final(self).sent@ == old(self).sent@.push(r),
            r == (Outbound::Ping { time: PING_TIME }),
    {
        let text = match &self.phase {
            Phase::StatusReceived(t) => t.clone(),
            _ => String::new(),
        };
        self.phase = Phase::PingSent(text);
        let ping = ping_request();
        self.sent = Ghost(self.sent@.push(ping));
        ping
    }

    /// Ends the lookup. A lookup whose status response came in succeeds with
    /// that text, whatever became of the ping; one that failed reports why.
    pub fn finish(self, reply: &PingReply) -> (r: Result<JavaResult, Error>)
        requires
            self.wf(),
            self.phase is PingSent || self.phase is Failed,
        ensures
            self.phase matches Phase::PingSent(t) ==> r is Ok && r->Ok_0.resp == t
                && r->Ok_0.ping_nanos == latency_of(*reply),
            self.phase matches Phase::PingSent(t) ==> wait_outcome(self.frames@) == Some(
                Ok::<String, Error>(r->Ok_0.resp),
            ),
            self.phase matches Phase::PingSent(t) ==> self.opened() && self.sent@.len() == 3
                && self.sent@[2] is Ping,
            self.phase matches Phase::Failed(e) ==> r == Err::<JavaResult, Error>(e),
    {
        match self.phase {
            Phase::Failed(e) => Err(e),
            Phase::PingSent(t) => Ok(assemble(t, reply)),
            _ => Err(Error::TransportFailed),
        }
    }
}

} // verus!
