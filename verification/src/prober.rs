//! Probe kinds, the request handed to a probe driver and what a probe reports.

use crate::timestamp::{monotonic_ns_from, nanos_of};
use crate::util::{join_host_port, join_host_port_spec};
use vstd::prelude::*;

verus! {

/// The protocol by which a target is probed.
#[derive(Debug, Clone, Copy, PartialEq, Eq, Structural)]
pub enum ProbeKind {
    Icmp,
    TcpConnect,
    Http,
    Echo,
}

/// The label under which observations of a probe kind are recorded.
pub open spec fn label_of(kind: ProbeKind) -> Seq<char> {
    match kind {
        ProbeKind::Icmp => "icmp"@,
        ProbeKind::TcpConnect => "tcp_connect"@,
        ProbeKind::Http => "http"@,
        ProbeKind::Echo => "echo"@,
    }
}

impl ProbeKind {
    /// The label under which observations of this kind are recorded.
    pub fn label(&self) -> (s: &'static str)
        ensures
            s@ == label_of(*self),
    {
        match self {
            ProbeKind::Icmp => "icmp",
            ProbeKind::TcpConnect => "tcp_connect",
            ProbeKind::Http => "http",
            ProbeKind::Echo => "echo",
        }
    }
}

/// Two probe kinds with one label are one kind: the label identifies the kind.
pub proof fn lemma_label_identifies_kind(a: ProbeKind, b: ProbeKind)
    requires
        label_of(a) == label_of(b),
    ensures
        a == b,
{
    reveal_strlit("icmp");
    reveal_strlit("tcp_connect");
    reveal_strlit("http");
    reveal_strlit("echo");
    assert("icmp"@[0] == 'i' && "tcp_connect"@[0] == 't' && "http"@[0] == 'h' && "echo"@[0] == 'e');
    assert(label_of(a)[0] == label_of(b)[0]);
}

/// Why a probe did not measure a latency.
#[derive(Debug, Clone, Copy, PartialEq, Eq, Structural)]
pub enum FailureReason {
    /// The host name could not be resolved to an address.
    ResolutionError,
    /// The destination refused the connection.
    ConnectionRefused,
    /// The transport failed below the protocol.
    NetworkError,
    /// The deadline passed with no result.
    Timeout,
    /// The request failed above the transport.
    RequestError,
}

/// A measured round trip: whole seconds and the nanoseconds beyond them.
#[derive(Debug, Clone, Copy, PartialEq, Eq, Structural)]
pub struct Latency {
    pub secs: u64,
    pub subsec_nanos: u32,
}

/// What one probe attempt ended in.
#[derive(Debug, Clone, Copy, PartialEq, Eq, Structural)]
pub enum ProbeResult {
    Success(Latency),
    Failure(FailureReason),
}

/// What a driver saw of one attempt, before it is filed under a failure reason.
#[derive(Debug, Clone, Copy, PartialEq, Eq, Structural)]
pub enum ProbeEvent {
    /// The reply came after the given round trip.
    Replied(Latency),
    /// The deadline passed with no reply.
    DeadlineElapsed,
    /// The host name gave no address.
    NameUnresolved,
    /// The destination refused the connection.
    Refused,
    /// The operating system or the network failed the attempt.
    TransportFault,
    /// The exchange failed above the transport.
    ProtocolFault,
}

/// The failure reasons that a driver of the kind `kind` reports: a timeout from
/// each; a resolution or network error from ICMP; a refused connection or a
/// network error from TCP connect; a request error from HTTP; a network error
/// from echo.
pub open spec fn may_report(kind: ProbeKind, reason: FailureReason) -> bool {
    match kind {
        ProbeKind::Icmp => reason == FailureReason::Timeout || reason
            == FailureReason::ResolutionError || reason == FailureReason::NetworkError,
        ProbeKind::TcpConnect => reason == FailureReason::Timeout || reason
            == FailureReason::ConnectionRefused || reason == FailureReason::NetworkError,
        ProbeKind::Http => reason == FailureReason::Timeout || reason
            == FailureReason::RequestError,
        ProbeKind::Echo => reason == FailureReason::Timeout || reason
            == FailureReason::NetworkError,
    }
}

/// The result that an event stands for with a driver of the kind `kind`. A
/// reply is a success with its round trip, and a deadline that passed is a
/// timeout, with every driver. Of the rest, HTTP files all under request
/// error; ICMP alone tells a name that gave no address, and TCP connect alone a
/// refused connection; what is left is a network error.
pub open spec fn classified(kind: ProbeKind, event: ProbeEvent) -> ProbeResult {
    match event {
        ProbeEvent::Replied(latency) => ProbeResult::Success(latency),
        ProbeEvent::DeadlineElapsed => ProbeResult::Failure(FailureReason::Timeout),
        _ => ProbeResult::Failure(
            if kind == ProbeKind::Http {
                FailureReason::RequestError
            } else if kind == ProbeKind::Icmp && event == ProbeEvent::NameUnresolved {
                FailureReason::ResolutionError
            } else if kind == ProbeKind::TcpConnect && event == ProbeEvent::Refused {
                FailureReason::ConnectionRefused
            } else {
                FailureReason::NetworkError
            },
        ),
    }
}

/// Files what a driver of the kind `kind` saw under success or a failure
/// reason.
pub fn classify(kind: ProbeKind, event: ProbeEvent) -> (result: ProbeResult)
    ensures
        result == classified(kind, event),
{
    match event {
        ProbeEvent::Replied(latency) => ProbeResult::Success(latency),
        ProbeEvent::DeadlineElapsed => ProbeResult::Failure(FailureReason::Timeout),
        ProbeEvent::NameUnresolved => match kind {
            ProbeKind::Http => ProbeResult::Failure(FailureReason::RequestError),
            ProbeKind::Icmp => ProbeResult::Failure(FailureReason::ResolutionError),
            _ => ProbeResult::Failure(FailureReason::NetworkError),
        },
        ProbeEvent::Refused => match kind {
            ProbeKind::Http => ProbeResult::Failure(FailureReason::RequestError),
            ProbeKind::TcpConnect => ProbeResult::Failure(FailureReason::ConnectionRefused),
            _ => ProbeResult::Failure(FailureReason::NetworkError),
        },
        _ => match kind {
            ProbeKind::Http => ProbeResult::Failure(FailureReason::RequestError),
            _ => ProbeResult::Failure(FailureReason::NetworkError),
        },
    }
}

/// Every event is filed, and a failure only under a reason that the driver of
/// that kind reports; a success exactly for a reply.
pub proof fn lemma_classified_within_taxonomy(kind: ProbeKind, event: ProbeEvent)
    ensures
        classified(kind, event) is Success <==> event is Replied,
        classified(kind, event) matches ProbeResult::Failure(reason) ==> may_report(kind, reason),
{
}

impl Latency {
    /// The latency as one count of nanoseconds.
    pub fn as_nanos(&self) -> (ns: u128)
        ensures
            ns == nanos_of(self.secs, self.subsec_nanos),
    {
        monotonic_ns_from(self.secs, self.subsec_nanos)
    }
}

/// The port of a TCP target that names none.
pub const DEFAULT_TCP_PORT: u16 = 80;

/// The port of an HTTP target that names none.
pub const DEFAULT_HTTP_PORT: u16 = 80;

/// The port of an echo target that names none.
pub const DEFAULT_ECHO_PORT: u16 = 9000;

/// The deadline of a TCP connect, in milliseconds.
pub const TCP_DEADLINE_MS: u64 = 3000;

/// The deadline of an HTTP request and its response, in milliseconds.
pub const HTTP_DEADLINE_MS: u64 = 30000;

/// The timeout that the HTTP client itself is built with, in milliseconds.
pub const HTTP_CLIENT_TIMEOUT_MS: u64 = 5000;

/// The deadline of an echo round trip, in milliseconds.
pub const ECHO_DEADLINE_MS: u64 = 1000;

/// The payload of a ping: the low 16 bits of the process id, most significant
/// byte first, so that a reply can be told from those to other processes.
pub fn ping_payload(process_id: u32) -> (payload: [u8; 2])
    ensures
        payload[0] == (process_id / 256) % 256,
        payload[1] == process_id % 256,
{
    let high: u8 = ((process_id / 256) % 256) as u8;
    let low: u8 = (process_id % 256) as u8;
    [high, low]
}

/// The payload of an echo probe: the four bytes of `ping`.
pub fn echo_payload() -> (payload: [u8; 4])
    ensures
        payload@ == seq![112u8, 105u8, 110u8, 103u8],
{
    let payload: [u8; 4] = [112, 105, 110, 103];
    assert(payload@ =~= seq![112u8, 105u8, 110u8, 103u8]);
    payload
}

/// One probe attempt, as handed to the driver of its kind.
#[derive(Debug)]
pub struct ProbeRequest {
    /// The name of the target, under which the result is recorded.
    pub target: String,
    pub kind: ProbeKind,
    pub host: String,
    /// The port to reach; none for ICMP.
    pub port: Option<u16>,
    /// Milliseconds after which the attempt is given up.
    pub deadline_ms: u64,
}

/// A probe request as plain values.
pub struct RequestView {
    pub target: Seq<char>,
    pub kind: ProbeKind,
    pub host: Seq<char>,
    pub port: Option<u16>,
    pub deadline_ms: u64,
}

impl View for ProbeRequest {
    type V = RequestView;

    open spec fn view(&self) -> RequestView {
        RequestView {
            target: self.target@,
            kind: self.kind,
            host: self.host@,
            port: self.port,
            deadline_ms: self.deadline_ms,
        }
    }
}

/// The address that a request is sent to: host, `:` and port, or the host alone
/// where the request has no port.
pub open spec fn address_of(request: RequestView) -> Seq<char> {
    match request.port {
        Some(port) => join_host_port_spec(request.host, port),
        None => request.host,
    }
}

impl ProbeRequest {
    /// The address that the request is sent to.
    pub fn address(&self) -> (a: String)
        ensures
            a@ == address_of(self@),
    {
        match self.port {
            Some(port) => join_host_port(self.host.as_str(), port),
            None => self.host.clone(),
        }
    }

    /// The outcome of this request, by what its driver saw.
    pub fn concluded(&self, event: ProbeEvent) -> (outcome: ProbeOutcome)
        ensures
            outcome@ == (OutcomeView {
                target: self@.target,
                kind: self@.kind,
                result: classified(self@.kind, event),
            }),
    {
        ProbeOutcome {
            target: self.target.clone(),
            kind: self.kind,
            result: classify(self.kind, event),
        }
    }

    /// The outcome of this request that measured `latency`.
    pub fn succeeded(&self, latency: Latency) -> (outcome: ProbeOutcome)
        ensures
            outcome@ == (OutcomeView {
                target: self@.target,
                kind: self@.kind,
                result: ProbeResult::Success(latency),
            }),
    {
        ProbeOutcome {
            target: self.target.clone(),
            kind: self.kind,
            result: ProbeResult::Success(latency),
        }
    }

    /// The outcome of this request that failed for `reason`.
    pub fn failed(&self, reason: FailureReason) -> (outcome: ProbeOutcome)
        ensures
            outcome@ == (OutcomeView {
                target: self@.target,
                kind: self@.kind,
                result: ProbeResult::Failure(reason),
            }),
    {
        ProbeOutcome {
            target: self.target.clone(),
            kind: self.kind,
            result: ProbeResult::Failure(reason),
        }
    }
}

/// What became of one probe attempt.
#[derive(Debug)]
pub struct ProbeOutcome {
    /// The name of the target that was probed.
    pub target: String,
    pub kind: ProbeKind,
    pub result: ProbeResult,
}

/// A probe outcome as plain values.
pub struct OutcomeView {
    pub target: Seq<char>,
    pub kind: ProbeKind,
    pub result: ProbeResult,
}

impl View for ProbeOutcome {
    type V = OutcomeView;

    open spec fn view(&self) -> OutcomeView {
        OutcomeView { target: self.target@, kind: self.kind, result: self.result }
    }
}

} // verus!
