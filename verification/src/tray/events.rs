//! The events that a pairing sends the tray, and the messages between the tray and its elevated
//! helper.

use crate::arguments::{is_secret, secret};
use crate::endpoint::{
    origin_of, read_url, trim_slashes, url_read, web_origin, without_slashes, UrlParts, UrlView,
};
use crate::identifier::{
    canonical, canonical_uuid, hyphenated, uuid_read, IdentifierFault,
};
use crate::text;
use vstd::prelude::*;

verus! {

/// The longest line of an event stream, in bytes.
pub const MAX_NDJSON_LINE_BYTES: usize = 16_384;

/// The longest event stream, in bytes.
pub const MAX_NDJSON_TOTAL_BYTES: usize = 131_072;

/// An identifier in a message.
#[derive(Clone, Copy, PartialEq, Eq, Structural, Debug)]
pub enum Label {
    RequestId,
    Generation,
    PairedRequestId,
    PairedInstanceId,
    InterruptedRequestId,
    MessageGeneration,
    MessageRequestId,
}

impl Label {
    /// What the identifier is called.
    pub open spec fn named(self) -> Seq<char> {
        match self {
            Label::RequestId => "Agent pairing request id"@,
            Label::Generation => "Agent pairing generation"@,
            Label::PairedRequestId => "Agent paired request id"@,
            Label::PairedInstanceId => "Agent paired instance id"@,
            Label::InterruptedRequestId => "Agent interrupted request id"@,
            Label::MessageGeneration => "pairing IPC generation"@,
            Label::MessageRequestId => "pairing IPC request id"@,
        }
    }

    fn name(&self) -> (r: &'static str)
        ensures
            r@ == self.named(),
    {
        match self {
            Label::RequestId => "Agent pairing request id",
            Label::Generation => "Agent pairing generation",
            Label::PairedRequestId => "Agent paired request id",
            Label::PairedInstanceId => "Agent paired instance id",
            Label::InterruptedRequestId => "Agent interrupted request id",
            Label::MessageGeneration => "pairing IPC generation",
            Label::MessageRequestId => "pairing IPC request id",
        }
    }
}

/// What is wrong with an event stream or a message.
#[derive(Clone, Copy, PartialEq, Eq, Structural, Debug)]
pub enum EventFault {
    LineTooLarge,
    StreamTooLarge,
    EmptyLine,
    TwoActivations,
    BrowserUrl,
    ActivationOrigin,
    Identifier(Label, IdentifierFault),
    PairedBeforeKey,
    TwoPairings,
    OtherRequest,
    Interrupted,
    Cancelled,
    Deadline,
    /// The stream ended before the authorization key was asked for.
    MissingAuthorizationKey,
    NotPaired,
    PairingEndpoint,
    PairingOrigin,
    MessageOrigin,
    ActivationUrl,
}

impl EventFault {
    /// The words in which the fault is reported.
    pub open spec fn text(self) -> Seq<char> {
        match self {
            EventFault::LineTooLarge => "pairing event line is too large"@,
            EventFault::StreamTooLarge => "pairing event stream is too large"@,
            EventFault::EmptyLine => "pairing event stream contains an empty line"@,
            EventFault::TwoActivations => "Agent emitted more than one activation event"@,
            EventFault::BrowserUrl => "the address is not one that a browser may open"@,
            EventFault::ActivationOrigin =>
                "Agent activation URL origin differs from the confirmed server"@,
            EventFault::Identifier(label, fault) => fault.text(label.named()),
            EventFault::PairedBeforeKey =>
                "Agent paired before the authorization key was supplied"@,
            EventFault::TwoPairings => "Agent emitted more than one paired event"@,
            EventFault::OtherRequest =>
                "Agent paired a different request than the one authorized"@,
            EventFault::Interrupted => "browser pairing was interrupted"@,
            EventFault::Cancelled => "browser pairing was cancelled safely"@,
            EventFault::Deadline => "browser pairing reached its safety deadline"@,
            EventFault::MissingAuthorizationKey => "Agent did not request an authorization key"@,
            EventFault::NotPaired => "Agent did not emit a successful pairing event"@,
            EventFault::PairingEndpoint =>
                "Agent pairing endpoint differs from the confirmed server"@,
            EventFault::PairingOrigin =>
                "Agent pairing endpoint origin differs from the confirmed server"@,
            EventFault::MessageOrigin =>
                "Agent activation URL origin differs from its pairing endpoint"@,
            EventFault::ActivationUrl =>
                "Agent activation URL does not match its pairing request id"@,
        }
    }

    /// The words in which the fault is reported.
    pub fn message(&self) -> (r: String)
        ensures
            r@ == self.text(),
    {
        match self {
            EventFault::LineTooLarge => text::owned("pairing event line is too large"),
            EventFault::StreamTooLarge => text::owned("pairing event stream is too large"),
            EventFault::EmptyLine => text::owned("pairing event stream contains an empty line"),
            EventFault::TwoActivations => text::owned(
                "Agent emitted more than one activation event",
            ),
            EventFault::BrowserUrl => text::owned("the address is not one that a browser may open"),
            EventFault::ActivationOrigin => text::owned(
                "Agent activation URL origin differs from the confirmed server",
            ),
            EventFault::Identifier(label, fault) => fault.message(label.name()),
            EventFault::PairedBeforeKey => text::owned(
                "Agent paired before the authorization key was supplied",
            ),
            EventFault::TwoPairings => text::owned("Agent emitted more than one paired event"),
            EventFault::OtherRequest => text::owned(
                "Agent paired a different request than the one authorized",
            ),
            EventFault::Interrupted => text::owned("browser pairing was interrupted"),
            EventFault::Cancelled => text::owned("browser pairing was cancelled safely"),
            EventFault::Deadline => text::owned("browser pairing reached its safety deadline"),
            EventFault::MissingAuthorizationKey => text::owned(
                "Agent did not request an authorization key",
            ),
            EventFault::NotPaired => text::owned("Agent did not emit a successful pairing event"),
            EventFault::PairingEndpoint => text::owned(
                "Agent pairing endpoint differs from the confirmed server",
            ),
            EventFault::PairingOrigin => text::owned(
                "Agent pairing endpoint origin differs from the confirmed server",
            ),
            EventFault::MessageOrigin => text::owned(
                "Agent activation URL origin differs from its pairing endpoint",
            ),
            EventFault::ActivationUrl => text::owned(
                "Agent activation URL does not match its pairing request id",
            ),
        }
    }
}

// ---------------------------------------------------------------------------
// Lines
// ---------------------------------------------------------------------------
/// How many of the available bytes belong to the line: up to and with the first line feed.
pub open spec fn line_share(available: Seq<u8>) -> int
    decreases available.len(),
{
    if available.len() == 0 {
        0
    } else if available[0] == 10 {
        1
    } else {
        1 + line_share(available.drop_first())
    }
}

/// What a line is once what is available of it was added, how many bytes that took, and whether
/// they end the line. A line that would grow past the limit is refused.
pub open spec fn line_step(line: Seq<u8>, available: Seq<u8>, limit: int) -> Option<
    (Seq<u8>, int, bool),
> {
    let taken = line_share(available);
    if line.len() + taken > limit {
        None
    } else {
        Some((line + available.take(taken), taken, taken > 0 && available[taken - 1] == 10))
    }
}

/// Add to `line` what is available of it: how many bytes were taken, and whether they end the
/// line. A line that would grow past the limit is refused before it does.
pub fn read_bounded_line(line: &mut Vec<u8>, available: &Vec<u8>, limit: usize) -> (r: Result<
    (usize, bool),
    EventFault,
>)
    requires
        available@.len() > 0,
    ensures
        match r {
            Ok((taken, ends)) => {
                &&& line_step(old(line)@, available@, limit as int) == Some(
                    (final(line)@, taken as int, ends),
                )
                &&& 0 < taken <= available@.len()
                &&& final(line)@.len() <= limit
            },
            Err(fault) => {
                &&& fault == EventFault::LineTooLarge
                &&& final(line)@ == old(line)@
                &&& line_step(old(line)@, available@, limit as int) is None
            },
        },
{
    let mut taken: usize = 0;
    let mut ends: bool = false;
    assert(available@.skip(0) == available@);
    while taken < available.len() && !ends
        invariant
            taken <= available@.len(),
            available@.len() > 0,
            !ends ==> line_share(available@) == taken + line_share(available@.skip(taken as int)),
            ends ==> line_share(available@) == taken,
            taken > 0 ==> ends == (available@[taken - 1] == 10),
            taken == 0 ==> !ends,
        decreases available@.len() - taken,
    {
        assert(available@.skip(taken as int).drop_first() == available@.skip(taken + 1));
        ends = available[taken] == 10;
        taken += 1;
    }
    if line.len() > limit || taken > limit - line.len() {
        return Err(EventFault::LineTooLarge);
    }
    let ghost before = line@;
    let mut i: usize = 0;
    while i < taken
        invariant
            i <= taken <= available@.len(),
            line@ == before + available@.take(i as int),
        decreases taken - i,
    {
        line.push(available[i]);
        i += 1;
        assert(line@ == before + available@.take(i as int));
    }
    Ok((taken, ends))
}

/// What a line is once it was read to its end, or to the end of the input, from bytes that come in
/// chunks, and whether it was ended.
pub open spec fn line_read(line: Seq<u8>, chunks: Seq<Seq<u8>>, limit: int) -> Option<
    (Seq<u8>, bool),
>
    decreases chunks.len(),
{
    if chunks.len() == 0 {
        Some((line, false))
    } else {
        match line_step(line, chunks[0], limit) {
            None => None,
            Some((after, _, true)) => Some((after, true)),
            Some((after, _, false)) => line_read(after, chunks.drop_first(), limit),
        }
    }
}

/// The share of a line in bytes that come in two parts: the first part's where that ends the
/// line, else all of the first part and the share in the second.
proof fn lemma_line_share_of_two(a: Seq<u8>, b: Seq<u8>)
    ensures
        0 <= line_share(a) <= a.len(),
        a.len() > 0 ==> line_share(a) > 0,
        0 <= line_share(b) <= b.len(),
        line_share(a) > 0 && a[line_share(a) - 1] == 10 ==> line_share(a + b) == line_share(a),
        !(line_share(a) > 0 && a[line_share(a) - 1] == 10) ==> line_share(a) == a.len()
            && line_share(a + b) == a.len() + line_share(b),
    decreases a.len() + b.len(),
{
    if b.len() > 0 {
        lemma_line_share_of_two(b.drop_first(), Seq::empty());
    }
    if a.len() == 0 {
        assert(a + b == b);
    } else {
        assert((a + b).drop_first() == a.drop_first() + b);
        lemma_line_share_of_two(a.drop_first(), b);
    }
}

/// How the bytes of a line are cut into chunks does not matter: it is read, or refused, as if
/// they came at once.
pub proof fn a_line_is_read_from_any_chunks(line: Seq<u8>, chunks: Seq<Seq<u8>>, limit: int)
    requires
        line.len() <= limit,
    ensures
        line_read(line, chunks, limit) == match line_step(line, chunks.flatten(), limit) {
            None => None::<(Seq<u8>, bool)>,
            Some((after, _, ends)) => Some((after, ends)),
        },
    decreases chunks.len(),
{
    if chunks.len() == 0 {
        assert(line + Seq::<u8>::empty().take(0) == line);
    } else {
        let first = chunks[0];
        let others = chunks.drop_first();
        let rest = others.flatten();
        let all = chunks.flatten();
        assert(all == first + rest);
        lemma_line_share_of_two(first, rest);
        let share = line_share(first);
        if line.len() + share <= limit {
            let after = line + first.take(share);
            if share > 0 && first[share - 1] == 10 {
                assert(all.take(share) == first.take(share));
            } else {
                assert(first.take(share) == first);
                a_line_is_read_from_any_chunks(after, others, limit);
                let more = line_share(rest);
                assert(all.take(share + more) == first + rest.take(more));
                assert(line + all.take(share + more) == after + rest.take(more));
                if more > 0 {
                    assert(all[share + more - 1] == rest[more - 1]);
                } else if share > 0 {
                    assert(all[share - 1] == first[share - 1]);
                }
            }
        }
    }
}

/// `line` without the carriage returns and line feeds at its end.
pub open spec fn without_line_ends(line: Seq<u8>) -> Seq<u8>
    decreases line.len(),
{
    if line.len() > 0 && (line.last() == 13 || line.last() == 10) {
        without_line_ends(line.drop_last())
    } else {
        line
    }
}

/// What a pairing has told so far.
#[derive(Debug)]
pub struct PairEvents {
    /// The bytes read.
    pub total: usize,
    /// The request for which the authorization key was handed over.
    pub authorized: Option<String>,
    pub paired: bool,
}

/// An event of a pairing.
#[derive(Debug)]
pub enum TrayPairEvent {
    Waiting {
        generation: String,
        request_id: String,
        activation_url: String,
        pairing_endpoint: String,
    },
    Paired { request_id: String, instance_id: String },
    Interrupted { request_id: String },
    Cancelled,
    Timeout,
}

/// The message by which the helper asks the tray for the authorization key.
#[derive(Debug)]
pub struct PairIpcMessage {
    pub generation: String,
    pub request_id: String,
    pub activation_url: String,
    pub pairing_endpoint: String,
}

/// What an event leads to.
#[derive(Debug)]
pub enum EventStep {
    /// Ask the tray for the authorization key and hand it to the agent.
    Exchange(PairIpcMessage),
    Continue,
}

/// The address is one that a browser may open: an HTTP or HTTPS URL of a host, without
/// credentials.
pub open spec fn opens_in_browser(read: Option<UrlView>) -> bool {
    match read {
        None => false,
        Some(url) => {
            &&& url.scheme == "https"@ || url.scheme == "http"@
            &&& url.host is Some
            &&& url.username.len() == 0
            &&& !url.password
        },
    }
}

/// Two addresses name web servers of the same origin.
pub open spec fn same_origin(a: Seq<char>, b: Seq<char>) -> bool {
    web_origin(a) is Some && web_origin(a) == web_origin(b)
}

fn browser_may_open(url: &UrlParts) -> (r: bool)
    ensures
        r == opens_in_browser(Some(url@)),
{
    (text::same(url.scheme.as_str(), "https") || text::same(url.scheme.as_str(), "http"))
        && url.host.is_some() && url.username.as_str().is_empty() && !url.password
}

/// Whether `value` is an address that a browser may open.
pub fn validate_browser_url(value: &str) -> (r: bool)
    ensures
        r == opens_in_browser(url_read(value@)),
{
    match read_url(value) {
        None => false,
        Some(url) => browser_may_open(&url),
    }
}

/// Whether `value` has the origin of `server`.
pub fn browser_url_matches_server_origin(value: &str, server: &str) -> (r: bool)
    ensures
        r == same_origin(value@, server@),
{
    match (origin_of(value), origin_of(server)) {
        (Some(a), Some(b)) => text::same(a.as_str(), b.as_str()),
        _ => false,
    }
}

/// The fault of an identifier, if it has one.
pub open spec fn identifier_fault(value: Seq<char>, label: Label) -> Option<EventFault> {
    match canonical(uuid_read(value), value) {
        Ok(_) => None,
        Err(fault) => Some(EventFault::Identifier(label, fault)),
    }
}

fn check_identifier(value: &str, label: Label) -> (r: Option<EventFault>)
    ensures
        r == identifier_fault(value@, label),
{
    match canonical_uuid(value) {
        Ok(_) => None,
        Err(fault) => Some(EventFault::Identifier(label, fault)),
    }
}

impl PairEvents {
    /// The fault of an event, if it has one.
    pub open spec fn event_fault(self, event: TrayPairEvent, server: Seq<char>) -> Option<
        EventFault,
    > {
        match event {
            TrayPairEvent::Waiting { generation, request_id, activation_url, pairing_endpoint } =>
                if self.authorized is Some {
                    Some(EventFault::TwoActivations)
                } else if !opens_in_browser(url_read(activation_url@)) {
                    Some(EventFault::BrowserUrl)
                } else if !same_origin(activation_url@, server) {
                    Some(EventFault::ActivationOrigin)
                } else if identifier_fault(request_id@, Label::RequestId) is Some {
                    identifier_fault(request_id@, Label::RequestId)
                } else {
                    identifier_fault(generation@, Label::Generation)
                },
            TrayPairEvent::Paired { request_id, instance_id } => if self.authorized is None {
                Some(EventFault::PairedBeforeKey)
            } else if self.paired {
                Some(EventFault::TwoPairings)
            } else if request_id@ != self.authorized->0@ {
                Some(EventFault::OtherRequest)
            } else if identifier_fault(request_id@, Label::PairedRequestId) is Some {
                identifier_fault(request_id@, Label::PairedRequestId)
            } else {
                identifier_fault(instance_id@, Label::PairedInstanceId)
            },
            TrayPairEvent::Interrupted { request_id } => if identifier_fault(
                request_id@,
                Label::InterruptedRequestId,
            ) is Some {
                identifier_fault(request_id@, Label::InterruptedRequestId)
            } else {
                Some(EventFault::Interrupted)
            },
            TrayPairEvent::Cancelled => Some(EventFault::Cancelled),
            TrayPairEvent::Timeout => Some(EventFault::Deadline),
        }
    }

    /// The pairing after an event without fault.
    pub open spec fn after(self, event: TrayPairEvent) -> PairEvents {
        match event {
            TrayPairEvent::Waiting { request_id, .. } => PairEvents {
                authorized: Some(request_id),
                ..self
            },
            TrayPairEvent::Paired { .. } => PairEvents { paired: true, ..self },
            _ => self,
        }
    }

    /// The fault of a line that took `read` bytes, if it has one.
    pub open spec fn line_fault(self, line: Seq<u8>, read: int) -> Option<EventFault> {
        if self.total + read > MAX_NDJSON_TOTAL_BYTES {
            Some(EventFault::StreamTooLarge)
        } else if without_line_ends(line).len() == 0 {
            Some(EventFault::EmptyLine)
        } else {
            None
        }
    }

    /// A pairing that has told nothing yet.
    pub fn begin() -> (r: Self)
        ensures
            r == (PairEvents { total: 0, authorized: None, paired: false }),
    {
        PairEvents { total: 0, authorized: None, paired: false }
    }

    /// Take a line that took `read` bytes; what is left of it is the event's text.
    pub fn accept_line(&mut self, line: &mut Vec<u8>, read: usize) -> (r: Result<(), EventFault>)
        requires
            old(self).total <= MAX_NDJSON_TOTAL_BYTES,
        ensures
            match old(self).line_fault(old(line)@, read as int) {
                Some(fault) => r == Err::<(), EventFault>(fault),
                None => {
                    &&& r is Ok
                    &&& final(line)@ == without_line_ends(old(line)@)
                    &&& *final(self) == (PairEvents {
                        total: (old(self).total + read) as usize,
                        ..*old(self)
                    })
                    &&& final(self).total <= MAX_NDJSON_TOTAL_BYTES
                },
            },
    {
        if read > MAX_NDJSON_TOTAL_BYTES - self.total {
            return Err(EventFault::StreamTooLarge);
        }
        self.total = self.total + read;
        let ghost whole = line@;
        while line.len() > 0 && (line[line.len() - 1] == 13 || line[line.len() - 1] == 10)
            invariant
                without_line_ends(line@) == without_line_ends(whole),
            decreases line@.len(),
        {
            let ghost before = line@;
            let _ = line.pop();
            assert(line@ == before.drop_last());
        }
        if line.len() == 0 {
            return Err(EventFault::EmptyLine);
        }
        Ok(())
    }

    /// Take an event.
    pub fn take_event(&mut self, event: TrayPairEvent, server: &str) -> (r: Result<
        EventStep,
        EventFault,
    >)
        ensures
            match old(self).event_fault(event, server@) {
                Some(fault) => r == Err::<EventStep, EventFault>(fault) && *final(self)
                    == *old(self),
                None => {
                    &&& *final(self) == old(self).after(event)
                    &&& r == Ok::<EventStep, EventFault>(
                        match event {
                            TrayPairEvent::Waiting {
                                generation,
                                request_id,
                                activation_url,
                                pairing_endpoint,
                            } => EventStep::Exchange(
                                PairIpcMessage {
                                    generation,
                                    request_id,
                                    activation_url,
                                    pairing_endpoint,
                                },
                            ),
                            _ => EventStep::Continue,
                        },
                    )
                },
            },
    {
        match event {
            TrayPairEvent::Waiting { generation, request_id, activation_url, pairing_endpoint } => {
                if self.authorized.is_some() {
                    return Err(EventFault::TwoActivations);
                }
                if !validate_browser_url(activation_url.as_str()) {
                    return Err(EventFault::BrowserUrl);
                }
                if !browser_url_matches_server_origin(activation_url.as_str(), server) {
                    return Err(EventFault::ActivationOrigin);
                }
                if let Some(fault) = check_identifier(request_id.as_str(), Label::RequestId) {
                    return Err(fault);
                }
                if let Some(fault) = check_identifier(generation.as_str(), Label::Generation) {
                    return Err(fault);
                }
                self.authorized = Some(request_id.clone());
                Ok(
                    EventStep::Exchange(
                        PairIpcMessage {
                            generation,
                            request_id,
                            activation_url,
                            pairing_endpoint,
                        },
                    ),
                )
            },
            TrayPairEvent::Paired { request_id, instance_id } => {
                match &self.authorized {
                    None => {
                        return Err(EventFault::PairedBeforeKey);
                    },
                    Some(authorized) => {
                        if self.paired {
                            return Err(EventFault::TwoPairings);
                        }
                        if !text::same(request_id.as_str(), authorized.as_str()) {
                            return Err(EventFault::OtherRequest);
                        }
                    },
                }
                if let Some(fault) = check_identifier(
                    request_id.as_str(),
                    Label::PairedRequestId,
                ) {
                    return Err(fault);
                }
                if let Some(fault) = check_identifier(
                    instance_id.as_str(),
                    Label::PairedInstanceId,
                ) {
                    return Err(fault);
                }
                self.paired = true;
                Ok(EventStep::Continue)
            },
            TrayPairEvent::Interrupted { request_id } => match check_identifier(
                request_id.as_str(),
                Label::InterruptedRequestId,
            ) {
                Some(fault) => Err(fault),
                None => Err(EventFault::Interrupted),
            },
            TrayPairEvent::Cancelled => Err(EventFault::Cancelled),
            TrayPairEvent::Timeout => Err(EventFault::Deadline),
        }
    }

    /// What the end of the stream means: the pairing succeeded only if it said so.
    pub fn finish(&self) -> (r: Result<(), EventFault>)
        ensures
            r == if self.authorized is None {
                Err::<(), EventFault>(EventFault::MissingAuthorizationKey)
            } else if !self.paired {
                Err(EventFault::NotPaired)
            } else {
                Ok(())
            },
    {
        if self.authorized.is_none() {
            return Err(EventFault::MissingAuthorizationKey);
        }
        if !self.paired {
            return Err(EventFault::NotPaired);
        }
        Ok(())
    }
}

/// The authorization key is handed over at most once, and only to an activation page of the
/// server that the user confirmed.
pub proof fn the_key_is_handed_over_once(
    events: PairEvents,
    event: TrayPairEvent,
    server: Seq<char>,
)
    requires
        event is Waiting,
        events.event_fault(event, server) is None,
    ensures
        events.authorized is None,
        events.after(event).authorized is Some,
        same_origin(event->activation_url@, server),
{
}

/// A pairing counts as done only for the request that was authorized, and only once.
pub proof fn only_the_authorized_request_pairs(
    events: PairEvents,
    event: TrayPairEvent,
    server: Seq<char>,
)
    requires
        event is Paired,
        events.event_fault(event, server) is None,
    ensures
        !events.paired,
        events.authorized is Some,
        event->Paired_request_id@ == events.authorized->0@,
        exists|id: u128| event->Paired_request_id@ == #[trigger] hyphenated(id),
{
    let value = event->Paired_request_id@;
    let id = uuid_read(value)->0;
    assert(value == hyphenated(id));
}

// ---------------------------------------------------------------------------
// The helper's message
// ---------------------------------------------------------------------------
/// The fault of the helper's message, if it has one: it must be about the server that the user
/// confirmed, and its activation page must be the one of its request.
pub open spec fn message_fault(message: PairIpcMessage, server: Seq<char>) -> Option<EventFault> {
    let endpoint = url_read(message.pairing_endpoint@);
    let activation = url_read(message.activation_url@);
    if identifier_fault(message.generation@, Label::MessageGeneration) is Some {
        identifier_fault(message.generation@, Label::MessageGeneration)
    } else if identifier_fault(message.request_id@, Label::MessageRequestId) is Some {
        identifier_fault(message.request_id@, Label::MessageRequestId)
    } else if message.pairing_endpoint@ != without_slashes(server)
        + "/api/agent/v2/pairing-requests"@ {
        Some(EventFault::PairingEndpoint)
    } else if !opens_in_browser(endpoint) {
        Some(EventFault::BrowserUrl)
    } else if !same_origin(message.pairing_endpoint@, server) {
        Some(EventFault::PairingOrigin)
    } else if !opens_in_browser(activation) {
        Some(EventFault::BrowserUrl)
    } else if !same_origin(message.activation_url@, message.pairing_endpoint@) {
        Some(EventFault::MessageOrigin)
    } else if activation->0.query is Some || activation->0.fragment is Some || activation->0.path
        != "/agent/activate/"@ + message.request_id@ {
        Some(EventFault::ActivationUrl)
    } else {
        None
    }
}

/// Whether the helper's message is about the server that the user confirmed.
pub fn validate_pair_ipc_message(message: &PairIpcMessage, server: &str) -> (r: Result<
    (),
    EventFault,
>)
    ensures
        r == match message_fault(*message, server@) {
            Some(fault) => Err::<(), EventFault>(fault),
            None => Ok(()),
        },
{
    if let Some(fault) = check_identifier(message.generation.as_str(), Label::MessageGeneration) {
        return Err(fault);
    }
    if let Some(fault) = check_identifier(message.request_id.as_str(), Label::MessageRequestId) {
        return Err(fault);
    }
    let expected = text::cat(trim_slashes(server).as_str(), "/api/agent/v2/pairing-requests");
    if !text::same(message.pairing_endpoint.as_str(), expected.as_str()) {
        return Err(EventFault::PairingEndpoint);
    }
    if !validate_browser_url(message.pairing_endpoint.as_str()) {
        return Err(EventFault::BrowserUrl);
    }
    if !browser_url_matches_server_origin(message.pairing_endpoint.as_str(), server) {
        return Err(EventFault::PairingOrigin);
    }
    let activation = match read_url(message.activation_url.as_str()) {
        None => {
            return Err(EventFault::BrowserUrl);
        },
        Some(url) => url,
    };
    if !browser_may_open(&activation) {
        return Err(EventFault::BrowserUrl);
    }
    if !browser_url_matches_server_origin(
        message.activation_url.as_str(),
        message.pairing_endpoint.as_str(),
    ) {
        return Err(EventFault::MessageOrigin);
    }
    let page = text::cat("/agent/activate/", message.request_id.as_str());
    if activation.query.is_some() || activation.fragment.is_some() || !text::same(
        activation.path.as_str(),
        page.as_str(),
    ) {
        return Err(EventFault::ActivationUrl);
    }
    Ok(())
}

/// Whether `nonce` may name the pipe of a pairing: sixty-four hexadecimal digits.
pub fn validate_callback_nonce(nonce: &str) -> (r: bool)
    ensures
        r == is_secret(nonce@),
{
    secret(&text::to_chars(nonce))
}

/// The name of the pipe over which a pairing asks for its key.
pub fn pair_pipe_name(nonce: &str) -> (r: String)
    ensures
        r@ == "\\\\.\\pipe\\UnionCAgentPair-"@ + nonce@,
{
    text::cat("\\\\.\\pipe\\UnionCAgentPair-", nonce)
}

/// A line is what comes up to and with the first line feed, and all of it where there is none.
pub proof fn where_a_line_ends(available: Seq<u8>)
    ensures
        0 <= line_share(available) <= available.len(),
        forall|i: int| 0 <= i < line_share(available) - 1 ==> available[i] != 10,
        line_share(available) < available.len() ==> line_share(available) > 0
            && available[line_share(available) - 1] == 10,
    decreases available.len(),
{
    if available.len() > 0 && available[0] != 10 {
        let rest = available.drop_first();
        where_a_line_ends(rest);
        assert forall|i: int| 0 <= i < line_share(available) - 1 implies available[i] != 10 by {
            if i > 0 {
                assert(rest[i - 1] == available[i]);
            }
        }
        if line_share(rest) > 0 {
            assert(rest[line_share(rest) - 1] == available[line_share(available) - 1]);
        }
    }
}

/// A line is added as far as it is there, and is refused exactly where it would pass the limit.
pub proof fn how_a_line_grows(line: Seq<u8>, available: Seq<u8>, limit: int)
    ensures
        line_step(line, available, limit) is None <==> line.len() + line_share(available) > limit,
        line_step(line, available, limit) matches Some((after, taken, ends)) ==> {
            &&& taken == line_share(available)
            &&& after == line + available.take(taken)
            &&& ends <==> taken > 0 && available[taken - 1] == 10
        },
{
}

/// The line ends behind a line, however many, are taken off, and nothing else.
pub proof fn line_ends_are_taken_off(line: Seq<u8>)
    ensures
        ({
            let rest = without_line_ends(line);
            &&& rest.is_prefix_of(line)
            &&& rest.len() > 0 ==> rest.last() != 13 && rest.last() != 10
            &&& forall|i: int| rest.len() <= i < line.len() ==> line[i] == 13 || line[i] == 10
        }),
    decreases line.len(),
{
    if line.len() > 0 && (line.last() == 13 || line.last() == 10) {
        let shorter = line.drop_last();
        line_ends_are_taken_off(shorter);
        let rest = without_line_ends(line);
        assert(rest == without_line_ends(shorter));
        assert(rest =~= line.take(rest.len() as int)) by {
            assert(rest == shorter.take(rest.len() as int));
        }
        assert forall|i: int| rest.len() <= i < line.len() implies line[i] == 13 || line[i]
            == 10 by {
            if i < shorter.len() {
                assert(shorter[i] == line[i]);
            }
        }
    } else {
        assert(line =~= line.take(line.len() as int));
    }
}

/// A line is refused exactly where the stream grows past its limit with it, or where it is empty.
pub proof fn which_lines_are_refused(events: PairEvents, line: Seq<u8>, read: int)
    ensures
        events.line_fault(line, read) == Some(EventFault::StreamTooLarge) <==> events.total + read
            > 131_072,
        events.line_fault(line, read) == Some(EventFault::EmptyLine) <==> events.total + read
            <= 131_072 && without_line_ends(line).len() == 0,
        events.line_fault(line, read) is None <==> events.total + read <= 131_072
            && without_line_ends(line).len() > 0,
{
}

/// An activation is accepted exactly once, with a page that a browser may open, of the confirmed
/// server, and with canonical identifiers; a pairing exactly once after it, for the same request;
/// everything else that the agent tells ends the pairing, each in its own way.
pub proof fn which_events_are_accepted(
    events: PairEvents,
    event: TrayPairEvent,
    server: Seq<char>,
)
    ensures
        ({
            let fault = events.event_fault(event, server);
            &&& event matches TrayPairEvent::Waiting {
                generation,
                request_id,
                activation_url,
                pairing_endpoint,
            } ==> {
                &&& fault is None <==> events.authorized is None && opens_in_browser(
                    url_read(activation_url@),
                ) && same_origin(activation_url@, server) && canonical(
                    uuid_read(request_id@),
                    request_id@,
                ) is Ok && canonical(uuid_read(generation@), generation@) is Ok
                &&& events.authorized is Some ==> fault == Some(EventFault::TwoActivations)
                &&& events.after(event).authorized == Some(request_id)
                &&& events.after(event).paired == events.paired
            }
            &&& event matches TrayPairEvent::Paired { request_id, instance_id } ==> {
                &&& fault is None <==> !events.paired && (events.authorized matches Some(expected)
                    && expected@ == request_id@) && canonical(uuid_read(request_id@), request_id@)
                    is Ok && canonical(uuid_read(instance_id@), instance_id@) is Ok
                &&& events.authorized is None ==> fault == Some(EventFault::PairedBeforeKey)
                &&& events.after(event).paired
                &&& events.after(event).authorized == events.authorized
            }
            &&& event is Interrupted ==> fault is Some && (canonical(
                uuid_read(event->Interrupted_request_id@),
                event->Interrupted_request_id@,
            ) is Ok ==> fault == Some(EventFault::Interrupted))
            &&& event is Cancelled ==> fault == Some(EventFault::Cancelled)
            &&& event is Timeout ==> fault == Some(EventFault::Deadline)
            &&& events.after(event).total == events.total
        }),
{
}

/// A message asks for the key of this pairing exactly where its identifiers are canonical, it names
/// the pairing endpoint of the confirmed server, and its page is that of its own request on the same
/// server.
pub proof fn which_messages_are_accepted(message: PairIpcMessage, server: Seq<char>)
    ensures
        message_fault(message, server) is None <==> {
            &&& canonical(uuid_read(message.generation@), message.generation@) is Ok
            &&& canonical(uuid_read(message.request_id@), message.request_id@) is Ok
            &&& message.pairing_endpoint@ == without_slashes(server)
                + "/api/agent/v2/pairing-requests"@
            &&& opens_in_browser(url_read(message.pairing_endpoint@))
            &&& same_origin(message.pairing_endpoint@, server)
            &&& opens_in_browser(url_read(message.activation_url@))
            &&& same_origin(message.activation_url@, message.pairing_endpoint@)
            &&& url_read(message.activation_url@)->0.query is None
            &&& url_read(message.activation_url@)->0.fragment is None
            &&& url_read(message.activation_url@)->0.path == "/agent/activate/"@
                + message.request_id@
        },
{
}

/// A browser may open the pages of web servers, without credentials, and two pages are of one origin
/// exactly where both are of web servers that share it.
pub proof fn what_a_browser_may_open(a: Seq<char>, b: Seq<char>, c: Seq<char>)
    ensures
        opens_in_browser(url_read(a)) <==> (url_read(a) matches Some(url) && (url.scheme
            == "https"@ || url.scheme == "http"@) && url.host is Some && url.username.len() == 0
            && !url.password),
        same_origin(a, b) ==> same_origin(b, a),
        same_origin(a, b) && same_origin(b, c) ==> same_origin(a, c),
        same_origin(a, b) ==> crate::endpoint::is_web(url_read(a)) && crate::endpoint::is_web(
            url_read(b),
        ) && crate::endpoint::url_origin(a) == crate::endpoint::url_origin(b),
{
}

/// An event that is refused changes nothing. A request that waits is handed on as it was told, and
/// every other event only goes on.
pub proof fn what_an_event_leads_to()
    ensures
        forall|
            events: &mut PairEvents,
            event: TrayPairEvent,
            server: &str,
            r: Result<EventStep, EventFault>,
        | #[trigger]
            call_ensures(PairEvents::take_event, (events, event, server), r) ==> {
                &&& r is Err ==> *final(events) == *events
                &&& r matches Ok(EventStep::Exchange(message)) ==> event
                    == (TrayPairEvent::Waiting {
                    generation: message.generation,
                    request_id: message.request_id,
                    activation_url: message.activation_url,
                    pairing_endpoint: message.pairing_endpoint,
                })
                &&& (r matches Ok(EventStep::Continue)) ==> !(event is Waiting)
            },
{
}

/// A pairing that ends well was authorized and paired; what is missing first is told.
pub proof fn what_a_pairing_must_have_told(events: PairEvents, r: Result<(), EventFault>)
    requires
        call_ensures(PairEvents::finish, (&events,), r),
    ensures
        r is Ok <==> events.authorized is Some && events.paired,
        r == Err::<(), EventFault>(EventFault::MissingAuthorizationKey)
            <==> events.authorized is None,
        r == Err::<(), EventFault>(EventFault::NotPaired) <==> events.authorized is Some
            && !events.paired,
{
}

} // verus!
