//! A client of the PulseAudio server: the messages that it sends, and what it learns from the
//! replies. A message is a whole frame, header and payload.
use crate::handshake;
use pulseaudio::protocol;
use vstd::prelude::*;
use vstd::string::StrSliceExecFns;

verus! {

/// The name that the client has for the server, with the zero that ends it.
pub const CLIENT_NAME: &'static str = "zenbook-duo-daemon\0";

/// The length of the header of a message.
pub const HEADER_LENGTH: usize = 20;

/// The tags of a number, a text, no text, bytes, properties and a time.
pub const NUMBER_TAG: u8 = 0x4c;

pub const TEXT_TAG: u8 = 0x74;

pub const NO_TEXT_TAG: u8 = 0x4e;

pub const BYTES_TAG: u8 = 0x78;

pub const PROPERTIES_TAG: u8 = 0x50;

pub const TIME_TAG: u8 = 0x54;

/// The commands that a message begins with.
pub const REPLY: u32 = 2;

pub const AUTH: u32 = 8;

pub const SET_CLIENT_NAME: u32 = 9;

pub const GET_PLAYBACK_LATENCY: u32 = 14;

pub const GET_SOURCE_INFO: u32 = 23;

pub const SUBSCRIBE: u32 = 35;

pub const GET_RECORD_LATENCY: u32 = 57;

pub const SUBSCRIBE_EVENT: u32 = 66;

/// What stands for the events of sources in a subscription.
pub const SOURCE_EVENTS: u32 = 2;

/// What the server calls the default source.
pub const DEFAULT_SOURCE: &'static str = "@DEFAULT_SOURCE@\0";

/// The property that is the name of a client.
pub const NAME_PROPERTY: &'static str = "application.name\0";

/// What is said of a message that is too long.
pub const TOO_LONG: &'static str = "Invalid(\"message payload greater than 4gb\")";

/// A request to the server.
#[derive(Debug)]
pub enum Request {
    /// Authenticate, with the newest version of the protocol that the client knows and the
    /// cookie that the server shares with its clients. Memory is not shared.
    Auth { version: u16, cookie: Vec<u8> },
    /// Name the client. The name ends in a zero byte.
    SetClientName { name: Vec<u8> },
    /// Report every event of a source.
    SubscribeSources,
    /// Describe the default source.
    GetDefaultSource,
}

/// What a request holds.
pub enum RequestView {
    Auth { version: u16, cookie: Seq<u8> },
    SetClientName { name: Seq<u8> },
    SubscribeSources,
    GetDefaultSource,
}

impl View for Request {
    type V = RequestView;

    open spec fn view(&self) -> RequestView {
        match self {
            Request::Auth { version, cookie } => RequestView::Auth {
                version: *version,
                cookie: cookie@,
            },
            Request::SetClientName { name } => RequestView::SetClientName { name: name@ },
            Request::SubscribeSources => RequestView::SubscribeSources,
            Request::GetDefaultSource => RequestView::GetDefaultSource,
        }
    }
}

/// The bytes of a text in ASCII.
pub open spec fn ascii(text: Seq<char>) -> Seq<u8> {
    Seq::new(text.len(), |i: int| text[i] as u8)
}

/// The four bytes of a number, the most significant one first.
pub open spec fn number_bytes(number: nat) -> Seq<u8> {
    seq![
        (number / 0x1000000) as u8,
        (number / 0x10000 % 0x100) as u8,
        (number / 0x100 % 0x100) as u8,
        (number % 0x100) as u8,
    ]
}

/// A number, behind its tag.
pub open spec fn tagged(number: nat) -> Seq<u8> {
    seq![NUMBER_TAG] + number_bytes(number)
}

/// A number of bytes, behind their tag and length.
pub open spec fn tagged_bytes(bytes: Seq<u8>) -> Seq<u8> {
    seq![BYTES_TAG] + number_bytes(bytes.len()) + bytes
}

/// A text that ends in a zero, behind its tag.
pub open spec fn tagged_text(text: Seq<char>) -> Seq<u8> {
    seq![TEXT_TAG] + ascii(text)
}

impl RequestView {
    /// The command that the request begins with.
    pub open spec fn command(self) -> u32 {
        match self {
            RequestView::Auth { .. } => AUTH,
            RequestView::SetClientName { .. } => SET_CLIENT_NAME,
            RequestView::SubscribeSources => SUBSCRIBE,
            RequestView::GetDefaultSource => GET_SOURCE_INFO,
        }
    }

    /// What follows the command and the number of the request.
    ///
    /// The upper half of the number in an authentication would say that memory can be shared. The
    /// source is asked for by its name, so that the number before it stands for none.
    pub open spec fn parameters(self) -> Seq<u8> {
        match self {
            RequestView::Auth { version, cookie } => tagged(version as nat) + tagged_bytes(cookie),
            RequestView::SetClientName { name } => seq![PROPERTIES_TAG] + tagged_text(
                NAME_PROPERTY@,
            ) + tagged(name.len()) + tagged_bytes(name) + seq![NO_TEXT_TAG],
            RequestView::SubscribeSources => tagged(SOURCE_EVENTS as nat),
            RequestView::GetDefaultSource => tagged(u32::MAX as nat) + tagged_text(DEFAULT_SOURCE@),
        }
    }

    /// The payload of the message that carries the request with the number `seq`.
    pub open spec fn payload(self, seq: u32) -> Seq<u8> {
        tagged(self.command() as nat) + tagged(seq as nat) + self.parameters()
    }
}

/// A message: the length of the payload, the channel of all that is no sound, eight bytes for a
/// position and four for flags, then the payload.
pub open spec fn framed(payload: Seq<u8>) -> Seq<u8> {
    number_bytes(payload.len()) + number_bytes(u32::MAX as nat) + Seq::new(12, |i: int| 0u8)
        + payload
}

/// The message that carries a request with the number `seq`.
pub open spec fn request_message(seq: u32, request: RequestView) -> Seq<u8> {
    framed(request.payload(seq))
}

/// The number in the four bytes at `at`, the most significant one first.
pub open spec fn number_at(bytes: Seq<u8>, at: int) -> nat {
    (bytes[at] * 0x1000000 + bytes[at + 1] * 0x10000 + bytes[at + 2] * 0x100 + bytes[at
        + 3]) as nat
}

/// The payload of a message: what follows the header, as far as its first field, which is the
/// length of the payload, goes. A message may be cut short.
pub open spec fn payload(message: Seq<u8>) -> Seq<u8> {
    if message.len() < HEADER_LENGTH {
        Seq::empty()
    } else if HEADER_LENGTH + number_at(message, 0) <= message.len() {
        message.subrange(
            HEADER_LENGTH as int,
            HEADER_LENGTH + number_at(message, 0),
        )
    } else {
        message.skip(HEADER_LENGTH as int)
    }
}

/// The number at `at` in a payload, where there is one: it stands behind the tag of a number.
pub open spec fn tagged_number(payload: Seq<u8>, at: int) -> Option<nat> {
    if at + 5 <= payload.len() && payload[at] == NUMBER_TAG {
        Some(number_at(payload, at + 1))
    } else {
        None
    }
}

/// The number of the request that a message replies to, where it is a reply.
pub open spec fn replied_to(message: Seq<u8>) -> Option<nat> {
    if tagged_number(payload(message), 0) == Some(REPLY as nat) {
        tagged_number(payload(message), 5)
    } else {
        None
    }
}

/// The number that a reply begins with, where the message is a reply that does.
pub open spec fn reply_number(message: Seq<u8>) -> Option<nat> {
    if replied_to(message) is Some {
        tagged_number(payload(message), 10)
    } else {
        None
    }
}

/// The version of the protocol in the reply to an authentication: the lower half of its number.
pub open spec fn auth_reply_version(message: Seq<u8>) -> Option<u16> {
    match reply_number(message) {
        Some(number) => Some((number % 0x10000) as u16),
        None => None,
    }
}

/// Whether a message tells of an event: what it is about, and what became of that, in one
/// number, and then the number of the object.
pub open spec fn tells_event(message: Seq<u8>) -> bool {
    let payload = payload(message);
    &&& tagged_number(payload, 0) == Some(SUBSCRIBE_EVENT as nat)
    &&& tagged_number(payload, 5) is Some
    &&& tagged_number(payload, 10) matches Some(event)
    &&& event % 16 <= 9
    &&& event / 16 % 4 != 3
    &&& tagged_number(payload, 15) is Some
}

/// Whether the time in a message is one: a request for a latency, and nothing else, tells the
/// time in seconds and microseconds, and the latter must be few enough to be counted in
/// nanoseconds.
pub open spec fn time_fits(message: Seq<u8>) -> bool {
    let payload = payload(message);
    ({
        &&& tagged_number(payload, 0) == Some(GET_PLAYBACK_LATENCY as nat) || tagged_number(
            payload,
            0,
        ) == Some(GET_RECORD_LATENCY as nat)
        &&& tagged_number(payload, 5) is Some
        &&& tagged_number(payload, 10) is Some
        &&& payload.len() >= 24
        &&& payload[15] == TIME_TAG
    }) ==> number_at(payload, 20) * 1000 <= u32::MAX
}

/// An answer, or the characters of the text that says why there is none.
pub open spec fn in_words(answer: Result<bool, String>) -> Result<bool, Seq<char>> {
    match answer {
        Ok(answer) => Ok(answer),
        Err(text) => Err(text@),
    }
}

/// What is wrong with a message that is no reply that begins with a number.
pub uninterp spec fn number_reply_error(message: Seq<u8>) -> Seq<char>;

/// What is wrong with a message that is no reply.
pub uninterp spec fn ack_error(message: Seq<u8>) -> Seq<char>;

/// Whether a message tells of an event, or what is wrong with it where it is not well-formed.
pub uninterp spec fn event_told(message: Seq<u8>, protocol_version: u16) -> Result<bool, Seq<char>>;

/// Whether the source is muted that the message of a reply describes, or what is wrong with it
/// where it is no such reply.
pub uninterp spec fn source_info_muted(message: Seq<u8>, protocol_version: u16) -> Result<
    bool,
    Seq<char>,
>;

/// The message that carries `request`.
///
/// Calls `pulseaudio::protocol::write_command_message` on a buffer in memory. Trusted: the
/// message is laid out as `request_message` says, in every version of the protocol. One whose
/// payload is too long for its length to fit in 32 bits is refused, with an error that reads
/// `TOO_LONG`, and nothing else is. A cookie or name whose own length does not fit makes the
/// outside function panic.
#[verifier::external_body]
fn encode_request(seq: u32, request: &Request, protocol_version: u16) -> (message: Result<
    Vec<u8>,
    String,
>)
    requires
        request@ matches RequestView::Auth { cookie, .. } ==> cookie.len() < u32::MAX,
        request@ matches RequestView::SetClientName { name } ==> name.len() < u32::MAX,
    ensures
        message matches Ok(bytes) ==> bytes@ == request_message(seq, request@),
        message is Ok <==> request@.payload(seq).len() <= u32::MAX,
        message matches Err(text) ==> text@ == TOO_LONG@,
{
    let command = match request {
        Request::Auth { version, cookie } => protocol::Command::Auth(
            protocol::AuthParams { version: *version, cookie: cookie.clone(), ..Default::default() }),
        Request::SetClientName { name } => {
            let mut props = protocol::Props::new();
            props.set_bytes(protocol::Prop::ApplicationName.to_c_str(), name);
            protocol::Command::SetClientName(props)
        },
        Request::SubscribeSources => protocol::Command::Subscribe(protocol::SubscriptionMask::SOURCE),
        Request::GetDefaultSource => protocol::Command::GetSourceInfo(
            protocol::GetSourceInfo { index: None, name: Some(protocol::DEFAULT_SOURCE.into()) }),
    };
    let mut message = Vec::new();
    let written = protocol::write_command_message(&mut message, seq, &command, protocol_version);
    written.map(|_| message).map_err(|error| format!("{:?}", error))
}

/// The version in the reply to an authentication.
///
/// Calls `pulseaudio::protocol::read_reply_message` on the bytes of the message. Trusted: the
/// message is a reply that begins with a number, or is refused, and the lower half of the number
/// is the version. The text of the error depends on the message alone. The version that it is read
/// in makes no difference.
#[verifier::external_body]
fn decode_auth_reply(message: &[u8], protocol_version: u16) -> (version: Result<u16, String>)
    ensures
        version is Ok <==> auth_reply_version(message@) is Some,
        version matches Ok(version) ==> auth_reply_version(message@) == Some(version),
        version matches Err(text) ==> text@ == number_reply_error(message@),
{
    let mut bytes = message;
    match protocol::read_reply_message::<protocol::AuthReply>(&mut bytes, protocol_version) {
        Ok((_, reply)) => Ok(reply.version),
        Err(error) => Err(format!("{:?}", error)),
    }
}

/// The number of the client in the reply to its naming itself.
///
/// Calls `pulseaudio::protocol::read_reply_message` on the bytes of the message. Trusted: the
/// message is a reply that begins with a number, which is that of the client, or is refused. The
/// text of the error depends on the message alone, and is the same for every reply that should
/// begin with a number. The version that it is read in makes no difference.
#[verifier::external_body]
fn decode_client_name_reply(message: &[u8], protocol_version: u16) -> (id: Result<u32, String>)
    ensures
        id is Ok <==> reply_number(message@) is Some,
        id matches Ok(id) ==> reply_number(message@) == Some(id as nat),
        id matches Err(text) ==> text@ == number_reply_error(message@),
{
    let mut bytes = message;
    match protocol::read_reply_message::<protocol::SetClientNameReply>(
        &mut bytes, protocol_version) {
        Ok((_, reply)) => Ok(reply.client_id),
        Err(error) => Err(format!("{:?}", error)),
    }
}

/// The number of the request that a message acknowledges.
///
/// Calls `pulseaudio::protocol::read_ack_message` on the bytes of the message. Trusted: the
/// message is a reply, whatever follows the number of the request, or is refused. The text of the
/// error depends on the message alone.
#[verifier::external_body]
fn decode_ack(message: &[u8]) -> (seq: Result<u32, String>)
    ensures
        seq is Ok <==> replied_to(message@) is Some,
        seq matches Ok(seq) ==> replied_to(message@) == Some(seq as nat),
        seq matches Err(text) ==> text@ == ack_error(message@),
{
    let mut bytes = message;
    protocol::read_ack_message(&mut bytes).map_err(|error| format!("{:?}", error))
}

/// Whether the source is muted that a reply describes.
///
/// Calls `pulseaudio::protocol::read_reply_message` on the bytes of the message. Trusted: what
/// comes of it, the text of an error included, depends on the two arguments alone.
#[verifier::external_body]
fn decode_source_info(message: &[u8], protocol_version: u16) -> (muted: Result<bool, String>)
    ensures
        in_words(muted) == source_info_muted(message@, protocol_version),
{
    let mut bytes = message;
    match protocol::read_reply_message::<protocol::SourceInfo>(&mut bytes, protocol_version) {
        Ok((_, source)) => Ok(source.muted),
        Err(error) => Err(format!("{:?}", error)),
    }
}

/// Whether a message of any kind tells of an event.
///
/// Calls `pulseaudio::protocol::read_command_message` on the bytes of the message. Trusted: what
/// comes of it, the text of an error included, depends on the two arguments alone, and the messages
/// that `tells_event` describes are those that come out as events. A time with too many
/// microseconds makes the outside function panic where arithmetic is checked.
#[verifier::external_body]
fn decode_event(message: &[u8], protocol_version: u16) -> (told: Result<bool, String>)
    requires
        time_fits(message@),
    ensures
        in_words(told) == event_told(message@, protocol_version),
        tells_event(message@) <==> told matches Ok(true),
{
    let mut bytes = message;
    match protocol::read_command_message(&mut bytes, protocol_version) {
        Ok((_, protocol::Command::SubscribeEvent(_))) => Ok(true),
        Ok(_) => Ok(false),
        Err(error) => Err(format!("{:?}", error)),
    }
}

/// The number in the four bytes at `at`.
fn read_number(bytes: &[u8], at: usize) -> (number: u32)
    requires
        at + 4 <= bytes@.len(),
    ensures
        number == number_at(bytes@, at as int),
{
    bytes[at] as u32 * 0x1000000 + bytes[at + 1] as u32 * 0x10000 + bytes[at + 2] as u32 * 0x100
        + bytes[at + 3] as u32
}

/// The number at `at` in a payload, where there is one.
fn read_tagged_number(payload: &[u8], at: usize) -> (number: Option<u32>)
    requires
        at <= 15,
    ensures
        number is Some <==> tagged_number(payload@, at as int) is Some,
        number matches Some(number) ==> tagged_number(payload@, at as int) == Some(number as nat),
{
    if at + 5 <= payload.len() && payload[at] == NUMBER_TAG {
        Some(read_number(payload, at + 1))
    } else {
        None
    }
}

/// The payload of a message.
fn payload_of(message: &[u8]) -> (bytes: &[u8])
    ensures
        bytes@ == payload(message@),
{
    if message.len() < HEADER_LENGTH {
        return vstd::slice::slice_subrange(message, 0, 0);
    }
    let length: u64 = read_number(message, 0) as u64;
    if length <= (message.len() - HEADER_LENGTH) as u64 {
        vstd::slice::slice_subrange(message, HEADER_LENGTH, HEADER_LENGTH + length as usize)
    } else {
        vstd::slice::slice_subrange(message, HEADER_LENGTH, message.len())
    }
}

/// Whether the time in a message, where there is one, can be counted in nanoseconds.
fn is_time_in_range(message: &[u8]) -> (r: bool)
    ensures
        r == time_fits(message@),
{
    let payload = payload_of(message);
    let asks_for_latency = match read_tagged_number(payload, 0) {
        Some(command) => command == GET_PLAYBACK_LATENCY || command == GET_RECORD_LATENCY,
        None => false,
    };
    if asks_for_latency && read_tagged_number(payload, 5).is_some() && read_tagged_number(
        payload,
        10,
    ).is_some() && payload.len() >= 24 && payload[15] == TIME_TAG {
        read_number(payload, 20) as u64 * 1000 <= u32::MAX as u64
    } else {
        true
    }
}

/// The length of the payload that follows a header, where the header is whole.
pub fn payload_length(header: &[u8]) -> (length: Option<u32>)
    ensures
        length is Some <==> header@.len() >= HEADER_LENGTH,
        length matches Some(length) ==> length == number_at(header@, 0),
        length is Some <==> length_told(header@) is Some,
        length matches Some(length) ==> length_told(header@) == Some(length as nat),
{
    if header.len() < HEADER_LENGTH {
        None
    } else {
        Some(read_number(header, 0))
    }
}

/// Why the client and the server do not understand each other.
#[derive(Debug)]
pub enum PulseError {
    /// The cookie is too long for a message, with what is to be said of that.
    CookieTooLong(String),
    /// The server's message is not the one that was waited for, with what is wrong with it.
    BadReply(String),
}

impl PulseError {
    /// What is to be said of the error.
    pub open spec fn said(self) -> Seq<char> {
        match self {
            PulseError::CookieTooLong(text) => text@,
            PulseError::BadReply(text) => text@,
        }
    }

    /// What is to be said of the error.
    pub fn into_text(self) -> (text: String)
        ensures
            text@ == self.said(),
    {
        match self {
            PulseError::CookieTooLong(text) => text,
            PulseError::BadReply(text) => text,
        }
    }
}

/// An answer, or what is to be said of the error in its place.
pub open spec fn answered(answer: Result<bool, PulseError>) -> Result<bool, Seq<char>> {
    match answer {
        Ok(answer) => Ok(answer),
        Err(error) => Err(error.said()),
    }
}

/// The older of two versions of the protocol.
pub open spec fn older(a: u16, b: u16) -> u16 {
    if a <= b {
        a
    } else {
        b
    }
}

/// The version to go on with, where the reply to the authentication tells the server's.
pub open spec fn agreed_version(auth_reply: Seq<u8>, max_version: u16) -> Option<u16> {
    match auth_reply_version(auth_reply) {
        Some(version) => Some(older(max_version, version)),
        None => None,
    }
}

/// The message that asks for every event of a source.
pub open spec fn subscription_message(seq: u32) -> Seq<u8> {
    request_message(seq, RequestView::SubscribeSources)
}

/// The message that asks for the state of the default source.
pub open spec fn question_message(seq: u32) -> Seq<u8> {
    request_message(seq, RequestView::GetDefaultSource)
}

/// Whether a reply to a subscription accepts it.
pub open spec fn is_accepted(reply: Seq<u8>) -> bool {
    replied_to(reply) is Some
}

/// What a message that came unasked says: whether it tells of an event, or what is wrong with it.
pub open spec fn message_answer(message: Seq<u8>, protocol_version: u16) -> Result<bool, Seq<char>> {
    if time_fits(message) {
        event_told(message, protocol_version)
    } else {
        Ok(false)
    }
}

/// What a reply to the question about the default source says: whether it is muted, or what is
/// wrong with the reply.
pub open spec fn question_answer(reply: Seq<u8>, protocol_version: u16) -> Result<bool, Seq<char>> {
    source_info_muted(reply, protocol_version)
}

/// The length of the payload that follows a header, where the header is whole.
pub open spec fn length_told(header: Seq<u8>) -> Option<nat> {
    if header.len() >= HEADER_LENGTH {
        Some(number_at(header, 0))
    } else {
        None
    }
}

/// The number of the next request, once one with the number `seq` was written or could not be.
pub open spec fn next_number(seq: u32, written: bool) -> int {
    if written {
        seq + 1
    } else {
        seq as int
    }
}

/// The client that comes of the two replies to its first two requests, by its next number and its
/// version of the protocol.
pub open spec fn connected(
    auth_reply: Seq<u8>,
    name_reply: Seq<u8>,
    max_version: u16,
) -> Option<(u32, u16)> {
    match (auth_reply_version(auth_reply), reply_number(name_reply)) {
        (Some(version), Some(_)) => Some((2, older(max_version, version))),
        _ => None,
    }
}

/// The lengths of the texts in requests.
proof fn lemma_text_lengths()
    ensures
        NAME_PROPERTY@.len() == 17,
        DEFAULT_SOURCE@.len() == 17,
{
    reveal_strlit("application.name\0");
    reveal_strlit("@DEFAULT_SOURCE@\0");
}

/// A connection to the server that has authenticated and named itself.
#[derive(Debug)]
pub struct PulseAudioClient {
    /// The number of the next request.
    pub seq: u32,
    /// The version of the protocol that client and server agreed on.
    pub protocol_version: u16,
}

impl PulseAudioClient {
    /// The message that a connection begins with: it authenticates with `cookie`, and offers
    /// `max_version` of the protocol. It is the request with the number 0.
    pub fn auth_message(cookie: Vec<u8>, max_version: u16) -> (message: Result<Vec<u8>, PulseError>)
        requires
            cookie@.len() < u32::MAX,
        ensures
            message matches Ok(message) ==> message@ == request_message(
                0,
                RequestView::Auth { version: max_version, cookie: cookie@ },
            ),
            message is Ok <==> cookie@.len() + 20 <= u32::MAX,
            message matches Ok(message) ==> message@ == handshake::auth_message(
                cookie@,
                max_version,
            ),
            message matches Err(error) ==> error is CookieTooLong && error.said() == TOO_LONG@,
    {
        let request = Request::Auth { version: max_version, cookie };
        assert(request@.payload(0).len() == cookie@.len() + 20);
        match encode_request(0, &request, max_version) {
            Ok(message) => Ok(message),
            Err(text) => Err(PulseError::CookieTooLong(text)),
        }
    }

    /// The version of the protocol to go on with, where the server answered the authentication
    /// with `auth_reply`: the older of the client's and the server's.
    pub fn negotiated(auth_reply: &[u8], max_version: u16) -> (version: Result<u16, PulseError>)
        ensures
            version is Ok <==> auth_reply_version(auth_reply@) is Some,
            version matches Ok(version) ==> version == older(
                max_version,
                auth_reply_version(auth_reply@)->0,
            ),
            version is Ok <==> agreed_version(auth_reply@, max_version) is Some,
            version matches Ok(version) ==> agreed_version(auth_reply@, max_version) == Some(
                version,
            ),
            version matches Err(error) ==> error is BadReply && error.said() == number_reply_error(
                auth_reply@,
            ),
    {
        match decode_auth_reply(auth_reply, max_version) {
            Ok(reply_version) => Ok(
                if max_version <= reply_version {
                    max_version
                } else {
                    reply_version
                },
            ),
            Err(text) => Err(PulseError::BadReply(text)),
        }
    }

    /// The message that names the client. It is the request with the number 1.
    pub fn client_name_message(protocol_version: u16) -> (message: Vec<u8>)
        ensures
            message@ == request_message(
                1,
                RequestView::SetClientName { name: ascii(CLIENT_NAME@) },
            ),
            message@ == handshake::name_message(),
    {
        let name = CLIENT_NAME.as_bytes_vec();
        proof {
            reveal_strlit("zenbook-duo-daemon\0");
            assert(vstd::string::is_ascii(CLIENT_NAME));
            vstd::string::is_ascii_spec_bytes(CLIENT_NAME);
            assert(name@ == ascii(CLIENT_NAME@));
            lemma_text_lengths();
        }
        let request = Request::SetClientName { name };
        assert(request@.payload(1).len() == CLIENT_NAME@.len() + 40);
        encode_request(1, &request, protocol_version).unwrap()
    }

    /// A connection whose server answered the authentication with `auth_reply` and the naming
    /// with `name_reply`. The requests 0 and 1 were spent on these.
    pub fn new(auth_reply: &[u8], name_reply: &[u8], max_version: u16) -> (client: Result<
        PulseAudioClient,
        PulseError,
    >)
        ensures
            client is Ok <==> auth_reply_version(auth_reply@) is Some && reply_number(
                name_reply@,
            ) is Some,
            client matches Ok(client) ==> {
                &&& client.seq == 2
                &&& client.protocol_version == older(
                    max_version,
                    auth_reply_version(auth_reply@)->0,
                )
            },
            client is Ok <==> connected(auth_reply@, name_reply@, max_version) is Some,
            client matches Ok(client) ==> connected(auth_reply@, name_reply@, max_version) == Some(
                (client.seq, client.protocol_version),
            ),
            client matches Err(error) ==> error is BadReply && error.said() == number_reply_error(
                if auth_reply_version(auth_reply@) is None {
                    auth_reply@
                } else {
                    name_reply@
                },
            ),
    {
        let protocol_version = match PulseAudioClient::negotiated(auth_reply, max_version) {
            Ok(version) => version,
            Err(error) => return Err(error),
        };
        match decode_client_name_reply(name_reply, protocol_version) {
            Ok(_) => Ok(PulseAudioClient { seq: 2, protocol_version }),
            Err(text) => Err(PulseError::BadReply(text)),
        }
    }

    /// The message that asks for every event of a source.
    pub fn subscribe_source_events(&self) -> (message: Vec<u8>)
        ensures
            message@ == request_message(self.seq, RequestView::SubscribeSources),
            message@ == subscription_message(self.seq),
    {
        assert(RequestView::SubscribeSources.payload(self.seq).len() == 15);
        encode_request(self.seq, &Request::SubscribeSources, self.protocol_version).unwrap()
    }

    /// Notes whether a request was written to the server: its number is spent only then, whatever
    /// becomes of the reply.
    pub fn request_written(&mut self, written: bool)
        requires
            written ==> old(self).seq < u32::MAX,
        ensures
            final(self).seq == (if written {
                old(self).seq + 1
            } else {
                old(self).seq as int
            }),
            final(self).seq == next_number(old(self).seq, written),
            final(self).protocol_version == old(self).protocol_version,
    {
        if written {
            self.seq = self.seq + 1;
        }
    }

    /// Whether the server accepted the subscription, in `reply`. The first reply is only an
    /// acknowledgement.
    pub fn subscribed(reply: &[u8]) -> (accepted: Result<(), PulseError>)
        ensures
            accepted is Ok <==> replied_to(reply@) is Some,
            accepted is Ok <==> is_accepted(reply@),
            accepted matches Err(error) ==> error is BadReply && error.said() == ack_error(reply@),
    {
        match decode_ack(reply) {
            Ok(_) => Ok(()),
            Err(text) => Err(PulseError::BadReply(text)),
        }
    }

    /// Whether `message`, which came unasked, tells of an event. Messages of another kind are of
    /// no interest, and a request for a latency is one of these, whatever time it tells.
    pub fn is_event(&self, message: &[u8]) -> (told: Result<bool, PulseError>)
        ensures
            tells_event(message@) <==> told matches Ok(true),
            !time_fits(message@) ==> told == Ok::<bool, PulseError>(false),
            time_fits(message@) ==> answered(told) == event_told(message@, self.protocol_version),
            answered(told) == message_answer(message@, self.protocol_version),
            told matches Err(error) ==> error is BadReply,
    {
        if !is_time_in_range(message) {
            return Ok(false);
        }
        match decode_event(message, self.protocol_version) {
            Ok(told) => Ok(told),
            Err(text) => Err(PulseError::BadReply(text)),
        }
    }

    /// The message that asks for the state of the default source.
    pub fn get_is_default_source_muted(&self) -> (message: Vec<u8>)
        ensures
            message@ == request_message(self.seq, RequestView::GetDefaultSource),
            message@ == question_message(self.seq),
    {
        proof {
            lemma_text_lengths();
        }
        assert(RequestView::GetDefaultSource.payload(self.seq).len() == 33);
        encode_request(self.seq, &Request::GetDefaultSource, self.protocol_version).unwrap()
    }

    /// Whether the default source is muted, in `reply`.
    pub fn is_muted(&self, reply: &[u8]) -> (muted: Result<bool, PulseError>)
        ensures
            answered(muted) == source_info_muted(reply@, self.protocol_version),
            answered(muted) == question_answer(reply@, self.protocol_version),
            muted matches Err(error) ==> error is BadReply,
    {
        match decode_source_info(reply, self.protocol_version) {
            Ok(muted) => Ok(muted),
            Err(text) => Err(PulseError::BadReply(text)),
        }
    }
}

/// A number is read back from its bytes.
proof fn lemma_number_is_read_back(before: Seq<u8>, number: nat, after: Seq<u8>)
    requires
        number <= u32::MAX,
    ensures
        number_at(before + number_bytes(number) + after, before.len() as int) == number,
{
    let bytes = before + number_bytes(number) + after;
    let at = before.len() as int;
    assert(bytes[at] == number_bytes(number)[0]);
    assert(bytes[at + 1] == number_bytes(number)[1]);
    assert(bytes[at + 2] == number_bytes(number)[2]);
    assert(bytes[at + 3] == number_bytes(number)[3]);
}

/// A payload is read back from its message.
proof fn lemma_payload_is_read_back(content: Seq<u8>)
    requires
        content.len() <= u32::MAX,
    ensures
        payload(framed(content)) == content,
{
    let message = framed(content);
    let rest = message.skip(4);
    assert(message == Seq::<u8>::empty() + number_bytes(content.len()) + rest);
    lemma_number_is_read_back(Seq::empty(), content.len(), rest);
    assert(message.subrange(HEADER_LENGTH as int, HEADER_LENGTH + content.len()) == content);
}

/// So are the two numbers that it begins with.
proof fn lemma_head_is_read_back(command: u32, seq: u32, parameters: Seq<u8>)
    ensures
        ({
            let content = tagged(command as nat) + tagged(seq as nat) + parameters;
            &&& tagged_number(content, 0) == Some(command as nat)
            &&& tagged_number(content, 5) == Some(seq as nat)
        }),
{
    let content = tagged(command as nat) + tagged(seq as nat) + parameters;
    let rest = tagged(seq as nat) + parameters;
    assert(content == seq![NUMBER_TAG] + number_bytes(command as nat) + rest);
    lemma_number_is_read_back(seq![NUMBER_TAG], command as nat, rest);
    let head = tagged(command as nat) + seq![NUMBER_TAG];
    assert(content == head + number_bytes(seq as nat) + parameters);
    lemma_number_is_read_back(head, seq as nat, parameters);
    assert(content[0] == NUMBER_TAG);
    assert(content[5] == NUMBER_TAG);
}

/// Read as a reply would be, the message of a request has the request as its payload, and carries
/// its command and its number. No request is taken for a reply or for an event.
pub proof fn law_request_is_read_back(seq: u32, request: RequestView)
    requires
        request.payload(seq).len() <= u32::MAX,
    ensures
        payload(request_message(seq, request)) == request.payload(seq),
        tagged_number(request.payload(seq), 0) == Some(request.command() as nat),
        tagged_number(request.payload(seq), 5) == Some(seq as nat),
        replied_to(request_message(seq, request)) is None,
        !tells_event(request_message(seq, request)),
{
    lemma_payload_is_read_back(request.payload(seq));
    lemma_head_is_read_back(request.command(), seq, request.parameters());
}

/// A request carries what it is about: an authentication its version and its cookie, to the last
/// byte, with no flag for shared memory; a subscription the mask of sources; and the question about
/// the default source the mark for no number and its name.
pub proof fn law_requests_carry_what_they_are_about(seq: u32, version: u16, cookie: Seq<u8>)
    requires
        cookie.len() <= u32::MAX,
    ensures
        ({
            let payload = (RequestView::Auth { version, cookie }).payload(seq);
            &&& tagged_number(payload, 10) == Some(version as nat)
            &&& payload.len() == cookie.len() + 20
            &&& number_at(payload, 16) == cookie.len()
            &&& payload.skip(20) == cookie
        }),
        ({
            let payload = RequestView::SubscribeSources.payload(seq);
            tagged_number(payload, 10) == Some(2nat) && payload.len() == 15
        }),
        ({
            let payload = RequestView::GetDefaultSource.payload(seq);
            &&& tagged_number(payload, 10) == Some(u32::MAX as nat)
            &&& payload.skip(16) == ascii("@DEFAULT_SOURCE@\0"@)
        }),
        (RequestView::Auth { version, cookie }).command() == 8,
        (RequestView::SetClientName { name: cookie }).command() == 9,
        RequestView::GetDefaultSource.command() == 23,
        RequestView::SubscribeSources.command() == 35,
{
    lemma_auth_payload(seq, version, cookie);
    lemma_third_number_is_read_back(SUBSCRIBE, seq, SOURCE_EVENTS, Seq::empty());
    assert(tagged(SOURCE_EVENTS as nat) + Seq::<u8>::empty() == tagged(SOURCE_EVENTS as nat));
    let name = tagged_text(DEFAULT_SOURCE@);
    lemma_third_number_is_read_back(GET_SOURCE_INFO, seq, u32::MAX, name);
    assert(RequestView::GetDefaultSource.payload(seq).skip(16) == ascii(DEFAULT_SOURCE@));
}

/// What the payload of an authentication holds.
proof fn lemma_auth_payload(seq: u32, version: u16, cookie: Seq<u8>)
    requires
        cookie.len() <= u32::MAX,
    ensures
        ({
            let payload = (RequestView::Auth { version, cookie }).payload(seq);
            &&& tagged_number(payload, 10) == Some(version as nat)
            &&& payload.len() == cookie.len() + 20
            &&& number_at(payload, 16) == cookie.len()
            &&& payload.skip(20) == cookie
        }),
{
    let payload = (RequestView::Auth { version, cookie }).payload(seq);
    lemma_third_number_is_read_back(AUTH, seq, version as u32, tagged_bytes(cookie));
    let head = tagged(AUTH as nat) + tagged(seq as nat) + tagged(version as nat) + seq![BYTES_TAG];
    assert(payload == head + number_bytes(cookie.len()) + cookie);
    lemma_number_is_read_back(head, cookie.len(), cookie);
    assert(payload.skip(20) == cookie);
}

/// The third number of a payload is read back, as the first two are.
proof fn lemma_third_number_is_read_back(command: u32, seq: u32, number: u32, rest: Seq<u8>)
    ensures
        tagged_number(
            tagged(command as nat) + tagged(seq as nat) + (tagged(number as nat) + rest),
            10,
        ) == Some(number as nat),
{
    let content = tagged(command as nat) + tagged(seq as nat) + (tagged(number as nat) + rest);
    let head = tagged(command as nat) + tagged(seq as nat) + seq![NUMBER_TAG];
    assert(content == head + number_bytes(number as nat) + rest);
    lemma_number_is_read_back(head, number as nat, rest);
    assert(content[10] == NUMBER_TAG);
}

/// What is read off a message that begins with three numbers.
proof fn lemma_reply_of_three_numbers(message: Seq<u8>, command: u32, seq: u32, number: u32)
    requires
        tagged_number(payload(message), 0) == Some(command as nat),
        tagged_number(payload(message), 5) == Some(seq as nat),
        tagged_number(payload(message), 10) == Some(number as nat),
    ensures
        command == 2 ==> replied_to(message) == Some(seq as nat),
        command == 2 ==> reply_number(message) == Some(number as nat),
        command != 2 ==> replied_to(message) is None && reply_number(message) is None,
        command == 2 ==> auth_reply_version(message) == Some((number % 0x10000) as u16),
{
}

/// A reply is read back: the number of the request, the number that it begins with, and of that
/// number the lower half as the version. Whatever follows makes no difference, and no message with
/// another command is a reply.
pub proof fn law_replies_are_read_back(
    command: u32,
    seq: u32,
    number: u32,
    rest: Seq<u8>,
    flags: u16,
    version: u16,
)
    requires
        rest.len() + 15 <= u32::MAX,
    ensures
        ({
            let message = framed(
                tagged(command as nat) + tagged(seq as nat) + (tagged(number as nat) + rest),
            );
            &&& command == 2 ==> replied_to(message) == Some(seq as nat)
            &&& command == 2 ==> reply_number(message) == Some(number as nat)
            &&& command != 2 ==> replied_to(message) is None && reply_number(message) is None
            &&& number == flags * 0x10000 + version && command == 2 ==> auth_reply_version(message)
                == Some(version)
        }),
{
    let content = tagged(command as nat) + tagged(seq as nat) + (tagged(number as nat) + rest);
    lemma_payload_is_read_back(content);
    lemma_head_is_read_back(command, seq, tagged(number as nat) + rest);
    lemma_third_number_is_read_back(command, seq, number, rest);
    lemma_reply_of_three_numbers(framed(content), command, seq, number);
}

/// Client and server speak the older of their versions, from the request with the number two on,
/// once both first replies are good.
pub proof fn law_older_version_is_spoken(
    auth_reply: Seq<u8>,
    name_reply: Seq<u8>,
    max_version: u16,
)
    ensures
        connected(auth_reply, name_reply, max_version) is Some <==> auth_reply_version(
            auth_reply,
        ) is Some && reply_number(name_reply) is Some,
        connected(auth_reply, name_reply, max_version) matches Some((seq, version)) ==> {
            let offered = auth_reply_version(auth_reply)->0;
            &&& seq == 2
            &&& version <= max_version
            &&& version <= offered
            &&& version == max_version || version == offered
        },
{
}

/// A number is spent on a request that was written, and on no other.
pub proof fn law_numbers_are_spent_on_written_requests(seq: u32)
    ensures
        next_number(seq, true) == seq + 1,
        next_number(seq, false) == seq,
{
}

/// Only a message that asks for a latency can tell a time that does not fit, and it tells of no
/// event.
pub proof fn law_events_tell_no_time(message: Seq<u8>)
    ensures
        tells_event(message) ==> time_fits(message),
        replied_to(message) is Some ==> time_fits(message) && !tells_event(message),
        tagged_number(payload(message), 0) != Some(14nat) && tagged_number(payload(message), 0)
            != Some(57nat) ==> time_fits(message),
{
}

/// The subscription and the question about the default source carry the number that they are given,
/// and are what they are called.
pub proof fn law_requests_are_what_they_are_called(seq: u32)
    ensures
        tagged_number(payload(subscription_message(seq)), 0) == Some(35nat),
        tagged_number(payload(subscription_message(seq)), 5) == Some(seq as nat),
        tagged_number(payload(subscription_message(seq)), 10) == Some(2nat),
        tagged_number(payload(question_message(seq)), 0) == Some(23nat),
        tagged_number(payload(question_message(seq)), 5) == Some(seq as nat),
        payload(question_message(seq)).skip(16) == ascii("@DEFAULT_SOURCE@\0"@),
{
    lemma_text_lengths();
    assert(RequestView::SubscribeSources.payload(seq).len() == 15);
    assert(RequestView::GetDefaultSource.payload(seq).len() == 33);
    law_request_is_read_back(seq, RequestView::SubscribeSources);
    law_request_is_read_back(seq, RequestView::GetDefaultSource);
    law_requests_carry_what_they_are_about(seq, 0, Seq::empty());
}

/// The header of a message tells how long its payload is.
pub proof fn law_headers_tell_the_length(content: Seq<u8>, part: Seq<u8>)
    requires
        content.len() <= u32::MAX,
    ensures
        length_told(framed(content).take(20)) == Some(content.len()),
        part.len() < 20 <==> length_told(part) is None,
{
    let header = framed(content).take(20);
    assert(header == Seq::<u8>::empty() + number_bytes(content.len()) + header.skip(4));
    lemma_number_is_read_back(Seq::empty(), content.len(), header.skip(4));
}

/// A subscription is accepted by a reply, whatever request it is to and whatever follows, and by no
/// other message.
pub proof fn law_subscriptions_are_accepted_by_replies(command: u32, seq: u32, rest: Seq<u8>)
    requires
        rest.len() + 10 <= u32::MAX,
    ensures
        is_accepted(framed(tagged(command as nat) + tagged(seq as nat) + rest)) <==> command == 2,
{
    lemma_payload_is_read_back(tagged(command as nat) + tagged(seq as nat) + rest);
    lemma_head_is_read_back(command, seq, rest);
}

/// What the server says is passed on as it is, in the version that was agreed on. A message that
/// came unasked is passed over where it asks for a latency at a time that does not fit.
pub proof fn law_answers_are_passed_on(message: Seq<u8>, protocol_version: u16)
    ensures
        question_answer(message, protocol_version) == source_info_muted(message, protocol_version),
        time_fits(message) ==> message_answer(message, protocol_version) == event_told(
            message,
            protocol_version,
        ),
        !time_fits(message) ==> message_answer(message, protocol_version) == Ok::<bool, Seq<char>>(
            false,
        ),
{
}

/// The version that is agreed on is known to both sides, and is the newest that one of them offers
/// as its own; the client speaks it from then on.
pub proof fn law_version_is_agreed_on(auth_reply: Seq<u8>, name_reply: Seq<u8>, max_version: u16)
    ensures
        agreed_version(auth_reply, max_version) is Some <==> auth_reply_version(auth_reply) is Some,
        agreed_version(auth_reply, max_version) matches Some(version) ==> {
            let offered = auth_reply_version(auth_reply)->0;
            &&& version <= max_version
            &&& version <= offered
            &&& version == max_version || version == offered
        },
        connected(auth_reply, name_reply, max_version) matches Some((_, version))
            ==> agreed_version(auth_reply, max_version) == Some(version),
{
}

} // verus!
