//! How a connection to the PulseAudio server begins.
use crate::pulse;
use crate::pulse::RequestView;
use vstd::prelude::*;

verus! {

/// What one who connects to the server has to do next.
#[derive(Debug, Clone, Copy, PartialEq, Eq, Structural)]
pub enum HandshakeStep {
    /// Write the message that authenticates.
    Authenticate,
    /// Read the reply to it, and agree on a version of the protocol.
    AwaitAuthReply,
    /// Write the message that names the client, in this version.
    NameClient(u16),
    /// Read the reply to it.
    AwaitNameReply(u16),
    /// Nothing more: there is a client, which speaks this version.
    Connected(u16),
    /// Nothing more: there is no client.
    Fail,
}

/// What came of it.
#[derive(Debug, Clone, Copy, PartialEq, Eq, Structural)]
pub enum HandshakeOutcome {
    Succeeded,
    Failed,
    /// This version of the protocol was agreed on.
    Agreed(u16),
}

impl HandshakeStep {
    /// What comes first.
    pub fn first() -> (step: HandshakeStep)
        ensures
            step == HandshakeStep::Authenticate,
    {
        HandshakeStep::Authenticate
    }
}

/// What follows `step` when it has come to `outcome`. Each message is written only after a good
/// reply to the one before, and a failure ends it.
pub open spec fn handshake_after(step: HandshakeStep, outcome: HandshakeOutcome) -> HandshakeStep {
    match (step, outcome) {
        (HandshakeStep::Authenticate, HandshakeOutcome::Succeeded) => HandshakeStep::AwaitAuthReply,
        (HandshakeStep::AwaitAuthReply, HandshakeOutcome::Agreed(
            version,
        )) => HandshakeStep::NameClient(version),
        (HandshakeStep::NameClient(
            version,
        ), HandshakeOutcome::Succeeded) => HandshakeStep::AwaitNameReply(version),
        (HandshakeStep::AwaitNameReply(
            version,
        ), HandshakeOutcome::Succeeded) => HandshakeStep::Connected(version),
        (HandshakeStep::Connected(version), _) => HandshakeStep::Connected(version),
        _ => HandshakeStep::Fail,
    }
}

/// What follows `step` when it has come to `outcome`.
pub fn handshake_step(step: HandshakeStep, outcome: HandshakeOutcome) -> (next: HandshakeStep)
    ensures
        next == handshake_after(step, outcome),
{
    match (step, outcome) {
        (HandshakeStep::Authenticate, HandshakeOutcome::Succeeded) => HandshakeStep::AwaitAuthReply,
        (HandshakeStep::AwaitAuthReply, HandshakeOutcome::Agreed(
            version,
        )) => HandshakeStep::NameClient(version),
        (HandshakeStep::NameClient(
            version,
        ), HandshakeOutcome::Succeeded) => HandshakeStep::AwaitNameReply(version),
        (HandshakeStep::AwaitNameReply(
            version,
        ), HandshakeOutcome::Succeeded) => HandshakeStep::Connected(version),
        (HandshakeStep::Connected(version), _) => HandshakeStep::Connected(version),
        _ => HandshakeStep::Fail,
    }
}

/// Where connecting has got to after these outcomes.
pub open spec fn reached(outcomes: Seq<HandshakeOutcome>) -> HandshakeStep
    decreases outcomes.len(),
{
    if outcomes.len() == 0 {
        HandshakeStep::Authenticate
    } else {
        handshake_after(reached(outcomes.drop_last()), outcomes.last())
    }
}

/// The message that authenticates.
pub open spec fn auth_message(cookie: Seq<u8>, max_version: u16) -> Seq<u8> {
    pulse::request_message(0, RequestView::Auth { version: max_version, cookie })
}

/// The message that names the client.
pub open spec fn name_message() -> Seq<u8> {
    pulse::request_message(
        1,
        RequestView::SetClientName { name: pulse::ascii(pulse::CLIENT_NAME@) },
    )
}

/// The messages that were written, in order, when connecting has come to these outcomes.
pub open spec fn sent(
    cookie: Seq<u8>,
    max_version: u16,
    outcomes: Seq<HandshakeOutcome>,
) -> Seq<Seq<u8>>
    decreases outcomes.len(),
{
    if outcomes.len() == 0 {
        Seq::empty()
    } else {
        let before = sent(cookie, max_version, outcomes.drop_last());
        match (reached(outcomes.drop_last()), outcomes.last()) {
            (HandshakeStep::Authenticate, HandshakeOutcome::Succeeded) => before.push(
                auth_message(cookie, max_version),
            ),
            (HandshakeStep::NameClient(_), HandshakeOutcome::Succeeded) => before.push(
                name_message(),
            ),
            _ => before,
        }
    }
}

/// One who is connected has written exactly two messages: the one that authenticates, and then the
/// one that names the client. One who failed has written no others, and in no other order.
pub proof fn law_two_messages_are_written(
    cookie: Seq<u8>,
    max_version: u16,
    outcomes: Seq<HandshakeOutcome>,
)
    ensures
        ({
            let written = sent(cookie, max_version, outcomes);
            let messages = seq![auth_message(cookie, max_version), name_message()];
            match reached(outcomes) {
                HandshakeStep::Authenticate => written == messages.take(0),
                HandshakeStep::AwaitAuthReply => written == messages.take(1),
                HandshakeStep::NameClient(_) => written == messages.take(1),
                HandshakeStep::AwaitNameReply(_) => written == messages,
                HandshakeStep::Connected(_) => written == messages,
                HandshakeStep::Fail => written == messages.take(0) || written == messages.take(1)
                    || written == messages,
            }
        }),
    decreases outcomes.len(),
{
    let messages = seq![auth_message(cookie, max_version), name_message()];
    assert(messages.take(0).push(messages[0]) == messages.take(1));
    assert(messages.take(1).push(messages[1]) == messages);
    if outcomes.len() > 0 {
        law_two_messages_are_written(cookie, max_version, outcomes.drop_last());
    }
}

/// The client is named only after a version was agreed on, and speaks that version; it is connected
/// only after a good reply to its name. A failure of any kind, before that, ends it.
pub proof fn law_messages_follow_good_replies(step: HandshakeStep, outcome: HandshakeOutcome)
    ensures
        ({
            let next = handshake_after(step, outcome);
            &&& next matches HandshakeStep::NameClient(version) ==> step is AwaitAuthReply
                && outcome == HandshakeOutcome::Agreed(version)
            &&& next matches HandshakeStep::AwaitNameReply(version) ==> step
                == HandshakeStep::NameClient(version)
            &&& next matches HandshakeStep::Connected(version) ==> step
                == HandshakeStep::Connected(version) || (step == HandshakeStep::AwaitNameReply(
                version,
            ) && outcome is Succeeded)
            &&& outcome is Failed && !(step is Connected) ==> next is Fail
        }),
{
}

/// What leads to each step of connecting, and that nothing else does.
pub proof fn law_handshake_goes_step_by_step(
    step: HandshakeStep,
    outcome: HandshakeOutcome,
    version: u16,
)
    ensures
        ({
            let next = handshake_after(step, outcome);
            &&& !(next is Authenticate)
            &&& next is AwaitAuthReply <==> step is Authenticate && outcome is Succeeded
            &&& next == HandshakeStep::NameClient(version) <==> step is AwaitAuthReply && outcome
                == HandshakeOutcome::Agreed(version)
            &&& next == HandshakeStep::AwaitNameReply(version) <==> step
                == HandshakeStep::NameClient(version) && outcome is Succeeded
            &&& next == HandshakeStep::Connected(version) <==> step == HandshakeStep::Connected(
                version,
            ) || (step == HandshakeStep::AwaitNameReply(version) && outcome is Succeeded)
        }),
{
}

/// The first message is the request with the number 0, with the client's newest version and the
/// cookie; the second is the one with the number 1, with the daemon's name.
pub proof fn law_handshake_messages(cookie: Seq<u8>, max_version: u16)
    requires
        cookie.len() + 20 <= u32::MAX,
    ensures
        ({
            let payload = pulse::payload(auth_message(cookie, max_version));
            &&& pulse::tagged_number(payload, 0) == Some(8nat)
            &&& pulse::tagged_number(payload, 5) == Some(0nat)
            &&& pulse::tagged_number(payload, 10) == Some(max_version as nat)
            &&& payload.skip(20) == cookie
        }),
        ({
            let payload = pulse::payload(name_message());
            &&& pulse::tagged_number(payload, 0) == Some(9nat)
            &&& pulse::tagged_number(payload, 5) == Some(1nat)
            &&& payload == (RequestView::SetClientName {
                name: pulse::ascii("zenbook-duo-daemon\0"@),
            }).payload(1)
        }),
{
    pulse::law_requests_carry_what_they_are_about(0, max_version, cookie);
    pulse::law_request_is_read_back(0, RequestView::Auth { version: max_version, cookie });
    reveal_strlit("zenbook-duo-daemon\0");
    reveal_strlit("application.name\0");
    let naming = RequestView::SetClientName { name: pulse::ascii(pulse::CLIENT_NAME@) };
    assert(naming.payload(1).len() == 59);
    pulse::law_request_is_read_back(1, naming);
}

} // verus!
