//! Following whether the microphone is muted, as the sound server of the user says it.
use crate::events::{Effect, Event};
use crate::state::{InnerState, KeyboardStateManager};
use crate::state_laws;
use crate::text;
use vstd::prelude::*;
use vstd::string::StringExecFns;

verus! {

/// A server with no default source fails immediately and forever, so retrying at a fixed
/// interval would bury the journal. The daemon backs off instead, and starts over once a
/// connection has lasted.
pub const RETRY_MIN_SECS: u64 = 1;

pub const RETRY_MAX_SECS: u64 = 60;

pub const RETRY_RESET_AFTER_SECS: u64 = 10;

/// Where the runtime directories of the users are.
pub const RUNTIME_DIRECTORY: &'static str = "/run/user/";

/// The socket of the server, in the runtime directory of its user.
pub const SOCKET_NAME: &'static str = "/pulse/native";

/// The cookie of the server, in the home directory of its user.
pub const COOKIE_NAME: &'static str = ".config/pulse/cookie";

/// An entry of `RUNTIME_DIRECTORY`.
#[derive(Debug, PartialEq, Eq)]
pub struct RuntimeEntry {
    pub name: String,
    pub is_dir: bool,
    /// Whether the system knows the user whose directory this is.
    pub user_found: bool,
    /// Whether there is a file at the path of the user's socket.
    pub socket_exists: bool,
}

/// The user whose runtime directory has this name, and the path of the user's socket. Users
/// of the system itself have none.
pub open spec fn user_socket(name: Seq<char>) -> Option<(u32, Seq<char>)> {
    match text::u32_of(name) {
        Some(uid) => if 1000 <= uid <= 2000 {
            Some((uid, RUNTIME_DIRECTORY@ + name + SOCKET_NAME@))
        } else {
            None
        },
        None => None,
    }
}

/// The user whose runtime directory has this name, and the path of the user's socket.
pub fn socket_of_user(name: &str) -> (socket: Option<(u32, String)>)
    ensures
        socket is Some <==> user_socket(name@) is Some,
        socket matches Some(socket) ==> user_socket(name@) == Some((socket.0, socket.1@)),
{
    match text::parse_u32(name) {
        Some(uid) => if uid < 1000 || uid > 2000 {
            None
        } else {
            Some((uid, String::from_str(RUNTIME_DIRECTORY).concat(name).concat(SOCKET_NAME)))
        },
        None => None,
    }
}

impl RuntimeEntry {
    /// The user and the socket of the entry, where they can be used.
    pub open spec fn usable_socket(self) -> Option<(u32, Seq<char>)> {
        if self.is_dir && self.user_found && self.socket_exists {
            user_socket(self.name@)
        } else {
            None
        }
    }
}

/// The first socket among `entries` that can be used.
pub open spec fn first_socket(entries: Seq<RuntimeEntry>) -> Option<(u32, Seq<char>)>
    decreases entries.len(),
{
    if entries.len() == 0 {
        None
    } else if entries.first().usable_socket() is Some {
        entries.first().usable_socket()
    } else {
        first_socket(entries.drop_first())
    }
}

/// The first socket among `entries` that can be used, and its user.
pub fn find_pulseaudio_socket_path(entries: &Vec<RuntimeEntry>) -> (socket: Option<(u32, String)>)
    ensures
        socket is Some <==> first_socket(entries@) is Some,
        socket matches Some(socket) ==> first_socket(entries@) == Some((socket.0, socket.1@)),
{
    let mut i: usize = 0;
    assert(entries@.skip(0) == entries@);
    while i < entries.len()
        invariant
            i <= entries.len(),
            first_socket(entries@.skip(i as int)) == first_socket(entries@),
        decreases entries.len() - i,
    {
        assert(entries@.skip(i as int).drop_first() == entries@.skip(i + 1));
        let entry = &entries[i];
        if entry.is_dir && entry.user_found && entry.socket_exists {
            let socket = socket_of_user(entry.name.as_str());
            if socket.is_some() {
                return socket;
            }
        }
        i = i + 1;
    }
    None
}

/// What one who listens to the server has to do next.
#[derive(Debug, Clone, Copy, PartialEq, Eq, Structural)]
pub enum ListenStep {
    /// Read the cookie.
    ReadCookie,
    /// Connect the client that is told of changes.
    ConnectSubscription,
    /// Connect the client that asks for the state.
    ConnectQuery,
    /// Ask for the state, for the first time.
    QueryFirst,
    /// Ask to be told of changes.
    Subscribe,
    /// Wait for a message.
    AwaitMessage,
    /// Ask for the state again.
    QueryAgain,
    /// Nothing more: there is no cookie to listen with, and that is all.
    Finish,
    /// Nothing more: something failed, which is to be reported.
    Fail,
}

impl ListenStep {
    /// What listening begins with.
    pub fn first() -> (step: ListenStep)
        ensures
            step == ListenStep::ReadCookie,
    {
        ListenStep::ReadCookie
    }
}

/// What came of it.
#[derive(Debug, Clone, Copy, PartialEq, Eq, Structural)]
pub enum ListenOutcome {
    Succeeded,
    Failed,
    /// The default source is muted, or is not.
    Muted(bool),
    /// The message tells of a change.
    SourceEvent,
    /// The message tells of something else.
    OtherMessage,
}

/// What follows `step` when it has come to `outcome`, in `state`. The state of the source is
/// asked for once before and again after each change that is told; what else the server says is
/// ignored, and a failure ends it. All is well only where the cookie cannot be read.
pub open spec fn listen_after(step: ListenStep, outcome: ListenOutcome, state: InnerState) -> (
    ListenStep,
    (InnerState, Seq<Effect>),
) {
    let unchanged = (state, Seq::<Effect>::empty());
    match (step, outcome) {
        (ListenStep::ReadCookie, ListenOutcome::Succeeded) => (
            ListenStep::ConnectSubscription,
            unchanged,
        ),
        (ListenStep::ConnectSubscription, ListenOutcome::Succeeded) => (
            ListenStep::ConnectQuery,
            unchanged,
        ),
        (ListenStep::ConnectQuery, ListenOutcome::Succeeded) => (ListenStep::QueryFirst, unchanged),
        (ListenStep::QueryFirst, ListenOutcome::Muted(muted)) => (
            ListenStep::Subscribe,
            state.mic_mute_led_set(muted),
        ),
        (ListenStep::Subscribe, ListenOutcome::Succeeded) => (ListenStep::AwaitMessage, unchanged),
        (ListenStep::AwaitMessage, ListenOutcome::SourceEvent) => (
            ListenStep::QueryAgain,
            unchanged,
        ),
        (ListenStep::AwaitMessage, ListenOutcome::OtherMessage) => (
            ListenStep::AwaitMessage,
            unchanged,
        ),
        (ListenStep::QueryAgain, ListenOutcome::Muted(muted)) => (
            ListenStep::AwaitMessage,
            state.mic_mute_led_set(muted),
        ),
        (ListenStep::ReadCookie, _) => (ListenStep::Finish, unchanged),
        (ListenStep::Finish, _) => (ListenStep::Finish, unchanged),
        _ => (ListenStep::Fail, unchanged),
    }
}

/// What follows `step` when it has come to `outcome`, and what has to be done because of it.
pub fn listen_mute_state(
    step: ListenStep,
    outcome: ListenOutcome,
    state: &mut KeyboardStateManager,
) -> (r: (ListenStep, Vec<Effect>))
    ensures
        (r.0, (final(state)@, r.1@)) == listen_after(step, outcome, old(state)@),
{
    match (step, outcome) {
        (ListenStep::ReadCookie, ListenOutcome::Succeeded) => (
            ListenStep::ConnectSubscription,
            Vec::new(),
        ),
        (ListenStep::ConnectSubscription, ListenOutcome::Succeeded) => (
            ListenStep::ConnectQuery,
            Vec::new(),
        ),
        (ListenStep::ConnectQuery, ListenOutcome::Succeeded) => (
            ListenStep::QueryFirst,
            Vec::new(),
        ),
        (ListenStep::QueryFirst, ListenOutcome::Muted(muted)) => (
            ListenStep::Subscribe,
            state.set_mic_mute_led(muted),
        ),
        (ListenStep::Subscribe, ListenOutcome::Succeeded) => (
            ListenStep::AwaitMessage,
            Vec::new(),
        ),
        (ListenStep::AwaitMessage, ListenOutcome::SourceEvent) => (
            ListenStep::QueryAgain,
            Vec::new(),
        ),
        (ListenStep::AwaitMessage, ListenOutcome::OtherMessage) => (
            ListenStep::AwaitMessage,
            Vec::new(),
        ),
        (ListenStep::QueryAgain, ListenOutcome::Muted(muted)) => (
            ListenStep::AwaitMessage,
            state.set_mic_mute_led(muted),
        ),
        (ListenStep::ReadCookie, _) => (ListenStep::Finish, Vec::new()),
        (ListenStep::Finish, _) => (ListenStep::Finish, Vec::new()),
        _ => (ListenStep::Fail, Vec::new()),
    }
}

/// What a retry knows of the attempts before it.
#[verifier::ext_equal]
pub struct RetryView {
    /// How many seconds to wait before the next attempt.
    pub retry_in: nat,
    /// The socket that was found last.
    pub last_socket_path: Option<Seq<char>>,
    /// The error that was reported last, and not followed by a success.
    pub last_error: Option<Seq<char>>,
}

impl RetryView {
    /// Before the first attempt.
    pub open spec fn initial() -> RetryView {
        RetryView { retry_in: RETRY_MIN_SECS as nat, last_socket_path: None, last_error: None }
    }

    /// Whether a socket is another one than before, and what is known then.
    pub open spec fn with_socket(self, path: Seq<char>) -> (bool, RetryView) {
        (
            self.last_socket_path != Some(path),
            RetryView { last_socket_path: Some(path), ..self },
        )
    }

    /// Whether an error is worth a line, and what is known once listening has ended.
    pub open spec fn after_listening(self, error: Option<Seq<char>>, elapsed_secs: nat) -> (
        bool,
        RetryView,
    ) {
        (
            error is Some && self.last_error != error,
            RetryView {
                retry_in: if elapsed_secs >= RETRY_RESET_AFTER_SECS {
                    RETRY_MIN_SECS as nat
                } else {
                    self.retry_in
                },
                last_error: error,
                ..self
            },
        )
    }

    /// How long to wait, and what is known then.
    pub open spec fn waiting(self) -> (nat, RetryView) {
        (self.retry_in, RetryView { retry_in: next_retry(self.retry_in), ..self })
    }
}

/// What the end of listening does to the state.
pub open spec fn listening_lost(state: InnerState) -> (InnerState, Seq<Effect>) {
    state.mic_mute_led_set(false)
}

/// The wait that follows a wait of `secs` seconds.
pub open spec fn next_retry(secs: nat) -> nat {
    if secs * 2 <= RETRY_MAX_SECS {
        secs * 2
    } else {
        RETRY_MAX_SECS as nat
    }
}

/// Attempts to listen to the server, again and again.
#[derive(Debug)]
pub struct MuteStateRetry {
    retry_in: u64,
    last_socket_path: Option<String>,
    last_error: Option<String>,
}

/// Whether `last` holds `text`.
fn is_last(last: &Option<String>, text: &String) -> (r: bool)
    ensures
        r == (text::optional_string(*last) == Some(text@)),
{
    match last {
        Some(last) => text::same_text(last.as_str(), text.as_str()),
        None => false,
    }
}

impl View for MuteStateRetry {
    type V = RetryView;

    closed spec fn view(&self) -> RetryView {
        RetryView {
            retry_in: self.retry_in as nat,
            last_socket_path: text::optional_string(self.last_socket_path),
            last_error: text::optional_string(self.last_error),
        }
    }
}

impl MuteStateRetry {
    #[verifier::type_invariant]
    spec fn wait_is_bounded(self) -> bool {
        RETRY_MIN_SECS <= self.retry_in <= RETRY_MAX_SECS
    }

    /// Before the first attempt.
    pub fn new() -> (retry: MuteStateRetry)
        ensures
            retry@ == (RetryView {
                retry_in: RETRY_MIN_SECS as nat,
                last_socket_path: None,
                last_error: None,
            }),
            retry@ == RetryView::initial(),
    {
        MuteStateRetry { retry_in: RETRY_MIN_SECS, last_socket_path: None, last_error: None }
    }

    /// Notes that a socket was found, and says whether it is another one than before, and so
    /// worth a line in the journal.
    pub fn socket_found(&mut self, path: &String) -> (is_new: bool)
        ensures
            is_new == (old(self)@.last_socket_path != Some(path@)),
            final(self)@ == (RetryView { last_socket_path: Some(path@), ..old(self)@ }),
            (is_new, final(self)@) == old(self)@.with_socket(path@),
    {
        proof {
            use_type_invariant(&*self);
        }
        if is_last(&self.last_socket_path, path) {
            false
        } else {
            self.last_socket_path = Some(path.clone());
            true
        }
    }

    /// Notes that listening has ended after `elapsed_secs` seconds, with `error` unless all was
    /// well. Says whether the error is worth a line in the journal: repeats are the norm, so
    /// only a change of error is. A connection that lasted makes the next retry prompt again.
    /// Nobody says any more whether the microphone is muted, so the LED goes off.
    pub fn listening_ended(
        &mut self,
        error: Option<String>,
        elapsed_secs: u64,
        state: &mut KeyboardStateManager,
    ) -> (r: (bool, Vec<Effect>))
        ensures
            r.0 == (error is Some && old(self)@.last_error != text::optional_string(error)),
            final(self)@ == (RetryView {
                retry_in: if elapsed_secs >= RETRY_RESET_AFTER_SECS {
                    RETRY_MIN_SECS as nat
                } else {
                    old(self)@.retry_in
                },
                last_error: text::optional_string(error),
                ..old(self)@
            }),
            (final(state)@, r.1@) == old(state)@.mic_mute_led_set(false),
            (r.0, final(self)@) == old(self)@.after_listening(
                text::optional_string(error),
                elapsed_secs as nat,
            ),
            (final(state)@, r.1@) == listening_lost(old(state)@),
    {
        proof {
            use_type_invariant(&*self);
        }
        let report = match error {
            Some(error) => if is_last(&self.last_error, &error) {
                false
            } else {
                self.last_error = Some(error);
                true
            },
            None => {
                self.last_error = None;
                false
            },
        };
        if elapsed_secs >= RETRY_RESET_AFTER_SECS {
            self.retry_in = RETRY_MIN_SECS;
        }
        (report, state.set_mic_mute_led(false))
    }

    /// How many seconds to wait before the next attempt. The wait after that is twice as long,
    /// up to `RETRY_MAX_SECS`.
    pub fn next_wait(&mut self) -> (secs: u64)
        ensures
            secs == old(self)@.retry_in,
            RETRY_MIN_SECS <= secs <= RETRY_MAX_SECS,
            final(self)@ == (RetryView { retry_in: next_retry(old(self)@.retry_in), ..old(self)@ }),
            (secs as nat, final(self)@) == old(self)@.waiting(),
    {
        proof {
            use_type_invariant(&*self);
        }
        let secs = self.retry_in;
        self.retry_in = if secs * 2 <= RETRY_MAX_SECS {
            secs * 2
        } else {
            RETRY_MAX_SECS
        };
        secs
    }
}

/// The wait after `attempts` attempts since the last one that lasted.
pub open spec fn wait_after(attempts: nat) -> nat
    decreases attempts,
{
    if attempts == 0 {
        RETRY_MIN_SECS as nat
    } else {
        next_retry(wait_after((attempts - 1) as nat))
    }
}

/// The waits double from one second on, until they are a minute long.
pub proof fn law_waits_double_up_to_a_minute(attempts: nat)
    ensures
        attempts < 6 ==> wait_after(attempts) == vstd::arithmetic::power2::pow2(attempts),
        attempts >= 6 ==> wait_after(attempts) == RETRY_MAX_SECS,
        RETRY_MIN_SECS <= wait_after(attempts) <= RETRY_MAX_SECS,
    decreases attempts,
{
    vstd::arithmetic::power2::lemma2_to64();
    if attempts > 0 {
        law_waits_double_up_to_a_minute((attempts - 1) as nat);
        vstd::arithmetic::power2::lemma_pow2_unfold(attempts);
    }
}

/// Only users of their own, not those of the system, are listened to, and at their own socket.
pub proof fn law_socket_belongs_to_a_user(entries: Seq<RuntimeEntry>)
    ensures
        first_socket(entries) matches Some((uid, path)) ==> 1000 <= uid <= 2000 && exists|i: int|
            0 <= i < entries.len() && (#[trigger] entries[i]).usable_socket() == Some((uid, path))
                && forall|j: int|
                0 <= j < i ==> (#[trigger] entries[j]).usable_socket() is None,
        first_socket(entries) is None ==> forall|i: int|
            0 <= i < entries.len() ==> (#[trigger] entries[i]).usable_socket() is None,
    decreases entries.len(),
{
    if entries.len() > 0 && entries.first().usable_socket() is None {
        let rest = entries.drop_first();
        law_socket_belongs_to_a_user(rest);
        if let Some((uid, path)) = first_socket(entries) {
            let i = choose|i: int|
                0 <= i < rest.len() && (#[trigger] rest[i]).usable_socket() == Some((uid, path))
                    && forall|j: int|
                    0 <= j < i ==> (#[trigger] rest[j]).usable_socket() is None;
            assert(entries[i + 1] == rest[i]);
            assert forall|j: int| 0 <= j < i + 1 implies (
            #[trigger] entries[j]).usable_socket() is None by {
                if j > 0 {
                    assert(entries[j] == rest[j - 1]);
                }
            }
        } else {
            assert forall|j: int| 0 <= j < entries.len() implies (
            #[trigger] entries[j]).usable_socket() is None by {
                if j > 0 {
                    assert(entries[j] == rest[j - 1]);
                }
            }
        }
    } else if entries.len() > 0 {
        assert(entries[0].usable_socket() == first_socket(entries));
    }
}

/// While it listens, the daemon shows what the server said last: the LED changes on an answer,
/// to that answer, and on nothing else.
pub proof fn law_led_follows_the_server(
    step: ListenStep,
    outcome: ListenOutcome,
    state: InnerState,
)
    ensures
        ({
            let after = listen_after(step, outcome, state).1.0;
            &&& (step is QueryFirst || step is QueryAgain) && outcome is Muted
                ==> after.mic_mute_led == outcome->Muted_0
            &&& !((step is QueryFirst || step is QueryAgain) && outcome is Muted) ==> after == state
        }),
{
}

/// Listening ends well where the cookie cannot be read, and only there; any other failure ends it
/// too, and is reported. Once it waits for messages, only a failure ends it.
pub proof fn law_failure_ends_listening(step: ListenStep, outcome: ListenOutcome, state: InnerState)
    ensures
        ({
            let next = listen_after(step, outcome, state).0;
            &&& next is Finish <==> step is Finish || (step is ReadCookie && !(outcome
                is Succeeded))
            &&& outcome is Failed ==> next is Finish || next is Fail
            &&& step is Fail ==> next is Fail
            &&& step is AwaitMessage && (outcome is SourceEvent || outcome is OtherMessage) ==> !(
            next is Fail)
        }),
{
}

/// Subscribing follows the first answer of the server, and each change that is told is followed
/// by a fresh question, before the next message is waited for.
pub proof fn law_each_change_is_asked_about(
    step: ListenStep,
    outcome: ListenOutcome,
    state: InnerState,
)
    ensures
        ({
            let next = listen_after(step, outcome, state).0;
            &&& next is Subscribe <==> step is QueryFirst && outcome is Muted
            &&& next is QueryAgain <==> step is AwaitMessage && outcome is SourceEvent
            &&& step is QueryAgain && next is AwaitMessage ==> outcome is Muted
            &&& step is QueryAgain && !(next is AwaitMessage) ==> next is Fail
        }),
{
}

/// Where listening has got to, and what it has made of `state`, after these outcomes.
pub open spec fn listened(state: InnerState, outcomes: Seq<ListenOutcome>) -> (
    ListenStep,
    InnerState,
)
    decreases outcomes.len(),
{
    if outcomes.len() == 0 {
        (ListenStep::ReadCookie, state)
    } else {
        let before = listened(state, outcomes.drop_last());
        let after = listen_after(before.0, outcomes.last(), before.1);
        (after.0, after.1.0)
    }
}

/// The last answer of the server among these outcomes.
pub open spec fn last_answer(state: InnerState, outcomes: Seq<ListenOutcome>) -> Option<bool>
    decreases outcomes.len(),
{
    if outcomes.len() == 0 {
        None
    } else {
        let before = listened(state, outcomes.drop_last()).0;
        match outcomes.last() {
            ListenOutcome::Muted(muted) if before is QueryFirst || before is QueryAgain => Some(
                muted,
            ),
            _ => last_answer(state, outcomes.drop_last()),
        }
    }
}

/// However long it listens, all that the daemon makes of it is that the LED shows the last
/// answer of the server. There is one before it subscribes, and none where the cookie cannot be
/// read.
pub proof fn law_led_shows_the_last_answer(state: InnerState, outcomes: Seq<ListenOutcome>)
    ensures
        listened(state, outcomes).1 == (match last_answer(state, outcomes) {
            Some(muted) => InnerState { mic_mute_led: muted, ..state },
            None => state,
        }),
        ({
            let step = listened(state, outcomes).0;
            &&& step is Subscribe || step is AwaitMessage || step is QueryAgain ==> last_answer(
                state,
                outcomes,
            ) is Some
            &&& step is ReadCookie || step is ConnectSubscription || step is ConnectQuery || step
                is QueryFirst || step is Finish ==> last_answer(state, outcomes) is None
        }),
    decreases outcomes.len(),
{
    if outcomes.len() > 0 {
        law_led_shows_the_last_answer(state, outcomes.drop_last());
    }
}

/// One who follows the events of listening knows what is to be shown. An answer that changes what
/// the LED is to show is told, as it is, and nothing else is told or saved: not an answer that says
/// what was known, and none during a suspension, which tells it at its end.
pub proof fn law_answers_are_told(
    step: ListenStep,
    outcome: ListenOutcome,
    state: InnerState,
    muted: bool,
)
    ensures
        ({
            let after = listen_after(step, outcome, state).1;
            &&& state_laws::followed(state_laws::shown(state), after.1) == state_laws::shown(
                after.0,
            )
            &&& step is QueryFirst || step is QueryAgain ==> listen_after(
                step,
                ListenOutcome::Muted(muted),
                state,
            ).1 == (
                InnerState { mic_mute_led: muted, ..state },
                if state.mic_mute_led != muted && !state.is_suspended {
                    seq![Effect::Emit(Event::MicMuteLed(muted))]
                } else {
                    Seq::empty()
                },
            )
            &&& !(outcome is Muted) || !(step is QueryFirst || step is QueryAgain) ==> after == (
                state,
                Seq::<Effect>::empty(),
            )
        }),
{
    let effects = listen_after(step, outcome, state).1.1;
    reveal_with_fuel(state_laws::followed, 2);
    if effects.len() == 1 {
        assert(effects.drop_last() == Seq::<Effect>::empty());
    }
}

/// What leads to each step of listening, and that nothing else does.
pub proof fn law_listening_goes_step_by_step(
    step: ListenStep,
    outcome: ListenOutcome,
    state: InnerState,
)
    ensures
        ({
            let next = listen_after(step, outcome, state).0;
            &&& !(next is ReadCookie)
            &&& next is ConnectSubscription <==> step is ReadCookie && outcome is Succeeded
            &&& next is ConnectQuery <==> step is ConnectSubscription && outcome is Succeeded
            &&& next is QueryFirst <==> step is ConnectQuery && outcome is Succeeded
            &&& next is Subscribe <==> step is QueryFirst && outcome is Muted
            &&& next is AwaitMessage <==> (step is Subscribe && outcome is Succeeded) || (step
                is AwaitMessage && outcome is OtherMessage) || (step is QueryAgain && outcome
                is Muted)
            &&& next is QueryAgain <==> step is AwaitMessage && outcome is SourceEvent
            &&& next is Finish <==> step is Finish || (step is ReadCookie && !(outcome
                is Succeeded))
        }),
{
}

/// When listening has ended nobody says whether the microphone is muted, so the LED goes dark, which
/// is told where it was lit. Nothing else changes.
pub proof fn law_led_goes_dark_when_listening_ends(state: InnerState)
    ensures
        listening_lost(state).0 == (InnerState { mic_mute_led: false, ..state }),
        !listening_lost(state).0.shown_mic_mute_led(),
        listening_lost(state).1 == (if state.mic_mute_led && !state.is_suspended {
            seq![Effect::Emit(Event::MicMuteLed(false))]
        } else {
            Seq::empty()
        }),
{
}

/// An error is reported when it first comes, and not again until another one or none has come in
/// between. What is reported, and how long to wait, have nothing to do with each other.
pub proof fn law_errors_are_reported_once(
    retry: RetryView,
    error: Seq<char>,
    other: Option<Seq<char>>,
    elapsed: nat,
    later: nat,
)
    ensures
        ({
            let once = retry.after_listening(Some(error), elapsed);
            let twice = once.1.after_listening(Some(error), later);
            let between = once.1.after_listening(other, later);
            let again = between.1.after_listening(Some(error), elapsed);
            &&& once.0 <==> retry.last_error != Some(error)
            &&& !twice.0
            &&& again.0 <==> other != Some(error)
            &&& other is Some ==> (between.0 <==> other != Some(error))
            &&& !retry.after_listening(None, elapsed).0
            &&& once.1.last_socket_path == retry.last_socket_path
            &&& RetryView::initial().after_listening(Some(error), elapsed).0
        }),
{
}

/// A connection that lasted for ten seconds makes the next wait short again; any other leaves it as
/// it was. A wait is as long as it was said to be, and the next one no shorter.
pub proof fn law_lasting_connections_make_retries_prompt(
    retry: RetryView,
    error: Option<Seq<char>>,
    elapsed: nat,
)
    requires
        1 <= retry.retry_in <= 60,
    ensures
        elapsed >= 10 ==> retry.after_listening(error, elapsed).1.retry_in == 1,
        elapsed < 10 ==> retry.after_listening(error, elapsed).1.retry_in == retry.retry_in,
        RetryView::initial().retry_in == 1,
        retry.waiting().0 == retry.retry_in,
        retry.retry_in <= 30 ==> retry.waiting().1.retry_in == 2 * retry.retry_in,
        retry.retry_in > 30 ==> retry.waiting().1.retry_in == 60,
        retry.waiting().1.last_error == retry.last_error,
        retry.waiting().1.last_socket_path == retry.last_socket_path,
{
}

/// A socket is announced when it is found first, and not again until another one was.
pub proof fn law_sockets_are_announced_once(retry: RetryView, path: Seq<char>, other: Seq<char>)
    ensures
        RetryView::initial().with_socket(path).0,
        !retry.with_socket(path).1.with_socket(path).0,
        retry.with_socket(path).1.with_socket(other).0 <==> path != other,
        retry.with_socket(path).1.retry_in == retry.retry_in,
        retry.with_socket(path).1.last_error == retry.last_error,
{
}

/// A socket is used where its user is neither the system's nor unknown and the file is there, and
/// it is the one in the user's own directory.
pub proof fn law_usable_sockets(entry: RuntimeEntry)
    ensures
        entry.usable_socket() is Some <==> entry.is_dir && entry.user_found && entry.socket_exists
            && (text::u32_of(entry.name@) matches Some(uid) && 1000 <= uid <= 2000),
        entry.usable_socket() matches Some((uid, path)) ==> text::u32_of(entry.name@) == Some(uid)
            && path == "/run/user/"@ + entry.name@ + "/pulse/native"@,
        user_socket(entry.name@) is Some <==> (text::u32_of(entry.name@) matches Some(uid) && 1000
            <= uid <= 2000),
        user_socket(entry.name@) matches Some((uid, path)) ==> text::u32_of(entry.name@) == Some(
            uid,
        ) && path == "/run/user/"@ + entry.name@ + "/pulse/native"@,
{
}

} // verus!
