//! The course of one invocation, as a state machine.
//!
//! The machine decides; its host acts. In each state `action` says what the
//! host is to do next, and `step` takes what came of it. Messages are
//! delivered one at a time, in order, and the first failure ends the
//! invocation: the messages after it are never attempted.

use crate::config::{resolved, DeliveryConfig, DeliveryConfigView, EnvironmentView};
use crate::error::{
    ConfigError, ConfigErrorView, DecodeError, DeliveryError, DeliveryErrorView, RelayError,
    RelayErrorView,
};
use crate::event::{lemma_no_messages, outbound, outbound_messages};
use crate::notify::{build_payload, chat_payload, ChatPayload, ChatPayloadView};
use vstd::prelude::*;

verus! {

/// Where an invocation stands.
#[derive(Debug, Clone, PartialEq, Eq)]
pub enum RelayState {
    /// Nothing has happened yet: configuration is to be resolved.
    Start,
    /// Configuration is resolved: the inbound event is to be decoded.
    Decoding { config: DeliveryConfig },
    /// The message at `next` is to be delivered; those before it have been.
    Notifying { config: DeliveryConfig, messages: Vec<String>, next: usize },
    /// Every message has been delivered.
    Done,
    /// The invocation has failed.
    Failed { error: RelayError },
}

/// A state, with its texts as character sequences.
pub enum RelayStateView {
    Start,
    Decoding { config: DeliveryConfigView },
    Notifying { config: DeliveryConfigView, messages: Seq<Seq<char>>, next: nat },
    Done,
    Failed { error: RelayErrorView },
}

impl View for RelayState {
    type V = RelayStateView;

    open spec fn view(&self) -> RelayStateView {
        match self {
            RelayState::Start => RelayStateView::Start,
            RelayState::Decoding { config } => RelayStateView::Decoding { config: config@ },
            RelayState::Notifying { config, messages, next } => RelayStateView::Notifying {
                config: config@,
                messages: messages.deep_view(),
                next: *next as nat,
            },
            RelayState::Done => RelayStateView::Done,
            RelayState::Failed { error } => RelayStateView::Failed { error: error@ },
        }
    }
}

/// What the host reports back after acting.
#[derive(Debug, PartialEq, Eq)]
pub enum RelayEvent {
    Configured(Result<DeliveryConfig, ConfigError>),
    Decoded(Result<Vec<String>, DecodeError>),
    Delivered(Result<(), DeliveryError>),
}

/// An event, with its texts as character sequences.
pub enum RelayEventView {
    Configured(Result<DeliveryConfigView, ConfigErrorView>),
    Decoded(Result<Seq<Seq<char>>, DecodeError>),
    Delivered(Result<(), DeliveryErrorView>),
}

impl View for RelayEvent {
    type V = RelayEventView;

    open spec fn view(&self) -> RelayEventView {
        match self {
            RelayEvent::Configured(Ok(config)) => RelayEventView::Configured(Ok(config@)),
            RelayEvent::Configured(Err(e)) => RelayEventView::Configured(Err(e@)),
            RelayEvent::Decoded(Ok(messages)) => RelayEventView::Decoded(Ok(messages.deep_view())),
            RelayEvent::Decoded(Err(e)) => RelayEventView::Decoded(Err(*e)),
            RelayEvent::Delivered(Ok(_)) => RelayEventView::Delivered(Ok(())),
            RelayEvent::Delivered(Err(e)) => RelayEventView::Delivered(Err(e@)),
        }
    }
}

/// What the host is to do next.
#[derive(Debug, Clone, PartialEq, Eq)]
pub enum RelayAction {
    /// Resolve configuration and report `Configured`.
    Configure,
    /// Decode the inbound event and report `Decoded`.
    Decode,
    /// Post `payload` to `webhook_url`, once, and report `Delivered`.
    Deliver { webhook_url: String, payload: ChatPayload },
    /// Report success to whoever invoked the host.
    Succeed,
    /// Report `error` to whoever invoked the host.
    Fail { error: RelayError },
}

/// An action, with its texts as character sequences.
pub enum RelayActionView {
    Configure,
    Decode,
    Deliver { webhook_url: Seq<char>, payload: ChatPayloadView },
    Succeed,
    Fail { error: RelayErrorView },
}

impl View for RelayAction {
    type V = RelayActionView;

    open spec fn view(&self) -> RelayActionView {
        match self {
            RelayAction::Configure => RelayActionView::Configure,
            RelayAction::Decode => RelayActionView::Decode,
            RelayAction::Deliver { webhook_url, payload } => RelayActionView::Deliver {
                webhook_url: webhook_url@,
                payload: payload@,
            },
            RelayAction::Succeed => RelayActionView::Succeed,
            RelayAction::Fail { error } => RelayActionView::Fail { error: error@ },
        }
    }
}

/// The state after `event` is reported in `state`. Each state takes the one
/// kind of event it asked for; any other event leaves it as it is, and so
/// does every event once the invocation is done or has failed.
pub open spec fn next_state(state: RelayStateView, event: RelayEventView) -> RelayStateView {
    match (state, event) {
        (RelayStateView::Start, RelayEventView::Configured(Ok(config))) => {
            RelayStateView::Decoding { config }
        },
        (RelayStateView::Start, RelayEventView::Configured(Err(e))) => {
            RelayStateView::Failed { error: RelayErrorView::Config(e) }
        },
        (RelayStateView::Decoding { config }, RelayEventView::Decoded(Ok(messages))) => {
            if messages.len() == 0 {
                RelayStateView::Done
            } else {
                RelayStateView::Notifying { config, messages, next: 0 }
            }
        },
        (RelayStateView::Decoding { .. }, RelayEventView::Decoded(Err(e))) => {
            RelayStateView::Failed { error: RelayErrorView::Decode(e) }
        },
        (
            RelayStateView::Notifying { config, messages, next },
            RelayEventView::Delivered(Ok(_)),
        ) => {
            if next + 1 < messages.len() {
                RelayStateView::Notifying { config, messages, next: next + 1 }
            } else {
                RelayStateView::Done
            }
        },
        (RelayStateView::Notifying { .. }, RelayEventView::Delivered(Err(e))) => {
            RelayStateView::Failed { error: RelayErrorView::Delivery(e) }
        },
        (state, _) => state,
    }
}

/// What the host is to do in `state`.
pub open spec fn action_of(state: RelayStateView) -> RelayActionView {
    match state {
        RelayStateView::Start => RelayActionView::Configure,
        RelayStateView::Decoding { .. } => RelayActionView::Decode,
        RelayStateView::Notifying { config, messages, next } => {
            if next < messages.len() {
                RelayActionView::Deliver {
                    webhook_url: config.webhook_url,
                    payload: chat_payload(messages[next as int], config),
                }
            } else {
                RelayActionView::Succeed
            }
        },
        RelayStateView::Done => RelayActionView::Succeed,
        RelayStateView::Failed { error } => RelayActionView::Fail { error },
    }
}

/// Whether a state is one that an invocation can be in: while notifying,
/// there is a message to deliver.
pub open spec fn well_formed(state: RelayStateView) -> bool {
    state matches RelayStateView::Notifying { messages, next, .. } ==> next < messages.len()
}

/// The payloads of `messages`, each under `config`, in order.
pub open spec fn payloads(messages: Seq<Seq<char>>, config: DeliveryConfigView) -> Seq<
    ChatPayloadView,
> {
    messages.map_values(|message: Seq<char>| chat_payload(message, config))
}

/// A host at work: from `state` on it performs each delivery it is asked for
/// and reports the next of `outcomes`, until the machine asks for no further
/// delivery or the outcomes run out. The result is the state reached and the
/// payloads posted, in order. A payload counts as posted once the attempt is
/// made, whatever came of it.
pub open spec fn drive(state: RelayStateView, outcomes: Seq<Result<(), DeliveryErrorView>>) -> (
    RelayStateView,
    Seq<ChatPayloadView>,
)
    decreases outcomes.len(),
{
    if outcomes.len() == 0 {
        (state, Seq::empty())
    } else {
        match action_of(state) {
            RelayActionView::Deliver { payload, .. } => {
                let rest = drive(
                    next_state(state, RelayEventView::Delivered(outcomes[0])),
                    outcomes.drop_first(),
                );
                (rest.0, seq![payload] + rest.1)
            },
            _ => (state, Seq::empty()),
        }
    }
}

/// A whole invocation: configuration is reported, then the decoding, then
/// the host delivers as `drive` describes.
pub open spec fn invocation(
    configured: Result<DeliveryConfigView, ConfigErrorView>,
    decoded: Result<Seq<Seq<char>>, DecodeError>,
    outcomes: Seq<Result<(), DeliveryErrorView>>,
) -> (RelayStateView, Seq<ChatPayloadView>) {
    drive(
        next_state(
            next_state(RelayStateView::Start, RelayEventView::Configured(configured)),
            RelayEventView::Decoded(decoded),
        ),
        outcomes,
    )
}

impl RelayState {
    /// The state every invocation begins in.
    pub fn new() -> (state: RelayState)
        ensures
            state@ == RelayStateView::Start,
    {
        RelayState::Start
    }

    /// What the host is to do now.
    pub fn action(&self) -> (action: RelayAction)
        ensures
            action@ == action_of(self@),
    {
        match self {
            RelayState::Start => RelayAction::Configure,
            RelayState::Decoding { .. } => RelayAction::Decode,
            RelayState::Notifying { config, messages, next } => {
                if *next < messages.len() {
                    RelayAction::Deliver {
                        webhook_url: config.webhook_url.clone(),
                        payload: build_payload(messages[*next].as_str(), config),
                    }
                } else {
                    RelayAction::Succeed
                }
            },
            RelayState::Done => RelayAction::Succeed,
            RelayState::Failed { error } => RelayAction::Fail { error: error.clone() },
        }
    }

    /// Takes what the host reports and moves on.
    pub fn step(self, event: RelayEvent) -> (next: RelayState)
        ensures
            next@ == next_state(self@, event@),
            well_formed(self@) ==> well_formed(next@),
    {
        match (self, event) {
            (RelayState::Start, RelayEvent::Configured(Ok(config))) => {
                RelayState::Decoding { config }
            },
            (RelayState::Start, RelayEvent::Configured(Err(e))) => {
                RelayState::Failed { error: RelayError::Config(e) }
            },
            (RelayState::Decoding { config }, RelayEvent::Decoded(Ok(messages))) => {
                if messages.len() == 0 {
                    RelayState::Done
                } else {
                    RelayState::Notifying { config, messages, next: 0 }
                }
            },
            (RelayState::Decoding { .. }, RelayEvent::Decoded(Err(e))) => {
                RelayState::Failed { error: RelayError::Decode(e) }
            },
            (RelayState::Notifying { config, messages, next }, RelayEvent::Delivered(Ok(_))) => {
                if messages.len() > 0 && next < messages.len() - 1 {
                    RelayState::Notifying { config, messages, next: next + 1 }
                } else {
                    RelayState::Done
                }
            },
            (RelayState::Notifying { .. }, RelayEvent::Delivered(Err(e))) => {
                RelayState::Failed { error: RelayError::Delivery(e) }
            },
            (state, _) => state,
        }
    }
}

/// Every state of an invocation is well formed: the first one is, and no
/// event leads out of the well-formed states.
pub proof fn lemma_states_stay_well_formed(state: RelayStateView, event: RelayEventView)
    requires
        well_formed(state),
    ensures
        well_formed(RelayStateView::Start),
        well_formed(next_state(state, event)),
        next_state(state, event) is Notifying ==> action_of(next_state(state, event)) is Deliver,
{
}

/// Once an invocation is done or has failed, nothing moves it.
pub proof fn lemma_final_states_stay(state: RelayStateView, event: RelayEventView)
    requires
        state is Done || state is Failed,
    ensures
        next_state(state, event) == state,
        !(action_of(state) is Deliver),
{
}

/// Where no delivery is asked for, the host posts nothing and the state stays.
pub proof fn lemma_drive_without_delivery(
    state: RelayStateView,
    outcomes: Seq<Result<(), DeliveryErrorView>>,
)
    requires
        !(action_of(state) is Deliver),
    ensures
        drive(state, outcomes) == (state, Seq::<ChatPayloadView>::empty()),
{
}

/// Deliveries stop at the first failure. While notifying from `next` on, if
/// the first `k` outcomes are successes and the one after them is the failure
/// `e`, then exactly the messages from `next` to `next + k` are posted, in
/// order, the last of them in vain, and the invocation has failed with `e`,
/// whatever outcomes follow.
pub proof fn lemma_drive_stops_at_first_failure(
    config: DeliveryConfigView,
    messages: Seq<Seq<char>>,
    next: nat,
    outcomes: Seq<Result<(), DeliveryErrorView>>,
    k: nat,
    e: DeliveryErrorView,
)
    requires
        next + k < messages.len(),
        k < outcomes.len(),
        forall|j: int| 0 <= j < k ==> outcomes[j] is Ok,
        outcomes[k as int] == Err::<(), _>(e),
    ensures
        drive(RelayStateView::Notifying { config, messages, next }, outcomes) == (
            RelayStateView::Failed { error: RelayErrorView::Delivery(e) },
            payloads(messages.subrange(next as int, (next + k + 1) as int), config),
        ),
    decreases k,
{
    let state = RelayStateView::Notifying { config, messages, next };
    let first = chat_payload(messages[next as int], config);
    let rest = outcomes.drop_first();
    if k == 0 {
        let failed = RelayStateView::Failed { error: RelayErrorView::Delivery(e) };
        assert(next_state(state, RelayEventView::Delivered(outcomes[0])) == failed);
        lemma_drive_without_delivery(failed, rest);
        assert(payloads(messages.subrange(next as int, (next + 1) as int), config) =~= seq![first]
            + Seq::<ChatPayloadView>::empty());
    } else {
        assert(outcomes[0] is Ok);
        let after = RelayStateView::Notifying { config, messages, next: next + 1 };
        assert(next_state(state, RelayEventView::Delivered(outcomes[0])) == after);
        assert forall|j: int| 0 <= j < k - 1 implies rest[j] is Ok by {
            assert(rest[j] == outcomes[j + 1]);
        }
        lemma_drive_stops_at_first_failure(config, messages, next + 1, rest, (k - 1) as nat, e);
        assert(payloads(messages.subrange(next as int, (next + k + 1) as int), config) =~= seq![first]
            + payloads(messages.subrange((next + 1) as int, (next + k + 1) as int), config));
    }
}

/// Where every delivery succeeds, every message is posted. While notifying
/// from `next` on, if there are outcomes for all the messages left and all are
/// successes, then exactly those messages are posted, in order, and the
/// invocation is done.
pub proof fn lemma_drive_delivers_all(
    config: DeliveryConfigView,
    messages: Seq<Seq<char>>,
    next: nat,
    outcomes: Seq<Result<(), DeliveryErrorView>>,
)
    requires
        next < messages.len(),
        messages.len() - next <= outcomes.len(),
        forall|j: int| 0 <= j < messages.len() - next ==> outcomes[j] is Ok,
    ensures
        drive(RelayStateView::Notifying { config, messages, next }, outcomes) == (
            RelayStateView::Done,
            payloads(messages.subrange(next as int, messages.len() as int), config),
        ),
    decreases messages.len() - next,
{
    let state = RelayStateView::Notifying { config, messages, next };
    let first = chat_payload(messages[next as int], config);
    let rest = outcomes.drop_first();
    assert(outcomes[0] is Ok);
    if next + 1 < messages.len() {
        let after = RelayStateView::Notifying { config, messages, next: next + 1 };
        assert(next_state(state, RelayEventView::Delivered(outcomes[0])) == after);
        assert forall|j: int| 0 <= j < messages.len() - (next + 1) implies rest[j] is Ok by {
            assert(rest[j] == outcomes[j + 1]);
        }
        lemma_drive_delivers_all(config, messages, next + 1, rest);
        assert(payloads(messages.subrange(next as int, messages.len() as int), config) =~= seq![
            first,
        ] + payloads(messages.subrange((next + 1) as int, messages.len() as int), config));
    } else {
        assert(next_state(state, RelayEventView::Delivered(outcomes[0])) == RelayStateView::Done);
        lemma_drive_without_delivery(RelayStateView::Done, rest);
        assert(payloads(messages.subrange(next as int, messages.len() as int), config) =~= seq![
            first,
        ] + Seq::<ChatPayloadView>::empty());
    }
}

/// An invocation whose configuration cannot be resolved fails with that
/// error and posts nothing, whatever the event holds.
pub proof fn lemma_config_failure_posts_nothing(
    e: ConfigErrorView,
    decoded: Result<Seq<Seq<char>>, DecodeError>,
    outcomes: Seq<Result<(), DeliveryErrorView>>,
)
    ensures
        invocation(Err(e), decoded, outcomes) == (
            RelayStateView::Failed { error: RelayErrorView::Config(e) },
            Seq::<ChatPayloadView>::empty(),
        ),
{
    lemma_drive_without_delivery(
        RelayStateView::Failed { error: RelayErrorView::Config(e) },
        outcomes,
    );
}

/// Where a required variable is missing, configuration is not resolved, and
/// the invocation fails over the variable's name without posting anything.
pub proof fn lemma_missing_variable_posts_nothing(
    env: EnvironmentView,
    decoded: Result<Seq<Seq<char>>, DecodeError>,
    outcomes: Seq<Result<(), DeliveryErrorView>>,
)
    requires
        env.slack_webhook is None || env.channel_name is None,
    ensures
        resolved(env) == Err::<DeliveryConfigView, _>(
            ConfigErrorView::MissingRequired(
                if env.slack_webhook is None {
                    "SLACK_WEBHOOK"@
                } else {
                    "CHANNEL_NAME"@
                },
            ),
        ),
        invocation(resolved(env), decoded, outcomes) == (
            RelayStateView::Failed { error: RelayErrorView::Config(resolved(env)->Err_0) },
            Seq::<ChatPayloadView>::empty(),
        ),
{
    lemma_config_failure_posts_nothing(resolved(env)->Err_0, decoded, outcomes);
}

/// An invocation whose event cannot be decoded fails with that error and
/// posts nothing.
pub proof fn lemma_decode_failure_posts_nothing(
    config: DeliveryConfigView,
    e: DecodeError,
    outcomes: Seq<Result<(), DeliveryErrorView>>,
)
    ensures
        invocation(Ok(config), Err(e), outcomes) == (
            RelayStateView::Failed { error: RelayErrorView::Decode(e) },
            Seq::<ChatPayloadView>::empty(),
        ),
{
    lemma_drive_without_delivery(
        RelayStateView::Failed { error: RelayErrorView::Decode(e) },
        outcomes,
    );
}

/// An invocation whose event yields no message succeeds and posts nothing.
pub proof fn lemma_no_messages_posts_nothing(
    config: DeliveryConfigView,
    outcomes: Seq<Result<(), DeliveryErrorView>>,
)
    ensures
        invocation(Ok(config), Ok(Seq::empty()), outcomes) == (
            RelayStateView::Done,
            Seq::<ChatPayloadView>::empty(),
        ),
{
    lemma_drive_without_delivery(RelayStateView::Done, outcomes);
}

/// A batch in which no field is present and not empty yields no message, and
/// the invocation succeeds without posting anything.
pub proof fn lemma_batch_without_messages_posts_nothing(
    config: DeliveryConfigView,
    fields: Seq<Option<Seq<char>>>,
    outcomes: Seq<Result<(), DeliveryErrorView>>,
)
    requires
        forall|i: int| 0 <= i < fields.len() ==> (#[trigger] outbound(fields[i])) is None,
    ensures
        outbound_messages(fields) == Seq::<Seq<char>>::empty(),
        invocation(Ok(config), Ok(outbound_messages(fields)), outcomes) == (
            RelayStateView::Done,
            Seq::<ChatPayloadView>::empty(),
        ),
{
    lemma_no_messages(fields);
    assert(outbound_messages(fields) =~= Seq::<Seq<char>>::empty());
    lemma_no_messages_posts_nothing(config, outcomes);
}

/// An invocation whose deliveries all succeed posts every message, in order,
/// and succeeds.
pub proof fn lemma_invocation_delivers_all(
    config: DeliveryConfigView,
    messages: Seq<Seq<char>>,
    outcomes: Seq<Result<(), DeliveryErrorView>>,
)
    requires
        messages.len() <= outcomes.len(),
        forall|j: int| 0 <= j < messages.len() ==> outcomes[j] is Ok,
    ensures
        invocation(Ok(config), Ok(messages), outcomes) == (
            RelayStateView::Done,
            payloads(messages, config),
        ),
{
    if messages.len() == 0 {
        lemma_drive_without_delivery(RelayStateView::Done, outcomes);
        assert(payloads(messages, config) =~= Seq::<ChatPayloadView>::empty());
    } else {
        lemma_drive_delivers_all(config, messages, 0, outcomes);
        assert(messages.subrange(0, messages.len() as int) =~= messages);
    }
}

/// An invocation in which the delivery of message `k` is the first to fail
/// posts the messages up to and including `k`, in order, so that those before
/// `k` are delivered and those after it are never attempted, and fails with
/// the error of that delivery.
pub proof fn lemma_invocation_stops_at_first_failure(
    config: DeliveryConfigView,
    messages: Seq<Seq<char>>,
    outcomes: Seq<Result<(), DeliveryErrorView>>,
    k: nat,
    e: DeliveryErrorView,
)
    requires
        k < messages.len(),
        k < outcomes.len(),
        forall|j: int| 0 <= j < k ==> outcomes[j] is Ok,
        outcomes[k as int] == Err::<(), _>(e),
    ensures
        invocation(Ok(config), Ok(messages), outcomes) == (
            RelayStateView::Failed { error: RelayErrorView::Delivery(e) },
            payloads(messages.take((k + 1) as int), config),
        ),
{
    lemma_drive_stops_at_first_failure(config, messages, 0, outcomes, k, e);
    assert(messages.subrange(0, (k + 1) as int) =~= messages.take((k + 1) as int));
}

} // verus!
