//! The notifier's two halves around the one network call: building the chat
//! payload before it, and naming the outcome after it.

use crate::config::{DeliveryConfig, DeliveryConfigView};
use crate::error::{DeliveryError, DeliveryErrorView};
use vstd::prelude::*;

verus! {

/// The body of one post to the webhook.
#[derive(Debug, Clone, PartialEq, Eq)]
pub struct ChatPayload {
    pub text: String,
    pub channel: String,
    pub username: String,
    pub icon_emoji: String,
}

/// A payload, with its texts as character sequences.
pub struct ChatPayloadView {
    pub text: Seq<char>,
    pub channel: Seq<char>,
    pub username: Seq<char>,
    pub icon_emoji: Seq<char>,
}

impl View for ChatPayload {
    type V = ChatPayloadView;

    open spec fn view(&self) -> ChatPayloadView {
        ChatPayloadView {
            text: self.text@,
            channel: self.channel@,
            username: self.username@,
            icon_emoji: self.icon_emoji@,
        }
    }
}

/// The payload that carries `message` under a configuration.
pub open spec fn chat_payload(message: Seq<char>, config: DeliveryConfigView) -> ChatPayloadView {
    ChatPayloadView {
        text: message,
        channel: config.channel,
        username: config.display_name,
        icon_emoji: config.icon_tag,
    }
}

/// Builds the payload that carries `message`.
pub fn build_payload(message: &str, config: &DeliveryConfig) -> (payload: ChatPayload)
    ensures
        payload@ == chat_payload(message@, config@),
{
    ChatPayload {
        text: message.to_owned(),
        channel: config.channel.clone(),
        username: config.display_name.clone(),
        icon_emoji: config.icon_tag.clone(),
    }
}

/// Names the outcome of the one delivery attempt: success as it is, and any
/// failure, whatever its kind, as `SendFailed` with the detail given.
pub fn delivery_result(attempt: Result<(), String>) -> (r: Result<(), DeliveryError>)
    ensures
        match attempt {
            Ok(_) => r is Ok,
            Err(detail) => r matches Err(e) && e@ == DeliveryErrorView::SendFailed(detail@),
        },
{
    match attempt {
        Ok(_) => Ok(()),
        Err(detail) => Err(DeliveryError::SendFailed(detail)),
    }
}

} // verus!
