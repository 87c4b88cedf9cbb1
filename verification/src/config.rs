//! Configuration, resolved once per invocation from a snapshot of the
//! process environment.

use crate::error::{ConfigError, ConfigErrorView};
use vstd::prelude::*;

verus! {

/// The variables this system reads, each as it was found: `None` where the
/// variable is not set.
#[derive(Debug, Clone, PartialEq, Eq)]
pub struct Environment {
    /// `SLACK_WEBHOOK`: the delivery target. Required.
    pub slack_webhook: Option<String>,
    /// `CHANNEL_NAME`: the destination channel. Required.
    pub channel_name: Option<String>,
    /// `USERNAME`: the display name on delivered messages.
    pub username: Option<String>,
    /// `LOG_LEVEL`: the diagnostic verbosity.
    pub log_level: Option<String>,
}

/// An environment, with its values as character sequences.
pub struct EnvironmentView {
    pub slack_webhook: Option<Seq<char>>,
    pub channel_name: Option<Seq<char>>,
    pub username: Option<Seq<char>>,
    pub log_level: Option<Seq<char>>,
}

impl View for Environment {
    type V = EnvironmentView;

    open spec fn view(&self) -> EnvironmentView {
        EnvironmentView {
            slack_webhook: self.slack_webhook.deep_view(),
            channel_name: self.channel_name.deep_view(),
            username: self.username.deep_view(),
            log_level: self.log_level.deep_view(),
        }
    }
}

/// Where and under which name messages are delivered.
#[derive(Debug, Clone, PartialEq, Eq)]
pub struct DeliveryConfig {
    /// The webhook that every message is posted to.
    pub webhook_url: String,
    /// The channel the messages appear in.
    pub channel: String,
    /// The name the messages appear under.
    pub display_name: String,
    /// The emoji shown beside them.
    pub icon_tag: String,
}

/// A configuration, with its texts as character sequences.
pub struct DeliveryConfigView {
    pub webhook_url: Seq<char>,
    pub channel: Seq<char>,
    pub display_name: Seq<char>,
    pub icon_tag: Seq<char>,
}

impl View for DeliveryConfig {
    type V = DeliveryConfigView;

    open spec fn view(&self) -> DeliveryConfigView {
        DeliveryConfigView {
            webhook_url: self.webhook_url@,
            channel: self.channel@,
            display_name: self.display_name@,
            icon_tag: self.icon_tag@,
        }
    }
}

/// The configuration that an environment resolves to. Both required
/// variables must be set; where both are missing, the webhook is the one
/// reported. The display name falls back to a fixed one, and the icon is
/// always the same.
pub open spec fn resolved(env: EnvironmentView) -> Result<DeliveryConfigView, ConfigErrorView> {
    match (env.slack_webhook, env.channel_name) {
        (None, _) => Err(ConfigErrorView::MissingRequired("SLACK_WEBHOOK"@)),
        (Some(_), None) => Err(ConfigErrorView::MissingRequired("CHANNEL_NAME"@)),
        (Some(webhook_url), Some(channel)) => Ok(
            DeliveryConfigView {
                webhook_url,
                channel,
                display_name: match env.username {
                    Some(name) => name,
                    None => "SnsToSlackLambda"@,
                },
                icon_tag: ":bomb:"@,
            },
        ),
    }
}

/// Resolves the delivery configuration from the environment.
pub fn resolve(env: &Environment) -> (r: Result<DeliveryConfig, ConfigError>)
    ensures
        match r {
            Ok(config) => resolved(env@) == Ok::<_, ConfigErrorView>(config@),
            Err(e) => resolved(env@) == Err::<DeliveryConfigView, _>(e@),
        },
        r is Err <==> env.slack_webhook is None || env.channel_name is None,
{
    let webhook_url = match &env.slack_webhook {
        Some(url) => url.clone(),
        None => { return Err(ConfigError::MissingRequired("SLACK_WEBHOOK".to_owned())); },
    };
    let channel = match &env.channel_name {
        Some(channel) => channel.clone(),
        None => { return Err(ConfigError::MissingRequired("CHANNEL_NAME".to_owned())); },
    };
    let display_name = match &env.username {
        Some(name) => name.clone(),
        None => "SnsToSlackLambda".to_owned(),
    };
    Ok(DeliveryConfig { webhook_url, channel, display_name, icon_tag: ":bomb:".to_owned() })
}

/// How much the diagnostic log says.
#[derive(Debug, Clone, Copy, PartialEq, Eq, Structural)]
pub enum LogLevel {
    Trace,
    Debug,
    Info,
    Warn,
    Error,
}

/// The level that a `LOG_LEVEL` value selects: one of the five names, in
/// lower case; anything else, and no value at all, selects `Info`.
pub open spec fn log_level_of(value: Option<Seq<char>>) -> LogLevel {
    match value {
        Some(name) => if name == "trace"@ {
            LogLevel::Trace
        } else if name == "error"@ {
            LogLevel::Error
        } else if name == "debug"@ {
            LogLevel::Debug
        } else if name == "warn"@ {
            LogLevel::Warn
        } else {
            LogLevel::Info
        },
        None => LogLevel::Info,
    }
}

/// The diagnostic verbosity that the environment asks for.
pub fn get_log_level(env: &Environment) -> (level: LogLevel)
    ensures
        level == log_level_of(env@.log_level),
{
    match &env.log_level {
        Some(name) => {
            if *name == "trace".to_owned() {
                LogLevel::Trace
            } else if *name == "error".to_owned() {
                LogLevel::Error
            } else if *name == "debug".to_owned() {
                LogLevel::Debug
            } else if *name == "warn".to_owned() {
                LogLevel::Warn
            } else {
                LogLevel::Info
            }
        },
        None => LogLevel::Info,
    }
}

} // verus!
