//! Decoding an inbound event into the messages to send.
//!
//! A log batch arrives as base64 of gzip of JSON and is taken apart in four
//! stages, each of which ends the decoding where it fails. A notification
//! event needs no decoding: its messages are read off its records.

use crate::codec::{base64_decode, base64_decoded, gunzip, gunzipped};
use crate::error::DecodeError;
use crate::event::{
    as_fields, extract_messages, lemma_extraction_keeps_present_fields, outbound_messages,
    LogBatch, RawEvent,
};
use crate::json::{
    json_is_null, json_is_object, json_items, json_member, json_parsed, json_text, json_view,
    parse_json, Json,
};
use vstd::prelude::*;

verus! {

/// The `message` field of a log event: `Some(None)` where the event is an
/// object without the field or with `null` in it, `Some(Some(text))` where the
/// field is a string, and `None` where `item` is no log event at all.
pub open spec fn log_event_of(item: Json) -> Option<Option<Seq<char>>> {
    match item {
        Json::Object(fields) => if !fields.contains_key("message"@) {
            Some(None)
        } else {
            match fields["message"@] {
                Json::Null => Some(None),
                Json::Text(text) => Some(Some(text)),
                _ => None,
            }
        },
        _ => None,
    }
}

/// The log batch that a JSON value holds: the value must be an object whose
/// `logEvents` member is an array of log events. Other members are ignored.
pub open spec fn log_batch_of(json: Json) -> Option<Seq<Option<Seq<char>>>> {
    match json {
        Json::Object(fields) => if fields.contains_key("logEvents"@) {
            match fields["logEvents"@] {
                Json::Array(items) => if forall|i: int|
                    0 <= i < items.len() ==> (#[trigger] log_event_of(items[i])) is Some {
                    Some(items.map_values(|item: Json| log_event_of(item).unwrap()))
                } else {
                    None
                },
                _ => None,
            }
        } else {
            None
        },
        _ => None,
    }
}

/// The batch that decompressed text holds, or the error it is rejected with.
pub open spec fn parsed_batch(text: Seq<char>) -> Result<Seq<Option<Seq<char>>>, DecodeError> {
    match json_parsed(text) {
        Some(json) => match log_batch_of(json) {
            Some(batch) => Ok(batch),
            None => Err(DecodeError::MalformedPayload),
        },
        None => Err(DecodeError::MalformedPayload),
    }
}

/// The batch that a raw payload holds, or the error of the first stage that
/// rejects it.
pub open spec fn decoded_batch(data: Seq<char>) -> Result<Seq<Option<Seq<char>>>, DecodeError> {
    match base64_decoded(data) {
        Some(bytes) => match gunzipped(bytes) {
            Some(text) => parsed_batch(text),
            None => Err(DecodeError::DecompressionFailed),
        },
        None => Err(DecodeError::InvalidEncoding),
    }
}

/// The messages that a raw payload yields.
pub open spec fn decoded_messages(data: Seq<char>) -> Result<Seq<Seq<char>>, DecodeError> {
    match decoded_batch(data) {
        Ok(batch) => Ok(outbound_messages(batch)),
        Err(e) => Err(e),
    }
}

/// The messages that an event yields. A log event without data yields none.
pub open spec fn event_messages(event: RawEvent) -> Result<Seq<Seq<char>>, DecodeError> {
    match event {
        RawEvent::Logs { data: Some(data) } => decoded_messages(data@),
        RawEvent::Logs { data: None } => Ok(Seq::empty()),
        RawEvent::Notifications { records } => Ok(outbound_messages(records.deep_view())),
    }
}

/// First stage: the gzip bytes that the raw log data encodes.
pub fn base64_decode_raw_log_to_gzip(data: &str) -> (r: Result<Vec<u8>, DecodeError>)
    ensures
        match r {
            Ok(bytes) => base64_decoded(data@) == Some(bytes@),
            Err(e) => base64_decoded(data@) is None && e == DecodeError::InvalidEncoding,
        },
{
    match base64_decode(data) {
        Some(bytes) => Ok(bytes),
        None => Err(DecodeError::InvalidEncoding),
    }
}

/// Second stage: the text that the gzip bytes decompress to.
pub fn gunzip_to_string(gzipped: Vec<u8>) -> (r: Result<String, DecodeError>)
    ensures
        match r {
            Ok(text) => gunzipped(gzipped@) == Some(text@),
            Err(e) => gunzipped(gzipped@) is None && e == DecodeError::DecompressionFailed,
        },
{
    match gunzip(&gzipped) {
        Some(text) => Ok(text),
        None => Err(DecodeError::DecompressionFailed),
    }
}

/// Reads the `message` field of one log event.
fn read_log_event(item: &serde_json::Value) -> (r: Option<Option<String>>)
    ensures
        r.deep_view() == log_event_of(json_view(*item)),
{
    if !json_is_object(item) {
        return None;
    }
    match json_member(item, "message") {
        None => Some(None),
        Some(field) => {
            if json_is_null(field) {
                Some(None)
            } else {
                match json_text(field) {
                    Some(text) => Some(Some(text.to_owned())),
                    None => None,
                }
            }
        },
    }
}

/// Reads a log batch out of a parsed JSON value, or finds that it holds none.
pub fn read_log_batch(json: &serde_json::Value) -> (r: Option<LogBatch>)
    ensures
        match r {
            Some(batch) => log_batch_of(json_view(*json)) == Some(batch@),
            None => log_batch_of(json_view(*json)) is None,
        },
{
    let items = match json_member(json, "logEvents") {
        Some(member) => match json_items(member) {
            Some(items) => items,
            None => { return None; },
        },
        None => { return None; },
    };
    let ghost elements = json_view(*json)->Object_0["logEvents"@]->Array_0;
    let mut log_events: Vec<Option<String>> = Vec::new();
    let mut i: usize = 0;
    while i < items.len()
        invariant
            i <= items.len(),
            json_view(*json) matches Json::Object(fields) && fields.contains_key("logEvents"@)
                && fields["logEvents"@] == Json::Array(elements),
            items@.len() == elements.len(),
            forall|k: int| 0 <= k < items@.len() ==> #[trigger] json_view(items@[k]) == elements[k],
            log_events@.len() == i,
            forall|k: int|
                0 <= k < i ==> log_event_of(elements[k]) == Some(
                    #[trigger] log_events.deep_view()[k],
                ),
        decreases items.len() - i,
    {
        let ghost before = log_events.deep_view();
        match read_log_event(&items[i]) {
            Some(field) => {
                log_events.push(field);
                assert(log_events.deep_view() =~= before.push(field.deep_view()));
            },
            None => {
                assert(log_event_of(elements[i as int]) is None);
                return None;
            },
        }
        i += 1;
    }
    let batch = LogBatch { log_events };
    proof {
        assert forall|k: int| 0 <= k < elements.len() implies (#[trigger] log_event_of(
            elements[k],
        )) == Some(batch@[k]) by {
            assert(log_event_of(elements[k]) == Some(batch.log_events.deep_view()[k]));
        }
        assert(batch@ =~= elements.map_values(|item: Json| log_event_of(item).unwrap()));
    }
    Some(batch)
}

/// Third stage: the log batch that the decompressed text is the JSON of.
pub fn parse_string_to_logsdata(gunzipped: String) -> (r: Result<LogBatch, DecodeError>)
    ensures
        match r {
            Ok(batch) => parsed_batch(gunzipped@) == Ok::<_, DecodeError>(batch@),
            Err(e) => parsed_batch(gunzipped@) == Err::<Seq<Option<Seq<char>>>, _>(e),
        },
{
    match parse_json(gunzipped.as_str()) {
        Some(json) => match read_log_batch(&json) {
            Some(batch) => Ok(batch),
            None => Err(DecodeError::MalformedPayload),
        },
        None => Err(DecodeError::MalformedPayload),
    }
}

/// Decodes raw log data into the messages to send: all four stages, the
/// first failure ending the decoding with that stage's error.
pub fn decode_log_batch(data: &str) -> (r: Result<Vec<String>, DecodeError>)
    ensures
        match r {
            Ok(messages) => decoded_messages(data@) == Ok::<_, DecodeError>(messages.deep_view()),
            Err(e) => decoded_messages(data@) == Err::<Seq<Seq<char>>, _>(e),
        },
        base64_decoded(data@) is None ==> r == Err::<Vec<String>, _>(
            DecodeError::InvalidEncoding,
        ),
        match base64_decoded(data@) {
            Some(bytes) => match gunzipped(bytes) {
                Some(text) => parsed_batch(text) is Err ==> r == Err::<Vec<String>, _>(
                    DecodeError::MalformedPayload,
                ),
                None => r == Err::<Vec<String>, _>(DecodeError::DecompressionFailed),
            },
            None => true,
        },
{
    let gzipped = match base64_decode_raw_log_to_gzip(data) {
        Ok(bytes) => bytes,
        Err(e) => { return Err(e); },
    };
    let text = match gunzip_to_string(gzipped) {
        Ok(text) => text,
        Err(e) => { return Err(e); },
    };
    let batch = match parse_string_to_logsdata(text) {
        Ok(batch) => batch,
        Err(e) => { return Err(e); },
    };
    Ok(extract_messages(&batch.log_events))
}

/// Decodes an inbound event of either shape into the messages to send.
/// Only a log batch can fail to decode.
pub fn decode_event(event: &RawEvent) -> (r: Result<Vec<String>, DecodeError>)
    ensures
        match r {
            Ok(messages) => event_messages(*event) == Ok::<_, DecodeError>(messages.deep_view()),
            Err(e) => event_messages(*event) == Err::<Seq<Seq<char>>, _>(e),
        },
{
    match event {
        RawEvent::Logs { data: Some(data) } => decode_log_batch(data.as_str()),
        RawEvent::Logs { data: None } => {
            let messages: Vec<String> = Vec::new();
            assert(messages.deep_view() =~= Seq::<Seq<char>>::empty());
            Ok(messages)
        },
        RawEvent::Notifications { records } => Ok(extract_messages(records)),
    }
}

/// Decoding recovers the messages of the batch. Where a payload holds a
/// batch in which no `message` field is the empty string, the decoded
/// messages are exactly the fields that are present, in their original order.
pub proof fn lemma_decoding_recovers_messages(data: Seq<char>, batch: Seq<Option<Seq<char>>>)
    requires
        decoded_batch(data) == Ok::<_, DecodeError>(batch),
        forall|i: int| 0 <= i < batch.len() ==> batch[i] != Some(Seq::<char>::empty()),
    ensures
        decoded_messages(data) matches Ok(messages) && as_fields(messages) == batch.filter(
            |field: Option<Seq<char>>| field is Some,
        ),
{
    lemma_extraction_keeps_present_fields(batch);
}

} // verus!
