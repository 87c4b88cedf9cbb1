//! Inbound events and the messages they carry.

use vstd::prelude::*;

verus! {

/// A decoded batch of log events, in the order they were logged. Each entry
/// is the `message` field of one event, `None` where the event has none.
#[derive(Debug, Clone, PartialEq, Eq)]
pub struct LogBatch {
    pub log_events: Vec<Option<String>>,
}

impl View for LogBatch {
    type V = Seq<Option<Seq<char>>>;

    open spec fn view(&self) -> Seq<Option<Seq<char>>> {
        self.log_events.deep_view()
    }
}

/// An event as the host hands it over.
#[derive(Debug, Clone, PartialEq, Eq)]
pub enum RawEvent {
    /// A log batch: base64 of gzip of JSON, or nothing at all.
    Logs { data: Option<String> },
    /// Notification records: the `message` field of each, in order.
    Notifications { records: Vec<Option<String>> },
}

/// The message a field yields: its text where it is present and not empty.
pub open spec fn outbound(field: Option<Seq<char>>) -> Option<Seq<char>> {
    match field {
        Some(text) => if text.len() > 0 {
            Some(text)
        } else {
            None
        },
        None => None,
    }
}

/// The messages that a sequence of fields yields: those that are present and
/// not empty, in their original order.
pub open spec fn outbound_messages(fields: Seq<Option<Seq<char>>>) -> Seq<Seq<char>> {
    fields.filter_map(|field: Option<Seq<char>>| outbound(field))
}

/// Extracts the messages to send from the `message` fields of a batch.
pub fn extract_messages(fields: &Vec<Option<String>>) -> (messages: Vec<String>)
    ensures
        messages.deep_view() == outbound_messages(fields.deep_view()),
{
    let mut messages: Vec<String> = Vec::new();
    let mut i: usize = 0;
    while i < fields.len()
        invariant
            i <= fields.len(),
            messages.deep_view() == outbound_messages(fields.deep_view().take(i as int)),
        decreases fields.len() - i,
    {
        proof {
            fields.deep_view().lemma_filter_map_take_succ(
                |field: Option<Seq<char>>| outbound(field),
                i as int,
            );
        }
        let ghost before = messages.deep_view();
        match &fields[i] {
            Some(text) => {
                if !text.as_str().is_empty() {
                    messages.push(text.clone());
                    assert(messages.deep_view() =~= before + seq![text@]);
                }
            },
            None => {},
        }
        i += 1;
    }
    assert(fields.deep_view().take(fields.len() as int) =~= fields.deep_view());
    messages
}

/// The messages, each wrapped as a present field again.
pub open spec fn as_fields(messages: Seq<Seq<char>>) -> Seq<Option<Seq<char>>> {
    messages.map_values(|message: Seq<char>| Some(message))
}

/// Extraction loses nothing and adds nothing: the messages, wrapped as
/// fields again, are exactly the fields that are present and not empty, in
/// their original order.
pub proof fn lemma_extraction_keeps_outbound_fields(fields: Seq<Option<Seq<char>>>)
    ensures
        as_fields(outbound_messages(fields)) == fields.filter(
            |field: Option<Seq<char>>| outbound(field) is Some,
        ),
    decreases fields.len(),
{
    reveal(Seq::filter);
    let kept = |field: Option<Seq<char>>| outbound(field) is Some;
    if fields.len() == 0 {
        assert(as_fields(outbound_messages(fields)) =~= fields.filter(kept));
    } else {
        let rest = fields.drop_last();
        lemma_extraction_keeps_outbound_fields(rest);
        match outbound(fields.last()) {
            Some(text) => {
                assert(outbound_messages(fields) == outbound_messages(rest) + seq![text]);
                assert(as_fields(outbound_messages(rest) + seq![text]) =~= as_fields(
                    outbound_messages(rest),
                ).push(Some(text)));
            },
            None => {},
        }
    }
}

/// Where no field is present and empty, the messages are exactly the fields
/// that are present, in their original order.
pub proof fn lemma_extraction_keeps_present_fields(fields: Seq<Option<Seq<char>>>)
    requires
        forall|i: int| 0 <= i < fields.len() ==> fields[i] != Some(Seq::<char>::empty()),
    ensures
        as_fields(outbound_messages(fields)) == fields.filter(
            |field: Option<Seq<char>>| field is Some,
        ),
    decreases fields.len(),
{
    reveal(Seq::filter);
    let present = |field: Option<Seq<char>>| field is Some;
    if fields.len() == 0 {
        assert(as_fields(outbound_messages(fields)) =~= fields.filter(present));
    } else {
        let rest = fields.drop_last();
        assert forall|i: int| 0 <= i < rest.len() implies rest[i] != Some(
            Seq::<char>::empty(),
        ) by {
            assert(rest[i] == fields[i]);
        }
        lemma_extraction_keeps_present_fields(rest);
        match fields.last() {
            Some(text) => {
                assert(text.len() > 0) by {
                    if text.len() == 0 {
                        assert(text =~= Seq::<char>::empty());
                        assert(fields[fields.len() - 1] == Some(Seq::<char>::empty()));
                    }
                }
                assert(outbound_messages(fields) == outbound_messages(rest) + seq![text]);
                assert(as_fields(outbound_messages(rest) + seq![text]) =~= as_fields(
                    outbound_messages(rest),
                ).push(Some(text)));
            },
            None => {},
        }
    }
}

/// No message that is extracted is empty.
pub proof fn lemma_messages_are_not_empty(fields: Seq<Option<Seq<char>>>, i: int)
    requires
        0 <= i < outbound_messages(fields).len(),
    ensures
        outbound_messages(fields)[i].len() > 0,
    decreases fields.len(),
{
    if fields.len() > 0 {
        let rest = fields.drop_last();
        if i < outbound_messages(rest).len() {
            lemma_messages_are_not_empty(rest, i);
        }
    }
}

/// Fields of which none is present and not empty yield no message, and only
/// such fields yield none.
pub proof fn lemma_no_messages(fields: Seq<Option<Seq<char>>>)
    ensures
        outbound_messages(fields).len() == 0 <==> forall|i: int|
            0 <= i < fields.len() ==> (#[trigger] outbound(fields[i])) is None,
    decreases fields.len(),
{
    if fields.len() > 0 {
        let rest = fields.drop_last();
        lemma_no_messages(rest);
        assert forall|i: int| 0 <= i < rest.len() implies rest[i] == fields[i] by {}
        if outbound_messages(fields).len() == 0 {
            assert forall|i: int| 0 <= i < fields.len() implies (#[trigger] outbound(
                fields[i],
            )) is None by {
                if i < rest.len() {
                    assert(outbound(rest[i]) is None);
                }
            }
        }
        if forall|i: int| 0 <= i < fields.len() ==> (#[trigger] outbound(fields[i])) is None {
            assert forall|i: int| 0 <= i < rest.len() implies (#[trigger] outbound(
                rest[i],
            )) is None by {
                assert(outbound(fields[i]) is None);
            }
            assert(outbound(fields[fields.len() - 1]) is None);
        }
    }
}

} // verus!
