//! A guestbook: an append-only list of messages, reported as JSON.

use vstd::prelude::*;

verus! {

/// The error of `serde_json`, declared so that it can be carried from the
/// serialiser to the place where it is turned into [`SerializationError`].
/// Nothing is known about its contents.
#[verifier::external_type_specification]
#[verifier::external_body]
pub struct ExJsonError(near_sdk::serde_json::Error);

/// The JSON text that `serde_json::to_string` writes for a list of optional
/// strings, or `None` where it fails.
pub uninterp spec fn json_text(items: Seq<Option<Seq<char>>>) -> Option<Seq<char>>;

/// A list of optional strings in terms of plain values.
pub open spec fn item_texts(items: Seq<Option<String>>) -> Seq<Option<Seq<char>>> {
    items.map_values(
        |item: Option<String>|
            match item {
                Some(text) => Some(text@),
                None => None,
            },
    )
}

/// Serialises a list of optional strings with `serde_json::to_string`.
///
/// Trusted: the claim is that the outcome depends on the characters of the
/// items alone, so that it can be named by [`json_text`]. Nothing is claimed
/// about what the text looks like or about when the call succeeds.
#[verifier::external_body]
fn to_json(items: &Vec<Option<String>>) -> (json: Result<String, near_sdk::serde_json::Error>)
    ensures
        match json_text(item_texts(items@)) {
            Some(text) => json matches Ok(written) && written@ == text,
            None => json is Err,
        },
{
    near_sdk::serde_json::to_string(items)
}

/// The messages could not be written as JSON.
#[derive(Debug, Clone, Copy, PartialEq, Eq)]
pub struct SerializationError {}

/// What is handed to the serialiser for a list of messages: every message,
/// in order, each as a present item.
pub open spec fn reply_items(messages: Seq<Seq<char>>) -> Seq<Option<Seq<char>>> {
    messages.map_values(|message: Seq<char>| Some(message))
}

/// The guestbook's state: the messages in the order in which they were added.
#[derive(Debug)]
pub struct Contract {
    messages: Vec<String>,
}

impl View for Contract {
    type V = Seq<Seq<char>>;

    closed spec fn view(&self) -> Seq<Seq<char>> {
        self.messages@.map_values(|message: String| message@)
    }
}

impl Default for Contract {
    /// A guestbook without messages.
    fn default() -> (guestbook: Self)
        ensures
            guestbook@ == Seq::<Seq<char>>::empty(),
    {
        let guestbook = Contract { messages: Vec::new() };
        assert(guestbook@ =~= Seq::<Seq<char>>::empty());
        guestbook
    }
}

impl Contract {
    /// Appends `text` to the guestbook.
    pub fn add_message(&mut self, text: String)
        ensures
            final(self)@ == old(self)@.push(text@),
    {
        self.messages.push(text);
        assert(self@ =~= old(self)@.push(text@));
    }

    /// What is handed to the serialiser: every message, in the order in which
    /// they were added, each as a present item.
    pub fn collect_messages(&self) -> (items: Vec<Option<String>>)
        ensures
            item_texts(items@) == reply_items(self@),
    {
        let mut items: Vec<Option<String>> = Vec::new();
        let length: usize = self.messages.len();
        let mut i: usize = 0;
        while i < length
            invariant
                length == self.messages.len(),
                i <= length,
                items@.len() == i,
                forall|j: int| 0 <= j < i ==> (#[trigger] items@[j]) == Some(self.messages@[j]),
            decreases length - i,
        {
            let element: Option<String> = Some(self.messages[i].clone());
            items.push(element);
            i += 1;
        }
        assert(item_texts(items@) =~= reply_items(self@));
        items
    }

    /// All messages, in the order in which they were added, as a JSON array.
    pub fn get_messages(&self) -> (reply: Result<String, SerializationError>)
        ensures
            match json_text(reply_items(self@)) {
                Some(text) => reply matches Ok(written) && written@ == text,
                None => reply is Err,
            },
    {
        let items = self.collect_messages();
        match to_json(&items) {
            Ok(written) => Ok(written),
            Err(_) => Err(SerializationError {  }),
        }
    }
}

} // verus!
