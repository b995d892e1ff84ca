//! The two request shapes and the rewriting of one into the other.

use vstd::prelude::*;

verus! {

/// The smallest unit of message text.
#[derive(Debug, Clone, PartialEq, Eq)]
pub struct Part {
    pub text: String,
}

/// One turn of a conversation.
#[derive(Debug, Clone, PartialEq, Eq)]
pub struct Content {
    pub parts: Vec<Part>,
    pub role: Option<String>,
}

/// A request in the content-list shape, the one the upstream service accepts.
///
/// `model` is carried in the address of the upstream call, not in its body.
#[derive(Debug, Clone, PartialEq, Eq)]
pub struct Body {
    pub contents: Vec<Content>,
    pub model: Option<String>,
}

/// One message of a request in the message-list shape.
#[derive(Debug, Clone, PartialEq, Eq)]
pub struct LegacyMessage {
    pub role: String,
    pub content: String,
}

/// A request in the message-list shape, kept for older callers.
#[derive(Debug, Clone, PartialEq, Eq)]
pub struct LegacyBody {
    pub messages: Vec<LegacyMessage>,
    pub max_tokens: Option<i32>,
    pub model: Option<String>,
}

/// What a [`Part`] holds.
pub ghost struct PartView {
    pub text: Seq<char>,
}

/// What a [`Content`] holds.
pub ghost struct ContentView {
    pub parts: Seq<PartView>,
    pub role: Option<Seq<char>>,
}

/// What a [`Body`] holds.
pub ghost struct BodyView {
    pub contents: Seq<ContentView>,
    pub model: Option<Seq<char>>,
}

/// What a [`LegacyMessage`] holds.
pub ghost struct LegacyMessageView {
    pub role: Seq<char>,
    pub content: Seq<char>,
}

/// What a [`LegacyBody`] holds.
pub ghost struct LegacyBodyView {
    pub messages: Seq<LegacyMessageView>,
    pub max_tokens: Option<i32>,
    pub model: Option<Seq<char>>,
}

/// The characters of an optional string.
pub open spec fn text_of(s: Option<String>) -> Option<Seq<char>> {
    match s {
        Some(t) => Some(t@),
        None => None,
    }
}

impl View for Part {
    type V = PartView;

    open spec fn view(&self) -> PartView {
        PartView { text: self.text@ }
    }
}

impl View for Content {
    type V = ContentView;

    open spec fn view(&self) -> ContentView {
        ContentView { parts: self.parts@.map_values(|p: Part| p@), role: text_of(self.role) }
    }
}

impl View for Body {
    type V = BodyView;

    open spec fn view(&self) -> BodyView {
        BodyView { contents: self.contents@.map_values(|c: Content| c@), model: text_of(self.model) }
    }
}

impl View for LegacyMessage {
    type V = LegacyMessageView;

    open spec fn view(&self) -> LegacyMessageView {
        LegacyMessageView { role: self.role@, content: self.content@ }
    }
}

impl View for LegacyBody {
    type V = LegacyBodyView;

    open spec fn view(&self) -> LegacyBodyView {
        LegacyBodyView {
            messages: self.messages@.map_values(|m: LegacyMessage| m@),
            max_tokens: self.max_tokens,
            model: text_of(self.model),
        }
    }
}

/// The turn that one message becomes: a single part with the message's text,
/// under the message's role.
pub open spec fn adapt_message(message: LegacyMessageView) -> ContentView {
    ContentView { parts: seq![PartView { text: message.content }], role: Some(message.role) }
}

/// The content-list request that a message-list request becomes: one turn per
/// message, in order, under the same model. The token limit has no place in
/// the content-list shape and is dropped.
pub open spec fn adapt(legacy: LegacyBodyView) -> BodyView {
    BodyView {
        contents: legacy.messages.map_values(|m: LegacyMessageView| adapt_message(m)),
        model: legacy.model,
    }
}

/// The token limit leaves no trace: two message-list requests that differ in
/// nothing else become the same content-list request.
pub proof fn lemma_token_limit_is_dropped(legacy: LegacyBodyView, limit: Option<i32>)
    ensures
        adapt(LegacyBodyView { max_tokens: limit, ..legacy }) == adapt(legacy),
{
}

/// A copy of an optional string.
fn copy_optional(s: &Option<String>) -> (copy: Option<String>)
    ensures
        copy == *s,
{
    match s {
        Some(t) => Some(t.clone()),
        None => None,
    }
}

/// Rewrites a message-list request into the content-list shape.
pub fn convert_legacy_to_gemini(legacy: &LegacyBody) -> (body: Body)
    ensures
        body@ == adapt(legacy@),
        body@.contents.len() == legacy@.messages.len(),
        forall|i: int|
            0 <= i < legacy@.messages.len() ==> {
                let turn = #[trigger] body@.contents[i];
                &&& turn.role == Some(legacy@.messages[i].role)
                &&& turn.parts.len() == 1
                &&& turn.parts[0].text == legacy@.messages[i].content
            },
        body@.model == legacy@.model,
{
    let mut contents: Vec<Content> = Vec::new();
    let mut i: usize = 0;
    while i < legacy.messages.len()
        invariant
            i <= legacy.messages.len(),
            contents.len() == i,
            forall|j: int| 0 <= j < i ==> (#[trigger] contents[j])@ == adapt_message(legacy.messages[j]@),
        decreases legacy.messages.len() - i,
    {
        let message = &legacy.messages[i];
        let mut parts: Vec<Part> = Vec::new();
        parts.push(Part { text: message.content.clone() });
        let turn = Content { parts, role: Some(message.role.clone()) };
        assert(turn@.parts =~= seq![PartView { text: message.content@ }]);
        contents.push(turn);
        i += 1;
    }
    let body = Body { contents, model: copy_optional(&legacy.model) };
    assert(body@.contents =~= adapt(legacy@).contents);
    body
}

} // verus!
