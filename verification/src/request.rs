//! The request bodies that the two kinds of server take.

use crate::codec::{encode, rendered_document};
use crate::json::{
    array_view, lemma_array_view, lemma_object_view, natural_number, object_view, Json, JsonView,
};
use vstd::prelude::*;

verus! {

/// The question that is asked where the caller gives none.
pub const DEFAULT_PROMPT: &'static str = "What is the capital city of Texas?";

/// The model that is asked where the caller names none.
pub const DEFAULT_MODEL: &'static str = "llama3.1:8b";

/// Where a chat-style server listens by default.
pub const DEFAULT_CHAT_ENDPOINT: &'static str = "http://localhost:8321/v1/inference/chat-completion";

/// Where a completion-style server listens by default.
pub const DEFAULT_GENERATE_ENDPOINT: &'static str = "http://localhost:11434/api/generate";

/// The body of a chat request: the model, one message from the user that
/// holds the prompt, and room for 512 tokens of answer.
pub open spec fn chat_request_view(model_id: Seq<char>, prompt: Seq<char>) -> JsonView {
    JsonView::Object(
        seq![
            ("model_id"@, JsonView::String(model_id)),
            (
                "messages"@,
                JsonView::Array(
                    seq![
                        JsonView::Object(
                            seq![
                                ("role"@, JsonView::String("user"@)),
                                ("content"@, JsonView::String(prompt)),
                            ],
                        ),
                    ],
                ),
            ),
            ("max_tokens"@, JsonView::Number(natural_number(512))),
        ],
    )
}

/// The body of a completion request: the model, the prompt, and no streaming.
pub open spec fn generate_request_view(model: Seq<char>, prompt: Seq<char>) -> JsonView {
    JsonView::Object(
        seq![
            ("model"@, JsonView::String(model)),
            ("prompt"@, JsonView::String(prompt)),
            ("stream"@, JsonView::Bool(false)),
        ],
    )
}

/// Builds the body of a chat request.
pub fn chat_request(model_id: &str, prompt: &str) -> (body: Json)
    ensures
        body@ == chat_request_view(model_id@, prompt@),
{
    let fields = vec![
        ("role".to_owned(), Json::String("user".to_owned())),
        ("content".to_owned(), Json::String(prompt.to_owned())),
    ];
    let messages = vec![Json::Object(fields)];
    let members = vec![
        ("model_id".to_owned(), Json::String(model_id.to_owned())),
        ("messages".to_owned(), Json::Array(messages)),
        ("max_tokens".to_owned(), Json::natural(512)),
    ];
    proof {
        lemma_object_view(fields);
        lemma_array_view(messages);
        lemma_object_view(members);
        assert(object_view(fields) =~= seq![
            ("role"@, JsonView::String("user"@)),
            ("content"@, JsonView::String(prompt@)),
        ]);
        assert(array_view(messages) =~= seq![JsonView::Object(object_view(fields))]);
        assert(object_view(members) =~= seq![
            ("model_id"@, JsonView::String(model_id@)),
            ("messages"@, JsonView::Array(array_view(messages))),
            ("max_tokens"@, JsonView::Number(natural_number(512))),
        ]);
    }
    Json::Object(members)
}

/// Builds the body of a completion request.
pub fn generate_request(model: &str, prompt: &str) -> (body: Json)
    ensures
        body@ == generate_request_view(model@, prompt@),
{
    let members = vec![
        ("model".to_owned(), Json::String(model.to_owned())),
        ("prompt".to_owned(), Json::String(prompt.to_owned())),
        ("stream".to_owned(), Json::Bool(false)),
    ];
    proof {
        lemma_object_view(members);
        assert(object_view(members) =~= seq![
            ("model"@, JsonView::String(model@)),
            ("prompt"@, JsonView::String(prompt@)),
            ("stream"@, JsonView::Bool(false)),
        ]);
    }
    Json::Object(members)
}

/// The text of a chat request's body, as it goes over the wire.
pub fn chat_request_body(model_id: &str, prompt: &str) -> (text: String)
    ensures
        text@ == rendered_document(chat_request_view(model_id@, prompt@)),
{
    encode(&chat_request(model_id, prompt))
}

/// The text of a completion request's body, as it goes over the wire.
pub fn generate_request_body(model: &str, prompt: &str) -> (text: String)
    ensures
        text@ == rendered_document(generate_request_view(model@, prompt@)),
{
    encode(&generate_request(model, prompt))
}

} // verus!
