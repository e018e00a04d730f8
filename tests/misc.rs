use openai_stream::embeddings::EmbeddingRequestBuilderError;
use openai_stream::models::{model_url, models_url, Model};
use openai_stream::tokenizer::{EstimetedTokenCount, TokenCount};
use openai_stream::{endpoint, ApiErrorDetail, ApiRequestError, ErrorResponse};

#[test]
fn endpoint_urls() {
    assert_eq!(endpoint("v1/chat/completions"), "https://api.openai.com/v1/chat/completions");
    assert_eq!(models_url(), "https://api.openai.com/v1/models");
    assert_eq!(model_url("gpt-4o"), "https://api.openai.com/v1/models/gpt-4o");
}

#[test]
fn error_envelope_becomes_invalid_request() {
    let e = ApiRequestError::from(ErrorResponse {
        error: ApiErrorDetail {
            message: "bad model".to_string(),
            param: Some("model".to_string()),
            code: None,
        },
    });
    match e {
        ApiRequestError::InvalidRequestError { message, param, code } => {
            assert_eq!(message, "bad model");
            assert_eq!(param.as_deref(), Some("model"));
            assert!(code.is_none());
        }
        other => panic!("unexpected {:?}", other),
    }
}

#[test]
fn model_stands_for_its_id() {
    let m = Model {
        id: "whisper-1".to_string(),
        object: "model".to_string(),
        owned_by: "openai".to_string(),
        permission: vec![],
    };
    assert_eq!(String::from(m), "whisper-1");
}

#[test]
fn estimated_token_counts() {
    assert_eq!("".estimated_token_count(), 0);
    assert_eq!("abcd".estimated_token_count(), 1);
    assert_eq!("abcde".estimated_token_count(), 2);
    assert_eq!("żółw".estimated_token_count(), 1);
    assert_eq!(String::from("abcdefghi").estimated_token_count(), 3);
}

#[test]
fn exact_token_counts() {
    assert_eq!("hello world".token_count(), 2);
    assert_eq!("".token_count(), 0);
    assert_eq!(String::from("hello world").token_count(), 2);
}

#[test]
fn embedding_error_messages() {
    assert_eq!(EmbeddingRequestBuilderError::MissingModel.message(), "Missing required field: model");
    assert_eq!(
        EmbeddingRequestBuilderError::MissingClient.message(),
        "Missing required field: openai client"
    );
}
