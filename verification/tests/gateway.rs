use auto_gippity::apis::call_request::{
    chat_completion, first_choice_content, gateway_headers, gateway_reply, GatewayHeaders,
    TEMPERATURE_HUNDREDTHS,
};
use auto_gippity::models::general::llm::{APIChoice, APIResponse, GatewayError, Message};

fn answer(texts: &[&str]) -> APIResponse {
    APIResponse {
        choices: texts
            .iter()
            .map(|text| APIChoice {
                message: Message { role: "assistant".to_string(), content: text.to_string() },
            })
            .collect(),
    }
}

#[test]
fn tests_call_to_openai() {
    let message = Message {
        role: "user".to_string(),
        content: "hi there, this is a test. give me a short answer.".to_string(),
    };
    let messages = vec![message];
    let request = chat_completion(messages);
    assert_eq!(request.messages.len(), 1);
    let res = first_choice_content(&answer(&["Hello."]));
    if let Ok(res_str) = res {
        assert_eq!(res_str, "Hello.");
    } else {
        panic!("the answer has a choice");
    }
}

#[test]
fn request_names_the_model_and_keeps_the_messages() {
    let messages = vec![
        Message { role: "system".to_string(), content: "a".to_string() },
        Message { role: "user".to_string(), content: "b".to_string() },
    ];
    let request = chat_completion(messages.clone());
    assert_eq!(request.model, "gpt-3.5-turbo");
    assert_eq!(request.messages, messages);
    assert_eq!(request.temperature_hundredths, 10);
    assert_eq!(TEMPERATURE_HUNDREDTHS, 10);
}

#[test]
fn only_the_first_choice_is_taken() {
    assert_eq!(first_choice_content(&answer(&["first", "second"])), Ok("first".to_string()));
}

#[test]
fn an_answer_without_choices_is_a_gateway_failure() {
    assert_eq!(first_choice_content(&answer(&[])), Err(GatewayError::NoChoices));
}

#[test]
fn headers_carry_the_bearer_token_and_the_organization() {
    assert_eq!(
        gateway_headers("sk-abc123", "org-42"),
        Ok(GatewayHeaders {
            authorization: "Bearer sk-abc123".to_string(),
            organization: "org-42".to_string(),
        })
    );
}

#[test]
fn headers_take_tabs_and_characters_beyond_ascii() {
    assert!(gateway_headers("k\te\u{e9}y", "\u{4e2d}org").is_ok());
    assert!(gateway_headers("", "").is_ok());
}

#[test]
fn a_control_character_in_a_credential_is_refused() {
    assert_eq!(gateway_headers("sk-abc\n", "org"), Err(GatewayError::InvalidHeader));
    assert_eq!(gateway_headers("sk-abc", "or\u{7f}g"), Err(GatewayError::InvalidHeader));
    assert_eq!(gateway_headers("sk\u{0}", "org"), Err(GatewayError::InvalidHeader));
    assert_eq!(gateway_headers("sk", "org\u{1f}"), Err(GatewayError::InvalidHeader));
}

#[test]
fn successful_answer_gives_the_content_of_the_first_choice() {
    assert_eq!(gateway_reply(200, Ok(answer(&["first", "second"]))), Ok("first".to_string()));
    assert_eq!(gateway_reply(201, Ok(answer(&["created"]))), Ok("created".to_string()));
    assert_eq!(gateway_reply(299, Ok(answer(&[""]))), Ok("".to_string()));
}

#[test]
fn status_that_is_no_success_is_a_gateway_failure() {
    for status in [0u16, 100, 199, 300, 301, 400, 401, 404, 429, 500, 503, u16::MAX] {
        assert_eq!(
            gateway_reply(status, Ok(answer(&["a body that looks fine"]))),
            Err(GatewayError::Status(status))
        );
        assert_eq!(
            gateway_reply(status, Err("no json".to_string())),
            Err(GatewayError::Status(status))
        );
    }
}

#[test]
fn undecodable_body_of_a_successful_answer_is_a_gateway_failure() {
    assert_eq!(
        gateway_reply(200, Err("expected value at line 1 column 1".to_string())),
        Err(GatewayError::MalformedResponse("expected value at line 1 column 1".to_string()))
    );
}

#[test]
fn successful_answer_without_choices_is_a_gateway_failure() {
    assert_eq!(gateway_reply(200, Ok(answer(&[]))), Err(GatewayError::NoChoices));
}
