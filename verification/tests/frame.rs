use cordyceps_api::chat::{Choice, Delta, FinishReason, Model, Response};

fn choice(content: &str, index: isize, finish_reason: Option<FinishReason>) -> Choice {
    Choice { delta: Delta { content: content.to_string() }, index, finish_reason }
}

fn frame(choices: Vec<Choice>) -> Response {
    Response {
        id: "chatcmpl-1".to_string(),
        object: "chat.completion.chunk".to_string(),
        created: 1_677_825_464,
        model: Model::Gpt35Turbo0301,
        choices,
    }
}

#[test]
fn text_of_the_first_choice() {
    let response = frame(vec![choice("Hello", 0, None)]);
    assert_eq!(response.text(0), Some("Hello".to_string()));
}

#[test]
fn text_past_the_last_choice_is_absent() {
    let response = frame(vec![choice("Hello", 0, None)]);
    assert_eq!(response.clone().text(5), None);
    assert_eq!(response.clone().text(1), None);
    assert_eq!(response.text(usize::MAX), None);
}

#[test]
fn text_of_a_frame_without_choices_is_absent() {
    assert_eq!(frame(Vec::new()).text(0), None);
}

#[test]
fn text_goes_by_position() {
    let response = frame(vec![
        choice("a", 1, None),
        choice("b", 0, Some(FinishReason::Stop)),
        choice("", 2, Some(FinishReason::Length)),
    ]);
    assert_eq!(response.clone().text(0), Some("a".to_string()));
    assert_eq!(response.clone().text(1), Some("b".to_string()));
    assert_eq!(response.clone().text(2), Some(String::new()));
    assert_eq!(response.text(3), None);
}

#[test]
fn fragments_are_accumulated_by_the_caller() {
    let frames = vec![
        frame(vec![choice("Hel", 0, None)]),
        frame(vec![choice("lo", 0, None)]),
        frame(vec![choice("", 0, Some(FinishReason::Stop))]),
    ];
    let mut whole = String::new();
    for response in frames {
        whole.push_str(&response.text(0).unwrap());
    }
    assert_eq!(whole, "Hello");
}
