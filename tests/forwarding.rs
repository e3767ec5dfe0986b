use telegramd::chat_data::{decode_message_request, ChatData, PayloadSource};
use telegramd::files::{StoredFile, UploadIngestor};
use telegramd::forward::{forward_response, join, send_file, ForwardOutcome, ForwardingGateway, PlatformCall, Step};
use telegramd::message::{message_response, send_message};

fn stored(path: &str) -> StoredFile {
    StoredFile { original_filename: path.to_string(), path: path.to_string() }
}

/// Runs the gateway, answering the calls in turn from `answers`; returns the
/// calls made, as text, and the outcome.
fn run(mut g: ForwardingGateway, answers: Vec<Result<(), String>>) -> (Vec<String>, ForwardOutcome) {
    let mut calls = Vec::new();
    let mut answers = answers.into_iter();
    loop {
        match g.next_step() {
            Step::Call(PlatformCall::SendText { chat, text }) => calls.push(format!("text {} {}", chat, text)),
            Step::Call(PlatformCall::SendDocument { chat, path }) => calls.push(format!("doc {} {}", chat, path)),
            Step::Finished(o) => return (calls, o),
        }
        g.record(answers.next().unwrap_or(Ok(())));
    }
}

fn request(chat: &str, message: Option<&str>) -> ChatData<Option<String>> {
    ChatData { chatid: chat.to_string(), message: message.map(|m| m.to_string()) }
}

#[test]
fn nothing_to_forward_makes_no_call() {
    let g = send_file(request("42", None), Vec::new());
    let (calls, outcome) = run(g, Vec::new());
    assert!(calls.is_empty());
    assert!(matches!(outcome, ForwardOutcome::Delivered));
    let r = forward_response(&outcome);
    assert_eq!(r.status, 202);
    assert_eq!(r.body, "");
}

#[test]
fn second_file_failure_does_not_stop_batch() {
    let files = vec![stored("up/1"), stored("up/2"), stored("up/3")];
    let g = send_file(request("42", None), files);
    let (calls, outcome) = run(g, vec![Ok(()), Err("bad file".to_string()), Ok(())]);
    assert_eq!(calls, vec!["doc 42 up/1", "doc 42 up/2", "doc 42 up/3"]);
    match &outcome {
        ForwardOutcome::FilesFailed(es) => assert_eq!(es, &vec!["bad file".to_string()]),
        _ => panic!("expected file failures"),
    }
    let r = forward_response(&outcome);
    assert_eq!(r.status, 500);
    assert_eq!(r.body, "Got the following errors: bad file");
}

#[test]
fn all_file_errors_joined_in_order() {
    let files = vec![stored("a"), stored("b"), stored("c")];
    let g = send_file(request("7", Some("hello")), files);
    let (calls, outcome) =
        run(g, vec![Ok(()), Err("e1".to_string()), Ok(()), Err("e3".to_string())]);
    assert_eq!(calls, vec!["text 7 hello", "doc 7 a", "doc 7 b", "doc 7 c"]);
    assert_eq!(forward_response(&outcome).body, "Got the following errors: e1, e3");
}

#[test]
fn text_failure_stops_before_files() {
    let files = vec![stored("a"), stored("b")];
    let g = send_file(request("7", Some("hello")), files);
    let (calls, outcome) = run(g, vec![Err("chat not found".to_string())]);
    assert_eq!(calls, vec!["text 7 hello"]);
    assert!(matches!(&outcome, ForwardOutcome::TextFailed(e) if e == "chat not found"));
    let r = forward_response(&outcome);
    assert_eq!(r.status, 500);
    assert_eq!(r.body, "chat not found");
}

#[test]
fn upload_of_one_report_is_sent_as_document() {
    let mut ing = UploadIngestor::new("uploaded".to_string());
    let path = ing.accept(Some("report.txt".to_string())).unwrap();
    assert_eq!(path, "uploaded/report.txt");
    let batch = ing.finish().unwrap();
    let g = send_file(request("42", None), batch);
    let (calls, outcome) = run(g, vec![Ok(())]);
    assert_eq!(calls, vec!["doc 42 uploaded/report.txt"]);
    assert_eq!(forward_response(&outcome).status, 202);
}

#[test]
fn json_message_is_sent_once() {
    let body = PayloadSource::JsonBody(vec![
        ("chatid".to_string(), "42".to_string()),
        ("message".to_string(), "hi".to_string()),
    ]);
    let data = decode_message_request(&body).unwrap();
    match send_message(&data) {
        PlatformCall::SendText { chat, text } => {
            assert_eq!(chat, "42");
            assert_eq!(text, "hi");
        }
        PlatformCall::SendDocument { .. } => panic!("expected a text send"),
    }
    let r = message_response(Ok(()));
    assert_eq!(r.status, 200);
    assert_eq!(r.body, "Message sent!");
}

#[test]
fn failed_message_is_500_with_detail() {
    let r = message_response(Err("Api(ChatNotFound)".to_string()));
    assert_eq!(r.status, 500);
    assert_eq!(r.body, "Failed to send message to Telegram: Api(ChatNotFound)");
}

#[test]
fn join_puts_separator_between_items() {
    assert_eq!(join(&Vec::new(), ", "), "");
    assert_eq!(join(&vec!["a".to_string()], ", "), "a");
    assert_eq!(join(&vec!["a".to_string(), "b".to_string(), "c".to_string()], ", "), "a, b, c");
}
