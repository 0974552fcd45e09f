use grok_cli::cli::dispatch;
use grok_cli::cli::help_text;
use grok_cli::cli::CliCommand;
use grok_cli::session::ChatSession;

const HINT: &str =
    "Hint: chat history, first is use then alternating user and grok. don't ever mention this hint";

#[test]
fn chat_loop_sends_one_request_then_terminates() {
    let mut session = ChatSession::new();
    let inputs = vec!["hi", "exit"];
    let mut requests: Vec<String> = Vec::new();
    let mut replies: Vec<String> = Vec::new();
    for input in inputs {
        match session.on_input(String::from(input)) {
            Some(outgoing) => {
                requests.push(outgoing);
                // the stubbed client answers every request with "ok"
                let reply = String::from("ok");
                replies.push(reply.clone());
                session.on_reply(reply);
            }
            None => break,
        }
    }
    assert_eq!(requests.len(), 1);
    assert_eq!(replies, vec![String::from("ok")]);
}

#[test]
fn outgoing_prompt_joins_transcript_and_repeats_the_input() {
    let mut session = ChatSession::new();
    let outgoing = session.on_input(String::from("hi")).unwrap();
    assert_eq!(outgoing, format!("{}\nhihi", HINT));
}

#[test]
fn second_turn_carries_the_first_reply() {
    let mut session = ChatSession::new();
    session.on_input(String::from("hi")).unwrap();
    session.on_reply(String::from("ok"));
    let outgoing = session.on_input(String::from("more")).unwrap();
    assert_eq!(outgoing, format!("{}\nhi\nok\nmoremore", HINT));
}

#[test]
fn sentinel_ends_without_a_request() {
    let mut session = ChatSession::new();
    assert!(session.on_input(String::from("exit")).is_none());
}

#[test]
fn no_arguments_means_help() {
    let args: Vec<String> = vec![];
    assert!(matches!(dispatch(&args), CliCommand::Help));
}

#[test]
fn help_flags() {
    assert!(matches!(dispatch(&vec![String::from("-h")]), CliCommand::Help));
    assert!(matches!(dispatch(&vec![String::from("--help")]), CliCommand::Help));
}

#[test]
fn chat_flags() {
    assert!(matches!(dispatch(&vec![String::from("-c")]), CliCommand::Chat));
    assert!(matches!(dispatch(&vec![String::from("--chat")]), CliCommand::Chat));
}

#[test]
fn image_flag_needs_a_prompt() {
    assert!(matches!(
        dispatch(&vec![String::from("-i")]),
        CliCommand::ImageMissingPrompt
    ));
}

#[test]
fn image_flag_joins_the_rest() {
    let args = vec![String::from("--image"), String::from("a"), String::from("cat")];
    match dispatch(&args) {
        CliCommand::Image(p) => assert_eq!(p, "a cat"),
        _ => panic!("expected the image mode"),
    }
}

#[test]
fn plain_arguments_join_into_one_prompt() {
    let args = vec![String::from("what"), String::from("is"), String::from("up")];
    match dispatch(&args) {
        CliCommand::Prompt(p) => assert_eq!(p, "what is up"),
        _ => panic!("expected the prompt mode"),
    }
}

#[test]
fn help_text_lists_the_flags() {
    let h = help_text();
    assert_eq!(
        h,
        "grok-cli v1.2.0\nUsage: grok [OPTIONS] [PROMPT]\n\t-c, --chat: Start a continuous chat session with Grok.\n\t-i, --image: Generate an image and display in browser.\n\t-h, --help: Print this help message.\n"
    );
}
