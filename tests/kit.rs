use snaprun::bridge::{answer_or_failure, confirmation, sent, status_or_error};
use snaprun::content::{editor_payload, markdown_page, message_card, render_markdown, EditorSource, MARKDOWN_STYLESHEET};
use snaprun::controller::{UIController, UiError};
use snaprun::ids::{temp_file_name, temp_file_name_with};
use snaprun::kit::{Kit, NumberStep};
use snaprun::protocol::{RequestKind, UIRequest, UIResponse};

fn respond(ui: &mut UIController, id: &str, value: &str) {
    ui.ui_response(UIResponse { id: id.to_string(), value: value.to_string() });
}

fn close_flag(r: &UIRequest) -> &str {
    r.options.as_ref().unwrap()[0].as_str()
}

#[test]
fn select_answer_reaches_the_script() {
    let mut ui = UIController::new();
    let mut kit = Kit::new();
    let mut prompt = kit.ask_select(&mut ui, "pick", vec!["A".to_string(), "B".to_string()]);
    assert_eq!(prompt.request.kind, RequestKind::Select);
    assert_eq!(prompt.request.options, Some(vec!["A".to_string(), "B".to_string()]));
    let id = prompt.request.id.clone();
    respond(&mut ui, &id, "B");
    let answer = UIController::settle(Ok(prompt.answer.try_recv().unwrap()));
    assert_eq!(answer_or_failure(answer), Ok("B".to_string()));
}

#[test]
fn number_prompt_asks_again_until_a_number_comes() {
    let mut ui = UIController::new();
    let mut kit = Kit::new();
    let mut prompt = kit.ask_number(&mut ui, "age?");
    let mut notices = Vec::new();
    let mut replies = vec!["abc", "42"].into_iter();
    let value: f64 = loop {
        let id = prompt.request.id.clone();
        assert_eq!(prompt.request.kind, RequestKind::Input);
        assert_eq!(prompt.request.message, "age?");
        respond(&mut ui, &id, replies.next().unwrap());
        let text = prompt.answer.try_recv().unwrap();
        match kit.number_reply(&mut ui, "age?", &Ok(text.clone())) {
            NumberStep::Accept => break text.trim().parse::<f64>().unwrap(),
            NumberStep::Fail(m) => panic!("unexpected failure: {}", m),
            NumberStep::Retry { notice, prompt: next } => {
                notices.push(notice);
                prompt = next;
            }
        }
    };
    assert_eq!(value, 42.0);
    assert_eq!(notices.len(), 1);
    assert_eq!(notices[0].kind, RequestKind::Html);
    assert_eq!(notices[0].message, "Invalid Input");
    assert_eq!(
        notices[0].html_content.as_deref(),
        Some("<div style='text-align: center; padding: 2rem;'><h3>Invalid Input</h3><p>Please enter a valid number.</p></div>")
    );
    assert!(kit.has_awaiting_components());
}

#[test]
fn number_reply_never_accepts_text() {
    let mut ui = UIController::new();
    let mut kit = Kit::new();
    for text in ["", "abc", "1.2.3", "1e", ".", "e5", "--1", "1 2", "0x10", "infinite", "1_000"] {
        assert!(matches!(kit.number_reply(&mut ui, "n?", &Ok(text.to_string())), NumberStep::Retry { .. }), "{}", text);
        assert!(text.trim().parse::<f64>().is_err(), "{}", text);
    }
    for text in ["42", " 42 ", "-0.5", "+.5", "5.", "1e10", "2E-3", "inf", "-Infinity", "NaN", "\t7\n"] {
        assert!(matches!(kit.number_reply(&mut ui, "n?", &Ok(text.to_string())), NumberStep::Accept), "{}", text);
        assert!(text.trim().parse::<f64>().is_ok(), "{}", text);
    }
}

#[test]
fn confirm_reads_yes_in_any_case() {
    assert!(Kit::confirm_answer("Yes"));
    assert!(Kit::confirm_answer("yes"));
    assert!(Kit::confirm_answer("YES"));
    assert!(Kit::confirm_answer("yEs"));
    assert!(!Kit::confirm_answer("No"));
    assert!(!Kit::confirm_answer("yes "));
    assert!(!Kit::confirm_answer("y"));
    assert!(!Kit::confirm_answer(""));
    assert!(!Kit::confirm_answer("Yesss"));
    assert_eq!(confirmation(Ok("YES".to_string())), Ok(true));
    assert_eq!(confirmation(Ok("nope".to_string())), Ok(false));
    assert_eq!(confirmation(Err(UiError::Cancelled)), Err("Request cancelled".to_string()));
}

#[test]
fn confirm_offers_yes_and_no() {
    let mut ui = UIController::new();
    let mut kit = Kit::new();
    let prompt = kit.confirm(&mut ui, "Sure?");
    assert_eq!(prompt.request.options, Some(vec!["Yes".to_string(), "No".to_string()]));
    assert!(kit.has_awaiting_components());
}

#[test]
fn render_only_run_stays_open() {
    let ui = UIController::new();
    let mut kit = Kit::new();
    let page = kit.render_html_sync(&ui, "<b>hi</b>");
    assert_eq!(page.kind, RequestKind::Html);
    assert_eq!(page.message, "Rhai Script Output");
    let md = kit.render_markdown_sync(&ui, "# Title");
    assert_eq!(md.message, "Markdown Content");
    let done = kit.script_complete();
    assert_eq!(done.id, "script_complete");
    assert_eq!(done.kind, RequestKind::Complete);
    assert_eq!(close_flag(&done), "false");
    assert_eq!(done.message, "Script Complete - Stay Visible");
}

#[test]
fn asking_run_closes_and_exit_always_closes() {
    let mut ui = UIController::new();
    let mut kit = Kit::new();
    let _prompt = kit.ask_input(&mut ui, "name?");
    let done = kit.script_complete();
    assert_eq!(close_flag(&done), "true");
    assert_eq!(done.message, "Script Complete - Auto Close");
    assert_eq!(done.html_content, None);

    let quiet = Kit::new();
    let exit = quiet.exit();
    assert_eq!(exit.id, "script_exit");
    assert_eq!(exit.kind, RequestKind::Complete);
    assert_eq!(exit.message, "Script Exit - Force Close");
    assert_eq!(exit.html_content, None);
    assert_eq!(close_flag(&exit), "true");
    assert_eq!(close_flag(&kit.exit()), "true");

    kit.reset_awaiting_flag();
    assert_eq!(close_flag(&kit.script_complete()), "false");
}

#[test]
fn markdown_is_rendered_and_styled() {
    let html = render_markdown("# Hello\n\n~~old~~");
    assert!(html.starts_with(MARKDOWN_STYLESHEET));
    assert!(html.contains("<h1>Hello</h1>"));
    assert!(html.contains("<del>old</del>"));
    assert!(!html.contains("# Hello"));
    assert_eq!(markdown_page("<p>x</p>"), format!("{}<p>x</p>", MARKDOWN_STYLESHEET));
}

#[test]
fn message_card_layout() {
    assert_eq!(
        message_card("Hi", "there"),
        "<div style='text-align: center; padding: 2rem;'><h3>Hi</h3><p>there</p></div>"
    );
}

#[test]
fn editor_payload_is_a_json_object() {
    let blank = editor_payload(&EditorSource::Blank, false);
    assert_eq!(blank, r#"{"content":""}"#);
    let loaded = editor_payload(
        &EditorSource::Loaded { path: "/a.txt".to_string(), content: "x\"y".to_string() },
        true,
    );
    let value: serde_json::Value = serde_json::from_str(&loaded).unwrap();
    assert_eq!(value["filePath"], "/a.txt");
    assert_eq!(value["content"], "x\"y");
    assert_eq!(value["persistent"], "true");
    let broken = editor_payload(
        &EditorSource::Unreadable { path: "/b".to_string(), error: "denied".to_string() },
        false,
    );
    let value: serde_json::Value = serde_json::from_str(&broken).unwrap();
    assert_eq!(value["error"], "Could not read file: denied");
    assert_eq!(value["content"], "");
}

#[test]
fn editor_waits_and_persistent_editor_does_not() {
    let mut ui = UIController::new();
    let mut kit = Kit::new();
    let mut prompt = kit.editor(&mut ui, &EditorSource::Blank);
    assert_eq!(prompt.request.kind, RequestKind::Editor);
    assert_eq!(prompt.request.message, "Monaco Editor");
    assert!(kit.has_awaiting_components());
    let id = prompt.request.id.clone();
    respond(&mut ui, &id, "saved");
    let outcome = UIController::settle(Ok(prompt.answer.try_recv().unwrap()));
    assert_eq!(kit.editor_closed(outcome).unwrap(), "saved");
    assert!(!kit.has_awaiting_components());

    let _ = kit.ask_input(&mut ui, "q");
    let request = kit.editor_persistent(&ui, &EditorSource::Blank);
    assert_eq!(request.kind, RequestKind::Editor);
    assert!(!kit.has_awaiting_components());
    assert!(!ui.is_pending(&request.id));
}

#[test]
fn outcomes_as_scripts_see_them() {
    assert_eq!(answer_or_failure(Err(UiError::Transport("down".to_string()))), Err("down".to_string()));
    assert_eq!(answer_or_failure(Err(UiError::Cancelled)), Err("Request cancelled".to_string()));
    assert_eq!(answer_or_failure(Ok(String::new())), Ok(String::new()));
    assert_eq!(status_or_error(Ok("File saved: x".to_string())), "File saved: x");
    assert_eq!(status_or_error(Err("disk full".to_string())), "Error: disk full");
    assert!(sent(Ok(())));
    assert!(!sent(Err(UiError::Cancelled)));
}

#[test]
fn temp_file_names() {
    assert_eq!(temp_file_name_with("abc", Some("md")), "snaprun_abc.md");
    assert_eq!(temp_file_name_with("abc", None), "snaprun_abc.txt");
    let name = temp_file_name(None);
    assert!(name.starts_with("snaprun_") && name.ends_with(".txt"));
    assert_eq!(name.len(), "snaprun_".len() + 36 + ".txt".len());
}

#[test]
fn failed_number_prompt_ends_with_the_failure() {
    let mut ui = UIController::new();
    let mut kit = Kit::new();
    let before = kit.has_awaiting_components();
    match kit.number_reply(&mut ui, "n?", &Err(UiError::Cancelled)) {
        NumberStep::Fail(m) => assert_eq!(m, "Request cancelled"),
        _ => panic!("a failed wait must end the prompt"),
    }
    match kit.number_reply(&mut ui, "n?", &Err(UiError::Transport("gone".to_string()))) {
        NumberStep::Fail(m) => assert_eq!(m, "gone"),
        _ => panic!("a failed wait must end the prompt"),
    }
    assert_eq!(kit.has_awaiting_components(), before);
}

#[test]
fn number_answers_trim_unicode_whitespace_like_std() {
    let mut ui = UIController::new();
    let mut kit = Kit::new();
    for text in ["\u{3000}42\u{2028}", "\u{a0}-1.5e3\u{85}", "\u{2009}nan"] {
        assert!(text.trim().parse::<f64>().is_ok(), "{:?}", text);
        assert!(matches!(kit.number_reply(&mut ui, "n?", &Ok(text.to_string())), NumberStep::Accept), "{:?}", text);
    }
    for text in ["\u{200b}42", "42\u{feff}", "\u{180e}7"] {
        assert!(text.trim().parse::<f64>().is_err(), "{:?}", text);
        assert!(matches!(kit.number_reply(&mut ui, "n?", &Ok(text.to_string())), NumberStep::Retry { .. }), "{:?}", text);
    }
}
