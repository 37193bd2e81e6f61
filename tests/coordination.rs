use snaprun::controller::{UIController, UiError};
use snaprun::guard::{RunError, ScriptGuard};
use snaprun::protocol::{RequestKind, UIResponse};
use snaprun::registry::{Delivery, PendingRequests};

fn respond(ui: &mut UIController, id: &str, value: &str) -> Delivery {
    ui.ui_response(UIResponse { id: id.to_string(), value: value.to_string() })
}

#[test]
fn wrong_id_fulfills_no_other_slot() {
    let mut ui = UIController::new();
    let mut first = ui.ask_input("one?");
    let mut second = ui.ask_input("two?");
    assert_ne!(first.request.id, second.request.id);

    assert_eq!(respond(&mut ui, "not-an-issued-id", "x"), Delivery::UnknownId);
    assert!(first.answer.try_recv().is_err());
    assert!(second.answer.try_recv().is_err());
    assert!(ui.is_pending(&first.request.id));
    assert!(ui.is_pending(&second.request.id));

    assert_eq!(respond(&mut ui, &second.request.id, "for two"), Delivery::Fulfilled);
    assert!(first.answer.try_recv().is_err());
    assert_eq!(second.answer.try_recv().unwrap(), "for two");
    assert!(ui.is_pending(&first.request.id));
}

#[test]
fn delivery_settles_exactly_once() {
    let mut ui = UIController::new();
    let mut prompt = ui.ask_input("name?");
    let id = prompt.request.id.clone();
    assert_eq!(respond(&mut ui, &id, "Ada"), Delivery::Fulfilled);
    assert_eq!(respond(&mut ui, &id, "Bob"), Delivery::UnknownId);
    assert_eq!(prompt.answer.try_recv().unwrap(), "Ada");
    assert!(!ui.is_pending(&id));
}

#[test]
fn request_ids_are_uuid_shaped() {
    let mut ui = UIController::new();
    let prompt = ui.ask_input("q");
    assert_eq!(prompt.request.id.len(), 36);
    assert_eq!(prompt.request.id.matches('-').count(), 4);
    assert_eq!(prompt.request.kind, RequestKind::Input);
    assert_eq!(prompt.request.message, "q");
}

#[test]
fn registry_replaces_a_slot_under_the_same_id() {
    let mut table = PendingRequests::new();
    let (old_tx, mut old_rx) = tokio::sync::oneshot::channel::<String>();
    let (new_tx, mut new_rx) = tokio::sync::oneshot::channel::<String>();
    table.register("k".to_string(), old_tx);
    table.register("k".to_string(), new_tx);
    assert!(old_rx.try_recv().is_err());
    assert_eq!(table.deliver("k", "v".to_string()), Delivery::Fulfilled);
    assert_eq!(new_rx.try_recv().unwrap(), "v");
    assert!(!table.is_pending("k"));
}

#[test]
fn delivery_to_a_waiter_that_left() {
    let mut ui = UIController::new();
    let prompt = ui.ask_input("q");
    let id = prompt.request.id.clone();
    drop(prompt);
    assert_eq!(respond(&mut ui, &id, "late"), Delivery::ReceiverGone);
    assert_eq!(respond(&mut ui, &id, "later"), Delivery::UnknownId);
}

#[test]
fn abandoned_request_is_cancelled() {
    let mut ui = UIController::new();
    let mut prompt = ui.ask_select("pick", vec!["A".to_string()]);
    assert!(ui.abandon(&prompt.request.id));
    assert!(!ui.abandon(&prompt.request.id));
    let outcome = prompt.answer.try_recv();
    assert!(outcome.is_err());
    let (tx, rx) = tokio::sync::oneshot::channel::<String>();
    drop(tx);
    let rt = tokio::runtime::Builder::new_current_thread().build().unwrap();
    let settled = UIController::settle(rt.block_on(rx));
    assert!(matches!(settled, Err(UiError::Cancelled)));
    assert_eq!(settled.unwrap_err().message(), "Request cancelled");
}

#[test]
fn settle_passes_answers_through() {
    let (tx, rx) = tokio::sync::oneshot::channel::<String>();
    tx.send("hello".to_string()).unwrap();
    let rt = tokio::runtime::Builder::new_current_thread().build().unwrap();
    assert_eq!(UIController::settle(rt.block_on(rx)).unwrap(), "hello");
}

#[test]
fn single_flight_rejects_concurrent_runs() {
    let mut guard = ScriptGuard::new();
    assert!(guard.try_begin().is_ok());
    assert_eq!(guard.try_begin(), Err(RunError::AlreadyRunning));
    assert_eq!(RunError::AlreadyRunning.message(), "Script already running");
    assert!(guard.is_running());
    let report = guard.finish_run("demo", Err("boom".to_string()));
    assert_eq!(report, Err("Script execution failed: boom".to_string()));
    assert!(!guard.is_running());
    assert!(guard.try_begin().is_ok());
    let report = guard.finish_run("demo", Ok(()));
    assert_eq!(report, Ok("Script 'demo' executed successfully".to_string()));
    assert!(guard.try_begin().is_ok());
}

#[test]
fn taken_id_gets_a_fresh_one() {
    let mut ui = UIController::new();
    let first = ui.ask_input_with_id("k".to_string(), "one?");
    let second = ui.ask_input_with_id("k".to_string(), "two?");
    let third = ui.ask_select_with_id("k".to_string(), "three?", vec!["A".to_string()]);
    assert_eq!(first.request.id, "k");
    assert_eq!(second.request.id, "k-");
    assert_eq!(third.request.id, "k--");
    assert!(ui.is_pending("k") && ui.is_pending("k-") && ui.is_pending("k--"));

    let mut table = PendingRequests::new();
    let (tx, _rx) = tokio::sync::oneshot::channel::<String>();
    table.register("abc".to_string(), tx);
    assert_eq!(table.unused_id("abc".to_string()), "abc-");
    assert_eq!(table.unused_id("x".to_string()), "x");
}

#[test]
fn abandoning_a_new_prompt_restores_the_table() {
    let mut ui = UIController::new();
    let mut kept = ui.ask_input("kept?");
    let dropped = ui.ask_input("dropped?");
    assert!(ui.abandon(&dropped.request.id));
    assert!(!ui.is_pending(&dropped.request.id));
    assert!(ui.is_pending(&kept.request.id));
    let id = kept.request.id.clone();
    assert_eq!(respond(&mut ui, &id, "ok"), Delivery::Fulfilled);
    assert_eq!(kept.answer.try_recv().unwrap(), "ok");
}
