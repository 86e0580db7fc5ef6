use article_editor::barcode::{Barcode, BarcodeDiff};
use article_editor::failure::UpdateError;
use article_editor::session::{Article, EditSession, UpdateRequest};

fn widget() -> Article {
    Article {
        id: 1,
        name: "Widget".to_string(),
        cost: "9.99".to_string(),
        barcodes: vec![Barcode("A1".to_string())],
    }
}

fn article_with(codes: &[&str]) -> Article {
    Article {
        id: 7,
        name: "Crate".to_string(),
        cost: "12.50".to_string(),
        barcodes: codes.iter().map(|c| Barcode(c.to_string())).collect(),
    }
}

fn visible(session: &EditSession) -> Vec<String> {
    session.barcodes().iter().map(|b| b.0.clone()).collect()
}

fn sorted(mut codes: Vec<String>) -> Vec<String> {
    codes.sort();
    codes
}

#[test]
fn new_session_mirrors_the_article() {
    let session = EditSession::new(widget());
    assert_eq!(session.id(), 1);
    assert_eq!(session.name(), "Widget");
    assert_eq!(session.cost(), "9.99");
    assert_eq!(visible(&session), vec!["A1".to_string()]);
    assert_eq!(session.diff(), Vec::<BarcodeDiff>::new());
    assert_eq!(session.error(), "");
    assert!(!session.has_error());
    assert_eq!(session.article(), &widget());
}

#[test]
fn remove_then_add_gives_list_and_log() {
    let mut session = EditSession::new(widget());
    session.remove_barcode("A1".to_string());
    assert!(session.add_barcode("B2".to_string()));
    assert_eq!(visible(&session), vec!["B2".to_string()]);
    assert_eq!(
        session.diff(),
        vec![
            BarcodeDiff::Removed("A1".to_string()),
            BarcodeDiff::Added("B2".to_string()),
        ]
    );
}

#[test]
fn empty_code_is_ignored() {
    let mut session = EditSession::new(widget());
    assert!(!session.add_barcode(String::new()));
    assert_eq!(visible(&session), vec!["A1".to_string()]);
    assert_eq!(session.diff(), Vec::<BarcodeDiff>::new());
}

#[test]
fn code_of_spaces_is_ignored() {
    let mut session = EditSession::new(widget());
    assert!(!session.add_barcode("   ".to_string()));
    assert_eq!(visible(&session), vec!["A1".to_string()]);
    assert_eq!(session.diff(), Vec::<BarcodeDiff>::new());
}

#[test]
fn code_of_mixed_whitespace_is_ignored() {
    let mut session = EditSession::new(widget());
    assert!(!session.add_barcode(" \t\r\n\u{a0}\u{3000}".to_string()));
    assert_eq!(visible(&session), vec!["A1".to_string()]);
    assert_eq!(session.diff().len(), 0);
}

#[test]
fn code_with_surrounding_spaces_is_kept_as_entered() {
    let mut session = EditSession::new(widget());
    assert!(session.add_barcode("  C3 ".to_string()));
    assert_eq!(visible(&session), vec!["A1".to_string(), "  C3 ".to_string()]);
    assert_eq!(session.diff(), vec![BarcodeDiff::Added("  C3 ".to_string())]);
}

#[test]
fn zero_width_space_is_not_blank() {
    let mut session = EditSession::new(widget());
    assert!(session.add_barcode("\u{200b}".to_string()));
    assert_eq!(session.diff().len(), 1);
}

#[test]
fn added_code_goes_to_the_end() {
    let mut session = EditSession::new(article_with(&["A", "B"]));
    session.add_barcode("C".to_string());
    session.add_barcode("D".to_string());
    assert_eq!(visible(&session), vec!["A", "B", "C", "D"]);
}

#[test]
fn duplicate_add_is_not_refused() {
    let mut session = EditSession::new(widget());
    assert!(session.add_barcode("A1".to_string()));
    assert_eq!(visible(&session), vec!["A1", "A1"]);
    assert_eq!(session.diff(), vec![BarcodeDiff::Added("A1".to_string())]);
}

#[test]
fn removal_takes_the_first_match_only() {
    let mut session = EditSession::new(article_with(&["X", "Y", "X", "Z"]));
    assert_eq!(session.position(&"X".to_string()), Some(0));
    session.remove_barcode("X".to_string());
    assert_eq!(visible(&session), vec!["Y", "X", "Z"]);
    assert_eq!(session.position(&"X".to_string()), Some(1));
    session.remove_barcode("X".to_string());
    assert_eq!(visible(&session), vec!["Y", "Z"]);
    assert_eq!(session.position(&"X".to_string()), None);
}

#[test]
fn position_of_absent_code_is_none() {
    let session = EditSession::new(widget());
    assert_eq!(session.position(&"a1".to_string()), None);
    assert_eq!(session.position(&"A1 ".to_string()), None);
    assert_eq!(session.position(&"A1".to_string()), Some(0));
}

#[test]
fn add_then_remove_keeps_both_entries() {
    let mut session = EditSession::new(widget());
    session.add_barcode("B2".to_string());
    session.remove_barcode("B2".to_string());
    assert_eq!(visible(&session), vec!["A1"]);
    assert_eq!(
        session.diff(),
        vec![
            BarcodeDiff::Added("B2".to_string()),
            BarcodeDiff::Removed("B2".to_string()),
        ]
    );
}

#[test]
fn blank_barcode_of_the_article_can_be_removed() {
    let mut session = EditSession::new(article_with(&["", "K"]));
    session.remove_barcode(String::new());
    assert_eq!(visible(&session), vec!["K"]);
    assert_eq!(session.diff(), vec![BarcodeDiff::Removed(String::new())]);
}

#[test]
fn visible_list_is_loaded_plus_added_minus_removed() {
    let mut session = EditSession::new(article_with(&["A", "B", "C"]));
    session.add_barcode("D".to_string());
    session.remove_barcode("B".to_string());
    session.add_barcode("".to_string());
    session.add_barcode("B".to_string());
    session.add_barcode("E".to_string());
    session.remove_barcode("A".to_string());
    session.remove_barcode("E".to_string());
    session.add_barcode("D".to_string());
    // {A, B, C} + {D, B, E, D} - {B, A, E}
    let expected: Vec<String> = ["B", "C", "D", "D"].iter().map(|c| c.to_string()).collect();
    assert_eq!(sorted(visible(&session)), expected);
    assert_eq!(visible(&session), vec!["C", "D", "B", "D"]);
}

#[test]
fn log_length_counts_effective_calls() {
    let mut session = EditSession::new(article_with(&["A", "B"]));
    assert_eq!(session.diff().len(), 0);
    session.add_barcode("C".to_string());
    assert_eq!(session.diff().len(), 1);
    session.add_barcode(" ".to_string());
    assert_eq!(session.diff().len(), 1);
    session.remove_barcode("A".to_string());
    assert_eq!(session.diff().len(), 2);
    session.add_barcode("A".to_string());
    assert_eq!(session.diff().len(), 3);
    session.remove_barcode("A".to_string());
    assert_eq!(session.diff().len(), 4);
    session.add_barcode(String::new());
    session.remove_barcode("C".to_string());
    assert_eq!(
        session.diff(),
        vec![
            BarcodeDiff::Added("C".to_string()),
            BarcodeDiff::Removed("A".to_string()),
            BarcodeDiff::Added("A".to_string()),
            BarcodeDiff::Removed("A".to_string()),
            BarcodeDiff::Removed("C".to_string()),
        ]
    );
}

#[test]
fn set_name_and_cost_take_any_text() {
    let mut session = EditSession::new(widget());
    session.set_name("Gadget".to_string());
    session.set_cost("not a number".to_string());
    assert_eq!(session.name(), "Gadget");
    assert_eq!(session.cost(), "not a number");
    session.set_name(String::new());
    assert_eq!(session.name(), "");
    assert_eq!(visible(&session), vec!["A1"]);
    assert_eq!(session.diff().len(), 0);
    assert_eq!(session.article(), &widget());
}

#[test]
fn commit_carries_fields_and_log() {
    let mut session = EditSession::new(widget());
    session.set_name("Gadget".to_string());
    session.set_cost("10.00".to_string());
    session.remove_barcode("A1".to_string());
    session.add_barcode("B2".to_string());
    let request = session.commit();
    assert_eq!(
        request,
        UpdateRequest {
            id: 1,
            name: "Gadget".to_string(),
            cost: "10.00".to_string(),
            barcodes: Some(vec![
                BarcodeDiff::Removed("A1".to_string()),
                BarcodeDiff::Added("B2".to_string()),
            ]),
        }
    );
    assert_eq!(session.diff().len(), 2);
}

#[test]
fn commit_without_list_changes_carries_an_empty_list() {
    let session = EditSession::new(widget());
    let request = session.commit();
    assert_eq!(request.barcodes, Some(Vec::new()));
    assert_eq!(request.name, "Widget");
    assert_eq!(request.cost, "9.99");
    assert_eq!(request.id, 1);
}

#[test]
fn server_message_is_shown_verbatim_and_edits_are_kept() {
    let mut session = EditSession::new(widget());
    session.set_name("Gadget".to_string());
    session.remove_barcode("A1".to_string());
    session.add_barcode("B2".to_string());
    let request = session.commit();
    session.complete(Err(UpdateError::ServerError("duplicate barcode".to_string())));
    assert_eq!(session.error(), "duplicate barcode");
    assert!(session.has_error());
    assert_eq!(session.name(), "Gadget");
    assert_eq!(session.cost(), "9.99");
    assert_eq!(visible(&session), vec!["B2"]);
    assert_eq!(
        session.diff(),
        vec![
            BarcodeDiff::Removed("A1".to_string()),
            BarcodeDiff::Added("B2".to_string()),
        ]
    );
    assert_eq!(session.commit(), request);
}

#[test]
fn other_failure_shows_its_description() {
    let mut session = EditSession::new(widget());
    session.complete(Err(UpdateError::Request("connection refused".to_string())));
    assert_eq!(
        session.error(),
        "error reaching server to call server function: connection refused"
    );
    assert!(session.has_error());
    assert_eq!(visible(&session), vec!["A1"]);
    assert_eq!(session.diff().len(), 0);
}

#[test]
fn other_failure_without_detail_is_not_empty() {
    let mut session = EditSession::new(widget());
    session.complete(Err(UpdateError::Deserialization(String::new())));
    assert_eq!(session.error(), "error deserializing server function results: ");
    assert!(session.has_error());
}

#[test]
fn success_changes_nothing() {
    let mut session = EditSession::new(widget());
    session.add_barcode("B2".to_string());
    session.complete(Ok(()));
    assert_eq!(session.error(), "");
    assert!(!session.has_error());
    assert_eq!(visible(&session), vec!["A1", "B2"]);
    assert_eq!(session.diff(), vec![BarcodeDiff::Added("B2".to_string())]);
}

#[test]
fn error_stays_after_a_later_success() {
    let mut session = EditSession::new(widget());
    session.complete(Err(UpdateError::ServerError("duplicate barcode".to_string())));
    session.complete(Ok(()));
    assert_eq!(session.error(), "duplicate barcode");
    assert!(session.has_error());
}

#[test]
fn failure_after_success_is_shown() {
    let mut session = EditSession::new(widget());
    let _first = session.commit();
    let _second = session.commit();
    // the second commit comes back first and succeeds, the first fails later
    session.complete(Ok(()));
    session.complete(Err(UpdateError::ServerError("stale".to_string())));
    assert_eq!(session.error(), "stale");
}

#[test]
fn last_completed_failure_overwrites_the_slot() {
    let mut session = EditSession::new(widget());
    session.complete(Err(UpdateError::ServerError("first".to_string())));
    session.complete(Err(UpdateError::Response("second".to_string())));
    assert_eq!(session.error(), "error generating HTTP response: second");

    let mut reversed = EditSession::new(widget());
    reversed.complete(Err(UpdateError::Response("second".to_string())));
    reversed.complete(Err(UpdateError::ServerError("first".to_string())));
    assert_eq!(reversed.error(), "first");
}

#[test]
fn empty_server_message_shows_no_error() {
    let mut session = EditSession::new(widget());
    session.complete(Err(UpdateError::ServerError("old".to_string())));
    session.complete(Err(UpdateError::ServerError(String::new())));
    assert_eq!(session.error(), "");
    assert!(!session.has_error());
}

#[test]
fn editing_goes_on_after_a_failure() {
    let mut session = EditSession::new(widget());
    session.add_barcode("B2".to_string());
    session.complete(Err(UpdateError::ServerError("duplicate barcode".to_string())));
    session.remove_barcode("B2".to_string());
    session.add_barcode("B3".to_string());
    assert_eq!(session.error(), "duplicate barcode");
    let request = session.commit();
    assert_eq!(
        request.barcodes,
        Some(vec![
            BarcodeDiff::Added("B2".to_string()),
            BarcodeDiff::Removed("B2".to_string()),
            BarcodeDiff::Added("B3".to_string()),
        ])
    );
}

#[test]
fn article_clone_is_equal() {
    let article = article_with(&["A", "B"]);
    assert_eq!(article.clone(), article);
}

#[test]
fn session_clone_is_independent() {
    let mut session = EditSession::new(widget());
    session.add_barcode("B2".to_string());
    let mut copy = session.clone();
    copy.remove_barcode("A1".to_string());
    copy.set_name("Other".to_string());
    assert_eq!(visible(&session), vec!["A1", "B2"]);
    assert_eq!(session.name(), "Widget");
    assert_eq!(visible(&copy), vec!["B2"]);
    assert_eq!(copy.diff().len(), 2);
    assert_eq!(session.diff().len(), 1);
}
