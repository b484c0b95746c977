use hindsight_cli::dispatch::{
    clear_decision, exit_code, plan_import, put_report, ClearDecision, FileBlob, ImportPlan,
    PutReport,
};
use hindsight_cli::model::PutMemoriesResult;

#[test]
fn declined_confirmation_cancels_without_a_request() {
    let r = clear_decision(false, true, Some(false));
    assert_eq!(r, ClearDecision::Cancelled);
    assert_eq!(exit_code(true), 0);
}

#[test]
fn missing_answer_cancels() {
    assert_eq!(clear_decision(false, true, None), ClearDecision::Cancelled);
}

#[test]
fn explicit_yes_proceeds() {
    assert_eq!(clear_decision(false, true, Some(true)), ClearDecision::Proceed);
}

#[test]
fn skip_flag_or_noninteractive_needs_no_confirmation() {
    assert_eq!(clear_decision(true, true, None), ClearDecision::Proceed);
    assert_eq!(clear_decision(false, false, None), ClearDecision::Proceed);
    assert_eq!(clear_decision(true, false, Some(false)), ClearDecision::Proceed);
}

#[test]
fn one_unreadable_file_aborts_the_whole_import() {
    let files = vec![
        FileBlob { stem: Some(String::from("notes")), content: Some(String::from("text one")) },
        FileBlob { stem: Some(String::from("diary")), content: None },
    ];
    match plan_import(&files, &None, String::from("fallback")) {
        ImportPlan::Unreadable(i) => assert_eq!(i, 1),
        _ => panic!("expected the import to abort"),
    }
}

#[test]
fn readable_files_become_one_batch_in_order() {
    let files = vec![
        FileBlob { stem: Some(String::from("notes")), content: Some(String::from("text one")) },
        FileBlob { stem: Some(String::from("diary")), content: Some(String::from("text two")) },
    ];
    let ctx = Some(String::from("shared"));
    match plan_import(&files, &ctx, String::from("fallback")) {
        ImportPlan::Ready(req) => {
            assert_eq!(req.items.len(), 2);
            assert_eq!(req.items[0].content, "text one");
            assert_eq!(req.items[1].content, "text two");
            assert_eq!(req.items[0].context.as_deref(), Some("shared"));
            assert_eq!(req.items[1].context.as_deref(), Some("shared"));
            assert_eq!(req.document_id.as_deref(), Some("notes"));
        },
        _ => panic!("expected a ready batch"),
    }
}

#[test]
fn missing_stem_falls_back_to_generated_id() {
    let files = vec![FileBlob { stem: None, content: Some(String::from("t")) }];
    match plan_import(&files, &None, String::from("cli_put_20240101_000000")) {
        ImportPlan::Ready(req) => {
            assert_eq!(req.document_id.as_deref(), Some("cli_put_20240101_000000"));
        },
        _ => panic!("expected a ready batch"),
    }
}

#[test]
fn no_files_means_no_request() {
    let files: Vec<FileBlob> = vec![];
    assert!(matches!(plan_import(&files, &None, String::from("f")), ImportPlan::Empty));
}

#[test]
fn job_id_reports_queued_even_with_counts_present() {
    let r = PutMemoriesResult {
        job_id: Some(String::from("op-1")),
        stored_count: Some(5),
        items_count: Some(1),
    };
    match put_report(&r) {
        PutReport::Queued(id) => assert_eq!(id, "op-1"),
        _ => panic!("expected the queued report"),
    }
}

#[test]
fn no_job_id_reports_stored_count() {
    let r = PutMemoriesResult { job_id: None, stored_count: Some(5), items_count: Some(2) };
    match put_report(&r) {
        PutReport::Stored(n) => assert_eq!(n, 5),
        _ => panic!("expected the stored report"),
    }
    let fallback = PutMemoriesResult { job_id: None, stored_count: None, items_count: Some(2) };
    match put_report(&fallback) {
        PutReport::Stored(n) => assert_eq!(n, 2),
        _ => panic!("expected the stored report"),
    }
    let none = PutMemoriesResult { job_id: None, stored_count: None, items_count: None };
    match put_report(&none) {
        PutReport::Stored(n) => assert_eq!(n, 0),
        _ => panic!("expected the stored report"),
    }
}

#[test]
fn exit_codes() {
    assert_eq!(exit_code(true), 0);
    assert_eq!(exit_code(false), 1);
}

#[test]
fn import_without_context_leaves_items_contextless() {
    let files = vec![FileBlob { stem: Some(String::from("a")), content: Some(String::from("t")) }];
    match plan_import(&files, &None, String::from("f")) {
        ImportPlan::Ready(req) => {
            assert!(req.items[0].context.is_none());
        },
        _ => panic!("expected a ready batch"),
    }
}
