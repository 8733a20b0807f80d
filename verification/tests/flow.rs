use client_decision_receipt::decision::record_decision_now;
use client_decision_receipt::error::AppError;
use client_decision_receipt::model::{validate_decision, CreateProposal, LineItem, SubmitDecision};
use client_decision_receipt::seal::token_key;
use client_decision_receipt::store::{create_proposal, StoredProposal};

fn request() -> CreateProposal {
    CreateProposal {
        title: "Website refresh".into(),
        freelancer_name: "Fern Studio".into(),
        freelancer_email: "hello@fern.test".into(),
        client_name: "Acme Client".into(),
        client_email: "client@acme.test".into(),
        message: "Scope below".into(),
        currency: "USD".into(),
        items: vec![LineItem { label: "Discovery".into(), description: "Workshop".into(), quantity: 1, unit_amount_cents: 50000 }],
    }
}

fn decision() -> SubmitDecision {
    SubmitDecision {
        kind: "accepted".into(),
        respondent_name: "A Client".into(),
        respondent_email: "client@acme.test".into(),
        note: "Proceed".into(),
    }
}

fn store(record: &StoredProposal, decided: Option<client_decision_receipt::model::Decision>) -> StoredProposal {
    StoredProposal {
        id: record.id.clone(),
        client_token: record.client_token.clone(),
        client_token_hash: record.client_token_hash.clone(),
        manage_token_hash: record.manage_token_hash.clone(),
        title: record.title.clone(),
        freelancer_name: record.freelancer_name.clone(),
        freelancer_email: record.freelancer_email.clone(),
        client_name: record.client_name.clone(),
        client_email: record.client_email.clone(),
        message: record.message.clone(),
        currency: record.currency.clone(),
        items: record.items.clone(),
        created_at: record.created_at.clone(),
        decision: decided,
    }
}

#[test]
fn create_read_and_decide_once() {
    let secret = vec![7u8; 32];
    let (record, created) = create_proposal(request(), &secret).unwrap();
    let client_token = created.client_path.trim_start_matches("/p/");
    assert_eq!(token_key(&secret, client_token).unwrap(), record.client_token_hash);
    let manage_token = created.manage_path.trim_start_matches("/m/");
    assert_eq!(token_key(&secret, manage_token).unwrap(), record.manage_token_hash);

    let shown = store(&record, None).into_proposal(false);
    assert!(shown.client_email.is_none() && shown.decision.is_none());

    assert!(validate_decision(&decision()).is_ok());
    let (decided, mails) = record_decision_now(store(&record, None).into_proposal(true), &decision()).unwrap();
    assert_eq!(mails.len(), 2);
    let recorded = decided.decision.clone().unwrap();
    let reread = store(&record, Some(recorded.clone())).into_proposal(false);
    assert_eq!(reread.decision.unwrap().receipt_hash, recorded.receipt_hash);

    let second = record_decision_now(store(&record, Some(recorded)).into_proposal(true), &decision());
    assert!(matches!(second, Err(AppError::Conflict)));
}
