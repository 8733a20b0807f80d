use client_decision_receipt::decision::{decide_on, record_decision, record_decision_now, receipt_deliveries, write_body, write_subject};
use client_decision_receipt::delivery::DeliveryStatus;
use client_decision_receipt::error::AppError;
use client_decision_receipt::model::{Decision, LineItem, Proposal, SubmitDecision};
use client_decision_receipt::receipt::{receipt_hash, write_receipt_document};
use client_decision_receipt::seal::seal;
use serde_json::Value;

type JsonObject = serde_json::Map<String, Value>;

fn proposal() -> Proposal {
    Proposal {
        id: "CDR-2025-ABCDEFGH".into(),
        title: "Website \"refresh\"".into(),
        freelancer_name: "Fern Studio".into(),
        freelancer_email: Some("hello@fern.test".into()),
        client_name: "Acme\\Client".into(),
        client_email: Some("client@acme.test".into()),
        message: "Scope below".into(),
        currency: "USD".into(),
        items: vec![
            LineItem { label: "Discovery".into(), description: "Work\nshop\u{1}\t".into(), quantity: 1, unit_amount_cents: 50000 },
            LineItem { label: "Build — é".into(), description: String::new(), quantity: 3, unit_amount_cents: 0 },
        ],
        created_at: "2025-01-02T03:04:05Z".into(),
        decision: None,
    }
}

fn input() -> SubmitDecision {
    SubmitDecision {
        kind: "accepted".into(),
        respondent_name: "  A Client ".into(),
        respondent_email: " Client@ACME.test ".into(),
        note: "\tProceed\n".into(),
    }
}

fn s(v: &str) -> Value {
    Value::String(v.into())
}

fn opt(v: &Option<String>) -> Value {
    match v {
        Some(t) => s(t),
        None => Value::Null,
    }
}

fn serde_document(p: &Proposal, kind: &str, name: &str, email: &str, note: &str, at: &str) -> String {
    let mut freelancer = JsonObject::new();
    freelancer.insert("name".into(), s(&p.freelancer_name));
    freelancer.insert("email".into(), opt(&p.freelancer_email));
    let mut client = JsonObject::new();
    client.insert("name".into(), s(&p.client_name));
    client.insert("email".into(), opt(&p.client_email));
    let items: Vec<Value> = p
        .items
        .iter()
        .map(|i| {
            let mut m = JsonObject::new();
            m.insert("label".into(), s(&i.label));
            m.insert("description".into(), s(&i.description));
            m.insert("quantity".into(), Value::from(i.quantity));
            m.insert("unitAmountCents".into(), Value::from(i.unit_amount_cents));
            Value::Object(m)
        })
        .collect();
    let mut decision = JsonObject::new();
    decision.insert("kind".into(), s(kind));
    decision.insert("respondentName".into(), s(name));
    decision.insert("respondentEmail".into(), s(email));
    decision.insert("note".into(), s(note));
    decision.insert("decidedAt".into(), s(at));
    let mut doc = JsonObject::new();
    doc.insert("version".into(), Value::from(1));
    doc.insert("proposalId".into(), s(&p.id));
    doc.insert("title".into(), s(&p.title));
    doc.insert("freelancer".into(), Value::Object(freelancer));
    doc.insert("client".into(), Value::Object(client));
    doc.insert("currency".into(), s(&p.currency));
    doc.insert("items".into(), Value::Array(items));
    doc.insert("proposalCreatedAt".into(), s(&p.created_at));
    doc.insert("decision".into(), Value::Object(decision));
    serde_json::to_string(&Value::Object(doc)).unwrap()
}

#[test]
fn canonical_document_matches_serde_json() {
    let p = proposal();
    let ours = write_receipt_document(&p, "accepted", "A \"Client\"", "a@b.c", "Line\r\n\u{7f}\u{1f}", "2025-02-03T04:05:06Z");
    let theirs = serde_document(&p, "accepted", "A \"Client\"", "a@b.c", "Line\r\n\u{7f}\u{1f}", "2025-02-03T04:05:06Z");
    assert_eq!(ours, theirs);
    let mut hidden = p.clone();
    hidden.freelancer_email = None;
    hidden.client_email = None;
    hidden.items.clear();
    let ours = write_receipt_document(&hidden, "declined", "", "", "", "");
    let theirs = serde_document(&hidden, "declined", "", "", "", "");
    assert_eq!(ours, theirs);
}

#[test]
fn canonical_document_exact_text() {
    let mut p = proposal();
    p.items.truncate(1);
    p.items[0].description = "Workshop".into();
    let doc = write_receipt_document(&p, "accepted", "A", "a@b.c", "ok", "T");
    assert_eq!(
        doc,
        "{\"client\":{\"email\":\"client@acme.test\",\"name\":\"Acme\\\\Client\"},\"currency\":\"USD\",\"decision\":{\"decidedAt\":\"T\",\"kind\":\"accepted\",\"note\":\"ok\",\"respondentEmail\":\"a@b.c\",\"respondentName\":\"A\"},\"freelancer\":{\"email\":\"hello@fern.test\",\"name\":\"Fern Studio\"},\"items\":[{\"description\":\"Workshop\",\"label\":\"Discovery\",\"quantity\":1,\"unitAmountCents\":50000}],\"proposalCreatedAt\":\"2025-01-02T03:04:05Z\",\"proposalId\":\"CDR-2025-ABCDEFGH\",\"title\":\"Website \\\"refresh\\\"\",\"version\":1}"
    );
}

#[test]
fn receipt_hash_seals_the_normalized_document() {
    let p = proposal();
    let h = receipt_hash(&p, &input(), "2025-02-03T04:05:06Z");
    let doc = serde_document(&p, "accepted", "A Client", "client@acme.test", "Proceed", "2025-02-03T04:05:06Z");
    assert_eq!(h, seal(&doc));
    assert_eq!(h.len(), 64);
    let mut other = input();
    other.respondent_email = "client@acme.test".into();
    other.respondent_name = "A Client".into();
    other.note = "Proceed".into();
    assert_eq!(receipt_hash(&p, &other, "2025-02-03T04:05:06Z"), h);
    other.note = "Proceed!".into();
    assert_ne!(receipt_hash(&p, &other, "2025-02-03T04:05:06Z"), h);
    assert_ne!(receipt_hash(&p, &input(), "2025-02-03T04:05:07Z"), h);
}

#[test]
fn message_is_outside_the_seal() {
    let p = proposal();
    let mut q = proposal();
    q.message = "A different introduction".into();
    assert_eq!(receipt_hash(&p, &input(), "T"), receipt_hash(&q, &input(), "T"));
    q.items[0].quantity = 2;
    assert_ne!(receipt_hash(&p, &input(), "T"), receipt_hash(&q, &input(), "T"));
}

#[test]
fn decide_on_normalizes_and_seals() {
    let p = proposal();
    let d = decide_on(&p, &input(), "2025-02-03T04:05:06Z").unwrap();
    assert_eq!(d.kind, "accepted");
    assert_eq!(d.respondent_name, "A Client");
    assert_eq!(d.respondent_email, "client@acme.test");
    assert_eq!(d.note, "Proceed");
    assert_eq!(d.decided_at, "2025-02-03T04:05:06Z");
    assert_eq!(d.receipt_hash, receipt_hash(&p, &input(), "2025-02-03T04:05:06Z"));
}

#[test]
fn a_decided_proposal_is_a_conflict() {
    let (after, mails) = record_decision(proposal(), &input(), "T1").unwrap();
    assert_eq!(mails.len(), 2);
    assert!(after.decision.is_some());
    let second = record_decision(after.clone(), &input(), "T2");
    assert!(matches!(second, Err(AppError::Conflict)));
    assert!(matches!(decide_on(&after, &input(), "T3"), Err(AppError::Conflict)));
    let first = after.decision.unwrap();
    assert_eq!(first.decided_at, "T1");
}

#[test]
fn record_decision_now_stamps_the_time() {
    let (after, _) = record_decision_now(proposal(), &input()).unwrap();
    let d = after.decision.unwrap();
    assert_eq!(d.decided_at.len(), 20);
    assert!(d.decided_at.ends_with('Z'));
    assert_eq!(d.receipt_hash, receipt_hash(&proposal(), &input(), &d.decided_at));
}

#[test]
fn receipt_emails_go_to_both_parties() {
    let p = proposal();
    let d = Decision {
        kind: "changes_requested".into(),
        respondent_name: "A".into(),
        respondent_email: "a@b.c".into(),
        note: "More".into(),
        decided_at: "T".into(),
        receipt_hash: "abc".into(),
    };
    let mails = receipt_deliveries(&p, &d);
    assert_eq!(mails.len(), 2);
    assert_eq!(mails[0].recipient, "hello@fern.test");
    assert_eq!(mails[1].recipient, "client@acme.test");
    for m in &mails {
        assert_eq!(m.status, DeliveryStatus::Queued);
        assert_eq!(m.created_at, "T");
        assert_eq!(m.subject, "Decision receipt: Website \"refresh\" — Changes requested");
    }
    assert_eq!(write_subject(&p, &d), mails[0].subject);
    assert_eq!(
        write_body(&p, &d),
        "Decision receipt CDR-2025-ABCDEFGH\n\nProposal: Website \"refresh\"\nDecision: Changes requested\nRecorded: T\n\nFrozen scope (unit amounts in minor currency units):\n- Discovery — 1 × 50000 USD\n- Build — é — 3 × 0 USD\n\nDecision note: More\nReceipt SHA-256: abc\n\nThis is a decision acknowledgement and scope record, not a regulated electronic signature."
    );
    let mut hidden = p.clone();
    hidden.client_email = None;
    assert_eq!(receipt_deliveries(&hidden, &d)[1].recipient, "");
}

#[test]
fn decision_words() {
    let p = proposal();
    let mut d = Decision {
        kind: "accepted".into(),
        respondent_name: "A".into(),
        respondent_email: "a@b.c".into(),
        note: String::new(),
        decided_at: "T".into(),
        receipt_hash: "h".into(),
    };
    assert!(write_subject(&p, &d).ends_with("— Accepted"));
    d.kind = "declined".into();
    assert!(write_subject(&p, &d).ends_with("— Declined"));
}

#[test]
fn documents_differ_when_sealed_terms_differ() {
    let p = proposal();
    let base = write_receipt_document(&p, "accepted", "A", "a@b.c", "ok", "T");
    let mut q = proposal();
    q.items.swap(0, 1);
    assert_ne!(write_receipt_document(&q, "accepted", "A", "a@b.c", "ok", "T"), base);
    let mut q = proposal();
    q.client_email = None;
    assert_ne!(write_receipt_document(&q, "accepted", "A", "a@b.c", "ok", "T"), base);
    let mut q = proposal();
    q.title.push(' ');
    assert_ne!(write_receipt_document(&q, "accepted", "A", "a@b.c", "ok", "T"), base);
    assert_ne!(write_receipt_document(&p, "accepted", "A", "a@b.c", "ok\"", "T"), base);
    assert_ne!(write_receipt_document(&p, "declined", "A", "a@b.c", "ok", "T"), base);
    let mut q = proposal();
    q.message.push_str(" changed");
    assert_eq!(write_receipt_document(&q, "accepted", "A", "a@b.c", "ok", "T"), base);
}
