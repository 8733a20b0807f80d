use client_decision_receipt::database::{after_migration_attempt, database_locked, write_conflict, StartupStep, MIGRATION_ATTEMPTS};
use client_decision_receipt::delivery::{attempt_status, flush_step, DeliveryStatus, FlushStep};
use client_decision_receipt::demo::demo_workspace;
use client_decision_receipt::error::AppError;
use client_decision_receipt::export::{csv_field, receipt_csv};
use client_decision_receipt::model::{CreateProposal, Decision, Delivery, LineItem};
use client_decision_receipt::seal::{token_hash, valid_token};
use client_decision_receipt::store::{client_path, create_proposal, manage_path, plan_proposal, tombstone_for, StoredProposal};
use client_decision_receipt::web::{cache_control, confirm_deletion, receipt_attachment};

fn decision() -> Decision {
    Decision {
        kind: "accepted".into(),
        respondent_name: "A Client".into(),
        respondent_email: "client@acme.test".into(),
        note: "Proceed".into(),
        decided_at: "2025-02-03T04:05:06Z".into(),
        receipt_hash: "ff00".into(),
    }
}

fn stored(decided: bool) -> StoredProposal {
    StoredProposal {
        id: "CDR-2025-ABCDEFGH".into(),
        client_token: "abcdefghijklmnopqrstuvwxyzABCDEF".into(),
        client_token_hash: "c".into(),
        manage_token_hash: "m".into(),
        title: "Website, \"refresh\"".into(),
        freelancer_name: "Fern Studio".into(),
        freelancer_email: "hello@fern.test".into(),
        client_name: "Acme Client".into(),
        client_email: "client@acme.test".into(),
        message: "Scope below".into(),
        currency: "USD".into(),
        items: vec![
            LineItem { label: "Discovery".into(), description: "Work, \"shop\"".into(), quantity: 1, unit_amount_cents: 50000 },
            LineItem { label: "Build".into(), description: String::new(), quantity: 2, unit_amount_cents: -5 },
        ],
        created_at: "2025-01-02T03:04:05Z".into(),
        decision: if decided { Some(decision()) } else { None },
    }
}

#[test]
fn csv_field_doubles_quotes() {
    assert_eq!(csv_field(""), "\"\"");
    assert_eq!(csv_field("plain"), "\"plain\"");
    assert_eq!(csv_field("a \"b\", c"), "\"a \"\"b\"\", c\"");
    assert_eq!(csv_field("\"\""), "\"\"\"\"\"\"");
}

#[test]
fn csv_export_rows() {
    let header = "proposal_id,title,item,description,quantity,unit_amount_cents,currency,decision,decided_at,receipt_hash\r\n";
    let pending = stored(false).into_proposal(true);
    assert_eq!(
        receipt_csv(&pending),
        format!(
            "{header}\"CDR-2025-ABCDEFGH\",\"Website, \"\"refresh\"\"\",\"Discovery\",\"Work, \"\"shop\"\"\",1,50000,\"USD\",\"pending\",\"\",\"\"\r\n\"CDR-2025-ABCDEFGH\",\"Website, \"\"refresh\"\"\",\"Build\",\"\",2,-5,\"USD\",\"pending\",\"\",\"\"\r\n"
        )
    );
    let decided = stored(true).into_proposal(true);
    let csv = receipt_csv(&decided);
    assert!(csv.ends_with(",2,-5,\"USD\",\"accepted\",\"2025-02-03T04:05:06Z\",\"ff00\"\r\n"));
    let mut empty = stored(false).into_proposal(false);
    empty.items.clear();
    assert_eq!(receipt_csv(&empty), header);
}

#[test]
fn client_view_hides_addresses() {
    let public = stored(true).into_proposal(false);
    assert_eq!(public.freelancer_email, None);
    assert_eq!(public.client_email, None);
    assert_eq!(public.decision.unwrap().receipt_hash, "ff00");
    let private = stored(false).into_proposal(true);
    assert_eq!(private.freelancer_email.as_deref(), Some("hello@fern.test"));
    assert_eq!(private.client_email.as_deref(), Some("client@acme.test"));
    assert!(private.decision.is_none());
}

#[test]
fn managed_view_carries_client_link_and_queue() {
    let queue = vec![Delivery { recipient: "a@b.c".into(), status: "queued".into(), created_at: "T".into() }];
    let m = stored(false).into_managed(queue);
    assert_eq!(m.client_path, "/p/abcdefghijklmnopqrstuvwxyzABCDEF");
    assert_eq!(m.delivery.len(), 1);
    assert_eq!(m.proposal.client_email.as_deref(), Some("client@acme.test"));
    assert_eq!(client_path("x"), "/p/x");
    assert_eq!(manage_path("y"), "/m/y");
}

fn request() -> CreateProposal {
    CreateProposal {
        title: "  Website refresh ".into(),
        freelancer_name: "Fern Studio".into(),
        freelancer_email: " Hello@Fern.TEST ".into(),
        client_name: "Acme Client ".into(),
        client_email: "client@acme.test".into(),
        message: " Scope below\n".into(),
        currency: "USD".into(),
        items: vec![LineItem { label: "Discovery".into(), description: "Workshop".into(), quantity: 1, unit_amount_cents: 50000 }],
    }
}

#[test]
fn plan_proposal_normalizes_and_links() {
    let secret = [7u8; 32];
    let ct = "abcdefghijklmnopqrstuvwxyzABCDEF";
    let mt = "ABCDEFGHIJKLMNOPQRSTUVWXYZabcdef";
    let it = "x1-_abcdZZZZZZZZZZZZZZZZZZZZZZZZ";
    let (s, c) = plan_proposal(request(), &secret, ct, mt, it, "2025", "2025-01-02T03:04:05Z").unwrap();
    assert_eq!(s.id, "CDR-2025-X1-_ABCD");
    assert_eq!(c.id, s.id);
    assert_eq!(c.client_path, format!("/p/{ct}"));
    assert_eq!(c.manage_path, format!("/m/{mt}"));
    assert_eq!(s.client_token, ct);
    assert_eq!(s.client_token_hash, token_hash(&secret, ct));
    assert_eq!(s.manage_token_hash, token_hash(&secret, mt));
    assert_eq!(s.title, "Website refresh");
    assert_eq!(s.freelancer_email, "hello@fern.test");
    assert_eq!(s.client_name, "Acme Client");
    assert_eq!(s.message, "Scope below");
    assert_eq!(s.created_at, "2025-01-02T03:04:05Z");
    assert!(s.decision.is_none());
    let mut bad = request();
    bad.currency = "usd".into();
    match plan_proposal(bad, &secret, ct, mt, it, "2025", "T") {
        Err(AppError::BadRequest(m)) => assert_eq!(m, "Currency must be a three-letter code such as USD."),
        other => panic!("unexpected {other:?}"),
    }
}

#[test]
fn create_proposal_draws_fresh_links() {
    let secret = [9u8; 32];
    let (s, c) = create_proposal(request(), &secret).unwrap();
    assert!(valid_token(&s.client_token).is_ok());
    assert_eq!(c.client_path, format!("/p/{}", s.client_token));
    let manage = c.manage_path.trim_start_matches("/m/");
    assert!(valid_token(manage).is_ok());
    assert_eq!(s.manage_token_hash, token_hash(&secret, manage));
    assert_ne!(manage, s.client_token);
    assert!(s.id.starts_with("CDR-"));
    assert_eq!(s.id.len(), "CDR-2025-".len() + 8);
    assert!(s.id[9..].chars().all(|ch| !ch.is_ascii_lowercase()));
}

#[test]
fn tombstones_only_for_decided_proposals() {
    let t = tombstone_for("P".into(), Some("h".into()), Some("d".into()), "now".into()).unwrap();
    assert_eq!((t.receipt_hash.as_str(), t.proposal_id.as_str(), t.decided_at.as_str(), t.deleted_at.as_str()), ("h", "P", "d", "now"));
    assert!(tombstone_for("P".into(), None, Some("d".into()), "now".into()).is_none());
    assert!(tombstone_for("P".into(), Some("h".into()), None, "now".into()).is_none());
}

#[test]
fn demo_workspace_holds_the_sample() {
    let w = demo_workspace("demo1".into(), "E".into(), "C".into(), None);
    assert_eq!(w.id, "demo1");
    assert_eq!(w.expires_at, "E");
    let p = &w.proposal;
    assert_eq!(p.id, "CDR-DEMO-FERN");
    assert_eq!(p.title, "Spring website refresh");
    assert_eq!(p.client_email.as_deref(), Some("team@mossandmorning.example"));
    assert_eq!(p.items.len(), 3);
    assert_eq!(p.items.iter().map(|i| i.unit_amount_cents).sum::<i64>(), 320000);
    assert_eq!(p.created_at, "C");
    let w = demo_workspace("d".into(), "E".into(), "C".into(), Some(decision()));
    assert_eq!(w.proposal.decision.unwrap().kind, "accepted");
}

#[test]
fn lock_errors_and_startup() {
    assert!(database_locked(Some("5"), "x"));
    assert!(database_locked(Some("6"), "x"));
    assert!(!database_locked(Some("55"), "x"));
    assert!(database_locked(None, "error: database is locked (code 5)"));
    assert!(database_locked(None, "database is busy"));
    assert!(!database_locked(None, "disk I/O error"));
    assert!(matches!(write_conflict(true, anyhow::Error::msg("busy")), AppError::Conflict));
    assert!(matches!(write_conflict(false, anyhow::Error::msg("io")), AppError::Internal(_)));
    assert_eq!(after_migration_attempt(1, true, false), StartupStep::Ready);
    assert_eq!(after_migration_attempt(1, false, true), StartupStep::Retry);
    assert_eq!(after_migration_attempt(11, false, true), StartupStep::Retry);
    assert_eq!(after_migration_attempt(MIGRATION_ATTEMPTS, false, true), StartupStep::Fail);
    assert_eq!(after_migration_attempt(1, false, false), StartupStep::Fail);
}

#[test]
fn delivery_flush_decisions() {
    assert_eq!(flush_step(false, true), FlushStep::Stop);
    assert_eq!(flush_step(true, false), FlushStep::Skip);
    assert_eq!(flush_step(true, true), FlushStep::Send);
    assert_eq!(attempt_status(true, true), DeliveryStatus::Sent);
    assert_eq!(attempt_status(true, false), DeliveryStatus::RetryNeeded);
    assert_eq!(attempt_status(false, false), DeliveryStatus::InvalidMessage);
    assert!(DeliveryStatus::RetryNeeded.is_pending());
    assert!(DeliveryStatus::SenderNotConfigured.is_pending());
    assert!(!DeliveryStatus::Sent.is_pending());
    assert_eq!(DeliveryStatus::SenderNotConfigured.as_str(), "sender_not_configured");
    assert_eq!(DeliveryStatus::InvalidMessage.as_str(), "invalid_message");
}

#[test]
fn cache_and_deletion_rules() {
    assert_eq!(cache_control("/assets/app-123.js"), "public, max-age=31536000, immutable");
    assert_eq!(cache_control("/assets/x.svg"), "public, max-age=31536000, immutable");
    assert_eq!(cache_control("/img/leaf.webp"), "public, max-age=86400");
    assert_eq!(cache_control("/logo.svg"), "public, max-age=86400");
    assert_eq!(cache_control("/api/proposals/x"), "no-cache");
    assert_eq!(cache_control("/assets"), "no-cache");
    assert!(confirm_deletion("DELETE").is_ok());
    match confirm_deletion("delete") {
        Err(AppError::BadRequest(m)) => assert_eq!(m, "Type DELETE to confirm permanent deletion."),
        other => panic!("unexpected {other:?}"),
    }
}

#[test]
fn errors_map_to_status_and_message() {
    let cases = [
        (AppError::BadRequest("Bad title".into()), 400, "Bad title"),
        (AppError::NotFound, 404, "The proposal link was not found or has been deleted."),
        (AppError::Conflict, 409, "A decision has already been recorded for this proposal."),
        (AppError::Internal(anyhow::Error::msg("secret detail")), 500, "The service could not complete that request. Please try again."),
    ];
    for (e, status, message) in cases {
        assert_eq!(e.status_code(), status);
        assert_eq!(e.public_message(), message);
    }
}

#[test]
fn export_attachment_names() {
    assert_eq!(receipt_attachment("CDR-2025-ABCDEFGH", "csv"), "attachment; filename=\"CDR-2025-ABCDEFGH-receipt.csv\"");
    assert_eq!(receipt_attachment("X", "json"), "attachment; filename=\"X-receipt.json\"");
}

#[test]
fn statuses_read_back() {
    for s in [
        DeliveryStatus::Queued,
        DeliveryStatus::SenderNotConfigured,
        DeliveryStatus::RetryNeeded,
        DeliveryStatus::Sent,
        DeliveryStatus::InvalidMessage,
    ] {
        assert_eq!(DeliveryStatus::from_text(s.as_str()), Some(s));
    }
    assert_eq!(DeliveryStatus::from_text("Queued"), None);
    assert_eq!(DeliveryStatus::from_text(""), None);
}

#[test]
fn csv_field_reads_back_on_values() {
    for s in ["", "plain", "a \"b\", c", "\"", "\"\"\"", "é\"x"] {
        let f = csv_field(s);
        assert_eq!(f.chars().count(), s.chars().count() + 2 + s.matches('"').count());
        assert!(f.starts_with('"') && f.ends_with('"'));
        assert_eq!(f[1..f.len() - 1].replace("\"\"", "\""), s);
    }
}

#[test]
fn create_proposal_rejects_before_drawing() {
    let mut bad = request();
    bad.title = "x".into();
    match create_proposal(bad, &[1u8; 32]) {
        Err(AppError::BadRequest(m)) => assert_eq!(m, "Proposal title must be 3–120 characters."),
        other => panic!("unexpected {other:?}"),
    }
}

#[test]
fn creation_times_have_the_documented_shape() {
    let (s, _) = create_proposal(request(), &[3u8; 32]).unwrap();
    assert!(s.id[4..8].chars().all(|c| c.is_ascii_digit()));
    assert_eq!(&s.id[8..9], "-");
    let t: Vec<char> = s.created_at.chars().collect();
    assert_eq!(t.len(), 20);
    for (i, c) in t.iter().enumerate() {
        match i {
            4 | 7 => assert_eq!(*c, '-'),
            10 => assert_eq!(*c, 'T'),
            13 | 16 => assert_eq!(*c, ':'),
            19 => assert_eq!(*c, 'Z'),
            _ => assert!(c.is_ascii_digit()),
        }
    }
}
