use client_decision_receipt::model::{validate_decision, SubmitDecision};

#[test]
fn change_request_requires_note() {
    let input = SubmitDecision {
        kind: "changes_requested".into(),
        respondent_name: "A Client".into(),
        respondent_email: "a@example.com".into(),
        note: "".into(),
    };
    assert_eq!(validate_decision(&input), Err("Describe the changes you need."));
}

use client_decision_receipt::model::{validate_create, CreateProposal, LineItem};

fn item(label: &str, quantity: i64, cents: i64) -> LineItem {
    LineItem {
        label: label.into(),
        description: "Workshop".into(),
        quantity,
        unit_amount_cents: cents,
    }
}

fn good_create() -> CreateProposal {
    CreateProposal {
        title: "Website refresh".into(),
        freelancer_name: "Fern Studio".into(),
        freelancer_email: "hello@fern.test".into(),
        client_name: "Acme Client".into(),
        client_email: "client@acme.test".into(),
        message: "Scope below".into(),
        currency: "USD".into(),
        items: vec![item("Discovery", 1, 50000)],
    }
}

fn good_decision() -> SubmitDecision {
    SubmitDecision {
        kind: "accepted".into(),
        respondent_name: "A Client".into(),
        respondent_email: "client@acme.test".into(),
        note: "Proceed".into(),
    }
}

#[test]
fn accepts_a_complete_proposal() {
    assert_eq!(validate_create(&good_create()), Ok(()));
}

#[test]
fn title_length_counts_trimmed_characters() {
    let mut p = good_create();
    p.title = "  ab  ".into();
    assert_eq!(validate_create(&p), Err("Proposal title must be 3–120 characters."));
    p.title = "\u{3000}abc\u{2028}".into();
    assert_eq!(validate_create(&p), Ok(()));
    p.title = "é".repeat(120);
    assert_eq!(validate_create(&p), Ok(()));
    p.title = "é".repeat(121);
    assert_eq!(validate_create(&p), Err("Proposal title must be 3–120 characters."));
}

#[test]
fn names_are_checked_in_order() {
    let mut p = good_create();
    p.freelancer_name = "F".into();
    p.client_name = "C".into();
    assert_eq!(validate_create(&p), Err("Your name must be 2–80 characters."));
    p.freelancer_name = "Fern".into();
    assert_eq!(validate_create(&p), Err("Client name must be 2–80 characters."));
}

#[test]
fn email_shapes() {
    let cases = [
        ("hello@fern.test", true),
        ("  hello@fern.test\t", true),
        ("@fern.test", false),
        ("hello@fern", false),
        ("hello@fern .test", false),
        ("hello.fern.test", false),
        ("a@b@c.d", true),
        ("a.b@cd", false),
        ("a@b.", true),
    ];
    for (address, ok) in cases {
        let mut p = good_create();
        p.client_email = address.into();
        let expected = if ok { Ok(()) } else { Err("Enter a valid email address.") };
        assert_eq!(validate_create(&p), expected, "{address}");
    }
    let mut p = good_create();
    p.client_email = format!("{}@example.com", "a".repeat(242));
    assert_eq!(validate_create(&p), Ok(()));
    p.client_email = format!("{}@example.com", "a".repeat(243));
    assert_eq!(validate_create(&p), Err("Enter a valid email address."));
}

#[test]
fn message_limit_counts_characters() {
    let mut p = good_create();
    p.message = "ü".repeat(2000);
    assert_eq!(validate_create(&p), Ok(()));
    p.message = "ü".repeat(2001);
    assert_eq!(validate_create(&p), Err("Introduction must be at most 2,000 characters."));
}

#[test]
fn currency_is_three_upper_case_letters() {
    for (code, ok) in [("USD", true), ("usd", false), ("US", false), ("USDT", false), ("ÉUR", false)] {
        let mut p = good_create();
        p.currency = code.into();
        let expected = if ok { Ok(()) } else { Err("Currency must be a three-letter code such as USD.") };
        assert_eq!(validate_create(&p), expected, "{code}");
    }
}

#[test]
fn item_count_and_item_rules() {
    let mut p = good_create();
    p.items.clear();
    assert_eq!(validate_create(&p), Err("Add between 1 and 30 scope items."));
    p.items = (0..30).map(|_| item("Discovery", 1, 1)).collect();
    assert_eq!(validate_create(&p), Ok(()));
    p.items.push(item("Discovery", 1, 1));
    assert_eq!(validate_create(&p), Err("Add between 1 and 30 scope items."));

    let mut p = good_create();
    p.items = vec![item("Discovery", 1, 1), item("X", 1, 1)];
    assert_eq!(validate_create(&p), Err("Each scope item needs a 2–160 character title."));
    p.items = vec![item("Discovery", 0, 1)];
    assert_eq!(validate_create(&p), Err("Quantity must be between 1 and 999."));
    p.items = vec![item("Discovery", 999, 0)];
    assert_eq!(validate_create(&p), Ok(()));
    p.items = vec![item("Discovery", 1000, 1)];
    assert_eq!(validate_create(&p), Err("Quantity must be between 1 and 999."));
    p.items = vec![item("Discovery", 1, -1)];
    assert_eq!(validate_create(&p), Err("Item price is outside the supported range."));
    p.items = vec![item("Discovery", 1, 100_000_001)];
    assert_eq!(validate_create(&p), Err("Item price is outside the supported range."));
    let mut long = item("Discovery", 1, 1);
    long.description = "d".repeat(501);
    p.items = vec![long];
    assert_eq!(validate_create(&p), Err("Scope item details must be at most 500 characters."));
}

#[test]
fn decision_kinds_and_rules() {
    assert_eq!(validate_decision(&good_decision()), Ok(()));
    let mut d = good_decision();
    d.kind = "Accepted".into();
    assert_eq!(validate_decision(&d), Err("Choose Accept, Request changes, or Decline."));
    d.kind = "declined".into();
    d.note = String::new();
    assert_eq!(validate_decision(&d), Ok(()));
    d.respondent_name = " A ".into();
    assert_eq!(validate_decision(&d), Err("Your name must be 2–80 characters."));
    d.respondent_name = "A Client".into();
    d.respondent_email = "nobody".into();
    assert_eq!(validate_decision(&d), Err("Enter a valid email address."));
    d.respondent_email = "a@example.com".into();
    d.note = "n".repeat(2001);
    assert_eq!(validate_decision(&d), Err("Decision note must be at most 2,000 characters."));
    d.kind = "changes_requested".into();
    d.note = "  ab  ".into();
    assert_eq!(validate_decision(&d), Err("Describe the changes you need."));
    d.note = "  é  ".into();
    assert_eq!(validate_decision(&d), Err("Describe the changes you need."));
    d.note = "éa".into();
    assert_eq!(validate_decision(&d), Ok(()));
}
