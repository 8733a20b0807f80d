//! The proposal, decision and delivery records, and the input rules.

use vstd::prelude::*;
use vstd::string::*;
use vstd::utf8::encode_utf8;
use crate::text::{chars_of, is_white_space, same_text, trim, trimmed, white_space};

verus! {

broadcast use vstd::string::group_string_axioms;

/// One frozen line of scope.
#[derive(Debug, Clone)]
pub struct LineItem {
    pub label: String,
    pub description: String,
    pub quantity: i64,
    pub unit_amount_cents: i64,
}

/// What a freelancer submits to create a proposal.
#[derive(Debug, Clone)]
pub struct CreateProposal {
    pub title: String,
    pub freelancer_name: String,
    pub freelancer_email: String,
    pub client_name: String,
    pub client_email: String,
    pub message: String,
    pub currency: String,
    pub items: Vec<LineItem>,
}

/// The client's recorded decision and its receipt seal.
#[derive(Debug, Clone)]
pub struct Decision {
    pub kind: String,
    pub respondent_name: String,
    pub respondent_email: String,
    pub note: String,
    pub decided_at: String,
    pub receipt_hash: String,
}

/// A proposal as it is shown; the e-mail addresses are present only in the
/// private (management) view.
#[derive(Debug, Clone)]
pub struct Proposal {
    pub id: String,
    pub title: String,
    pub freelancer_name: String,
    pub freelancer_email: Option<String>,
    pub client_name: String,
    pub client_email: Option<String>,
    pub message: String,
    pub currency: String,
    pub items: Vec<LineItem>,
    pub created_at: String,
    pub decision: Option<Decision>,
}

/// What a client submits to decide on a proposal.
#[derive(Debug, Clone)]
pub struct SubmitDecision {
    pub kind: String,
    pub respondent_name: String,
    pub respondent_email: String,
    pub note: String,
}

/// The answer to a successful creation: the proposal id and its two links.
#[derive(Debug, Clone)]
pub struct CreatedProposal {
    pub id: String,
    pub client_path: String,
    pub manage_path: String,
}

/// The management view: the private proposal, the client link and the
/// delivery queue.
#[derive(Debug, Clone)]
pub struct ManagedProposal {
    pub proposal: Proposal,
    pub client_path: String,
    pub delivery: Vec<Delivery>,
}

/// One queued receipt e-mail.
#[derive(Debug, Clone)]
pub struct Delivery {
    pub recipient: String,
    pub status: String,
    pub created_at: String,
}

/// A short-lived demo session and its sample proposal.
#[derive(Debug)]
pub struct DemoWorkspace {
    pub id: String,
    pub expires_at: String,
    pub proposal: Proposal,
}

/// A short text field holds between `min` and `max` characters once trimmed.
pub open spec fn text_fits(s: Seq<char>, min: int, max: int) -> bool {
    min <= trimmed(s).len() <= max
}

/// `k` is the position of the first `@` in `s`.
pub open spec fn first_at(s: Seq<char>, k: int) -> bool {
    &&& 0 <= k < s.len()
    &&& s[k] == '@'
    &&& forall|j: int| 0 <= j < k ==> s[j] != '@'
}

/// The part after the first `@` holds a dot and no white space.
pub open spec fn domain_ok(d: Seq<char>) -> bool {
    &&& d.contains('.')
    &&& forall|i: int| 0 <= i < d.len() ==> !is_white_space(d[i])
}

/// The accepted shape of an e-mail address: once trimmed, at most 254
/// bytes, a non-empty part before the first `@`, and a domain after it.
pub open spec fn email_ok(s: Seq<char>) -> bool {
    let t = trimmed(s);
    &&& encode_utf8(t).len() <= 254
    &&& exists|k: int| #[trigger] first_at(t, k) && k > 0 && domain_ok(t.subrange(k + 1, t.len() as int))
}

/// A currency is a three-letter upper-case code such as `USD`.
pub open spec fn currency_ok(s: Seq<char>) -> bool {
    &&& encode_utf8(s).len() == 3
    &&& forall|i: int| 0 <= i < s.len() ==> 'A' <= #[trigger] s[i] <= 'Z'
}

/// The first rule that a scope item breaks, if any.
pub open spec fn item_problem(item: LineItem) -> Option<Seq<char>> {
    if !text_fits(item.label@, 2, 160) {
        Some("Each scope item needs a 2–160 character title."@)
    } else if item.description@.len() > 500 {
        Some("Scope item details must be at most 500 characters."@)
    } else if !(1 <= item.quantity <= 999) {
        Some("Quantity must be between 1 and 999."@)
    } else if !(0 <= item.unit_amount_cents <= 100_000_000) {
        Some("Item price is outside the supported range."@)
    } else {
        None
    }
}

/// The first rule that any of `items`, taken in order, breaks.
pub open spec fn items_problem(items: Seq<LineItem>) -> Option<Seq<char>>
    decreases items.len(),
{
    if items.len() == 0 {
        None
    } else {
        match item_problem(items[0]) {
            Some(m) => Some(m),
            None => items_problem(items.drop_first()),
        }
    }
}

/// No item of `items` breaks a rule exactly when each item, taken alone,
/// breaks none.
pub proof fn lemma_items_problem_none(items: Seq<LineItem>)
    ensures
        items_problem(items) is None <==> forall|i: int|
            0 <= i < items.len() ==> #[trigger] item_problem(items[i]) is None,
    decreases items.len(),
{
    if items.len() > 0 {
        let rest = items.drop_first();
        lemma_items_problem_none(rest);
        assert forall|i: int| 1 <= i < items.len() implies #[trigger] items[i] == rest[i - 1] by {}
        if item_problem(items[0]) is None && items_problem(rest) is None {
            assert forall|i: int| 0 <= i < items.len() implies #[trigger] item_problem(
                items[i],
            ) is None by {
                if i > 0 {
                    assert(items[i] == rest[i - 1]);
                }
            }
        }
        if forall|i: int| 0 <= i < items.len() ==> #[trigger] item_problem(items[i]) is None {
            assert(item_problem(items[0]) is None);
            assert forall|j: int| 0 <= j < rest.len() implies #[trigger] item_problem(
                rest[j],
            ) is None by {
                assert(rest[j] == items[j + 1]);
                assert(item_problem(items[j + 1]) is None);
            }
        }
    }
}

/// The first rule that a creation request breaks, in the order the rules
/// are checked; `None` when it is acceptable.
pub open spec fn create_problem(input: CreateProposal) -> Option<Seq<char>> {
    if !text_fits(input.title@, 3, 120) {
        Some("Proposal title must be 3–120 characters."@)
    } else if !text_fits(input.freelancer_name@, 2, 80) {
        Some("Your name must be 2–80 characters."@)
    } else if !text_fits(input.client_name@, 2, 80) {
        Some("Client name must be 2–80 characters."@)
    } else if !email_ok(input.freelancer_email@) {
        Some("Enter a valid email address."@)
    } else if !email_ok(input.client_email@) {
        Some("Enter a valid email address."@)
    } else if input.message@.len() > 2000 {
        Some("Introduction must be at most 2,000 characters."@)
    } else if !currency_ok(input.currency@) {
        Some("Currency must be a three-letter code such as USD."@)
    } else if input.items@.len() == 0 || input.items@.len() > 30 {
        Some("Add between 1 and 30 scope items."@)
    } else {
        items_problem(input.items@)
    }
}

/// The three decisions a client can make.
pub open spec fn known_kind(kind: Seq<char>) -> bool {
    kind == "accepted"@ || kind == "changes_requested"@ || kind == "declined"@
}

/// The first rule that a decision breaks; `None` when it is acceptable.
pub open spec fn decision_problem(input: SubmitDecision) -> Option<Seq<char>> {
    if !known_kind(input.kind@) {
        Some("Choose Accept, Request changes, or Decline."@)
    } else if !text_fits(input.respondent_name@, 2, 80) {
        Some("Your name must be 2–80 characters."@)
    } else if !email_ok(input.respondent_email@) {
        Some("Enter a valid email address."@)
    } else if input.note@.len() > 2000 {
        Some("Decision note must be at most 2,000 characters."@)
    } else if input.kind@ == "changes_requested"@ && encode_utf8(trimmed(input.note@)).len() < 3 {
        Some("Describe the changes you need."@)
    } else {
        None
    }
}

/// A validation outcome matches the first broken rule.
pub open spec fn reports(r: Result<(), &'static str>, problem: Option<Seq<char>>) -> bool {
    match r {
        Ok(()) => problem is None,
        Err(m) => problem == Some(m@),
    }
}

fn text(value: &str, min: usize, max: usize, error: &'static str) -> (r: Result<(), &'static str>)
    ensures
        r matches Ok(()) <==> text_fits(value@, min as int, max as int),
        r matches Err(m) ==> m == error,
{
    let len = trim(value).unicode_len();
    if len < min || len > max {
        Err(error)
    } else {
        Ok(())
    }
}

fn email(value: &str) -> (r: Result<(), &'static str>)
    ensures
        r matches Ok(()) <==> email_ok(value@),
        r matches Err(m) ==> m@ == "Enter a valid email address."@,
{
    let t = trim(value);
    let valid = t.as_bytes().len() <= 254 && address_shape(t);
    if valid {
        Ok(())
    } else {
        Err("Enter a valid email address.")
    }
}

fn address_shape(t: &str) -> (r: bool)
    ensures
        r == exists|k: int| #[trigger] first_at(t@, k) && k > 0 && domain_ok(t@.subrange(k + 1, t@.len() as int)),
{
    let v = chars_of(t);
    let n = v.len();
    let mut k: usize = 0;
    while k < n && v[k] != '@'
        invariant
            v@ == t@,
            n == v@.len(),
            k <= n,
            forall|j: int| 0 <= j < k ==> v@[j] != '@',
        decreases n - k,
    {
        k = k + 1;
    }
    if k == n {
        assert forall|k2: int| !first_at(t@, k2) by {}
        return false;
    }
    assert(first_at(t@, k as int));
    assert forall|k2: int| first_at(t@, k2) implies k2 == k by {
        if k2 < k {
            assert(v@[k2] != '@');
        } else if k2 > k {
            assert(t@[k as int] != '@');
        }
    }
    if k == 0 {
        return false;
    }
    let mut dot = false;
    let mut i: usize = k + 1;
    while i < n
        invariant
            v@ == t@,
            n == v@.len(),
            k < n,
            k + 1 <= i <= n,
            0 < k,
            forall|k2: int| first_at(t@, k2) ==> k2 == k,
            dot == exists|j: int| k + 1 <= j < i && v@[j] == '.',
            forall|j: int| k + 1 <= j < i ==> !is_white_space(#[trigger] v@[j]),
        decreases n - i,
    {
        if white_space(v[i]) {
            let ghost d = t@.subrange(k + 1, n as int);
            assert(d[i - k - 1] == v@[i as int]);
            assert(!domain_ok(d));
            return false;
        }
        if v[i] == '.' {
            dot = true;
        }
        i = i + 1;
    }
    let ghost d = t@.subrange(k + 1, n as int);
    if dot {
        let ghost j = choose|j: int| k + 1 <= j < n && v@[j] == '.';
        assert(d[j - k - 1] == '.');
    } else {
        assert forall|x: int| 0 <= x < d.len() implies d[x] != '.' by {
            assert(d[x] == v@[x + k + 1]);
        }
    }
    dot
}

fn currency(value: &str) -> (r: bool)
    ensures
        r == currency_ok(value@),
{
    if value.as_bytes().len() != 3 {
        return false;
    }
    let v = chars_of(value);
    let mut i: usize = 0;
    while i < v.len()
        invariant
            v@ == value@,
            i <= v@.len(),
            forall|j: int| 0 <= j < i ==> 'A' <= #[trigger] v@[j] <= 'Z',
        decreases v@.len() - i,
    {
        if !('A' <= v[i] && v[i] <= 'Z') {
            return false;
        }
        i = i + 1;
    }
    true
}

fn check_item(item: &LineItem) -> (r: Result<(), &'static str>)
    ensures
        reports(r, item_problem(*item)),
{
    text(item.label.as_str(), 2, 160, "Each scope item needs a 2–160 character title.")?;
    if item.description.as_str().unicode_len() > 500 {
        return Err("Scope item details must be at most 500 characters.");
    }
    if !(1 <= item.quantity && item.quantity <= 999) {
        return Err("Quantity must be between 1 and 999.");
    }
    if !(0 <= item.unit_amount_cents && item.unit_amount_cents <= 100_000_000) {
        return Err("Item price is outside the supported range.");
    }
    Ok(())
}

/// Checks a creation request; the error is the message of the first rule it
/// breaks.
pub fn validate_create(input: &CreateProposal) -> (r: Result<(), &'static str>)
    ensures
        reports(r, create_problem(*input)),
{
    text(input.title.as_str(), 3, 120, "Proposal title must be 3–120 characters.")?;
    text(input.freelancer_name.as_str(), 2, 80, "Your name must be 2–80 characters.")?;
    text(input.client_name.as_str(), 2, 80, "Client name must be 2–80 characters.")?;
    email(input.freelancer_email.as_str())?;
    email(input.client_email.as_str())?;
    if input.message.as_str().unicode_len() > 2000 {
        return Err("Introduction must be at most 2,000 characters.");
    }
    if !currency(input.currency.as_str()) {
        return Err("Currency must be a three-letter code such as USD.");
    }
    if input.items.len() == 0 || input.items.len() > 30 {
        return Err("Add between 1 and 30 scope items.");
    }
    let mut i: usize = 0;
    assert(input.items@.skip(0) =~= input.items@);
    assert(create_problem(*input) == items_problem(input.items@));
    while i < input.items.len()
        invariant
            i <= input.items@.len(),
            create_problem(*input) == items_problem(input.items@),
            items_problem(input.items@) == items_problem(input.items@.skip(i as int)),
        decreases input.items@.len() - i,
    {
        assert(input.items@.skip(i as int)[0] == input.items@[i as int]);
        check_item(&input.items[i])?;
        assert(input.items@.skip(i as int).drop_first() =~= input.items@.skip(i + 1));
        i = i + 1;
    }
    Ok(())
}

/// Checks a decision; the error is the message of the first rule it breaks.
pub fn validate_decision(input: &SubmitDecision) -> (r: Result<(), &'static str>)
    ensures
        reports(r, decision_problem(*input)),
{
    let kind = input.kind.as_str();
    let changes = same_text(kind, "changes_requested");
    if !(same_text(kind, "accepted") || changes || same_text(kind, "declined")) {
        return Err("Choose Accept, Request changes, or Decline.");
    }
    text(input.respondent_name.as_str(), 2, 80, "Your name must be 2–80 characters.")?;
    email(input.respondent_email.as_str())?;
    if input.note.as_str().unicode_len() > 2000 {
        return Err("Decision note must be at most 2,000 characters.");
    }
    if changes && trim(input.note.as_str()).as_bytes().len() < 3 {
        return Err("Describe the changes you need.");
    }
    Ok(())
}

} // verus!
