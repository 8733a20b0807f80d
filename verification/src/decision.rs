//! Recording a client's decision: one final decision per proposal, sealed
//! by its receipt hash and announced to both parties.

use vstd::prelude::*;
use vstd::string::*;
use crate::clock::{now, utc_timestamp};
use crate::delivery::DeliveryStatus;
use crate::error::AppError;
use crate::model::{Decision, LineItem, Proposal, SubmitDecision};
use crate::receipt::{receipt_hash, sealed_document};
use crate::seal::seal_of;
use crate::text::{decimal, decimal_string, lowercase, lowercased, same_text, trim, trimmed};

verus! {

broadcast use vstd::string::group_string_axioms;

/// One receipt e-mail to be queued.
#[derive(Debug)]
pub struct QueuedDelivery {
    pub recipient: String,
    pub status: DeliveryStatus,
    pub subject: String,
    pub body: String,
    pub created_at: String,
}

/// `d` is the decision recorded for `input` on `p` at `decided_at`: the
/// kind as given, name and note trimmed, e-mail trimmed and lower-cased,
/// and the seal of the canonical receipt document.
pub open spec fn records(d: Decision, p: Proposal, input: SubmitDecision, decided_at: Seq<char>) -> bool {
    &&& d.kind@ == input.kind@
    &&& d.respondent_name@ == trimmed(input.respondent_name@)
    &&& d.respondent_email@ == lowercased(trimmed(input.respondent_email@))
    &&& d.note@ == trimmed(input.note@)
    &&& d.decided_at@ == decided_at
    &&& d.receipt_hash@ == seal_of(sealed_document(p, input, decided_at))
}

/// Decides on a proposal: refused as a conflict when a decision is already
/// recorded, otherwise the normalized, sealed decision.
pub fn decide_on(proposal: &Proposal, input: &SubmitDecision, decided_at: &str) -> (r: Result<
    Decision,
    AppError,
>)
    ensures
        r is Err <==> proposal.decision is Some,
        r matches Err(e) ==> e is Conflict,
        r matches Ok(d) ==> records(d, *proposal, *input, decided_at@),
{
    if proposal.decision.is_some() {
        return Err(AppError::Conflict);
    }
    let receipt = receipt_hash(proposal, input, decided_at);
    Ok(
        Decision {
            kind: input.kind.clone(),
            respondent_name: trim(input.respondent_name.as_str()).to_owned(),
            respondent_email: lowercase(trim(input.respondent_email.as_str())),
            note: trim(input.note.as_str()).to_owned(),
            decided_at: decided_at.to_owned(),
            receipt_hash: receipt,
        },
    )
}

/// The word for a decision kind used in the receipt e-mails.
pub open spec fn decision_word(kind: Seq<char>) -> Seq<char> {
    if kind == "accepted"@ {
        "Accepted"@
    } else if kind == "changes_requested"@ {
        "Changes requested"@
    } else {
        "Declined"@
    }
}

fn word_for(kind: &str) -> (w: &'static str)
    ensures
        w@ == decision_word(kind@),
{
    if same_text(kind, "accepted") {
        "Accepted"
    } else if same_text(kind, "changes_requested") {
        "Changes requested"
    } else {
        "Declined"
    }
}

/// One line of the frozen scope in a receipt e-mail.
pub open spec fn scope_line(item: LineItem, currency: Seq<char>) -> Seq<char> {
    "- "@ + item.label@ + " — "@ + decimal(item.quantity as int) + " × "@ + decimal(
        item.unit_amount_cents as int,
    ) + " "@ + currency
}

/// The scope lines, one per item, separated by line breaks.
pub open spec fn scope_lines(items: Seq<LineItem>, currency: Seq<char>) -> Seq<char>
    decreases items.len(),
{
    if items.len() == 0 {
        Seq::empty()
    } else if items.len() == 1 {
        scope_line(items[0], currency)
    } else {
        scope_lines(items.drop_last(), currency) + "\n"@ + scope_line(items.last(), currency)
    }
}

/// The subject of the receipt e-mails.
pub open spec fn receipt_subject(p: Proposal, d: Decision) -> Seq<char> {
    "Decision receipt: "@ + p.title@ + " — "@ + decision_word(d.kind@)
}

/// The body of the receipt e-mails.
pub open spec fn receipt_body(p: Proposal, d: Decision) -> Seq<char> {
    "Decision receipt "@ + p.id@ + "\n\nProposal: "@ + p.title@ + "\nDecision: "@ + decision_word(
        d.kind@,
    ) + "\nRecorded: "@ + d.decided_at@
        + "\n\nFrozen scope (unit amounts in minor currency units):\n"@ + scope_lines(
        p.items@,
        p.currency@,
    ) + "\n\nDecision note: "@ + d.note@ + "\nReceipt SHA-256: "@ + d.receipt_hash@ + "\n\n"@
        + "This is a decision acknowledgement and scope record, not a regulated electronic signature."@
}

fn push_scope_line(out: &mut String, item: &LineItem, currency: &str)
    ensures
        final(out)@ == old(out)@ + scope_line(*item, currency@),
{
    let ghost start = out@;
    out.append("- ");
    out.append(item.label.as_str());
    out.append(" — ");
    let q = decimal_string(item.quantity);
    out.append(q.as_str());
    out.append(" × ");
    let u = decimal_string(item.unit_amount_cents);
    out.append(u.as_str());
    out.append(" ");
    out.append(currency);
    assert(out@ =~= start + scope_line(*item, currency@));
}

fn push_scope(out: &mut String, items: &Vec<LineItem>, currency: &str)
    ensures
        final(out)@ == old(out)@ + scope_lines(items@, currency@),
{
    let ghost start = out@;
    let mut i: usize = 0;
    assert(items@.subrange(0, 0) =~= Seq::<LineItem>::empty());
    while i < items.len()
        invariant
            i <= items@.len(),
            out@ == start + scope_lines(items@.subrange(0, i as int), currency@),
        decreases items@.len() - i,
    {
        let ghost prefix = items@.subrange(0, i + 1);
        assert(prefix.drop_last() =~= items@.subrange(0, i as int));
        assert(prefix.last() == items@[i as int]);
        if i > 0 {
            out.append("\n");
        }
        push_scope_line(out, &items[i], currency);
        assert(out@ =~= start + scope_lines(prefix, currency@));
        i = i + 1;
    }
    assert(items@.subrange(0, items@.len() as int) =~= items@);
}

/// Writes the subject of the receipt e-mails.
pub fn write_subject(p: &Proposal, d: &Decision) -> (s: String)
    ensures
        s@ == receipt_subject(*p, *d),
{
    let mut out = String::new();
    out.append("Decision receipt: ");
    out.append(p.title.as_str());
    out.append(" — ");
    out.append(word_for(d.kind.as_str()));
    assert(out@ =~= receipt_subject(*p, *d));
    out
}

/// Writes the body of the receipt e-mails.
pub fn write_body(p: &Proposal, d: &Decision) -> (s: String)
    ensures
        s@ == receipt_body(*p, *d),
{
    let mut out = String::new();
    out.append("Decision receipt ");
    out.append(p.id.as_str());
    out.append("\n\nProposal: ");
    out.append(p.title.as_str());
    out.append("\nDecision: ");
    out.append(word_for(d.kind.as_str()));
    out.append("\nRecorded: ");
    out.append(d.decided_at.as_str());
    out.append("\n\nFrozen scope (unit amounts in minor currency units):\n");
    push_scope(&mut out, &p.items, p.currency.as_str());
    out.append("\n\nDecision note: ");
    out.append(d.note.as_str());
    out.append("\nReceipt SHA-256: ");
    out.append(d.receipt_hash.as_str());
    out.append("\n\n");
    out.append(
        "This is a decision acknowledgement and scope record, not a regulated electronic signature.",
    );
    assert(out@ =~= receipt_body(*p, *d));
    out
}

/// The address of a party, or the empty text when it is not known.
pub open spec fn address_or_empty(a: Option<String>) -> Seq<char> {
    match a {
        Some(s) => s@,
        None => Seq::empty(),
    }
}

fn address_text(a: &Option<String>) -> (s: String)
    ensures
        s@ == address_or_empty(*a),
{
    match a {
        Some(s) => s.clone(),
        None => String::new(),
    }
}

/// `q` is the receipt e-mail for `recipient` about decision `d` on `p`.
pub open spec fn announces(
    q: QueuedDelivery,
    p: Proposal,
    d: Decision,
    recipient: Seq<char>,
) -> bool {
    &&& q.recipient@ == recipient
    &&& q.status == DeliveryStatus::Queued
    &&& q.subject@ == receipt_subject(p, d)
    &&& q.body@ == receipt_body(p, d)
    &&& q.created_at@ == d.decided_at@
}

/// The two receipt e-mails of a decision, to the freelancer and then to the
/// client, both queued; they wait in the queue until a sender delivers them.
pub fn receipt_deliveries(p: &Proposal, d: &Decision) -> (v: Vec<
    QueuedDelivery,
>)
    ensures
        v@.len() == 2,
        announces(v@[0], *p, *d, address_or_empty(p.freelancer_email)),
        announces(v@[1], *p, *d, address_or_empty(p.client_email)),
{
    let mut v: Vec<QueuedDelivery> = Vec::new();
    v.push(
        QueuedDelivery {
            recipient: address_text(&p.freelancer_email),
            status: DeliveryStatus::Queued,
            subject: write_subject(p, d),
            body: write_body(p, d),
            created_at: d.decided_at.clone(),
        },
    );
    v.push(
        QueuedDelivery {
            recipient: address_text(&p.client_email),
            status: DeliveryStatus::Queued,
            subject: write_subject(p, d),
            body: write_body(p, d),
            created_at: d.decided_at.clone(),
        },
    );
    v
}

/// `after` is `before` with `d` recorded as its decision and nothing else
/// changed.
pub open spec fn decided_as(after: Proposal, before: Proposal, d: Decision) -> bool {
    after == Proposal { decision: Some(d), ..before }
}

/// The outcome of recording `input` on `proposal` at `decided_at`: a
/// conflict exactly when a decision is already recorded; otherwise the
/// proposal with the sealed decision and nothing else changed, and the two
/// receipt e-mails, to the freelancer and to the client.
pub open spec fn decision_outcome(
    r: Result<(Proposal, Vec<QueuedDelivery>), AppError>,
    proposal: Proposal,
    input: SubmitDecision,
    decided_at: Seq<char>,
) -> bool {
    &&& r is Err <==> proposal.decision is Some
    &&& r matches Err(e) ==> e is Conflict
    &&& r matches Ok((after, mails)) ==> {
        &&& after.decision matches Some(d) && records(d, proposal, input, decided_at) && decided_as(
            after,
            proposal,
            d,
        )
        &&& mails@.len() == 2
        &&& announces(
            mails@[0],
            after,
            d_of(after),
            address_or_empty(proposal.freelancer_email),
        )
        &&& announces(
            mails@[1],
            after,
            d_of(after),
            address_or_empty(proposal.client_email),
        )
    }
}

/// Records a client's decision on a proposal (read in its private view) at
/// the given time.
pub fn record_decision(
    proposal: Proposal,
    input: &SubmitDecision,
    decided_at: &str,
) -> (r: Result<(Proposal, Vec<QueuedDelivery>), AppError>)
    ensures
        decision_outcome(r, proposal, *input, decided_at@),
{
    let d = decide_on(&proposal, input, decided_at)?;
    let mut after = proposal;
    after.decision = Some(d);
    let mails = match &after.decision {
        Some(d) => receipt_deliveries(&after, d),
        None => Vec::new(),
    };
    Ok((after, mails))
}

/// Records a client's decision now: as `record_decision` at the time read
/// from the clock.
pub fn record_decision_now(proposal: Proposal, input: &SubmitDecision) -> (r: Result<
    (Proposal, Vec<QueuedDelivery>),
    AppError,
>)
    ensures
        exists|at: Seq<char>| #[trigger] decision_outcome(r, proposal, *input, at) && utc_timestamp(at),
{
    let at = now();
    let ghost before = proposal;
    let r = record_decision(proposal, input, at.as_str());
    assert(decision_outcome(r, before, *input, at@));
    r
}

/// Decides on a proposal now: as `decide_on` at the time read from the
/// clock.
pub fn decide_on_now(proposal: &Proposal, input: &SubmitDecision) -> (r: Result<Decision, AppError>)
    ensures
        r is Err <==> proposal.decision is Some,
        r matches Err(e) ==> e is Conflict,
        r matches Ok(d) ==> records(d, *proposal, *input, d.decided_at@) && utc_timestamp(
            d.decided_at@,
        ),
{
    let at = now();
    decide_on(proposal, input, at.as_str())
}

/// The recorded decision of a decided proposal.
pub open spec fn d_of(p: Proposal) -> Decision {
    p.decision.unwrap()
}

} // verus!
