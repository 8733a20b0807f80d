//! Properties of the service that span its operations.

use vstd::prelude::*;
use vstd::utf8::encode_utf8;
use crate::database::{step_after, StartupStep, MIGRATION_ATTEMPTS};
use crate::decision::{address_or_empty, decision_outcome, decision_word, QueuedDelivery};
use crate::delivery::{
    awaits_sending, status_after, status_named, status_text, step_for, DeliveryStatus, FlushStep,
};
use crate::error::{message_of, status_of, AppError};
use crate::export::{csv_quoted, decision_columns};
use crate::model::{
    create_problem, currency_ok, decision_problem, email_ok, item_problem, known_kind,
    lemma_items_problem_none, CreateProposal, LineItem, Proposal, SubmitDecision,
};
use crate::canonical::{items_terms, lemma_document_unique, lemma_items_json_terms};
use crate::receipt::{opt_view, receipt_head, receipt_tail, sealed_document};
use crate::seal::{seal_of, token_digest, token_shape};
use crate::store::{shown, stores, StoredProposal};
use crate::text::{is_white_space, lemma_trim_end_cut, lemma_trim_start_cut, lowercased, trimmed};

verus! {

/// A proposal that already carries a decision refuses every further
/// decision as a conflict.
pub proof fn decided_proposal_refuses(
    r: Result<(Proposal, Vec<QueuedDelivery>), AppError>,
    proposal: Proposal,
    input: SubmitDecision,
    decided_at: Seq<char>,
)
    requires
        proposal.decision is Some,
        decision_outcome(r, proposal, input, decided_at),
    ensures
        r matches Err(e) && e is Conflict,
{
}

/// One decision per proposal: once a decision is recorded, a second
/// decision on the result, whatever it says and whenever it comes, is
/// refused as a conflict.
pub proof fn decision_is_final(
    first: Result<(Proposal, Vec<QueuedDelivery>), AppError>,
    second: Result<(Proposal, Vec<QueuedDelivery>), AppError>,
    proposal: Proposal,
    input: SubmitDecision,
    decided_at: Seq<char>,
    again: SubmitDecision,
    again_at: Seq<char>,
)
    requires
        decision_outcome(first, proposal, input, decided_at),
        first is Ok,
        decision_outcome(second, first->Ok_0.0, again, again_at),
    ensures
        second matches Err(e) && e is Conflict,
{
}

/// An undecided proposal always accepts a decision, and what is recorded is
/// exactly the decision given, normalized and sealed: the kind as given, the
/// name and note trimmed, the e-mail address trimmed and lower-cased. The
/// rest of the proposal is unchanged, and the two receipt e-mails go to the
/// freelancer and then to the client.
pub proof fn undecided_proposal_accepts(
    r: Result<(Proposal, Vec<QueuedDelivery>), AppError>,
    proposal: Proposal,
    input: SubmitDecision,
    decided_at: Seq<char>,
)
    requires
        proposal.decision is None,
        decision_outcome(r, proposal, input, decided_at),
    ensures
        r is Ok,
        r->Ok_0.0.decision matches Some(d) && d.kind@ == input.kind@ && d.decided_at@ == decided_at
            && d.receipt_hash@ == seal_of(sealed_document(proposal, input, decided_at))
            && d.respondent_name@ == trimmed(input.respondent_name@) && d.respondent_email@
            == lowercased(trimmed(input.respondent_email@)) && d.note@ == trimmed(input.note@)
            && r->Ok_0.0 == (Proposal { decision: Some(d), ..proposal }),
        r->Ok_0.1@.len() == 2,
        r->Ok_0.1@[0].recipient@ == address_or_empty(proposal.freelancer_email),
        r->Ok_0.1@[1].recipient@ == address_or_empty(proposal.client_email),
        r->Ok_0.1@[0].created_at@ == decided_at,
        r->Ok_0.1@[1].created_at@ == decided_at,
{
}

/// The client's view of a stored proposal never carries either e-mail
/// address, while the management view carries both; both views give back
/// the stored decision.
pub proof fn client_view_hides_addresses(s: StoredProposal)
    ensures
        shown(s, false).freelancer_email is None,
        shown(s, false).client_email is None,
        shown(s, true).freelancer_email == Some(s.freelancer_email),
        shown(s, true).client_email == Some(s.client_email),
        shown(s, false).decision == s.decision,
        shown(s, true).decision == s.decision,
{
}

/// The proposal terms that the receipt seal covers agree: id, title, both
/// parties, currency, every item, and the creation time.
pub open spec fn same_sealed_terms(a: Proposal, b: Proposal) -> bool {
    &&& a.id@ == b.id@
    &&& a.title@ == b.title@
    &&& a.freelancer_name@ == b.freelancer_name@
    &&& opt_view(a.freelancer_email) == opt_view(b.freelancer_email)
    &&& a.client_name@ == b.client_name@
    &&& opt_view(a.client_email) == opt_view(b.client_email)
    &&& a.currency@ == b.currency@
    &&& items_terms(a.items@) == items_terms(b.items@)
    &&& a.created_at@ == b.created_at@
}

/// The decisions agree once normalized: kind, trimmed name, trimmed and
/// lower-cased e-mail, trimmed note.
pub open spec fn same_normalized_decision(x: SubmitDecision, y: SubmitDecision) -> bool {
    &&& x.kind@ == y.kind@
    &&& trimmed(x.respondent_name@) == trimmed(y.respondent_name@)
    &&& lowercased(trimmed(x.respondent_email@)) == lowercased(trimmed(y.respondent_email@))
    &&& trimmed(x.note@) == trimmed(y.note@)
}

/// The seal depends only on the frozen terms and the normalized decision:
/// proposals that agree on those terms get the same seal for the same
/// decision and time (the introduction message and any recorded decision
/// are not sealed), and submissions that differ only in white space around
/// the name, e-mail and note, or in the case of the e-mail, are sealed
/// alike.
pub proof fn seal_covers_frozen_terms(
    a: Proposal,
    b: Proposal,
    x: SubmitDecision,
    y: SubmitDecision,
    decided_at: Seq<char>,
)
    requires
        same_sealed_terms(a, b),
        same_normalized_decision(x, y),
    ensures
        seal_of(sealed_document(a, x, decided_at)) == seal_of(sealed_document(b, y, decided_at)),
{
    lemma_items_json_terms(a.items@, b.items@);
    assert(receipt_head(a) == receipt_head(b));
    assert(receipt_tail(a) == receipt_tail(b));
    assert(sealed_document(a, x, decided_at) == sealed_document(b, y, decided_at));
}

/// The sealed document is unambiguous: two decisions whose documents are
/// equal agree on every sealed proposal term, on the normalized decision
/// and on the time. The seal, the SHA-256 of the document, therefore
/// commits to exactly these terms.
pub proof fn sealed_document_is_unambiguous(
    a: Proposal,
    b: Proposal,
    x: SubmitDecision,
    y: SubmitDecision,
    at_x: Seq<char>,
    at_y: Seq<char>,
)
    requires
        sealed_document(a, x, at_x) == sealed_document(b, y, at_y),
    ensures
        same_sealed_terms(a, b),
        same_normalized_decision(x, y),
        at_x == at_y,
{
    lemma_document_unique(
        a,
        x.kind@,
        trimmed(x.respondent_name@),
        lowercased(trimmed(x.respondent_email@)),
        trimmed(x.note@),
        at_x,
        b,
        y.kind@,
        trimmed(y.respondent_name@),
        lowercased(trimmed(y.respondent_email@)),
        trimmed(y.note@),
        at_y,
    );
}

/// The links handed out at creation lead back to the record: each link
/// token has the accepted shape, and its keyed hash is the one stored for
/// it.
pub proof fn issued_links_resolve(
    s: StoredProposal,
    input: CreateProposal,
    secret: Seq<u8>,
    client_token: Seq<char>,
    manage_token: Seq<char>,
    id_token: Seq<char>,
    year: Seq<char>,
    created_at: Seq<char>,
)
    requires
        stores(s, input, secret, client_token, manage_token, id_token, year, created_at),
        token_shape(client_token),
        token_shape(manage_token),
    ensures
        token_shape(s.client_token@),
        s.client_token_hash@ == token_digest(secret, client_token),
        s.manage_token_hash@ == token_digest(secret, manage_token),
        s.decision is None,
{
}

/// A delivery is marked sent only when its message was built and accepted;
/// a refused send stays in the queue for the next flush, and a sent or
/// invalid message is never picked up again.
pub proof fn sent_means_accepted(built: bool, accepted: bool)
    ensures
        status_after(built, accepted) == DeliveryStatus::Sent <==> built && accepted,
        built && !accepted ==> awaits_sending(status_after(built, accepted)),
        !awaits_sending(DeliveryStatus::Sent),
        !awaits_sending(DeliveryStatus::InvalidMessage),
{
}

/// A delivery status reads back as the status that was stored.
pub proof fn stored_status_reads_back(s: DeliveryStatus)
    ensures
        status_named(status_text(s)) == Some(s),
{
    reveal_strlit("queued");
    reveal_strlit("sender_not_configured");
    reveal_strlit("retry_needed");
    reveal_strlit("sent");
    reveal_strlit("invalid_message");
    assert("queued"@.len() == 6);
    assert("sender_not_configured"@.len() == 21);
    assert("retry_needed"@.len() == 12);
    assert("sent"@.len() == 4);
    assert("invalid_message"@.len() == 15);
}

/// Startup retries the migration only while attempts remain, so it makes at
/// most `MIGRATION_ATTEMPTS` attempts.
pub proof fn startup_attempts_are_bounded(attempt: u32, succeeded: bool, locked: bool)
    requires
        attempt >= MIGRATION_ATTEMPTS,
    ensures
        step_after(attempt, succeeded, locked) != StartupStep::Retry,
{
}

/// Every receipt e-mail written for a new decision is one that a flush
/// picks up: both e-mails of a recorded decision wait in the queue.
pub proof fn new_receipts_await_sending(
    r: Result<(Proposal, Vec<QueuedDelivery>), AppError>,
    proposal: Proposal,
    input: SubmitDecision,
    decided_at: Seq<char>,
)
    requires
        decision_outcome(r, proposal, input, decided_at),
        r is Ok,
    ensures
        r->Ok_0.1@.len() == 2,
        forall|i: int|
            0 <= i < r->Ok_0.1@.len() ==> #[trigger] r->Ok_0.1@[i].status == DeliveryStatus::Queued
                && awaits_sending(r->Ok_0.1@[i].status),
{
    assert(awaits_sending(DeliveryStatus::Queued));
}

/// A flush sends exactly the deliveries whose stored status is `queued`,
/// `sender_not_configured` or `retry_needed`; a freshly queued delivery is
/// among them, a sent or invalid one is not.
pub proof fn flush_picks_pending(s: DeliveryStatus, t: Seq<char>)
    ensures
        awaits_sending(s) <==> (s == DeliveryStatus::Queued || s == DeliveryStatus::SenderNotConfigured
            || s == DeliveryStatus::RetryNeeded),
        awaits_sending(DeliveryStatus::Queued),
        (status_named(t) matches Some(n) && awaits_sending(n)) <==> (t == "queued"@ || t
            == "sender_not_configured"@ || t == "retry_needed"@),
{
    reveal_strlit("queued");
    reveal_strlit("sender_not_configured");
    reveal_strlit("retry_needed");
    reveal_strlit("sent");
    reveal_strlit("invalid_message");
    assert("queued"@.len() == 6);
    assert("sender_not_configured"@.len() == 21);
    assert("retry_needed"@.len() == 12);
    assert("sent"@.len() == 4);
    assert("invalid_message"@.len() == 15);
}

/// A flush stops on an unusable sender, skips an unusable recipient, and
/// sends otherwise.
pub proof fn flush_step_cases(sender_ok: bool, recipient_ok: bool)
    ensures
        step_for(sender_ok, recipient_ok) == FlushStep::Send <==> sender_ok && recipient_ok,
        step_for(sender_ok, recipient_ok) == FlushStep::Stop <==> !sender_ok,
        step_for(sender_ok, recipient_ok) == FlushStep::Skip <==> sender_ok && !recipient_ok,
{
}

/// The stored record of a creation request keeps each field of the request
/// in its own place: the title, names and introduction trimmed, each e-mail
/// address trimmed and lower-cased from the address given for that party,
/// the currency and items as given, the creation time, and no decision.
pub proof fn stored_record_keeps_request(
    s: StoredProposal,
    input: CreateProposal,
    secret: Seq<u8>,
    client_token: Seq<char>,
    manage_token: Seq<char>,
    id_token: Seq<char>,
    year: Seq<char>,
    created_at: Seq<char>,
)
    requires
        stores(s, input, secret, client_token, manage_token, id_token, year, created_at),
    ensures
        s.title@ == trimmed(input.title@),
        s.freelancer_name@ == trimmed(input.freelancer_name@),
        s.client_name@ == trimmed(input.client_name@),
        s.freelancer_email@ == lowercased(trimmed(input.freelancer_email@)),
        s.client_email@ == lowercased(trimmed(input.client_email@)),
        s.message@ == trimmed(input.message@),
        s.currency@ == input.currency@,
        s.items@ == input.items@,
        s.created_at@ == created_at,
        s.decision is None,
{
}

/// The receipt e-mails of a decision on a created proposal go to the
/// addresses given at creation, trimmed and lower-cased: the first to the
/// freelancer, the second to the client.
pub proof fn receipts_reach_the_parties(
    s: StoredProposal,
    input: CreateProposal,
    secret: Seq<u8>,
    client_token: Seq<char>,
    manage_token: Seq<char>,
    id_token: Seq<char>,
    year: Seq<char>,
    created_at: Seq<char>,
    r: Result<(Proposal, Vec<QueuedDelivery>), AppError>,
    decision: SubmitDecision,
    decided_at: Seq<char>,
)
    requires
        stores(s, input, secret, client_token, manage_token, id_token, year, created_at),
        decision_outcome(r, shown(s, true), decision, decided_at),
    ensures
        r is Ok,
        r->Ok_0.1@[0].recipient@ == lowercased(trimmed(input.freelancer_email@)),
        r->Ok_0.1@[1].recipient@ == lowercased(trimmed(input.client_email@)),
{
}

/// Both views of a stored proposal carry its id, title, both names,
/// introduction, currency, items, creation time and decision unchanged;
/// they differ only in the e-mail addresses, which the client view leaves
/// out.
pub proof fn views_keep_stored_terms(s: StoredProposal, private: bool)
    ensures
        shown(s, private).id == s.id,
        shown(s, private).title == s.title,
        shown(s, private).freelancer_name == s.freelancer_name,
        shown(s, private).client_name == s.client_name,
        shown(s, private).message == s.message,
        shown(s, private).currency == s.currency,
        shown(s, private).items == s.items,
        shown(s, private).created_at == s.created_at,
        shown(s, private).decision == s.decision,
        shown(s, false) == (Proposal { freelancer_email: None, client_email: None, ..shown(s, true) }),
{
}

/// The decision columns of the export hold the recorded kind, time and seal
/// of a decided proposal, whatever the kind; `pending` with two empty
/// fields stands only for an undecided one.
pub proof fn export_shows_recorded_decision(p: Proposal)
    ensures
        p.decision matches Some(d) ==> decision_columns(p) == csv_quoted(d.kind@) + ","@
            + csv_quoted(d.decided_at@) + ","@ + csv_quoted(d.receipt_hash@),
        p.decision is None ==> decision_columns(p) == csv_quoted("pending"@) + ","@ + csv_quoted(
            Seq::empty(),
        ) + ","@ + csv_quoted(Seq::empty()),
{
}

/// Once a decision is recorded, the export of the proposal shows the kind
/// that was submitted, the time it was recorded at and its seal.
pub proof fn export_after_decision(
    r: Result<(Proposal, Vec<QueuedDelivery>), AppError>,
    proposal: Proposal,
    input: SubmitDecision,
    decided_at: Seq<char>,
)
    requires
        proposal.decision is None,
        decision_outcome(r, proposal, input, decided_at),
    ensures
        r is Ok,
        decision_columns(r->Ok_0.0) == csv_quoted(input.kind@) + ","@ + csv_quoted(decided_at) + ","@
            + csv_quoted(seal_of(sealed_document(proposal, input, decided_at))),
{
}

/// A scope item is acceptable: its title holds 2 to 160 characters once
/// trimmed, its details at most 500, its quantity is between 1 and 999 and
/// its unit price between 0 and 100,000,000 minor units.
pub open spec fn item_acceptable(item: LineItem) -> bool {
    &&& 2 <= trimmed(item.label@).len() <= 160
    &&& item.description@.len() <= 500
    &&& 1 <= item.quantity <= 999
    &&& 0 <= item.unit_amount_cents <= 100_000_000
}

/// A creation request is accepted exactly when every rule holds: a title of
/// 3 to 120 characters and names of 2 to 80 once trimmed, both e-mail
/// addresses (the freelancer's and the client's) of the accepted shape, an
/// introduction of at most 2,000 characters, a three-letter currency code,
/// and 1 to 30 scope items, each acceptable.
pub proof fn creation_accepted_exactly_when_valid(input: CreateProposal)
    ensures
        create_problem(input) is None <==> {
            &&& 3 <= trimmed(input.title@).len() <= 120
            &&& 2 <= trimmed(input.freelancer_name@).len() <= 80
            &&& 2 <= trimmed(input.client_name@).len() <= 80
            &&& email_ok(input.freelancer_email@)
            &&& email_ok(input.client_email@)
            &&& input.message@.len() <= 2000
            &&& currency_ok(input.currency@)
            &&& 1 <= input.items@.len() <= 30
            &&& forall|i: int|
                0 <= i < input.items@.len() ==> #[trigger] item_acceptable(input.items@[i])
        },
{
    let items = input.items@;
    lemma_items_problem_none(items);
    if forall|i: int| 0 <= i < items.len() ==> #[trigger] item_acceptable(items[i]) {
        assert forall|i: int| 0 <= i < items.len() implies #[trigger] item_problem(
            items[i],
        ) is None by {
            assert(item_acceptable(items[i]));
        }
    }
    if forall|i: int| 0 <= i < items.len() ==> #[trigger] item_problem(items[i]) is None {
        assert forall|i: int| 0 <= i < items.len() implies #[trigger] item_acceptable(
            items[i],
        ) by {
            assert(item_problem(items[i]) is None);
        }
    }
}

/// A decision is accepted exactly when its kind is one of accepted,
/// changes requested or declined, the name holds 2 to 80 characters once
/// trimmed, the e-mail address has the accepted shape, the note holds at
/// most 2,000 characters, and a request for changes describes them in at
/// least three bytes.
pub proof fn decision_accepted_exactly_when_valid(input: SubmitDecision)
    ensures
        decision_problem(input) is None <==> {
            &&& (input.kind@ == "accepted"@ || input.kind@ == "changes_requested"@ || input.kind@
                == "declined"@)
            &&& 2 <= trimmed(input.respondent_name@).len() <= 80
            &&& email_ok(input.respondent_email@)
            &&& input.note@.len() <= 2000
            &&& input.kind@ == "changes_requested"@ ==> encode_utf8(trimmed(input.note@)).len() >= 3
        },
{
}

/// Trimming removes exactly the white space at both ends: what is left is
/// one stretch of the text, everything before and after it is white space,
/// and it neither starts nor ends with white space.
pub proof fn trimming_strips_both_ends(s: Seq<char>)
    ensures
        exists|a: int, b: int|
            {
                &&& 0 <= a <= b <= s.len()
                &&& #[trigger] s.subrange(a, b) == trimmed(s)
                &&& forall|i: int| 0 <= i < a ==> is_white_space(#[trigger] s[i])
                &&& forall|i: int| b <= i < s.len() ==> is_white_space(#[trigger] s[i])
            },
        trimmed(s).len() > 0 ==> !is_white_space(trimmed(s)[0]) && !is_white_space(
            trimmed(s).last(),
        ),
{
    let a = lemma_trim_start_cut(s);
    let t = s.subrange(a, s.len() as int);
    let b = lemma_trim_end_cut(t);
    assert(t.subrange(0, b) =~= s.subrange(a, a + b));
    assert forall|i: int| a + b <= i < s.len() implies is_white_space(#[trigger] s[i]) by {
        assert(s[i] == t[i - a]);
    }
    if trimmed(s).len() > 0 {
        assert(trimmed(s)[0] == s[a]);
        assert(trimmed(s).last() == t[b - 1]);
    }
    assert(s.subrange(a, a + b) == trimmed(s));
}

/// Each failure is answered with its own status: a broken rule with 400 and
/// the rule's message, a missing link with 404, a repeated decision with
/// 409, and an internal failure with 500 and a fixed message that carries
/// none of its details.
pub proof fn failures_are_answered(e: AppError)
    ensures
        status_of(e) == 400 <==> e is BadRequest,
        status_of(e) == 404 <==> e is NotFound,
        status_of(e) == 409 <==> e is Conflict,
        status_of(e) == 500 <==> e is Internal,
        e matches AppError::BadRequest(m) ==> message_of(e) == m@,
        e is Internal ==> message_of(e)
            == "The service could not complete that request. Please try again."@,
{
}

/// The receipt e-mails tell the three decisions apart: distinct decision
/// kinds are announced with distinct words.
pub proof fn receipt_words_tell_decisions_apart(a: Seq<char>, b: Seq<char>)
    requires
        known_kind(a),
        known_kind(b),
        a != b,
    ensures
        decision_word(a) != decision_word(b),
{
    reveal_strlit("Accepted");
    reveal_strlit("Changes requested");
    reveal_strlit("Declined");
    assert("Accepted"@.len() == 8);
    assert("Changes requested"@.len() == 17);
    assert("Declined"@.len() == 8);
    assert("Accepted"@[0] == 'A');
    assert("Declined"@[0] == 'D');
}

} // verus!
