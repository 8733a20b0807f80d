//! The canonical receipt document and its SHA-256 seal.

use vstd::prelude::*;
use vstd::string::*;
use vstd::seq_lib::lemma_concat_associative;
use crate::json::{
    json_optional, json_text, lemma_peel_text, push_json_number, push_json_optional, push_json_text,
};
use crate::model::{LineItem, Proposal, SubmitDecision};
use crate::seal::{seal, seal_of};
use crate::text::{decimal, lowercase, lowercased, trim, trimmed};

verus! {

broadcast use vstd::string::group_string_axioms;

/// The view of an optional string.
pub open spec fn opt_view(o: Option<String>) -> Option<Seq<char>> {
    match o {
        Some(s) => Some(s@),
        None => None,
    }
}

/// One scope item as a JSON object with its keys in sorted order.
pub open spec fn item_json(item: LineItem) -> Seq<char> {
    "{\"description\":"@ + json_text(item.description@) + ",\"label\":"@ + json_text(item.label@)
        + ",\"quantity\":"@ + decimal(item.quantity as int) + ",\"unitAmountCents\":"@ + decimal(
        item.unit_amount_cents as int,
    ) + "}"@
}

/// The scope items as the elements of a JSON array, comma separated.
pub open spec fn items_json(items: Seq<LineItem>) -> Seq<char>
    decreases items.len(),
{
    if items.len() == 0 {
        Seq::empty()
    } else if items.len() == 1 {
        item_json(items[0])
    } else {
        items_json(items.drop_last()) + ","@ + item_json(items.last())
    }
}

/// A party (freelancer or client) as a JSON object.
pub open spec fn party_json(email: Option<Seq<char>>, name: Seq<char>) -> Seq<char> {
    "{\"email\":"@ + json_optional(email) + ",\"name\":"@ + json_text(name) + "}"@
}

/// The normalized decision as a JSON object.
pub open spec fn decision_json(
    kind: Seq<char>,
    name: Seq<char>,
    email: Seq<char>,
    note: Seq<char>,
    decided_at: Seq<char>,
) -> Seq<char> {
    "{\"decidedAt\":"@ + (json_text(decided_at) + (",\"kind\":"@ + (json_text(kind) + (",\"note\":"@
        + (json_text(note) + (",\"respondentEmail\":"@ + (json_text(email) + (
    ",\"respondentName\":"@ + (json_text(name) + "}"@)))))))))
}

/// The part of the receipt document before the decision: the client and
/// the currency.
pub open spec fn receipt_head(p: Proposal) -> Seq<char> {
    "{\"client\":"@ + party_json(opt_view(p.client_email), p.client_name@) + ",\"currency\":"@
        + json_text(p.currency@) + ",\"decision\":"@
}

/// The part of the receipt document after the decision: the freelancer,
/// the items, the creation time, the id, the title and the version.
pub open spec fn receipt_tail(p: Proposal) -> Seq<char> {
    ",\"freelancer\":"@ + party_json(opt_view(p.freelancer_email), p.freelancer_name@)
        + ",\"items\":["@ + items_json(p.items@) + "],\"proposalCreatedAt\":"@ + json_text(
        p.created_at@,
    ) + ",\"proposalId\":"@ + json_text(p.id@) + ",\"title\":"@ + json_text(p.title@)
        + ",\"version\":1}"@
}

/// The canonical receipt document: compact JSON, keys in sorted order,
/// version 1, holding the frozen proposal and the normalized decision.
pub open spec fn receipt_document(
    p: Proposal,
    kind: Seq<char>,
    name: Seq<char>,
    email: Seq<char>,
    note: Seq<char>,
    decided_at: Seq<char>,
) -> Seq<char> {
    receipt_head(p) + (decision_json(kind, name, email, note, decided_at) + receipt_tail(p))
}

/// The decision fields as they are recorded: kind as given, name and note
/// trimmed, e-mail trimmed and lower-cased.
pub open spec fn sealed_document(p: Proposal, input: SubmitDecision, decided_at: Seq<char>) -> Seq<
    char,
> {
    receipt_document(
        p,
        input.kind@,
        trimmed(input.respondent_name@),
        lowercased(trimmed(input.respondent_email@)),
        trimmed(input.note@),
        decided_at,
    )
}

fn push_item(out: &mut String, item: &LineItem)
    ensures
        final(out)@ == old(out)@ + item_json(*item),
{
    let ghost start = out@;
    out.append("{\"description\":");
    push_json_text(out, item.description.as_str());
    out.append(",\"label\":");
    push_json_text(out, item.label.as_str());
    out.append(",\"quantity\":");
    push_json_number(out, item.quantity);
    out.append(",\"unitAmountCents\":");
    push_json_number(out, item.unit_amount_cents);
    out.append("}");
    assert(out@ =~= start + item_json(*item));
}

fn push_items(out: &mut String, items: &Vec<LineItem>)
    ensures
        final(out)@ == old(out)@ + items_json(items@),
{
    let ghost start = out@;
    let mut i: usize = 0;
    assert(items@.subrange(0, 0) =~= Seq::<LineItem>::empty());
    while i < items.len()
        invariant
            i <= items@.len(),
            out@ == start + items_json(items@.subrange(0, i as int)),
        decreases items@.len() - i,
    {
        let ghost prefix = items@.subrange(0, i + 1);
        assert(prefix.drop_last() =~= items@.subrange(0, i as int));
        assert(prefix.last() == items@[i as int]);
        if i > 0 {
            out.append(",");
        }
        push_item(out, &items[i]);
        assert(out@ =~= start + items_json(prefix));
        i = i + 1;
    }
    assert(items@.subrange(0, items@.len() as int) =~= items@);
}

fn push_party(out: &mut String, email: &Option<String>, name: &str)
    ensures
        final(out)@ == old(out)@ + party_json(opt_view(*email), name@),
{
    let ghost start = out@;
    out.append("{\"email\":");
    push_json_optional(out, email);
    out.append(",\"name\":");
    push_json_text(out, name);
    out.append("}");
    assert(out@ =~= start + party_json(opt_view(*email), name@));
}

fn push_decision(out: &mut String, kind: &str, name: &str, email: &str, note: &str, decided_at: &str)
    ensures
        final(out)@ == old(out)@ + decision_json(kind@, name@, email@, note@, decided_at@),
{
    let ghost start = out@;
    out.append("{\"decidedAt\":");
    push_json_text(out, decided_at);
    out.append(",\"kind\":");
    push_json_text(out, kind);
    out.append(",\"note\":");
    push_json_text(out, note);
    out.append(",\"respondentEmail\":");
    push_json_text(out, email);
    out.append(",\"respondentName\":");
    push_json_text(out, name);
    out.append("}");
    assert(out@ =~= start + decision_json(kind@, name@, email@, note@, decided_at@));
}

fn push_head(out: &mut String, p: &Proposal)
    ensures
        final(out)@ == old(out)@ + receipt_head(*p),
{
    let ghost start = out@;
    out.append("{\"client\":");
    push_party(out, &p.client_email, p.client_name.as_str());
    out.append(",\"currency\":");
    push_json_text(out, p.currency.as_str());
    out.append(",\"decision\":");
    assert(out@ =~= start + receipt_head(*p));
}

fn push_tail(out: &mut String, p: &Proposal)
    ensures
        final(out)@ == old(out)@ + receipt_tail(*p),
{
    let ghost start = out@;
    out.append(",\"freelancer\":");
    push_party(out, &p.freelancer_email, p.freelancer_name.as_str());
    out.append(",\"items\":[");
    push_items(out, &p.items);
    out.append("],\"proposalCreatedAt\":");
    push_json_text(out, p.created_at.as_str());
    out.append(",\"proposalId\":");
    push_json_text(out, p.id.as_str());
    out.append(",\"title\":");
    push_json_text(out, p.title.as_str());
    out.append(",\"version\":1}");
    assert(out@ =~= start + receipt_tail(*p));
}

/// Writes the canonical receipt document.
pub fn write_receipt_document(
    p: &Proposal,
    kind: &str,
    name: &str,
    email: &str,
    note: &str,
    decided_at: &str,
) -> (doc: String)
    ensures
        doc@ == receipt_document(*p, kind@, name@, email@, note@, decided_at@),
{
    let mut out = String::new();
    push_head(&mut out, p);
    push_decision(&mut out, kind, name, email, note, decided_at);
    push_tail(&mut out, p);
    proof {
        let head = receipt_head(*p);
        let d = decision_json(kind@, name@, email@, note@, decided_at@);
        let tail = receipt_tail(*p);
        assert(Seq::<char>::empty() + head =~= head);
        lemma_concat_associative(head, d, tail);
    }
    out
}

/// The receipt seal of a decision on a proposal: the SHA-256 of the
/// canonical document, in lower-case hexadecimal.
pub fn receipt_hash(proposal: &Proposal, input: &SubmitDecision, decided_at: &str) -> (h: String)
    ensures
        h@ == seal_of(sealed_document(*proposal, *input, decided_at@)),
        h@.len() == 64,
{
    let name = trim(input.respondent_name.as_str());
    let email = lowercase(trim(input.respondent_email.as_str()));
    let note = trim(input.note.as_str());
    let doc = write_receipt_document(
        proposal,
        input.kind.as_str(),
        name,
        email.as_str(),
        note,
        decided_at,
    );
    seal(doc.as_str())
}

/// The decision object is uniquely decodable: followed by anything, it
/// determines each of its five fields and what follows it.
pub proof fn lemma_decision_json_unique(
    k1: Seq<char>,
    n1: Seq<char>,
    e1: Seq<char>,
    o1: Seq<char>,
    t1: Seq<char>,
    r1: Seq<char>,
    k2: Seq<char>,
    n2: Seq<char>,
    e2: Seq<char>,
    o2: Seq<char>,
    t2: Seq<char>,
    r2: Seq<char>,
)
    requires
        decision_json(k1, n1, e1, o1, t1) + r1 == decision_json(k2, n2, e2, o2, t2) + r2,
    ensures
        k1 == k2,
        n1 == n2,
        e1 == e2,
        o1 == o2,
        t1 == t2,
        r1 == r2,
{
    lemma_decision_json_then(k1, n1, e1, o1, t1, r1);
    lemma_decision_json_then(k2, n2, e2, o2, t2, r2);
    let l0 = "{\"decidedAt\":"@;
    let l1 = ",\"kind\":"@;
    let l2 = ",\"note\":"@;
    let l3 = ",\"respondentEmail\":"@;
    let l4 = ",\"respondentName\":"@;
    let close = "}"@;
    reveal_strlit("}");
    lemma_peel_text(
        l0,
        t1,
        t2,
        l1 + (json_text(k1) + (l2 + (json_text(o1) + (l3 + (json_text(e1) + (l4 + (json_text(n1) + (
        close + r1)))))))),
        l1 + (json_text(k2) + (l2 + (json_text(o2) + (l3 + (json_text(e2) + (l4 + (json_text(n2) + (
        close + r2)))))))),
    );
    lemma_peel_text(
        l1,
        k1,
        k2,
        l2 + (json_text(o1) + (l3 + (json_text(e1) + (l4 + (json_text(n1) + (close + r1)))))),
        l2 + (json_text(o2) + (l3 + (json_text(e2) + (l4 + (json_text(n2) + (close + r2)))))),
    );
    lemma_peel_text(
        l2,
        o1,
        o2,
        l3 + (json_text(e1) + (l4 + (json_text(n1) + (close + r1)))),
        l3 + (json_text(e2) + (l4 + (json_text(n2) + (close + r2)))),
    );
    lemma_peel_text(l3, e1, e2, l4 + (json_text(n1) + (close + r1)), l4 + (json_text(n2) + (close + r2)));
    lemma_peel_text(l4, n1, n2, close + r1, close + r2);
    assert(r1 =~= (close + r1).subrange(1, (close + r1).len() as int));
    assert(r2 =~= (close + r2).subrange(1, (close + r2).len() as int));
}

/// The decision object followed by `r`, with `r` moved inside.
proof fn lemma_decision_json_then(
    k: Seq<char>,
    n: Seq<char>,
    e: Seq<char>,
    o: Seq<char>,
    t: Seq<char>,
    r: Seq<char>,
)
    ensures
        decision_json(k, n, e, o, t) + r == "{\"decidedAt\":"@ + (json_text(t) + (",\"kind\":"@ + (
        json_text(k) + (",\"note\":"@ + (json_text(o) + (",\"respondentEmail\":"@ + (json_text(e) + (
        ",\"respondentName\":"@ + (json_text(n) + ("}"@ + r)))))))))),
{
    let s9 = "}"@;
    let s8 = json_text(n) + s9;
    let s7 = ",\"respondentName\":"@ + s8;
    let s6 = json_text(e) + s7;
    let s5 = ",\"respondentEmail\":"@ + s6;
    let s4 = json_text(o) + s5;
    let s3 = ",\"note\":"@ + s4;
    let s2 = json_text(k) + s3;
    let s1 = ",\"kind\":"@ + s2;
    let s0 = json_text(t) + s1;
    lemma_concat_associative(json_text(n), s9, r);
    lemma_concat_associative(",\"respondentName\":"@, s8, r);
    lemma_concat_associative(json_text(e), s7, r);
    lemma_concat_associative(",\"respondentEmail\":"@, s6, r);
    lemma_concat_associative(json_text(o), s5, r);
    lemma_concat_associative(",\"note\":"@, s4, r);
    lemma_concat_associative(json_text(k), s3, r);
    lemma_concat_associative(",\"kind\":"@, s2, r);
    lemma_concat_associative(json_text(t), s1, r);
    lemma_concat_associative("{\"decidedAt\":"@, s0, r);
}

} // verus!
