//! The canonical receipt document is unambiguous: reading it back gives the
//! sealed proposal terms and the decision it was written from.

use vstd::prelude::*;
use vstd::seq_lib::lemma_concat_associative;
use crate::json::{json_optional, json_text, lemma_json_optional_unique, lemma_peel_text};
use crate::model::{LineItem, Proposal};
use crate::receipt::{
    decision_json, item_json, items_json, lemma_decision_json_unique, opt_view, party_json,
    receipt_document, receipt_head, receipt_tail,
};
use crate::text::{decimal, lemma_decimal_unique};

verus! {

/// What the document records of a scope item.
pub open spec fn item_terms(item: LineItem) -> (Seq<char>, Seq<char>, i64, i64) {
    (item.label@, item.description@, item.quantity, item.unit_amount_cents)
}

/// What the document records of the scope items, in order.
pub open spec fn items_terms(items: Seq<LineItem>) -> Seq<(Seq<char>, Seq<char>, i64, i64)> {
    items.map_values(|i: LineItem| item_terms(i))
}

/// Strips a common prefix.
pub proof fn lemma_peel(p: Seq<char>, a: Seq<char>, b: Seq<char>)
    requires
        p + a == p + b,
    ensures
        a == b,
{
    assert(a =~= (p + a).subrange(p.len() as int, (p + a).len() as int));
    assert(b =~= (p + b).subrange(p.len() as int, (p + b).len() as int));
}

/// `(a + b) + r` is `a + (b + r)`.
proof fn assoc(a: Seq<char>, b: Seq<char>, r: Seq<char>)
    ensures
        (a + b) + r == a + (b + r),
{
    lemma_concat_associative(a, b, r);
}

proof fn lemma_party_then(email: Option<Seq<char>>, name: Seq<char>, r: Seq<char>)
    ensures
        party_json(email, name) + r == "{\"email\":"@ + (json_optional(email) + (",\"name\":"@ + (
        json_text(name) + ("}"@ + r)))),
{
    let a0 = "{\"email\":"@;
    let a1 = json_optional(email);
    let a2 = ",\"name\":"@;
    let a3 = json_text(name);
    let a4 = "}"@;
    assoc(a0 + a1 + a2 + a3, a4, r);
    assoc(a0 + a1 + a2, a3, a4 + r);
    assoc(a0 + a1, a2, a3 + (a4 + r));
    assoc(a0, a1, a2 + (a3 + (a4 + r)));
}

/// A party object is uniquely decodable.
pub proof fn lemma_party_unique(
    e1: Option<Seq<char>>,
    n1: Seq<char>,
    x: Seq<char>,
    e2: Option<Seq<char>>,
    n2: Seq<char>,
    y: Seq<char>,
)
    requires
        party_json(e1, n1) + x == party_json(e2, n2) + y,
    ensures
        e1 == e2,
        n1 == n2,
        x == y,
{
    lemma_party_then(e1, n1, x);
    lemma_party_then(e2, n2, y);
    let l0 = "{\"email\":"@;
    let l1 = ",\"name\":"@;
    let close = "}"@;
    lemma_peel(l0, json_optional(e1) + (l1 + (json_text(n1) + (close + x))), json_optional(e2) + (l1 + (
    json_text(n2) + (close + y))));
    lemma_json_optional_unique(e1, e2, l1 + (json_text(n1) + (close + x)), l1 + (json_text(n2) + (close
        + y)));
    lemma_peel_text(l1, n1, n2, close + x, close + y);
    lemma_peel(close, x, y);
}

proof fn lemma_item_then(item: LineItem, r: Seq<char>)
    ensures
        item_json(item) + r == "{\"description\":"@ + (json_text(item.description@) + (",\"label\":"@ + (
        json_text(item.label@) + (",\"quantity\":"@ + (decimal(item.quantity as int) + (
        ",\"unitAmountCents\":"@ + (decimal(item.unit_amount_cents as int) + ("}"@ + r)))))))),
{
    let a0 = "{\"description\":"@;
    let a1 = json_text(item.description@);
    let a2 = ",\"label\":"@;
    let a3 = json_text(item.label@);
    let a4 = ",\"quantity\":"@;
    let a5 = decimal(item.quantity as int);
    let a6 = ",\"unitAmountCents\":"@;
    let a7 = decimal(item.unit_amount_cents as int);
    let a8 = "}"@;
    assoc(a0 + a1 + a2 + a3 + a4 + a5 + a6 + a7, a8, r);
    assoc(a0 + a1 + a2 + a3 + a4 + a5 + a6, a7, a8 + r);
    assoc(a0 + a1 + a2 + a3 + a4 + a5, a6, a7 + (a8 + r));
    assoc(a0 + a1 + a2 + a3 + a4, a5, a6 + (a7 + (a8 + r)));
    assoc(a0 + a1 + a2 + a3, a4, a5 + (a6 + (a7 + (a8 + r))));
    assoc(a0 + a1 + a2, a3, a4 + (a5 + (a6 + (a7 + (a8 + r)))));
    assoc(a0 + a1, a2, a3 + (a4 + (a5 + (a6 + (a7 + (a8 + r))))));
    assoc(a0, a1, a2 + (a3 + (a4 + (a5 + (a6 + (a7 + (a8 + r)))))));
}

/// An item object is uniquely decodable.
pub proof fn lemma_item_unique(i1: LineItem, x: Seq<char>, i2: LineItem, y: Seq<char>)
    requires
        item_json(i1) + x == item_json(i2) + y,
    ensures
        item_terms(i1) == item_terms(i2),
        x == y,
{
    lemma_item_then(i1, x);
    lemma_item_then(i2, y);
    let l0 = "{\"description\":"@;
    let l1 = ",\"label\":"@;
    let l2 = ",\"quantity\":"@;
    let l3 = ",\"unitAmountCents\":"@;
    let close = "}"@;
    reveal_strlit(",\"unitAmountCents\":");
    reveal_strlit("}");
    let u1 = decimal(i1.unit_amount_cents as int) + (close + x);
    let u2 = decimal(i2.unit_amount_cents as int) + (close + y);
    let q1 = decimal(i1.quantity as int) + (l3 + u1);
    let q2 = decimal(i2.quantity as int) + (l3 + u2);
    lemma_peel_text(l0, i1.description@, i2.description@, l1 + (json_text(i1.label@) + (l2 + q1)), l1 + (
    json_text(i2.label@) + (l2 + q2)));
    lemma_peel_text(l1, i1.label@, i2.label@, l2 + q1, l2 + q2);
    lemma_peel(l2, q1, q2);
    assert((l3 + u1)[0] == ',');
    assert((l3 + u2)[0] == ',');
    lemma_decimal_unique(i1.quantity as int, i2.quantity as int, l3 + u1, l3 + u2);
    lemma_peel(l3, u1, u2);
    assert((close + x)[0] == '}');
    assert((close + y)[0] == '}');
    lemma_decimal_unique(i1.unit_amount_cents as int, i2.unit_amount_cents as int, close + x, close + y);
    lemma_peel(close, x, y);
}

/// The items after the first, each preceded by a comma.
pub open spec fn items_after(t: Seq<LineItem>) -> Seq<char>
    decreases t.len(),
{
    if t.len() == 0 {
        Seq::empty()
    } else {
        ","@ + (item_json(t[0]) + items_after(t.drop_first()))
    }
}

proof fn lemma_items_after_push(t: Seq<LineItem>, it: LineItem)
    ensures
        items_after(t.push(it)) == items_after(t) + (","@ + item_json(it)),
    decreases t.len(),
{
    if t.len() == 0 {
        assert(t.push(it).drop_first() =~= Seq::<LineItem>::empty());
        assert(t.push(it)[0] == it);
        assert(items_after(Seq::<LineItem>::empty()) == Seq::<char>::empty());
        assert(items_after(t.push(it)) == ","@ + (item_json(it) + Seq::<char>::empty()));
        assert(item_json(it) + Seq::<char>::empty() =~= item_json(it));
        assert(items_after(t) == Seq::<char>::empty());
        assert(Seq::<char>::empty() + (","@ + item_json(it)) =~= ","@ + item_json(it));
    } else {
        assert(t.push(it).drop_first() =~= t.drop_first().push(it));
        assert(t.push(it)[0] == t[0]);
        lemma_items_after_push(t.drop_first(), it);
        let c = ","@;
        let h = item_json(t[0]);
        let m = items_after(t.drop_first());
        let z = c + item_json(it);
        assoc(h, m, z);
        assoc(c, h + m, z);
    }
}

/// The item list read from the front: the first item, then the others
/// each after a comma.
proof fn lemma_items_front(s: Seq<LineItem>)
    requires
        s.len() >= 1,
    ensures
        items_json(s) == item_json(s[0]) + items_after(s.drop_first()),
    decreases s.len(),
{
    if s.len() == 1 {
        assert(s.drop_first() =~= Seq::<LineItem>::empty());
        assert(item_json(s[0]) + Seq::<char>::empty() =~= item_json(s[0]));
    } else {
        let s1 = s.drop_last();
        lemma_items_front(s1);
        assert(s1[0] == s[0]);
        assert(s1.drop_first().push(s.last()) =~= s.drop_first());
        lemma_items_after_push(s1.drop_first(), s.last());
        let h = item_json(s[0]);
        let m = items_after(s1.drop_first());
        let z = ","@ + item_json(s.last());
        assoc(h, m, z);
        assoc(item_json(s1[0]) + items_after(s1.drop_first()), ","@, item_json(s.last()));
        assert(items_json(s) == items_json(s1) + ","@ + item_json(s.last()));
    }
}

proof fn lemma_item_head(i: LineItem)
    ensures
        item_json(i).len() >= 1,
        item_json(i)[0] == '{',
{
    reveal_strlit("{\"description\":");
}

proof fn lemma_items_terms_front(s: Seq<LineItem>)
    requires
        s.len() >= 1,
    ensures
        items_terms(s) == seq![item_terms(s[0])] + items_terms(s.drop_first()),
{
    assert(items_terms(s) =~= seq![item_terms(s[0])] + items_terms(s.drop_first()));
}

proof fn lemma_items_after_unique(t1: Seq<LineItem>, x: Seq<char>, t2: Seq<LineItem>, y: Seq<char>)
    requires
        items_after(t1) + x == items_after(t2) + y,
        x.len() > 0 && x[0] == ']',
        y.len() > 0 && y[0] == ']',
    ensures
        items_terms(t1) == items_terms(t2),
        x == y,
    decreases t1.len(),
{
    reveal_strlit(",");
    let l = items_after(t1) + x;
    let r = items_after(t2) + y;
    if t1.len() == 0 && t2.len() == 0 {
        assert(l =~= x);
        assert(r =~= y);
        assert(items_terms(t1) =~= items_terms(t2));
    } else if t1.len() == 0 {
        assert(l =~= x);
        assoc(","@, item_json(t2[0]) + items_after(t2.drop_first()), y);
        assert(r[0] == ',');
    } else if t2.len() == 0 {
        assert(r =~= y);
        assoc(","@, item_json(t1[0]) + items_after(t1.drop_first()), x);
        assert(l[0] == ',');
    } else {
        let h1 = item_json(t1[0]);
        let h2 = item_json(t2[0]);
        let m1 = items_after(t1.drop_first());
        let m2 = items_after(t2.drop_first());
        assoc(","@, h1 + m1, x);
        assoc(","@, h2 + m2, y);
        assoc(h1, m1, x);
        assoc(h2, m2, y);
        lemma_peel(","@, h1 + (m1 + x), h2 + (m2 + y));
        lemma_item_unique(t1[0], m1 + x, t2[0], m2 + y);
        lemma_items_after_unique(t1.drop_first(), x, t2.drop_first(), y);
        lemma_items_terms_front(t1);
        lemma_items_terms_front(t2);
    }
}

/// An item list followed by `]` is uniquely decodable.
pub proof fn lemma_items_unique(s1: Seq<LineItem>, x: Seq<char>, s2: Seq<LineItem>, y: Seq<char>)
    requires
        items_json(s1) + x == items_json(s2) + y,
        x.len() > 0 && x[0] == ']',
        y.len() > 0 && y[0] == ']',
    ensures
        items_terms(s1) == items_terms(s2),
        x == y,
{
    let l = items_json(s1) + x;
    let r = items_json(s2) + y;
    if s1.len() == 0 && s2.len() == 0 {
        assert(l =~= x);
        assert(r =~= y);
        assert(items_terms(s1) =~= items_terms(s2));
    } else if s1.len() == 0 {
        assert(l =~= x);
        lemma_items_front(s2);
        lemma_item_head(s2[0]);
        assoc(item_json(s2[0]), items_after(s2.drop_first()), y);
        assert(r[0] == '{');
    } else if s2.len() == 0 {
        assert(r =~= y);
        lemma_items_front(s1);
        lemma_item_head(s1[0]);
        assoc(item_json(s1[0]), items_after(s1.drop_first()), x);
        assert(l[0] == '{');
    } else {
        lemma_items_front(s1);
        lemma_items_front(s2);
        let m1 = items_after(s1.drop_first());
        let m2 = items_after(s2.drop_first());
        assoc(item_json(s1[0]), m1, x);
        assoc(item_json(s2[0]), m2, y);
        lemma_item_unique(s1[0], m1 + x, s2[0], m2 + y);
        lemma_items_after_unique(s1.drop_first(), x, s2.drop_first(), y);
        lemma_items_terms_front(s1);
        lemma_items_terms_front(s2);
    }
}

proof fn lemma_head_then(p: Proposal, r: Seq<char>)
    ensures
        receipt_head(p) + r == "{\"client\":"@ + (party_json(opt_view(p.client_email), p.client_name@) + (
        ",\"currency\":"@ + (json_text(p.currency@) + (",\"decision\":"@ + r)))),
{
    let a0 = "{\"client\":"@;
    let a1 = party_json(opt_view(p.client_email), p.client_name@);
    let a2 = ",\"currency\":"@;
    let a3 = json_text(p.currency@);
    let a4 = ",\"decision\":"@;
    assoc(a0 + a1 + a2 + a3, a4, r);
    assoc(a0 + a1 + a2, a3, a4 + r);
    assoc(a0 + a1, a2, a3 + (a4 + r));
    assoc(a0, a1, a2 + (a3 + (a4 + r)));
}

/// The head of the document (client and currency) is uniquely decodable.
pub proof fn lemma_head_unique(p1: Proposal, x: Seq<char>, p2: Proposal, y: Seq<char>)
    requires
        receipt_head(p1) + x == receipt_head(p2) + y,
    ensures
        opt_view(p1.client_email) == opt_view(p2.client_email),
        p1.client_name@ == p2.client_name@,
        p1.currency@ == p2.currency@,
        x == y,
{
    lemma_head_then(p1, x);
    lemma_head_then(p2, y);
    let l0 = "{\"client\":"@;
    let l2 = ",\"currency\":"@;
    let l4 = ",\"decision\":"@;
    lemma_peel(
        l0,
        party_json(opt_view(p1.client_email), p1.client_name@) + (l2 + (json_text(p1.currency@) + (l4
            + x))),
        party_json(opt_view(p2.client_email), p2.client_name@) + (l2 + (json_text(p2.currency@) + (l4
            + y))),
    );
    lemma_party_unique(
        opt_view(p1.client_email),
        p1.client_name@,
        l2 + (json_text(p1.currency@) + (l4 + x)),
        opt_view(p2.client_email),
        p2.client_name@,
        l2 + (json_text(p2.currency@) + (l4 + y)),
    );
    lemma_peel_text(l2, p1.currency@, p2.currency@, l4 + x, l4 + y);
    lemma_peel(l4, x, y);
}

/// The end of the document after the item list.
pub open spec fn after_items(p: Proposal) -> Seq<char> {
    let r9 = json_text(p.title@) + ",\"version\":1}"@;
    let r7 = json_text(p.id@) + (",\"title\":"@ + r9);
    "],\"proposalCreatedAt\":"@ + (json_text(p.created_at@) + (",\"proposalId\":"@ + r7))
}

proof fn lemma_tail_then(p: Proposal)
    ensures
        receipt_tail(p) == ",\"freelancer\":"@ + (party_json(opt_view(p.freelancer_email), p.freelancer_name@)
            + (",\"items\":["@ + (items_json(p.items@) + after_items(p)))),
{
    let a0 = ",\"freelancer\":"@;
    let a1 = party_json(opt_view(p.freelancer_email), p.freelancer_name@);
    let a2 = ",\"items\":["@;
    let a3 = items_json(p.items@);
    let a4 = "],\"proposalCreatedAt\":"@;
    let a5 = json_text(p.created_at@);
    let a6 = ",\"proposalId\":"@;
    let a7 = json_text(p.id@);
    let a8 = ",\"title\":"@;
    let a9 = json_text(p.title@);
    let a10 = ",\"version\":1}"@;
    let r9 = a9 + a10;
    let r8 = a8 + r9;
    let r7 = a7 + r8;
    let r6 = a6 + r7;
    let r5 = a5 + r6;
    let r4 = a4 + r5;
    let r3 = a3 + r4;
    let r2 = a2 + r3;
    let r1 = a1 + r2;
    assoc(a0 + a1 + a2 + a3 + a4 + a5 + a6 + a7 + a8, a9, a10);
    assoc(a0 + a1 + a2 + a3 + a4 + a5 + a6 + a7, a8, r9);
    assoc(a0 + a1 + a2 + a3 + a4 + a5 + a6, a7, r8);
    assoc(a0 + a1 + a2 + a3 + a4 + a5, a6, r7);
    assoc(a0 + a1 + a2 + a3 + a4, a5, r6);
    assoc(a0 + a1 + a2 + a3, a4, r5);
    assoc(a0 + a1 + a2, a3, r4);
    assoc(a0 + a1, a2, r3);
    assoc(a0, a1, r2);
}

/// The tail of the document (freelancer, items, creation time, id and
/// title) is uniquely decodable.
pub proof fn lemma_tail_unique(p1: Proposal, p2: Proposal)
    requires
        receipt_tail(p1) == receipt_tail(p2),
    ensures
        opt_view(p1.freelancer_email) == opt_view(p2.freelancer_email),
        p1.freelancer_name@ == p2.freelancer_name@,
        items_terms(p1.items@) == items_terms(p2.items@),
        p1.created_at@ == p2.created_at@,
        p1.id@ == p2.id@,
        p1.title@ == p2.title@,
{
    lemma_tail_then(p1);
    lemma_tail_then(p2);
    let l0 = ",\"freelancer\":"@;
    let l2 = ",\"items\":["@;
    let l4 = "],\"proposalCreatedAt\":"@;
    let l6 = ",\"proposalId\":"@;
    let l8 = ",\"title\":"@;
    let l10 = ",\"version\":1}"@;
    let t8_1 = l8 + (json_text(p1.title@) + l10);
    let t8_2 = l8 + (json_text(p2.title@) + l10);
    let t6_1 = l6 + (json_text(p1.id@) + t8_1);
    let t6_2 = l6 + (json_text(p2.id@) + t8_2);
    let t4_1 = l4 + (json_text(p1.created_at@) + t6_1);
    let t4_2 = l4 + (json_text(p2.created_at@) + t6_2);
    let t2_1 = l2 + (items_json(p1.items@) + t4_1);
    let t2_2 = l2 + (items_json(p2.items@) + t4_2);
    lemma_peel(
        l0,
        party_json(opt_view(p1.freelancer_email), p1.freelancer_name@) + t2_1,
        party_json(opt_view(p2.freelancer_email), p2.freelancer_name@) + t2_2,
    );
    lemma_party_unique(
        opt_view(p1.freelancer_email),
        p1.freelancer_name@,
        t2_1,
        opt_view(p2.freelancer_email),
        p2.freelancer_name@,
        t2_2,
    );
    lemma_peel(l2, items_json(p1.items@) + t4_1, items_json(p2.items@) + t4_2);
    reveal_strlit("],\"proposalCreatedAt\":");
    assert(t4_1[0] == ']');
    assert(t4_2[0] == ']');
    lemma_items_unique(p1.items@, t4_1, p2.items@, t4_2);
    lemma_peel_text(l4, p1.created_at@, p2.created_at@, t6_1, t6_2);
    lemma_peel_text(l6, p1.id@, p2.id@, t8_1, t8_2);
    lemma_peel_text(l8, p1.title@, p2.title@, l10, l10);
}

/// The item list text depends only on what is recorded of each item.
pub proof fn lemma_items_json_terms(s1: Seq<LineItem>, s2: Seq<LineItem>)
    requires
        items_terms(s1) == items_terms(s2),
    ensures
        items_json(s1) == items_json(s2),
    decreases s1.len(),
{
    assert(s1.len() == items_terms(s1).len());
    assert(s2.len() == items_terms(s2).len());
    if s1.len() > 0 {
        assert(items_terms(s1.drop_last()) =~= items_terms(s1).drop_last());
        assert(items_terms(s2.drop_last()) =~= items_terms(s2).drop_last());
        lemma_items_json_terms(s1.drop_last(), s2.drop_last());
        assert(item_terms(s1.last()) == items_terms(s1)[s1.len() - 1]);
        assert(item_terms(s2.last()) == items_terms(s2)[s2.len() - 1]);
        assert(item_json(s1.last()) == item_json(s2.last()));
    }
}

/// The whole receipt document is uniquely decodable: it determines every
/// term it records.
pub proof fn lemma_document_unique(
    p1: Proposal,
    k1: Seq<char>,
    n1: Seq<char>,
    e1: Seq<char>,
    o1: Seq<char>,
    t1: Seq<char>,
    p2: Proposal,
    k2: Seq<char>,
    n2: Seq<char>,
    e2: Seq<char>,
    o2: Seq<char>,
    t2: Seq<char>,
)
    requires
        receipt_document(p1, k1, n1, e1, o1, t1) == receipt_document(p2, k2, n2, e2, o2, t2),
    ensures
        opt_view(p1.client_email) == opt_view(p2.client_email),
        p1.client_name@ == p2.client_name@,
        p1.currency@ == p2.currency@,
        opt_view(p1.freelancer_email) == opt_view(p2.freelancer_email),
        p1.freelancer_name@ == p2.freelancer_name@,
        items_terms(p1.items@) == items_terms(p2.items@),
        p1.created_at@ == p2.created_at@,
        p1.id@ == p2.id@,
        p1.title@ == p2.title@,
        k1 == k2,
        n1 == n2,
        e1 == e2,
        o1 == o2,
        t1 == t2,
{
    let d1 = decision_json(k1, n1, e1, o1, t1);
    let d2 = decision_json(k2, n2, e2, o2, t2);
    lemma_head_unique(p1, d1 + receipt_tail(p1), p2, d2 + receipt_tail(p2));
    lemma_decision_json_unique(k1, n1, e1, o1, t1, receipt_tail(p1), k2, n2, e2, o2, t2, receipt_tail(p2));
    lemma_tail_unique(p1, p2);
}

} // verus!
