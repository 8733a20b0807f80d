//! The CSV export of a receipt: one row per frozen scope item.

use vstd::prelude::*;
use vstd::string::*;
use crate::model::{LineItem, Proposal};
use crate::text::{chars_of, decimal, decimal_string, push_char};

verus! {

broadcast use vstd::string::group_string_axioms;

/// The body of a quoted CSV field: every double quote doubled.
pub open spec fn csv_escaped(s: Seq<char>) -> Seq<char>
    decreases s.len(),
{
    if s.len() == 0 {
        Seq::empty()
    } else if s.last() == '"' {
        csv_escaped(s.drop_last()) + seq!['"', '"']
    } else {
        csv_escaped(s.drop_last()).push(s.last())
    }
}

/// A quoted CSV field holding `s`.
pub open spec fn csv_quoted(s: Seq<char>) -> Seq<char> {
    seq!['"'] + csv_escaped(s) + seq!['"']
}

/// Quotes a CSV field: the value between double quotes, with each double
/// quote inside it doubled.
pub fn csv_field(value: &str) -> (f: String)
    ensures
        f@ == csv_quoted(value@),
{
    let v = chars_of(value);
    let mut f = String::new();
    push_char(&mut f, '"');
    let mut i: usize = 0;
    while i < v.len()
        invariant
            v@ == value@,
            i <= v@.len(),
            f@ == seq!['"'] + csv_escaped(v@.subrange(0, i as int)),
        decreases v@.len() - i,
    {
        let c = v[i];
        if c == '"' {
            push_char(&mut f, '"');
            push_char(&mut f, '"');
        } else {
            push_char(&mut f, c);
        }
        let ghost prefix = v@.subrange(0, i + 1);
        assert(prefix.drop_last() =~= v@.subrange(0, i as int));
        assert(f@ =~= seq!['"'] + csv_escaped(prefix));
        i = i + 1;
    }
    assert(v@.subrange(0, v@.len() as int) =~= v@);
    push_char(&mut f, '"');
    assert(f@ =~= csv_quoted(value@));
    f
}

/// The header line of the CSV export.
pub open spec fn csv_header() -> Seq<char> {
    "proposal_id,title,item,description,quantity,unit_amount_cents,currency,decision,decided_at,receipt_hash\r\n"@
}

/// The decision columns: kind, time and seal, or `pending` and two empty
/// fields while undecided.
pub open spec fn decision_columns(p: Proposal) -> Seq<char> {
    match p.decision {
        Some(d) => csv_quoted(d.kind@) + ","@ + csv_quoted(d.decided_at@) + ","@ + csv_quoted(
            d.receipt_hash@,
        ),
        None => csv_quoted("pending"@) + ","@ + csv_quoted(Seq::empty()) + ","@ + csv_quoted(
            Seq::empty(),
        ),
    }
}

/// The proposal and item columns of a row.
pub open spec fn item_columns(p: Proposal, item: LineItem) -> Seq<char> {
    csv_quoted(p.id@) + ","@ + csv_quoted(p.title@) + ","@ + csv_quoted(item.label@) + ","@
        + csv_quoted(item.description@) + ","@ + decimal(item.quantity as int) + ","@ + decimal(
        item.unit_amount_cents as int,
    ) + ","@ + csv_quoted(p.currency@)
}

/// The CSV row of one scope item, with its line break.
pub open spec fn csv_row(p: Proposal, item: LineItem) -> Seq<char> {
    item_columns(p, item) + ","@ + decision_columns(p) + "\r\n"@
}

/// The rows of the given items, in order.
pub open spec fn csv_rows(p: Proposal, items: Seq<LineItem>) -> Seq<char>
    decreases items.len(),
{
    if items.len() == 0 {
        Seq::empty()
    } else {
        csv_rows(p, items.drop_last()) + csv_row(p, items.last())
    }
}

/// The whole CSV export of a proposal.
pub open spec fn receipt_csv_text(p: Proposal) -> Seq<char> {
    csv_header() + csv_rows(p, p.items@)
}

fn push_field(out: &mut String, value: &str)
    ensures
        final(out)@ == old(out)@ + csv_quoted(value@),
{
    let f = csv_field(value);
    out.append(f.as_str());
}

fn push_item_columns(out: &mut String, p: &Proposal, item: &LineItem)
    ensures
        final(out)@ == old(out)@ + item_columns(*p, *item),
{
    let ghost start = out@;
    push_field(out, p.id.as_str());
    out.append(",");
    push_field(out, p.title.as_str());
    out.append(",");
    push_field(out, item.label.as_str());
    out.append(",");
    push_field(out, item.description.as_str());
    out.append(",");
    let q = decimal_string(item.quantity);
    out.append(q.as_str());
    out.append(",");
    let u = decimal_string(item.unit_amount_cents);
    out.append(u.as_str());
    out.append(",");
    push_field(out, p.currency.as_str());
    assert(out@ =~= start + item_columns(*p, *item));
}

fn push_decision_columns(out: &mut String, p: &Proposal)
    ensures
        final(out)@ == old(out)@ + decision_columns(*p),
{
    let ghost start = out@;
    match &p.decision {
        Some(d) => {
            push_field(out, d.kind.as_str());
            out.append(",");
            push_field(out, d.decided_at.as_str());
            out.append(",");
            push_field(out, d.receipt_hash.as_str());
        },
        None => {
            proof {
                reveal_strlit("");
            }
            push_field(out, "pending");
            out.append(",");
            push_field(out, "");
            out.append(",");
            push_field(out, "");
        },
    }
    assert(out@ =~= start + decision_columns(*p));
}

fn push_row(out: &mut String, p: &Proposal, item: &LineItem)
    ensures
        final(out)@ == old(out)@ + csv_row(*p, *item),
{
    let ghost start = out@;
    push_item_columns(out, p, item);
    out.append(",");
    push_decision_columns(out, p);
    out.append("\r\n");
    assert(out@ =~= start + csv_row(*p, *item));
}

/// Writes the CSV export: the header, then one row per scope item with the
/// proposal, the item and the decision columns.
pub fn receipt_csv(p: &Proposal) -> (csv: String)
    ensures
        csv@ == receipt_csv_text(*p),
{
    let mut out = String::new();
    out.append(
        "proposal_id,title,item,description,quantity,unit_amount_cents,currency,decision,decided_at,receipt_hash\r\n",
    );
    let ghost start = out@;
    let mut i: usize = 0;
    assert(p.items@.subrange(0, 0) =~= Seq::<LineItem>::empty());
    while i < p.items.len()
        invariant
            i <= p.items@.len(),
            start == csv_header(),
            out@ == start + csv_rows(*p, p.items@.subrange(0, i as int)),
        decreases p.items@.len() - i,
    {
        let ghost prefix = p.items@.subrange(0, i + 1);
        assert(prefix.drop_last() =~= p.items@.subrange(0, i as int));
        push_row(&mut out, p, &p.items[i]);
        assert(out@ =~= start + csv_rows(*p, prefix));
        i = i + 1;
    }
    assert(p.items@.subrange(0, p.items@.len() as int) =~= p.items@);
    out
}

/// The number of double quotes in `s`.
pub open spec fn quote_count(s: Seq<char>) -> nat
    decreases s.len(),
{
    if s.len() == 0 {
        0
    } else if s.last() == '"' {
        quote_count(s.drop_last()) + 1
    } else {
        quote_count(s.drop_last())
    }
}

/// Reading a quoted field's body back: each doubled quote, taken from the
/// left, becomes one quote (`str::replace("\"\"", "\"")`).
pub open spec fn csv_unescaped(t: Seq<char>) -> Seq<char>
    decreases t.len(),
{
    if t.len() == 0 {
        Seq::empty()
    } else if t.len() >= 2 && t[0] == '"' && t[1] == '"' {
        seq!['"'] + csv_unescaped(t.skip(2))
    } else {
        seq![t[0]] + csv_unescaped(t.drop_first())
    }
}

/// The escaped body built from the front.
spec fn csv_escaped_front(s: Seq<char>) -> Seq<char>
    decreases s.len(),
{
    if s.len() == 0 {
        Seq::empty()
    } else if s[0] == '"' {
        seq!['"', '"'] + csv_escaped_front(s.drop_first())
    } else {
        seq![s[0]] + csv_escaped_front(s.drop_first())
    }
}

proof fn lemma_csv_front_push(s: Seq<char>, c: char)
    ensures
        csv_escaped_front(s.push(c)) == csv_escaped_front(s) + (if c == '"' {
            seq!['"', '"']
        } else {
            seq![c]
        }),
    decreases s.len(),
{
    let tail = if c == '"' {
        seq!['"', '"']
    } else {
        seq![c]
    };
    if s.len() == 0 {
        assert(s.push(c).drop_first() =~= Seq::<char>::empty());
        assert(s.push(c)[0] == c);
        assert(csv_escaped_front(Seq::<char>::empty()) == Seq::<char>::empty());
        assert(csv_escaped_front(s.push(c)) =~= csv_escaped_front(s) + tail);
    } else {
        assert(s.push(c).drop_first() =~= s.drop_first().push(c));
        assert(s.push(c)[0] == s[0]);
        lemma_csv_front_push(s.drop_first(), c);
        assert(csv_escaped_front(s.push(c)) =~= csv_escaped_front(s) + tail);
    }
}

proof fn lemma_csv_escaped_front(s: Seq<char>)
    ensures
        csv_escaped(s) == csv_escaped_front(s),
    decreases s.len(),
{
    if s.len() > 0 {
        lemma_csv_escaped_front(s.drop_last());
        lemma_csv_front_push(s.drop_last(), s.last());
        assert(s.drop_last().push(s.last()) =~= s);
        if s.last() == '"' {
            assert(csv_escaped(s) =~= csv_escaped(s.drop_last()) + seq!['"', '"']);
        } else {
            assert(csv_escaped(s) =~= csv_escaped(s.drop_last()) + seq![s.last()]);
        }
    }
}

proof fn lemma_csv_unescape_front(s: Seq<char>)
    ensures
        csv_unescaped(csv_escaped_front(s)) == s,
    decreases s.len(),
{
    if s.len() > 0 {
        lemma_csv_unescape_front(s.drop_first());
        let rest = csv_escaped_front(s.drop_first());
        let t = csv_escaped_front(s);
        if s[0] == '"' {
            assert(t == seq!['"', '"'] + rest);
            assert(t.skip(2) =~= rest);
            assert(t[0] == '"' && t[1] == '"');
        } else {
            assert(t == seq![s[0]] + rest);
            assert(t.drop_first() =~= rest);
            assert(t[0] == s[0]);
        }
        assert(s =~= seq![s[0]] + s.drop_first());
    }
}

proof fn lemma_csv_escaped_len(s: Seq<char>)
    ensures
        csv_escaped(s).len() == s.len() + quote_count(s),
    decreases s.len(),
{
    if s.len() > 0 {
        lemma_csv_escaped_len(s.drop_last());
    }
}

/// A quoted CSV field is two characters plus one per double quote longer
/// than its value, starts and ends with a double quote, and reading its
/// body back (each doubled quote becoming one) gives the value.
pub proof fn csv_field_reads_back(s: Seq<char>)
    ensures
        csv_quoted(s).len() == s.len() + 2 + quote_count(s),
        csv_quoted(s)[0] == '"',
        csv_quoted(s).last() == '"',
        csv_unescaped(csv_quoted(s).subrange(1, csv_quoted(s).len() - 1)) == s,
{
    lemma_csv_escaped_len(s);
    lemma_csv_escaped_front(s);
    lemma_csv_unescape_front(s);
    let q = csv_quoted(s);
    assert(q.subrange(1, q.len() - 1) =~= csv_escaped(s));
}

} // verus!
