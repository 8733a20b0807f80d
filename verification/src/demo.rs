//! The sample workspace that lets a visitor try the client's side.

use vstd::prelude::*;
use vstd::string::*;
use crate::model::{Decision, DemoWorkspace, LineItem, Proposal};

verus! {

broadcast use vstd::string::group_string_axioms;

/// `item` is a sample scope line with these texts, one unit, this price.
pub open spec fn sample_item(item: LineItem, label: Seq<char>, description: Seq<char>, cents: i64) -> bool {
    &&& item.label@ == label
    &&& item.description@ == description
    &&& item.quantity == 1
    &&& item.unit_amount_cents == cents
}

/// `p` is the fixed sample proposal of a demo session created at
/// `created_at`, carrying the session's decision.
pub open spec fn sample_proposal(p: Proposal, created_at: Seq<char>, decision: Option<Decision>) -> bool {
    &&& p.id@ == "CDR-DEMO-FERN"@
    &&& p.title@ == "Spring website refresh"@
    &&& p.freelancer_name@ == "Fern Studio"@
    &&& p.freelancer_email matches Some(e) && e@ == "hello@fernstudio.example"@
    &&& p.client_name@ == "Moss & Morning"@
    &&& p.client_email matches Some(e) && e@ == "team@mossandmorning.example"@
    &&& p.message@ == "This sample shows the scope a client reviews before work starts."@
    &&& p.currency@ == "USD"@
    &&& p.items@.len() == 3
    &&& sample_item(p.items@[0], "Planning workshop"@, "A 90-minute project workshop"@, 65000)
    &&& sample_item(
        p.items@[1],
        "Homepage design"@,
        "Desktop and mobile design direction"@,
        180000,
    )
    &&& sample_item(
        p.items@[2],
        "Build handoff"@,
        "Annotated files and implementation notes"@,
        75000,
    )
    &&& p.created_at@ == created_at
    &&& p.decision == decision
}

fn sample_line(label: &str, description: &str, cents: i64) -> (item: LineItem)
    ensures
        sample_item(item, label@, description@, cents),
{
    LineItem {
        label: label.to_owned(),
        description: description.to_owned(),
        quantity: 1,
        unit_amount_cents: cents,
    }
}

/// The workspace of a demo session: its id and expiry, and the sample
/// proposal created with the session, with the session's decision if any.
pub fn demo_workspace(
    id: String,
    expires_at: String,
    created_at: String,
    decision: Option<Decision>,
) -> (w: DemoWorkspace)
    ensures
        w.id == id,
        w.expires_at == expires_at,
        sample_proposal(w.proposal, created_at@, decision),
{
    let mut items: Vec<LineItem> = Vec::new();
    items.push(sample_line("Planning workshop", "A 90-minute project workshop", 65000));
    items.push(sample_line("Homepage design", "Desktop and mobile design direction", 180000));
    items.push(sample_line("Build handoff", "Annotated files and implementation notes", 75000));
    let proposal = Proposal {
        id: "CDR-DEMO-FERN".to_owned(),
        title: "Spring website refresh".to_owned(),
        freelancer_name: "Fern Studio".to_owned(),
        freelancer_email: Some("hello@fernstudio.example".to_owned()),
        client_name: "Moss & Morning".to_owned(),
        client_email: Some("team@mossandmorning.example".to_owned()),
        message: "This sample shows the scope a client reviews before work starts.".to_owned(),
        currency: "USD".to_owned(),
        items,
        created_at,
        decision,
    };
    DemoWorkspace { id, expires_at, proposal }
}

} // verus!
