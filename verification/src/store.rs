//! The stored proposal record and what is read from it and written to it.

use vstd::prelude::*;
use vstd::string::*;
use crate::error::AppError;
use crate::model::{
    create_problem, validate_create, CreateProposal, CreatedProposal, Decision, Delivery, LineItem,
    ManagedProposal, Proposal,
};
use crate::seal::{token, token_digest, token_hash, token_shape};
use crate::clock::{current_year, now, utc_timestamp, year_text};
use crate::text::{ascii_upper, lowercase, lowercased, to_ascii_upper, trim, trimmed};

verus! {

broadcast use vstd::string::group_string_axioms;

/// One stored proposal: the frozen proposal, both link hashes, the client
/// link token (shown again in the management view) and the decision once
/// recorded.
#[derive(Debug)]
pub struct StoredProposal {
    pub id: String,
    pub client_token: String,
    pub client_token_hash: String,
    pub manage_token_hash: String,
    pub title: String,
    pub freelancer_name: String,
    pub freelancer_email: String,
    pub client_name: String,
    pub client_email: String,
    pub message: String,
    pub currency: String,
    pub items: Vec<LineItem>,
    pub created_at: String,
    pub decision: Option<Decision>,
}

/// The proposal as shown from a stored record: the private (management)
/// view carries both e-mail addresses, the client view neither.
pub open spec fn shown(s: StoredProposal, private: bool) -> Proposal {
    Proposal {
        id: s.id,
        title: s.title,
        freelancer_name: s.freelancer_name,
        freelancer_email: if private {
            Some(s.freelancer_email)
        } else {
            None
        },
        client_name: s.client_name,
        client_email: if private {
            Some(s.client_email)
        } else {
            None
        },
        message: s.message,
        currency: s.currency,
        items: s.items,
        created_at: s.created_at,
        decision: s.decision,
    }
}

impl StoredProposal {
    /// The proposal as shown; e-mail addresses only in the private view.
    pub fn into_proposal(self, private: bool) -> (p: Proposal)
        ensures
            p == shown(self, private),
    {
        let freelancer_email = if private {
            Some(self.freelancer_email)
        } else {
            None
        };
        let client_email = if private {
            Some(self.client_email)
        } else {
            None
        };
        Proposal {
            id: self.id,
            title: self.title,
            freelancer_name: self.freelancer_name,
            freelancer_email,
            client_name: self.client_name,
            client_email,
            message: self.message,
            currency: self.currency,
            items: self.items,
            created_at: self.created_at,
            decision: self.decision,
        }
    }

    /// The management view: the private proposal, the client link and the
    /// delivery queue.
    pub fn into_managed(self, delivery: Vec<Delivery>) -> (m: ManagedProposal)
        ensures
            m.proposal == shown(self, true),
            m.client_path@ == link_path('p', self.client_token@),
            m.delivery == delivery,
    {
        let client_path = client_path(self.client_token.as_str());
        ManagedProposal { proposal: self.into_proposal(true), client_path, delivery }
    }
}

/// The path of a link: `/p/<token>` for clients, `/m/<token>` for managers.
pub open spec fn link_path(kind: char, token: Seq<char>) -> Seq<char> {
    seq!['/', kind, '/'] + token
}

/// The client link path of a token.
pub fn client_path(token: &str) -> (p: String)
    ensures
        p@ == link_path('p', token@),
{
    let mut p = String::new();
    p.append("/p/");
    p.append(token);
    proof {
        reveal_strlit("/p/");
    }
    assert(p@ =~= link_path('p', token@));
    p
}

/// The management link path of a token.
pub fn manage_path(token: &str) -> (p: String)
    ensures
        p@ == link_path('m', token@),
{
    let mut p = String::new();
    p.append("/m/");
    p.append(token);
    proof {
        reveal_strlit("/m/");
    }
    assert(p@ =~= link_path('m', token@));
    p
}

/// The public id of a proposal: `CDR-<year>-` and the first eight characters
/// of a fresh token in upper case.
pub open spec fn proposal_id(year: Seq<char>, id_token: Seq<char>) -> Seq<char> {
    "CDR-"@ + year + "-"@ + id_token.take(8).map_values(|c: char| ascii_upper(c))
}

/// `s` is the record stored for a valid creation request: trimmed text,
/// trimmed lower-case addresses, the currency and items as given, both link
/// hashes, the client token, no decision yet.
pub open spec fn stores(
    s: StoredProposal,
    input: CreateProposal,
    secret: Seq<u8>,
    client_token: Seq<char>,
    manage_token: Seq<char>,
    id_token: Seq<char>,
    year: Seq<char>,
    created_at: Seq<char>,
) -> bool {
    &&& s.id@ == proposal_id(year, id_token)
    &&& s.client_token@ == client_token
    &&& s.client_token_hash@ == token_digest(secret, client_token)
    &&& s.manage_token_hash@ == token_digest(secret, manage_token)
    &&& s.title@ == trimmed(input.title@)
    &&& s.freelancer_name@ == trimmed(input.freelancer_name@)
    &&& s.freelancer_email@ == lowercased(trimmed(input.freelancer_email@))
    &&& s.client_name@ == trimmed(input.client_name@)
    &&& s.client_email@ == lowercased(trimmed(input.client_email@))
    &&& s.message@ == trimmed(input.message@)
    &&& s.currency@ == input.currency@
    &&& s.items == input.items
    &&& s.created_at@ == created_at
    &&& s.decision is None
}

/// Plans a new proposal from a creation request and the tokens drawn for
/// it: rejected with the message of the first broken rule, otherwise the
/// record to store and the answer with its id and both links.
pub fn plan_proposal(
    input: CreateProposal,
    secret: &[u8],
    client_token: &str,
    manage_token: &str,
    id_token: &str,
    year: &str,
    created_at: &str,
) -> (r: Result<(StoredProposal, CreatedProposal), AppError>)
    requires
        token_shape(id_token@),
    ensures
        r is Ok <==> create_problem(input) is None,
        r matches Err(e) ==> e matches AppError::BadRequest(m) && create_problem(input) == Some(m@),
        r matches Ok((s, c)) ==> {
            &&& stores(s, input, secret@, client_token@, manage_token@, id_token@, year@, created_at@)
            &&& c.id@ == s.id@
            &&& c.client_path@ == link_path('p', client_token@)
            &&& c.manage_path@ == link_path('m', manage_token@)
        },
{
    match validate_create(&input) {
        Ok(()) => {},
        Err(m) => {
            return Err(AppError::BadRequest(m.to_owned()));
        },
    }
    assert(vstd::utf8::is_ascii_chars(id_token@)) by {
        assert forall|i: int| 0 <= i < id_token@.len() implies '\0' <= #[trigger] id_token@[i]
            <= '\u{7f}' by {
            assert(crate::seal::url_safe_char(id_token@[i]));
        }
    }
    proof {
        vstd::utf8::is_ascii_chars_encode_utf8(id_token@);
    }
    let short = to_ascii_upper(id_token.substring_char(0, 8));
    let mut id = String::new();
    id.append("CDR-");
    id.append(year);
    id.append("-");
    id.append(short.as_str());
    assert(id@ =~= proposal_id(year@, id_token@));
    let created = CreatedProposal {
        id: id.clone(),
        client_path: client_path(client_token),
        manage_path: manage_path(manage_token),
    };
    let stored = StoredProposal {
        id,
        client_token: client_token.to_owned(),
        client_token_hash: token_hash(secret, client_token),
        manage_token_hash: token_hash(secret, manage_token),
        title: trim(input.title.as_str()).to_owned(),
        freelancer_name: trim(input.freelancer_name.as_str()).to_owned(),
        freelancer_email: lowercase(trim(input.freelancer_email.as_str())),
        client_name: trim(input.client_name.as_str()).to_owned(),
        client_email: lowercase(trim(input.client_email.as_str())),
        message: trim(input.message.as_str()).to_owned(),
        currency: input.currency,
        items: input.items,
        created_at: created_at.to_owned(),
        decision: None,
    };
    Ok((stored, created))
}

/// Creates a proposal: a request that breaks a rule is rejected before any
/// token is drawn; otherwise draws the client, management and id tokens,
/// reads the clock, and plans the record as `plan_proposal` does for those
/// values.
pub fn create_proposal(input: CreateProposal, secret: &[u8]) -> (r: Result<
    (StoredProposal, CreatedProposal),
    AppError,
>)
    ensures
        r is Ok <==> create_problem(input) is None,
        r matches Err(e) ==> e matches AppError::BadRequest(m) && create_problem(input) == Some(m@),
        r matches Ok((s, c)) ==> {
            &&& token_shape(s.client_token@)
            &&& exists|manage: Seq<char>, id_token: Seq<char>, year: Seq<char>, at: Seq<char>|
                #[trigger] stores(s, input, secret@, s.client_token@, manage, id_token, year, at)
                    && token_shape(manage) && token_shape(id_token) && year_text(year)
                    && utc_timestamp(at) && c.manage_path@ == link_path(
                    'm',
                    manage,
                )
            &&& c.id@ == s.id@
            &&& c.client_path@ == link_path('p', s.client_token@)
        },
{
    match validate_create(&input) {
        Ok(()) => {},
        Err(m) => {
            return Err(AppError::BadRequest(m.to_owned()));
        },
    }
    let client_token = token();
    let manage_token = token();
    let id_token = token();
    let year = current_year();
    let at = now();
    let ghost request = input;
    let r = plan_proposal(
        input,
        secret,
        client_token.as_str(),
        manage_token.as_str(),
        id_token.as_str(),
        year.as_str(),
        at.as_str(),
    );
    if let Ok((s, c)) = &r {
        assert(stores(*s, request, secret@, s.client_token@, manage_token@, id_token@, year@, at@));
    }
    r
}

/// What remains of a deleted proposal: its receipt seal, id and dates.
#[derive(Debug)]
pub struct Tombstone {
    pub receipt_hash: String,
    pub proposal_id: String,
    pub decided_at: String,
    pub deleted_at: String,
}

/// On deletion only a decided proposal leaves a tombstone, holding nothing
/// but its seal, its id and the two dates.
pub fn tombstone_for(
    proposal_id: String,
    receipt_hash: Option<String>,
    decided_at: Option<String>,
    deleted_at: String,
) -> (t: Option<Tombstone>)
    ensures
        t is Some <==> receipt_hash is Some && decided_at is Some,
        t matches Some(t) ==> {
            &&& Some(t.receipt_hash) == receipt_hash
            &&& t.proposal_id == proposal_id
            &&& Some(t.decided_at) == decided_at
            &&& t.deleted_at == deleted_at
        },
{
    match (receipt_hash, decided_at) {
        (Some(receipt_hash), Some(decided_at)) => Some(
            Tombstone { receipt_hash, proposal_id, decided_at, deleted_at },
        ),
        _ => None,
    }
}

} // verus!
