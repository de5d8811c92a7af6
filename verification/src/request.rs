//! Request-side data and their wire bodies. Field naming on the wire is
//! camelCase, and every optional field is omitted entirely when absent — no
//! null placeholder is ever sent. Each body is pinned character for
//! character by its contract.
use vstd::prelude::*;
use vstd::string::StringExecFns;

use crate::json::append_bool;
use crate::json::append_quoted;
use crate::json::append_string_list;
use crate::json::bool_text;
use crate::json::join_member;
use crate::json::quoted;
use crate::json::string_list_spec;
use crate::PersonalNumber;

verus! {

/// The card-reader class an authentication may demand.
#[derive(Debug, Clone, Copy, PartialEq, Eq, Structural)]
pub enum CardReaderClass {
    Class1,
    Class2,
}

/// The wire literal for each card-reader class.
pub open spec fn card_reader_text(c: CardReaderClass) -> Seq<char> {
    match c {
        CardReaderClass::Class1 => "class1"@,
        CardReaderClass::Class2 => "class2"@,
    }
}

impl CardReaderClass {
    /// The exact wire literal for this class.
    pub fn encode(&self) -> (r: &'static str)
        ensures
            r@ == card_reader_text(*self),
    {
        match self {
            CardReaderClass::Class1 => "class1",
            CardReaderClass::Class2 => "class2",
        }
    }
}

/// Optional authentication policy. Every field defaults to absent so the
/// server applies its own policy.
#[derive(Debug, Clone)]
pub struct Requirement {
    pub certificate_policies: Option<Vec<String>>,
    pub allow_fingerprint: Option<bool>,
    pub auto_start_token_required: Option<bool>,
    pub issuer_cn: Option<bool>,
    pub card_reader: Option<CardReaderClass>,
}

/// The certificatePolicies member, or nothing when absent.
pub open spec fn frag_policies(q: Requirement) -> Seq<char> {
    match q.certificate_policies {
        Some(v) => "\"certificatePolicies\":"@ + string_list_spec(v@),
        None => Seq::empty(),
    }
}

/// The allowFingerprint member, or nothing when absent.
pub open spec fn frag_fingerprint(q: Requirement) -> Seq<char> {
    match q.allow_fingerprint {
        Some(b) => "\"allowFingerprint\":"@ + bool_text(b),
        None => Seq::empty(),
    }
}

/// The autoStartTokenRequired member, or nothing when absent.
pub open spec fn frag_auto_start(q: Requirement) -> Seq<char> {
    match q.auto_start_token_required {
        Some(b) => "\"autoStartTokenRequired\":"@ + bool_text(b),
        None => Seq::empty(),
    }
}

/// The issuerCn member, or nothing when absent.
pub open spec fn frag_issuer(q: Requirement) -> Seq<char> {
    match q.issuer_cn {
        Some(b) => "\"issuerCn\":"@ + bool_text(b),
        None => Seq::empty(),
    }
}

/// The cardReader member, or nothing when absent.
pub open spec fn frag_card_reader(q: Requirement) -> Seq<char> {
    match q.card_reader {
        Some(c) => "\"cardReader\":\""@ + card_reader_text(c) + "\""@,
        None => Seq::empty(),
    }
}

/// The five optional members joined in wire order: present ones separated
/// by commas, absent ones contributing nothing.
pub open spec fn requirement_members(q: Requirement) -> Seq<char> {
    join_member(
        join_member(
            join_member(
                join_member(join_member(Seq::empty(), frag_policies(q)), frag_fingerprint(q)),
                frag_auto_start(q),
            ),
            frag_issuer(q),
        ),
        frag_card_reader(q),
    )
}

/// The requirement object for the wire.
pub open spec fn requirement_json_spec(q: Requirement) -> Seq<char> {
    "{"@ + requirement_members(q) + "}"@
}

/// The personalNumber member, or nothing when absent.
pub open spec fn pn_part(p: Option<PersonalNumber>) -> Seq<char> {
    match p {
        Some(p) => ",\"personalNumber\":\""@ + p.render_spec() + "\""@,
        None => Seq::empty(),
    }
}

/// The requirement member, or nothing when absent.
pub open spec fn requirement_part(q: Option<Requirement>) -> Seq<char> {
    match q {
        Some(q) => ",\"requirement\":"@ + requirement_json_spec(q),
        None => Seq::empty(),
    }
}

/// An optional free-text member with the given lead-in, or nothing.
pub open spec fn text_part(key: Seq<char>, d: Option<String>) -> Seq<char> {
    match d {
        Some(x) => key + quoted(x@),
        None => Seq::empty(),
    }
}

/// Appends one present boolean member: a comma unless it opens the object,
/// then the key and the boolean literal.
fn append_bool_member(body: &mut String, first: bool, key: &'static str, b: bool)
    requires
        first <==> old(body)@.len() == 0,
    ensures
        final(body)@ == join_member(old(body)@, key@ + bool_text(b)),
        final(body)@.len() > 0,
{
    if !first {
        body.append(",");
    }
    body.append(key);
    append_bool(body, b);
    proof {
        reveal_strlit(",");
        reveal_strlit("true");
        reveal_strlit("false");
        assert(body@ =~= join_member(old(body)@, key@ + bool_text(b)));
    }
}

impl Requirement {
    /// Builds the exact requirement object for the wire.
    pub fn to_json(&self) -> (r: String)
        ensures
            r@ == requirement_json_spec(*self),
    {
        let ghost m0 = Seq::<char>::empty();
        let ghost m1 = join_member(m0, frag_policies(*self));
        let ghost m2 = join_member(m1, frag_fingerprint(*self));
        let ghost m3 = join_member(m2, frag_auto_start(*self));
        let ghost m4 = join_member(m3, frag_issuer(*self));
        let ghost m5 = join_member(m4, frag_card_reader(*self));
        let mut body = String::new();
        let mut first = true;
        if let Some(v) = &self.certificate_policies {
            body.append("\"certificatePolicies\":");
            append_string_list(&mut body, v);
            first = false;
            proof {
                reveal_strlit("\"certificatePolicies\":");
                assert(body@ =~= m1);
            }
        }
        proof {
            assert(body@ == m1);
            assert(first <==> m1.len() == 0);
        }
        if let Some(b) = &self.allow_fingerprint {
            append_bool_member(&mut body, first, "\"allowFingerprint\":", *b);
            first = false;
        }
        proof {
            assert(body@ == m2);
            assert(first <==> m2.len() == 0);
        }
        if let Some(b) = &self.auto_start_token_required {
            append_bool_member(&mut body, first, "\"autoStartTokenRequired\":", *b);
            first = false;
        }
        proof {
            assert(body@ == m3);
            assert(first <==> m3.len() == 0);
        }
        if let Some(b) = &self.issuer_cn {
            append_bool_member(&mut body, first, "\"issuerCn\":", *b);
            first = false;
        }
        proof {
            assert(body@ == m4);
            assert(first <==> m4.len() == 0);
        }
        if let Some(c) = &self.card_reader {
            if !first {
                body.append(",");
            }
            body.append("\"cardReader\":\"");
            body.append(c.encode());
            body.append("\"");
            proof {
                reveal_strlit(",");
                reveal_strlit("\"cardReader\":\"");
                assert(body@ =~= m5);
            }
        }
        proof {
            assert(body@ == m5);
        }
        let mut out = String::from_str("{");
        out.append(body.as_str());
        out.append("}");
        proof {
            assert(out@ =~= requirement_json_spec(*self));
        }
        out
    }
}

impl Default for Requirement {
    /// The all-absent requirement: the server applies its own defaults.
    fn default() -> (r: Requirement)
        ensures
            r.certificate_policies is None,
            r.allow_fingerprint is None,
            r.auto_start_token_required is None,
            r.issuer_cn is None,
            r.card_reader is None,
    {
        Requirement {
            certificate_policies: None,
            allow_fingerprint: None,
            auto_start_token_required: None,
            issuer_cn: None,
            card_reader: None,
        }
    }
}

/// A start-authentication request. The personal number is optional: when
/// absent the end user resolves identity interactively on the device.
#[derive(Debug, Clone)]
pub struct AuthRequest {
    pub end_user_ip: String,
    pub personal_number: Option<PersonalNumber>,
    pub requirement: Option<Requirement>,
}

/// The exact auth body: endUserIp always, personalNumber and requirement
/// only when present.
pub open spec fn auth_body_spec(r: AuthRequest) -> Seq<char> {
    "{\"endUserIp\":"@ + quoted(r.end_user_ip@) + pn_part(r.personal_number) + requirement_part(
        r.requirement,
    ) + "}"@
}

impl AuthRequest {
    /// A present personal number must carry renderable field values.
    pub open spec fn wf(self) -> bool {
        match self.personal_number {
            Some(p) => p.wf(),
            None => true,
        }
    }

    /// Builds the exact auth body for the wire.
    pub fn to_json(&self) -> (r: String)
        requires
            self.wf(),
        ensures
            r@ == auth_body_spec(*self),
    {
        let ghost g1 = "{\"endUserIp\":"@ + quoted(self.end_user_ip@);
        let ghost g2 = g1 + pn_part(self.personal_number);
        let ghost g3 = g2 + requirement_part(self.requirement);
        let mut out = String::from_str("{\"endUserIp\":");
        append_quoted(&mut out, self.end_user_ip.as_str());
        if let Some(p) = &self.personal_number {
            out.append(",\"personalNumber\":\"");
            let rendered = p.render();
            out.append(rendered.as_str());
            out.append("\"");
            proof {
                assert(out@ =~= g2);
            }
        }
        proof {
            assert(out@ == g2);
        }
        if let Some(q) = &self.requirement {
            out.append(",\"requirement\":");
            let rj = q.to_json();
            out.append(rj.as_str());
            proof {
                assert(out@ =~= g3);
            }
        }
        proof {
            assert(out@ == g3);
        }
        out.append("}");
        proof {
            assert(out@ =~= auth_body_spec(*self));
        }
        out
    }
}

/// A start-signature request: the auth shape plus the optional visible and
/// non-visible text to sign.
#[derive(Debug, Clone)]
pub struct SignRequest {
    pub end_user_ip: String,
    pub personal_number: Option<PersonalNumber>,
    pub requirement: Option<Requirement>,
    pub user_visible_data: Option<String>,
    pub user_non_visible_data: Option<String>,
}

/// The exact sign body; every optional member is omitted when absent.
pub open spec fn sign_body_spec(r: SignRequest) -> Seq<char> {
    "{\"endUserIp\":"@ + quoted(r.end_user_ip@) + pn_part(r.personal_number) + requirement_part(
        r.requirement,
    ) + text_part(",\"userVisibleData\":"@, r.user_visible_data) + text_part(
        ",\"userNonVisibleData\":"@,
        r.user_non_visible_data,
    ) + "}"@
}

impl SignRequest {
    /// A present personal number must carry renderable field values.
    pub open spec fn wf(self) -> bool {
        match self.personal_number {
            Some(p) => p.wf(),
            None => true,
        }
    }

    /// Builds the exact sign body for the wire.
    pub fn to_json(&self) -> (r: String)
        requires
            self.wf(),
        ensures
            r@ == sign_body_spec(*self),
    {
        let ghost g1 = "{\"endUserIp\":"@ + quoted(self.end_user_ip@);
        let ghost g2 = g1 + pn_part(self.personal_number);
        let ghost g3 = g2 + requirement_part(self.requirement);
        let ghost g4 = g3 + text_part(",\"userVisibleData\":"@, self.user_visible_data);
        let ghost g5 = g4 + text_part(",\"userNonVisibleData\":"@, self.user_non_visible_data);
        let mut out = String::from_str("{\"endUserIp\":");
        append_quoted(&mut out, self.end_user_ip.as_str());
        if let Some(p) = &self.personal_number {
            out.append(",\"personalNumber\":\"");
            let rendered = p.render();
            out.append(rendered.as_str());
            out.append("\"");
            proof {
                assert(out@ =~= g2);
            }
        }
        proof {
            assert(out@ == g2);
        }
        if let Some(q) = &self.requirement {
            out.append(",\"requirement\":");
            let rj = q.to_json();
            out.append(rj.as_str());
            proof {
                assert(out@ =~= g3);
            }
        }
        proof {
            assert(out@ == g3);
        }
        if let Some(d) = &self.user_visible_data {
            out.append(",\"userVisibleData\":");
            append_quoted(&mut out, d.as_str());
            proof {
                assert(out@ =~= g4);
            }
        }
        proof {
            assert(out@ == g4);
        }
        if let Some(d) = &self.user_non_visible_data {
            out.append(",\"userNonVisibleData\":");
            append_quoted(&mut out, d.as_str());
            proof {
                assert(out@ =~= g5);
            }
        }
        proof {
            assert(out@ == g5);
        }
        out.append("}");
        proof {
            assert(out@ =~= sign_body_spec(*self));
        }
        out
    }
}

/// The body shared by the collect and cancel operations: the order
/// reference alone.
pub open spec fn order_ref_body_spec(order_ref: Seq<char>) -> Seq<char> {
    "{\"orderRef\":"@ + quoted(order_ref) + "}"@
}

/// A single poll of an order's progress.
#[derive(Debug, Clone)]
pub struct CollectRequest {
    pub order_ref: String,
}

impl CollectRequest {
    /// Builds the exact collect body for the wire.
    pub fn to_json(&self) -> (r: String)
        ensures
            r@ == order_ref_body_spec(self.order_ref@),
    {
        let mut out = String::from_str("{\"orderRef\":");
        append_quoted(&mut out, self.order_ref.as_str());
        out.append("}");
        proof {
            assert(out@ =~= order_ref_body_spec(self.order_ref@));
        }
        out
    }
}

/// An explicit cancellation of an order.
#[derive(Debug, Clone)]
pub struct CancelRequest {
    pub order_ref: String,
}

impl CancelRequest {
    /// Builds the exact cancel body for the wire.
    pub fn to_json(&self) -> (r: String)
        ensures
            r@ == order_ref_body_spec(self.order_ref@),
    {
        let mut out = String::from_str("{\"orderRef\":");
        append_quoted(&mut out, self.order_ref.as_str());
        out.append("}");
        proof {
            assert(out@ =~= order_ref_body_spec(self.order_ref@));
        }
        out
    }
}

} // verus!
