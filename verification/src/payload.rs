//! The product payload: the shape the remote JSON decodes to, the fixed
//! "known not in stock" baseline, structural equality, the stock signal, and
//! a textual rendering used in notification messages.

use vstd::prelude::*;
use vstd::string::StringExecFns;
use crate::text::{decimal_string_i64, i64_to_string};

verus! {

/// Nested stock-status record of the product payload.
#[derive(PartialEq, Eq, Structural, Clone, Copy, Debug)]
pub struct MasterPayload {
    pub in_stock: bool,
    pub total_on_hand: i64,
}

/// The product payload: an update timestamp, a top-level on-hand count, and
/// the nested stock-status record.
#[derive(Debug)]
pub struct ResponsePayload {
    pub updated_at: String,
    pub total_on_hand: i64,
    pub master: MasterPayload,
}

/// Mathematical model of `MasterPayload`.
#[verifier::ext_equal]
pub struct MasterView {
    pub in_stock: bool,
    pub total_on_hand: int,
}

/// Mathematical model of `ResponsePayload`.
#[verifier::ext_equal]
pub struct ResponseView {
    pub updated_at: Seq<char>,
    pub total_on_hand: int,
    pub master: MasterView,
}

impl View for MasterPayload {
    type V = MasterView;

    open spec fn view(&self) -> MasterView {
        MasterView { in_stock: self.in_stock, total_on_hand: self.total_on_hand as int }
    }
}

impl View for ResponsePayload {
    type V = ResponseView;

    open spec fn view(&self) -> ResponseView {
        ResponseView {
            updated_at: self.updated_at@,
            total_on_hand: self.total_on_hand as int,
            master: self.master@,
        }
    }
}

impl Clone for ResponsePayload {
    fn clone(&self) -> (r: Self)
        ensures
            r@ == self@,
    {
        ResponsePayload {
            updated_at: self.updated_at.clone(),
            total_on_hand: self.total_on_hand,
            master: self.master,
        }
    }
}

impl PartialEq for ResponsePayload {
    /// Structural equality: every field equal, the nested record included.
    fn eq(&self, other: &Self) -> (r: bool) {
        let same = self.updated_at == other.updated_at && self.total_on_hand
            == other.total_on_hand && self.master == other.master;
        proof {
            if same {
                assert(self@ =~= other@);
            }
        }
        same
    }
}

impl Eq for ResponsePayload {

}

impl vstd::std_specs::cmp::PartialEqSpecImpl for ResponsePayload {
    open spec fn obeys_eq_spec() -> bool {
        true
    }

    open spec fn eq_spec(&self, other: &Self) -> bool {
        self@ == other@
    }
}

/// The baseline: the payload the product page serves while the product is
/// definitely not in stock.
pub open spec fn spec_expected_response() -> ResponseView {
    ResponseView {
        updated_at: "2021-02-10T02:09:37.000Z"@,
        total_on_hand: 0,
        master: MasterView { in_stock: false, total_on_hand: 0 },
    }
}

/// Builds the baseline payload value.
pub fn expected_response() -> (r: ResponsePayload)
    ensures
        r@ == spec_expected_response(),
{
    let r = ResponsePayload {
        updated_at: String::from_str("2021-02-10T02:09:37.000Z"),
        total_on_hand: 0,
        master: MasterPayload { in_stock: false, total_on_hand: 0 },
    };
    proof {
        assert(r@ =~= spec_expected_response());
    }
    r
}

/// A payload signals possible stock when either on-hand count is positive or
/// the in-stock flag is set.
pub open spec fn spec_stock_signal(p: ResponseView) -> bool {
    p.total_on_hand > 0 || p.master.total_on_hand > 0 || p.master.in_stock
}

/// Whether the payload signals that stock may be available.
pub fn stock_signal(p: &ResponsePayload) -> (r: bool)
    ensures
        r == spec_stock_signal(p@),
{
    p.total_on_hand > 0 || p.master.total_on_hand > 0 || p.master.in_stock
}

pub open spec fn spec_bool_str(b: bool) -> Seq<char> {
    if b {
        "true"@
    } else {
        "false"@
    }
}

/// The textual rendering of a payload, as embedded in notification messages.
pub open spec fn spec_render_payload(p: ResponseView) -> Seq<char> {
    "ResponsePayload { updated_at: \""@ + p.updated_at + "\", total_on_hand: "@
        + decimal_string_i64(p.total_on_hand) + ", master: MasterPayload { in_stock: "@
        + spec_bool_str(p.master.in_stock) + ", total_on_hand: "@
        + decimal_string_i64(p.master.total_on_hand) + " } }"@
}

/// Renders a payload as text for inclusion in a notification message.
pub fn render_payload(p: &ResponsePayload) -> (r: String)
    ensures
        r@ == spec_render_payload(p@),
{
    let mut s = String::from_str("ResponsePayload { updated_at: \"");
    s.append(p.updated_at.as_str());
    s.append("\", total_on_hand: ");
    let total = i64_to_string(p.total_on_hand);
    s.append(total.as_str());
    s.append(", master: MasterPayload { in_stock: ");
    if p.master.in_stock {
        s.append("true");
    } else {
        s.append("false");
    }
    s.append(", total_on_hand: ");
    let master_total = i64_to_string(p.master.total_on_hand);
    s.append(master_total.as_str());
    s.append(" } }");
    proof {
        assert(s@ =~= spec_render_payload(p@));
    }
    s
}

} // verus!
