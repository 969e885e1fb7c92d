//! Vendor attribution: the vendor of a hardware address, asked of a remote
//! lookup service.

use crate::outcome::{Outcome, OutcomeView};
use crate::text::option_text;
use vstd::prelude::*;

verus! {

/// The address of the lookup for a hardware address: the service's
/// endpoint with the text of the hardware address appended as it is.
pub open spec fn vendor_url_of(hardware: Seq<char>) -> Seq<char> {
    "https://api.macvendors.com/"@ + hardware
}

/// Whether a status code tells of success: it lies from 200 to 299.
pub open spec fn is_success(status: u16) -> bool {
    200 <= status < 300
}

/// The vendor according to the outcome of the lookup: the body of a
/// response whose status tells of success, where the body was read.
pub open spec fn vendor_answer(lookup: OutcomeView) -> Option<Seq<char>> {
    match lookup {
        OutcomeView::Responded { status, body } if is_success(status) => body,
        _ => None,
    }
}

/// `reqwest::StatusCode::from_u16` makes a status code of a number from 100
/// to 999 and refuses every other number; `StatusCode::is_success` tells
/// whether a status code lies from 200 to 299.
#[verifier::external_body]
fn success_class(status: u16) -> (class: Option<bool>)
    ensures
        class == if 100 <= status <= 999 {
            Some(is_success(status))
        } else {
            None::<bool>
        },
{
    match reqwest::StatusCode::from_u16(status) {
        Ok(code) => Some(code.is_success()),
        Err(_) => None,
    }
}

/// The address of the lookup for a hardware address.
pub fn vendor_url(hardware: &str) -> (url: String)
    ensures
        url@ == vendor_url_of(hardware@),
{
    let mut url = String::from_str("https://api.macvendors.com/");
    url.append(hardware);
    url
}

/// Whether a status code tells of success, so that the body of the
/// response is the vendor's name and is to be read.
pub fn status_is_success(status: u16) -> (ok: bool)
    ensures
        ok == is_success(status),
{
    match success_class(status) {
        Some(class) => class,
        None => false,
    }
}

/// The vendor according to the outcome of the lookup.
pub fn vendor_name(lookup: &Outcome) -> (r: Option<String>)
    ensures
        option_text(r) == vendor_answer(lookup@),
{
    match lookup {
        Outcome::Responded { status, body } => {
            if status_is_success(*status) {
                match body {
                    Some(text) => Some(text.clone()),
                    None => None,
                }
            } else {
                None
            }
        },
        _ => None,
    }
}

/// No vendor is known where the lookup got no response, and none where the
/// response has a status outside 200 to 299, whatever its body.
pub proof fn lemma_vendor_unknown(status: u16, body: Option<Seq<char>>)
    requires
        !is_success(status),
    ensures
        vendor_answer(OutcomeView::Unavailable) is None,
        vendor_answer(OutcomeView::Responded { status, body }) is None,
{
}

} // verus!
