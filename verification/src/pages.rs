//! The pages that the two listeners answer with. Each shows the onion
//! address once it is known.


use crate::address::{address_view, is_onion_address, OnionAddress};
use crate::cell::AddressReader;
use vstd::prelude::*;
use vstd::string::StringExecFns;

verus! {

/// What the request handlers share: a reading end of the address cell.
pub struct AppState {
    pub onion_address: AddressReader,
}

impl Clone for AppState {
    /// Another state that reads the same cell.
    fn clone(&self) -> (other: Self)
        ensures
            other.onion_address.cell_id() == self.onion_address.cell_id(),
    {
        AppState { onion_address: self.onion_address.clone() }
    }
}

/// A link to `address`, between `before` and `after`.
pub open spec fn linked(before: Seq<char>, address: Seq<char>, after: Seq<char>) -> Seq<char> {
    before + "<a href=\"http://"@ + address + "\" rel=\"noopener noreferrer\">"@ + address
        + "</a>"@ + after
}

/// The page of the onion listener.
pub open spec fn onion_page(address: Option<Seq<char>>) -> Seq<char> {
    match address {
        Some(a) => linked(
            "<h1>Hello!</h1><p>You are connected via the Tor network (onion service).</p><p>Onion address: "@,
            a,
            "</p>"@,
        ),
        None => "<h1>Hello!</h1><p>You are connected via the Tor network (onion service).</p><p>Discovering onion address...</p>"@,
    }
}

/// The page of the public listener.
pub open spec fn public_page(address: Option<Seq<char>>) -> Seq<char> {
    match address {
        Some(a) => linked(
            "<h1>Hello!</h1><p>You are connected via the public endpoint. If you reached this through the Tor network, your connection is indirect; otherwise, you're connected directly.</p><p>Tor onion service: "@,
            a,
            "</p>"@,
        ),
        None => "<h1>Hello!</h1><p>You are connected via the public endpoint. If you reached this through the Tor network, your connection is indirect; otherwise, you're connected directly.</p><p>Onion address is not available yet.</p>"@,
    }
}

/// A link to `address`, between `before` and `after`.
fn link(before: &str, address: &OnionAddress, after: &str) -> (text: String)
    ensures
        text@ == linked(before@, address@, after@),
{
    let mut text = before.to_owned();
    text.append("<a href=\"http://");
    text.append(address.as_str());
    text.append("\" rel=\"noopener noreferrer\">");
    text.append(address.as_str());
    text.append("</a>");
    text.append(after);
    text
}

/// The page of the onion listener for a cell that holds `address`.
pub fn render_onion_page(address: &Option<OnionAddress>) -> (page: String)
    ensures
        page@ == onion_page(address_view(*address)),
{
    match address {
        Some(a) => link(
            "<h1>Hello!</h1><p>You are connected via the Tor network (onion service).</p><p>Onion address: ",
            a,
            "</p>",
        ),
        None => "<h1>Hello!</h1><p>You are connected via the Tor network (onion service).</p><p>Discovering onion address...</p>".to_owned(),
    }
}

/// The page of the public listener for a cell that holds `address`.
pub fn render_public_page(address: &Option<OnionAddress>) -> (page: String)
    ensures
        page@ == public_page(address_view(*address)),
{
    match address {
        Some(a) => link(
            "<h1>Hello!</h1><p>You are connected via the public endpoint. If you reached this through the Tor network, your connection is indirect; otherwise, you're connected directly.</p><p>Tor onion service: ",
            a,
            "</p>",
        ),
        None => "<h1>Hello!</h1><p>You are connected via the public endpoint. If you reached this through the Tor network, your connection is indirect; otherwise, you're connected directly.</p><p>Onion address is not available yet.</p>".to_owned(),
    }
}

/// Whether `seen` is what a look at the cell can give: nothing, or an
/// onion address.
pub open spec fn can_be_seen(seen: Option<Seq<char>>) -> bool {
    seen matches Some(a) ==> is_onion_address(a)
}

/// Answers a request on the onion listener: the page for what the cell
/// holds at the moment of the request.
pub fn onion_handler(state: &AppState) -> (page: String)
    ensures
        exists|seen: Option<Seq<char>>| can_be_seen(seen) && page@ == onion_page(seen),
{
    let address = state.onion_address.get();
    assert(can_be_seen(address_view(address)));
    render_onion_page(&address)
}

/// Answers a request on the public listener: the page for what the cell
/// holds at the moment of the request.
pub fn public_handler(state: &AppState) -> (page: String)
    ensures
        exists|seen: Option<Seq<char>>| can_be_seen(seen) && page@ == public_page(seen),
{
    let address = state.onion_address.get();
    assert(can_be_seen(address_view(address)));
    render_public_page(&address)
}

} // verus!
