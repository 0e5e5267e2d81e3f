//! The address an overlay loads its content from.
//!
//! An address is first written as text and then read by the `url` crate,
//! which checks it and brings it into its normal form.

use crate::overlay::PopupMode;
use crate::text::{decimal, decimal_spec, joined};
use vstd::prelude::*;

verus! {

/// Where the front end is served while it is being developed.
pub open spec fn dev_origin() -> Seq<char> {
    "http://localhost:1420/"@
}

/// Where the front end is served once it is bundled.
pub open spec fn bundled_origin() -> Seq<char> {
    "arcana://localhost/"@
}

pub open spec fn origin(dev: bool) -> Seq<char> {
    if dev {
        dev_origin()
    } else {
        bundled_origin()
    }
}

/// What `url::Url::parse` makes of a text: the address in its normal
/// form, or the words of the error it reports.
pub uninterp spec fn parsed_url(text: Seq<char>) -> Result<Seq<char>, Seq<char>>;

pub open spec fn result_text(r: Result<String, String>) -> Result<Seq<char>, Seq<char>> {
    match r {
        Ok(t) => Ok(t@),
        Err(e) => Err(e@),
    }
}

/// `url::Url::parse`, with the address it accepts turned back into text
/// and the error it reports turned into its message. The contract only
/// names the result: nothing is claimed about which texts are accepted.
#[verifier::external_body]
fn parse_url(text: &str) -> (r: Result<String, String>)
    ensures
        result_text(r) == parsed_url(text@),
{
    match url::Url::parse(text) {
        Ok(address) => Ok(String::from(address)),
        Err(error) => Err(error.to_string()),
    }
}

/// What a caller is told about an address that was read: the address
/// itself, or the error behind the words `Invalid URL: `.
pub open spec fn url_verdict(parsed: Result<Seq<char>, Seq<char>>) -> Result<Seq<char>, Seq<char>> {
    match parsed {
        Ok(address) => Ok(address),
        Err(error) => Err("Invalid URL: "@ + error),
    }
}

/// Turns the outcome of reading an address into what the caller is told.
pub fn url_from_parse(parsed: Result<String, String>) -> (r: Result<String, String>)
    ensures
        result_text(r) == url_verdict(result_text(parsed)),
{
    match parsed {
        Ok(address) => Ok(address),
        Err(error) => Err(joined("Invalid URL: ", error.as_str())),
    }
}

/// Reads an address and gives it back in its normal form.
pub fn checked_url(text: &str) -> (r: Result<String, String>)
    ensures
        result_text(r) == url_verdict(parsed_url(text@)),
{
    url_from_parse(parse_url(text))
}

/// The height an overlay is told it may grow to: the available height,
/// kept within what the address can carry.
pub fn max_height_param(max_height: i64) -> (r: u32)
    ensures
        r == (if max_height < 0 {
            0
        } else if max_height > u32::MAX {
            u32::MAX as int
        } else {
            max_height as int
        }),
{
    if max_height < 0 {
        0
    } else if max_height > u32::MAX as i64 {
        u32::MAX
    } else {
        max_height as u32
    }
}

/// The address of a popover as it is written before it is read.
pub open spec fn popover_url_spec(popover_id: Seq<char>, max_height: nat, dev: bool) -> Seq<char> {
    origin(dev) + "?popover="@ + popover_id + "&maxHeight="@ + decimal_spec(max_height)
}

fn origin_text(dev: bool) -> (r: &'static str)
    ensures
        r@ == origin(dev),
{
    if dev {
        "http://localhost:1420/"
    } else {
        "arcana://localhost/"
    }
}

/// Writes the address of a popover.
pub fn popover_url_text(popover_id: &str, max_height: u32, dev: bool) -> (r: String)
    ensures
        r@ == popover_url_spec(popover_id@, max_height as nat, dev),
{
    let mut out: String = joined(origin_text(dev), "?popover=");
    out.append(popover_id);
    out.append("&maxHeight=");
    let height: String = decimal(max_height);
    out.append(height.as_str());
    out
}

/// Writes the address of a popover and has it read.
pub fn build_popover_url(popover_id: &str, max_height: u32, dev: bool) -> (r: Result<String, String>)
    ensures
        result_text(r) == url_verdict(parsed_url(popover_url_spec(popover_id@, max_height as nat, dev))),
{
    let text: String = popover_url_text(popover_id, max_height, dev);
    checked_url(text.as_str())
}

/// The word for a mode in an address.
pub open spec fn mode_word(mode: PopupMode) -> Seq<char> {
    match mode {
        PopupMode::Toggle => "toggle"@,
        PopupMode::Hover => "hover"@,
        PopupMode::HoverSticky => "hover-sticky"@,
    }
}

/// Gives the word for a mode in an address.
pub fn mode_text(mode: PopupMode) -> (r: &'static str)
    ensures
        r@ == mode_word(mode),
{
    match mode {
        PopupMode::Toggle => "toggle",
        PopupMode::Hover => "hover",
        PopupMode::HoverSticky => "hover-sticky",
    }
}

/// The address of a popup as it is written before it is read.
pub open spec fn popup_url_spec(popup_id: Seq<char>, mode: PopupMode, dev: bool) -> Seq<char> {
    origin(dev) + "?popup="@ + popup_id + "&mode="@ + mode_word(mode)
}

/// Writes the address of a popup.
pub fn popup_url_text(popup_id: &str, mode: PopupMode, dev: bool) -> (r: String)
    ensures
        r@ == popup_url_spec(popup_id@, mode, dev),
{
    let mut out: String = joined(origin_text(dev), "?popup=");
    out.append(popup_id);
    out.append("&mode=");
    out.append(mode_text(mode));
    out
}

/// Writes the address of a popup and has it read.
pub fn build_popup_url(popup_id: &str, mode: PopupMode, dev: bool) -> (r: Result<String, String>)
    ensures
        result_text(r) == url_verdict(parsed_url(popup_url_spec(popup_id@, mode, dev))),
{
    let text: String = popup_url_text(popup_id, mode, dev);
    checked_url(text.as_str())
}

} // verus!
