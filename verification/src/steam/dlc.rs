//! What the Steam store says of an app and its DLC.

use vstd::prelude::*;

use crate::decimal::{decimal, push_decimal, to_decimal};
use crate::json::{parse_json, parsed_json, Json, JsonView};

verus! {

/// How long the store may take to answer, in seconds. DLC discovery only
/// decides whether to show a dropdown, so a slow answer must not hold up the
/// selection of a game.
pub const REQUEST_TIMEOUT_SECS: u64 = 10;

/// The address of the store's details of an app.
pub open spec fn details_address(app_id: u64) -> Seq<char> {
    "https://store.steampowered.com/api/appdetails?appids="@ + decimal(app_id as nat)
        + "&filters=basic"@
}

/// The address of the store's details of an app. `basic` is the filter group
/// that holds both the name and the DLC.
pub fn app_details_url(app_id: u64) -> (url: String)
    ensures
        url@ == details_address(app_id),
        url@ == "https://store.steampowered.com/api/appdetails?appids="@ + decimal(app_id as nat)
            + "&filters=basic"@,
{
    let mut url = "https://store.steampowered.com/api/appdetails?appids=".to_owned();
    push_decimal(&mut url, app_id);
    url.append("&filters=basic");
    url
}

/// The store found the app.
pub open spec fn succeeded(app: JsonView) -> bool {
    app.at("success"@).as_bool() == Some(true)
}

/// The unsigned integers among the items, in order.
pub open spec fn integers(items: Seq<JsonView>) -> Seq<u64>
    decreases items.len(),
{
    if items.len() == 0 {
        Seq::empty()
    } else {
        match items.last().as_u64() {
            Some(value) => integers(items.drop_last()).push(value),
            None => integers(items.drop_last()),
        }
    }
}

/// The part of the store's answer that is about the app.
pub open spec fn app_part(response: JsonView, app_id: u64) -> JsonView {
    response.at(decimal(app_id as nat))
}

/// The DLC that the store's answer lists for the app.
pub open spec fn listed_dlc(response: JsonView, app_id: u64) -> Seq<u64> {
    let app = app_part(response, app_id);
    if succeeded(app) {
        match app.at("data"@).at("dlc"@) {
            JsonView::Array(items) => integers(items),
            _ => Seq::empty(),
        }
    } else {
        Seq::empty()
    }
}

/// The name that the store's answer gives the app.
pub open spec fn listed_name(response: JsonView, app_id: u64) -> Option<Seq<char>> {
    let app = app_part(response, app_id);
    if succeeded(app) {
        app.at("data"@).at("name"@).as_text()
    } else {
        None
    }
}

/// Whether the store found the app.
pub fn is_successful(app: &Json) -> (yes: bool)
    ensures
        yes == succeeded(app@),
{
    match app.at("success").as_bool() {
        Some(value) => value,
        None => false,
    }
}

/// The DLC that the store's answer lists for the app.
pub fn extract_dlc_app_ids(response: &Json, app_id: u64) -> (dlc: Vec<u64>)
    ensures
        dlc@ == listed_dlc(response@, app_id),
{
    let mut dlc: Vec<u64> = Vec::new();
    let key = to_decimal(app_id);
    let app = response.at(key.as_str());
    if !is_successful(app) {
        return dlc;
    }
    let listed = app.at("data").at("dlc");
    if let Json::Array(items) = listed {
        let ghost all = listed@->Array_0;
        let mut i: usize = 0;
        while i < items.len()
            invariant
                i <= items@.len(),
                *listed == Json::Array(*items),
                all == listed@->Array_0,
                dlc@ == integers(all.take(i as int)),
            decreases items@.len() - i,
        {
            assert(all.take(i + 1).drop_last() =~= all.take(i as int));
            assert(all.take(i + 1).last() == items@[i as int]@);
            if let Some(value) = items[i].as_u64() {
                dlc.push(value);
            }
            i = i + 1;
        }
        assert(all.take(i as int) =~= all);
    }
    dlc
}

/// The name that the store's answer gives the app.
pub fn extract_name(response: &Json, app_id: u64) -> (name: Option<String>)
    ensures
        match name {
            Some(name) => listed_name(response@, app_id) == Some(name@),
            None => listed_name(response@, app_id) is None,
        },
{
    let key = to_decimal(app_id);
    let app = response.at(key.as_str());
    if !is_successful(app) {
        return None;
    }
    match app.at("data").at("name").as_text() {
        Some(name) => Some(name.to_owned()),
        None => None,
    }
}

/// The DLC app ids in the body of the store's answer; none where there was no
/// answer or it cannot be read.
pub fn fetch_dlc_app_ids(app_id: u64, body: Option<&str>) -> (dlc: Vec<u64>)
    ensures
        dlc@ == match body {
            Some(body) => match parsed_json(body@) {
                Some(response) => listed_dlc(response, app_id),
                None => Seq::empty(),
            },
            None => Seq::empty(),
        },
{
    match body {
        Some(body) => match parse_json(body) {
            Some(response) => extract_dlc_app_ids(&response, app_id),
            None => Vec::new(),
        },
        None => Vec::new(),
    }
}

/// The app's store name in the body of the store's answer, which resolves the
/// display name of a DLC; none where there was no answer or it cannot be read.
pub fn fetch_app_name(app_id: u64, body: Option<&str>) -> (name: Option<String>)
    ensures
        ({
            let expected = match body {
                Some(body) => match parsed_json(body@) {
                    Some(response) => listed_name(response, app_id),
                    None => None,
                },
                None => None,
            };
            match name {
                Some(name) => expected == Some(name@),
                None => expected is None,
            }
        }),
{
    match body {
        Some(body) => match parse_json(body) {
            Some(response) => extract_name(&response, app_id),
            None => None,
        },
        None => None,
    }
}

/// An answer without success tells neither DLC nor a name.
pub proof fn failure_tells_nothing(response: JsonView, app_id: u64)
    requires
        app_part(response, app_id).at("success"@).as_bool() != Some(true),
    ensures
        listed_dlc(response, app_id).len() == 0,
        listed_name(response, app_id) is None,
{
}

} // verus!
