//! The capsule images of apps.

use vstd::prelude::*;

use crate::decimal::{decimal, push_decimal};

verus! {

/// How long a logo may take, in seconds. Logos are cosmetic, so a slow answer
/// must not hold up the game list.
pub const REQUEST_TIMEOUT_SECS: u64 = 5;

/// The address of an app's capsule image.
pub open spec fn logo_address(app_id: u64) -> Seq<char> {
    "https://cdn.akamai.steamstatic.com/steam/apps/"@ + decimal(app_id as nat)
        + "/capsule_184x69.jpg"@
}

/// The address of the capsule image Steam serves for every app id.
pub fn logo_url(app_id: u64) -> (url: String)
    ensures
        url@ == logo_address(app_id),
        url@ == "https://cdn.akamai.steamstatic.com/steam/apps/"@ + decimal(app_id as nat)
            + "/capsule_184x69.jpg"@,
{
    let mut url = "https://cdn.akamai.steamstatic.com/steam/apps/".to_owned();
    push_decimal(&mut url, app_id);
    url.append("/capsule_184x69.jpg");
    url
}

} // verus!
