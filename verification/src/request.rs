//! The fixed request that the locality fetch issues: one GET against the
//! aquaculture-register feature service, with a bounded timeout and two
//! fixed headers. Nothing about it is caller-configurable.

use vstd::prelude::*;

verus! {

/// The fixed query endpoint: the whole register as GeoJSON, up to 5000
/// records in one call.
pub open spec fn spec_locality_url() -> Seq<char> {
    "https://gis.fiskeridir.no/server/rest/services/Yggdrasil/Akvakulturregisteret/FeatureServer/0/query?where=1%3D1&outFields=*&f=geojson&outSR=4326&resultRecordCount=5000"@
}

/// The fixed `User-Agent` header value.
pub open spec fn spec_user_agent() -> Seq<char> {
    "FjordVind/1.0.0"@
}

/// The fixed `Accept` header value.
pub open spec fn spec_accept() -> Seq<char> {
    "application/json"@
}

/// The total timeout of one fetch, in seconds.
pub open spec fn spec_timeout_secs() -> u64 {
    60
}

/// Everything the transport needs for one fetch: the target URL, the total
/// timeout, and the two headers. Built afresh for each invocation; nothing
/// in it depends on the caller.
pub struct RequestDescriptor {
    pub url: String,
    pub timeout_secs: u64,
    pub user_agent: String,
    pub accept: String,
}

impl RequestDescriptor {
    /// A descriptor holds exactly the fixed constants.
    pub open spec fn well_formed(self) -> bool {
        &&& self.url@ == spec_locality_url()
        &&& self.timeout_secs == spec_timeout_secs()
        &&& self.user_agent@ == spec_user_agent()
        &&& self.accept@ == spec_accept()
    }
}

/// The request descriptor of the locality fetch.
pub fn request_descriptor() -> (r: RequestDescriptor)
    ensures
        r.well_formed(),
{
    RequestDescriptor {
        url: String::from_str(
            "https://gis.fiskeridir.no/server/rest/services/Yggdrasil/Akvakulturregisteret/FeatureServer/0/query?where=1%3D1&outFields=*&f=geojson&outSR=4326&resultRecordCount=5000",
        ),
        timeout_secs: 60,
        user_agent: String::from_str("FjordVind/1.0.0"),
        accept: String::from_str("application/json"),
    }
}

} // verus!
