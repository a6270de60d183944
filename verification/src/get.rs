//! The Get module: querying one security by its CUSIP number.

use vstd::prelude::*;

use crate::treasury::error::AuctionResult;
use crate::treasury::error::AuctionResultError;
use crate::util::cusip_valid;
use crate::util::validate_cusip;

verus! {

/// Path of the single-security search endpoint.
pub const TREASURIES_URL: &'static str = "/securities/search";

/// The URL that [`Get::url`] builds.
pub open spec fn get_url_spec(host: Seq<char>, cusip: Seq<char>) -> Seq<char> {
    host + "/securities/search"@ + "?cusip="@ + cusip + "&format=json"@
}

/// Descriptor of a query for one security by CUSIP.  The service host starts
/// empty and is configured with [`Get::set_host`]; the caller performing the
/// request prepends it through [`Get::url`].
pub struct Get {
    /// The CUSIP queried.
    pub cusip: String,
    /// The service host, e.g. `https://www.treasurydirect.gov/TA_WS`.
    pub host: String,
}

impl Get {
    /// Creates a Get module from a CUSIP number; the host starts empty.
    pub fn new(cusip: &str) -> (r: Get)
        ensures
            r.cusip@ == cusip@,
            r.host@ == Seq::<char>::empty(),
    {
        Get { cusip: cusip.to_owned(), host: String::new() }
    }

    /// Sets the service host.
    pub fn set_host(&mut self, host: &str)
        ensures
            final(self).host@ == host@,
            final(self).cusip == old(self).cusip,
    {
        self.host = host.to_owned();
    }

    /// The query URL.
    pub fn url(&self) -> (r: String)
        ensures
            r@ == get_url_spec(self.host@, self.cusip@),
    {
        let mut url = self.host.clone();
        url.append(TREASURIES_URL);
        url.append("?cusip=");
        url.append(self.cusip.as_str());
        url.append("&format=json");
        proof {
            reveal_strlit("/securities/search");
            assert(url@ =~= get_url_spec(self.host@, self.cusip@));
        }
        url
    }

    /// The query URL, guarded by CUSIP validation: a malformed identifier is
    /// rejected here, before any request is made.
    pub fn validated_url(&self) -> (r: AuctionResult<String>)
        ensures
            cusip_valid(self.cusip@) ==> (r matches Ok(u) && u@ == get_url_spec(
                self.host@,
                self.cusip@,
            )),
            !cusip_valid(self.cusip@) ==> r == Err::<String, AuctionResultError>(
                AuctionResultError::ParseCusip,
            ),
    {
        if validate_cusip(self.cusip.as_str()) {
            Ok(self.url())
        } else {
            Err(AuctionResultError::ParseCusip)
        }
    }
}

} // verus!
