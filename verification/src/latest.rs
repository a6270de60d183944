//! The Latest module: querying the most recent auction results.

use vstd::prelude::*;

use crate::decimal::dec_digits;
use crate::decimal::push_decimal;
use crate::tenor::Tenor;
use crate::treasury::matches_tenor;
use crate::treasury::treasury_type::type_label;
use crate::treasury::SecurityType;
use crate::treasury::Treasuries;
use crate::treasury::Treasury;

verus! {

/// Path of the auctioned-securities endpoint.
pub const AUCTIONED_URL: &'static str = "/securities/auctioned";

/// The URL that [`Latest::url`] builds: the type filter appears unless the
/// type is `Null`, the day filter appears unless the day count is zero (zero
/// means "no limit").
pub open spec fn latest_url_spec(host: Seq<char>, t: SecurityType, days: int) -> Seq<char> {
    let base = host + "/securities/auctioned"@;
    if !(t is Null) {
        if days > 0 {
            base + "?type="@ + type_label(t) + "&days="@ + dec_digits(days)
        } else {
            base + "?type="@ + type_label(t)
        }
    } else {
        if days > 0 {
            base + "?days="@ + dec_digits(days)
        } else {
            base
        }
    }
}

/// The tenor filter as a predicate on records.
pub open spec fn tenor_pred(t: Tenor) -> spec_fn(Treasury) -> bool {
    |x: Treasury| matches_tenor(x@, t)
}

/// Descriptor of a query for the latest auctions: a security type filter
/// (`Null` for none), a day-count lookback (`0` for no limit), and a tenor
/// filter that is applied client-side to what the service returns.  The
/// service host starts empty and is configured with [`Latest::set_host`].
pub struct Latest {
    /// Days to look back; zero means no day limit.
    pub days: usize,
    /// The security type queried; `Null` queries all types.
    pub security_type: SecurityType,
    /// The tenor filter; the empty tenor keeps everything.
    pub tenor: Tenor,
    /// The service host.
    pub host: String,
}

impl Latest {
    /// Creates a Latest module from the security type to query (`Null` for
    /// all), the number of days to look back (`0` for no limit) and a tenor
    /// filter such as `10y` or `10-Y` (the empty tenor for none).
    pub fn new(treasury_type: SecurityType, days: usize, tenor: Tenor) -> (r: Latest)
        ensures
            r.security_type == treasury_type,
            r.days == days,
            r.tenor == tenor,
            r.host@ == Seq::<char>::empty(),
    {
        Latest { days, security_type: treasury_type, tenor, host: String::new() }
    }

    /// The day-count lookback.
    pub fn get_days(&self) -> (r: usize)
        ensures
            r == self.days,
    {
        self.days
    }

    /// The security type queried.
    pub fn get_security_type(&self) -> (r: SecurityType)
        ensures
            r == self.security_type,
    {
        self.security_type
    }

    /// Sets the service host.
    pub fn set_host(&mut self, host: String)
        ensures
            final(self).host == host,
            final(self).days == old(self).days,
            final(self).security_type == old(self).security_type,
            final(self).tenor == old(self).tenor,
    {
        self.host = host;
    }

    /// The query URL.
    pub fn url(&self) -> (r: String)
        ensures
            r@ == latest_url_spec(self.host@, self.security_type, self.days as int),
    {
        let mut url = self.host.clone();
        url.append(AUCTIONED_URL);
        if !matches!(self.security_type, SecurityType::Null) {
            url.append("?type=");
            let label = self.security_type.to_string();
            url.append(label.as_str());
            if self.days > 0 {
                url.append("&days=");
                push_decimal(&mut url, self.days as u64);
            }
        } else {
            if self.days > 0 {
                url.append("?days=");
                push_decimal(&mut url, self.days as u64);
            }
        }
        proof {
            assert(url@ =~= latest_url_spec(self.host@, self.security_type, self.days as int));
        }
        url
    }

    /// Applies the tenor filter to a fetched list, keeping the records whose
    /// term fields match; the empty tenor keeps everything.
    pub fn apply_tenor_filter(&self, treasuries: &Treasuries) -> (r: Treasuries)
        ensures
            r@ == treasuries@.filter(tenor_pred(self.tenor)),
    {
        filter_by_tenor(treasuries, &self.tenor)
    }
}

/// Keeps the records of `list` that match the tenor filter `t`.
#[verifier::loop_isolation(false)]
pub fn filter_by_tenor(list: &Treasuries, t: &Tenor) -> (r: Treasuries)
    ensures
        r@ == list@.filter(tenor_pred(*t)),
{
    let ghost pred = tenor_pred(*t);
    let mut out: Treasuries = Vec::new();
    let n = list.len();
    proof {
        reveal(Seq::filter);
        assert(list@.take(0int).filter(pred) =~= Seq::<Treasury>::empty());
    }
    let mut i: usize = 0;
    while i < n
        invariant
            0 <= i <= n,
            out@ == list@.take(i as int).filter(pred),
        decreases n - i,
    {
        let x = &list[i];
        proof {
            reveal(Seq::filter);
            let pre = list@.take(i as int);
            let nxt = list@.take(i as int + 1);
            assert(nxt.drop_last() =~= pre);
            assert(nxt.last() == list@[i as int]);
            assert(pred(list@[i as int]) == matches_tenor(list@[i as int]@, *t));
            assert(nxt.filter(pred) == if pred(nxt.last()) {
                pre.filter(pred).push(nxt.last())
            } else {
                pre.filter(pred)
            });
        }
        if x.matches_tenor(t) {
            out.push(x.clone());
        }
        i = i + 1;
    }
    proof {
        assert(list@.take(n as int) =~= list@);
    }
    out
}

} // verus!
