use vstd::prelude::*;

verus! {

/// One hourly entry of the price schedule. `total` holds the price as the bit
/// pattern of an IEEE-754 double, so that it passes through unchanged.
pub struct PriceEntry {
    pub total: Option<u64>,
}

/// The price info of a subscription: the entries for tomorrow, hour by hour.
pub struct PriceInfo {
    pub tomorrow: Vec<Option<PriceEntry>>,
}

pub struct Subscription {
    pub price_info: Option<PriceInfo>,
}

pub struct Home {
    pub current_subscription: Option<Subscription>,
}

/// The data payload of a price query: the homes visible to the credential.
pub struct ResponseData {
    pub homes: Vec<Option<Home>>,
}

/// A decoded response of the pricing API.
pub struct PriceResponse {
    pub data: Option<ResponseData>,
}

/// Why a fetch failed.
pub enum FetchError {
    /// The request itself failed, with the transport's description.
    Request(String),
    NoData,
    NoHomes,
    NoCurrentSubscription,
    NoPriceInfo,
    MissingPrice,
    MissingTotal,
}

impl FetchError {
    /// The text that describes the failure.
    pub open spec fn reason_spec(&self) -> Seq<char> {
        match self {
            FetchError::Request(msg) => msg@,
            FetchError::NoData => "No data"@,
            FetchError::NoHomes => "No homes"@,
            FetchError::NoCurrentSubscription => "No current subscription"@,
            FetchError::NoPriceInfo => "No price info"@,
            FetchError::MissingPrice => "Missing price"@,
            FetchError::MissingTotal => "Missing total"@,
        }
    }

    /// The text that describes the failure.
    pub fn reason(&self) -> (r: String)
        ensures
            r@ == self.reason_spec(),
    {
        match self {
            FetchError::Request(msg) => msg.clone(),
            FetchError::NoData => "No data".to_owned(),
            FetchError::NoHomes => "No homes".to_owned(),
            FetchError::NoCurrentSubscription => "No current subscription".to_owned(),
            FetchError::NoPriceInfo => "No price info".to_owned(),
            FetchError::MissingPrice => "Missing price".to_owned(),
            FetchError::MissingTotal => "Missing total".to_owned(),
        }
    }
}

/// The first home that is present, if any.
pub open spec fn first_home(homes: Seq<Option<Home>>) -> Option<Home>
    decreases homes.len(),
{
    if homes.len() == 0 {
        None
    } else if homes[0] is Some {
        homes[0]
    } else {
        first_home(homes.drop_first())
    }
}

/// The prices of `entries` in order, or the error of the first entry that
/// lacks its price or its total.
pub open spec fn prices_of(entries: Seq<Option<PriceEntry>>) -> Result<Seq<u64>, FetchError>
    decreases entries.len(),
{
    if entries.len() == 0 {
        Ok(Seq::empty())
    } else {
        match prices_of(entries.drop_last()) {
            Err(e) => Err(e),
            Ok(p) => match entries.last() {
                None => Err(FetchError::MissingPrice),
                Some(entry) => match entry.total {
                    None => Err(FetchError::MissingTotal),
                    Some(t) => Ok(p.push(t)),
                },
            },
        }
    }
}

/// What a response yields: the checks are made in a fixed order, data, then a
/// home, then its subscription, then its price info, then each entry.
pub open spec fn extract_spec(resp: PriceResponse) -> Result<Seq<u64>, FetchError> {
    match resp.data {
        None => Err(FetchError::NoData),
        Some(data) => match first_home(data.homes@) {
            None => Err(FetchError::NoHomes),
            Some(home) => match home.current_subscription {
                None => Err(FetchError::NoCurrentSubscription),
                Some(sub) => match sub.price_info {
                    None => Err(FetchError::NoPriceInfo),
                    Some(info) => prices_of(info.tomorrow@),
                },
            },
        },
    }
}

fn first_home_index(homes: &Vec<Option<Home>>) -> (r: Option<usize>)
    ensures
        match r {
            None => first_home(homes@) is None,
            Some(i) => i < homes@.len() && homes@[i as int] is Some && first_home(homes@)
                == homes@[i as int],
        },
{
    let mut i: usize = 0;
    assert(homes@.subrange(0, homes@.len() as int) =~= homes@);
    while i < homes.len()
        invariant
            i <= homes@.len(),
            first_home(homes@) == first_home(homes@.subrange(i as int, homes@.len() as int)),
        decreases homes@.len() - i,
    {
        let ghost rest = homes@.subrange(i as int, homes@.len() as int);
        assert(rest.drop_first() =~= homes@.subrange(i + 1, homes@.len() as int));
        if homes[i].is_some() {
            return Some(i);
        }
        i = i + 1;
    }
    assert(homes@.subrange(i as int, homes@.len() as int) =~= Seq::<Option<Home>>::empty());
    None
}

fn collect_prices(entries: &Vec<Option<PriceEntry>>) -> (r: Result<Vec<u64>, FetchError>)
    ensures
        match r {
            Ok(v) => prices_of(entries@) == Ok::<Seq<u64>, FetchError>(v@),
            Err(e) => prices_of(entries@) == Err::<Seq<u64>, FetchError>(e),
        },
{
    let mut prices: Vec<u64> = Vec::new();
    let mut i: usize = 0;
    while i < entries.len()
        invariant
            i <= entries@.len(),
            prices_of(entries@.take(i as int)) == Ok::<Seq<u64>, FetchError>(prices@),
        decreases entries@.len() - i,
    {
        assert(entries@.take(i + 1).drop_last() =~= entries@.take(i as int));
        assert(entries@.take(i + 1).last() == entries@[i as int]);
        match &entries[i] {
            None => {
                proof {
                    lemma_prices_of_err_extends(entries@, (i + 1) as nat);
                }
                return Err(FetchError::MissingPrice);
            },
            Some(entry) => match entry.total {
                None => {
                    proof {
                        lemma_prices_of_err_extends(entries@, (i + 1) as nat);
                    }
                    return Err(FetchError::MissingTotal);
                },
                Some(t) => {
                    prices.push(t);
                },
            },
        }
        i = i + 1;
    }
    assert(entries@.take(entries@.len() as int) =~= entries@);
    Ok(prices)
}

/// Once a prefix of the entries fails, the whole sequence fails the same way.
proof fn lemma_prices_of_err_extends(entries: Seq<Option<PriceEntry>>, n: nat)
    requires
        n <= entries.len(),
        prices_of(entries.take(n as int)) is Err,
    ensures
        prices_of(entries) == prices_of(entries.take(n as int)),
    decreases entries.len() - n,
{
    if n == entries.len() {
        assert(entries.take(n as int) =~= entries);
    } else {
        assert(entries.take((n + 1) as int).drop_last() =~= entries.take(n as int));
        lemma_prices_of_err_extends(entries, n + 1);
    }
}

/// Validates a response and takes out tomorrow's prices, in the order given.
pub fn extract_prices(resp: &PriceResponse) -> (r: Result<Vec<u64>, FetchError>)
    ensures
        match r {
            Ok(v) => extract_spec(*resp) == Ok::<Seq<u64>, FetchError>(v@),
            Err(e) => extract_spec(*resp) == Err::<Seq<u64>, FetchError>(e),
        },
{
    match &resp.data {
        None => Err(FetchError::NoData),
        Some(data) => match first_home_index(&data.homes) {
            None => Err(FetchError::NoHomes),
            Some(i) => {
                let home = data.homes[i].as_ref().unwrap();
                match &home.current_subscription {
                    None => Err(FetchError::NoCurrentSubscription),
                    Some(sub) => match &sub.price_info {
                        None => Err(FetchError::NoPriceInfo),
                        Some(info) => collect_prices(&info.tomorrow),
                    },
                }
            },
        },
    }
}

/// The checks on a response are made in a fixed order, and each failing check
/// has its own error: a response without data fails with `NoData`; one without
/// a home with `NoHomes`, whatever else it lacks; a home without a subscription
/// with `NoCurrentSubscription`; a subscription without price info with
/// `NoPriceInfo`.
pub proof fn lemma_validation_order(resp: PriceResponse)
    ensures
        resp.data is None ==> extract_spec(resp) == Err::<Seq<u64>, FetchError>(
            FetchError::NoData,
        ),
        resp.data matches Some(d) && first_home(d.homes@) is None ==> extract_spec(resp) == Err::<
            Seq<u64>,
            FetchError,
        >(FetchError::NoHomes),
        resp.data matches Some(d) && first_home(d.homes@) matches Some(h)
            && h.current_subscription is None ==> extract_spec(resp) == Err::<
            Seq<u64>,
            FetchError,
        >(FetchError::NoCurrentSubscription),
        resp.data matches Some(d) && first_home(d.homes@) matches Some(h)
            && h.current_subscription matches Some(sub) && sub.price_info is None
            ==> extract_spec(resp) == Err::<Seq<u64>, FetchError>(FetchError::NoPriceInfo),
        FetchError::NoHomes.reason_spec() != FetchError::NoPriceInfo.reason_spec(),
{
    reveal_strlit("No homes");
    reveal_strlit("No price info");
    assert(FetchError::NoHomes.reason_spec()[3] != FetchError::NoPriceInfo.reason_spec()[3]);
}

} // verus!
