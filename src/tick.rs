use crate::fetch::{extract_prices, extract_spec, FetchError, PriceResponse};
use vstd::prelude::*;

verus! {

/// The most hourly prices one day can have.
pub const HOURS_PER_DAY: usize = 24;

/// One record for the time-series store: the price (bit pattern of a double),
/// the hour it belongs to, and the date tag of the day.
pub struct PriceRecord {
    pub price: u64,
    pub hour: u8,
    pub date: String,
}

/// Why a tick failed: the fetch failed, or the day had more prices than hours.
pub enum TickError {
    Fetch(FetchError),
    TooManyPrices,
}

impl TickError {
    /// The text that describes the failure.
    pub open spec fn reason_spec(&self) -> Seq<char> {
        match self {
            TickError::Fetch(e) => e.reason_spec(),
            TickError::TooManyPrices => "Too many prices"@,
        }
    }

    /// The text that describes the failure.
    pub fn reason(&self) -> (r: String)
        ensures
            r@ == self.reason_spec(),
    {
        match self {
            TickError::Fetch(e) => e.reason(),
            TickError::TooManyPrices => "Too many prices".to_owned(),
        }
    }
}

/// The batch of records for `prices`: one per price, in order, with the hour
/// given by its position.
pub open spec fn records_match(records: Seq<PriceRecord>, prices: Seq<u64>, date: Seq<char>) -> bool {
    &&& records.len() == prices.len()
    &&& forall|i: int|
        0 <= i < prices.len() ==> {
            &&& #[trigger] records[i].price == prices[i]
            &&& records[i].hour == i
            &&& records[i].date@ == date
        }
}

/// Builds the records that the writer stores for one day, one per price,
/// each keeping its price and its hour.
pub fn build_records(prices: &Vec<u64>, date: &String) -> (r: Vec<PriceRecord>)
    requires
        prices@.len() <= HOURS_PER_DAY,
    ensures
        records_match(r@, prices@, date@),
{
    let mut records: Vec<PriceRecord> = Vec::new();
    let mut i: usize = 0;
    while i < prices.len()
        invariant
            i <= prices@.len(),
            prices@.len() <= HOURS_PER_DAY,
            records_match(records@, prices@.take(i as int), date@),
        decreases prices@.len() - i,
    {
        records.push(PriceRecord { price: prices[i], hour: i as u8, date: date.clone() });
        i = i + 1;
    }
    assert(prices@.take(i as int) =~= prices@);
    records
}

/// The prices a tick writes, given the outcome of the fetch, or why it
/// writes nothing.
pub open spec fn tick_prices(fetched: Result<PriceResponse, String>) -> Result<Seq<u64>, TickError> {
    match fetched {
        Err(msg) => Err(TickError::Fetch(FetchError::Request(msg))),
        Ok(resp) => match extract_spec(resp) {
            Err(e) => Err(TickError::Fetch(e)),
            Ok(prices) => if prices.len() > HOURS_PER_DAY {
                Err(TickError::TooManyPrices)
            } else {
                Ok(prices)
            },
        },
    }
}

/// The decisions of one tick: from the fetched response (or the transport's
/// error) to the batch of records to write for the day tagged `date`.
pub fn plan_tick(fetched: Result<PriceResponse, String>, date: &String) -> (r: Result<
    Vec<PriceRecord>,
    TickError,
>)
    ensures
        match r {
            Ok(records) => tick_prices(fetched) is Ok && records_match(
                records@,
                tick_prices(fetched)->Ok_0,
                date@,
            ),
            Err(e) => tick_prices(fetched) == Err::<Seq<u64>, TickError>(e),
        },
{
    match fetched {
        Err(msg) => Err(TickError::Fetch(FetchError::Request(msg))),
        Ok(resp) => match extract_prices(&resp) {
            Err(e) => Err(TickError::Fetch(e)),
            Ok(prices) => {
                if prices.len() > HOURS_PER_DAY {
                    Err(TickError::TooManyPrices)
                } else {
                    Ok(build_records(&prices, date))
                }
            },
        },
    }
}

} // verus!
