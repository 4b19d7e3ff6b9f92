//! The response aggregator: every period's timesteps, in payload order,
//! decoded into one flat sequence, or the first error met.

use vstd::prelude::*;
use crate::forecast::{
    spec_forecast, Forecast, ForecastConversionError, ForecastConversionErrorView, ForecastView,
};
use crate::forecast_response::{ForecastLocationView, ForecastPeriodView, ForecastResponse, RepView};
use crate::numbers::{parse_decimal_i32, spec_parse_i32};

verus! {

/// The decoded records of one sequence of timesteps, in order, or the
/// first error: an error in an earlier timestep hides everything after it.
pub open spec fn spec_rep_seq(location_id: i32, date: Seq<char>, reps: Seq<RepView>) -> Result<
    Seq<ForecastView>,
    ForecastConversionErrorView,
>
    decreases reps.len(),
{
    if reps.len() == 0 {
        Ok(Seq::empty())
    } else {
        match spec_rep_seq(location_id, date, reps.drop_last()) {
            Err(e) => Err(e),
            Ok(pre) => match spec_forecast(location_id, date, reps.last()) {
                Err(e) => Err(e),
                Ok(f) => Ok(pre.push(f)),
            },
        }
    }
}

/// The decoded records of a sequence of periods, each period's timesteps in
/// order, periods in order, or the first error met in that order.
pub open spec fn spec_periods_seq(location_id: i32, periods: Seq<ForecastPeriodView>) -> Result<
    Seq<ForecastView>,
    ForecastConversionErrorView,
>
    decreases periods.len(),
{
    if periods.len() == 0 {
        Ok(Seq::empty())
    } else {
        match spec_periods_seq(location_id, periods.drop_last()) {
            Err(e) => Err(e),
            Ok(pre) => match spec_rep_seq(
                location_id,
                periods.last().value,
                periods.last().rep,
            ) {
                Err(e) => Err(e),
                Ok(s) => Ok(pre + s),
            },
        }
    }
}

/// The decode of a whole response: the location identifier parsed once,
/// then every period's timesteps in payload order, fail-fast.
pub open spec fn spec_decode(loc: ForecastLocationView) -> Result<
    Seq<ForecastView>,
    ForecastConversionErrorView,
> {
    match spec_parse_i32(loc.i) {
        None => Err(ForecastConversionErrorView::Number(loc.i)),
        Some(location_id) => spec_periods_seq(location_id, loc.period),
    }
}

/// The views of a vector of decoded records.
pub open spec fn forecasts_view(v: Seq<Forecast>) -> Seq<ForecastView> {
    v.map_values(|f: Forecast| f@)
}

/// The flat, time-ordered sequence of decoded records of one response.
pub struct Forecasts(pub Vec<Forecast>);

impl Forecasts {
    /// Decode a whole raw response: parse the location identifier, then
    /// every timestep of every period in payload order; the first failure
    /// aborts the decode, and no partial sequence is returned.
    pub fn try_from(value: ForecastResponse) -> (r: Result<Forecasts, ForecastConversionError>)
        ensures
            match r {
                Ok(fs) => spec_decode(value@) == Ok::<
                    Seq<ForecastView>,
                    ForecastConversionErrorView,
                >(forecasts_view(fs.0@)),
                Err(e) => spec_decode(value@) == Err::<
                    Seq<ForecastView>,
                    ForecastConversionErrorView,
                >(e@),
            },
    {
        let location = &value.site_rep.dv.location;
        let location_id = match parse_decimal_i32(location.i.as_str()) {
            Some(v) => v,
            None => {
                return Err(ForecastConversionError::NumberParseError(location.i.clone()));
            },
        };
        let mut out: Vec<Forecast> = Vec::new();
        let ghost mut outer_pre: Seq<ForecastView> = Seq::empty();
        let mut p: usize = 0;
        proof {
            assert(location@.period.take(0) =~= Seq::<ForecastPeriodView>::empty());
            assert(forecasts_view(out@) =~= Seq::<ForecastView>::empty());
        }
        while p < location.period.len()
            invariant
                p <= location.period@.len(),
                location@ == value@,
                spec_parse_i32(location@.i) == Some(location_id),
                location@.period.len() == location.period@.len(),
                forall|j: int| 0 <= j < location.period@.len()
                    ==> location@.period[j] == #[trigger] location.period@[j]@,
                spec_periods_seq(location_id, location@.period.take(p as int)) == Ok::<
                    Seq<ForecastView>,
                    ForecastConversionErrorView,
                >(outer_pre),
                forecasts_view(out@) == outer_pre,
            decreases location.period@.len() - p,
        {
            let period = &location.period[p];
            let mut t: usize = 0;
            proof {
                assert(period@.rep.take(0) =~= Seq::<RepView>::empty());
            }
            while t < period.rep.len()
                invariant
                    t <= period.rep@.len(),
                    location@ == value@,
                    spec_parse_i32(location@.i) == Some(location_id),
                    p < location.period@.len(),
                    location@.period.len() == location.period@.len(),
                    forall|j: int| 0 <= j < location.period@.len()
                        ==> location@.period[j] == #[trigger] location.period@[j]@,
                    period == &location.period[p as int],
                    period@.rep.len() == period.rep@.len(),
                    forall|j: int| 0 <= j < period.rep@.len()
                        ==> period@.rep[j] == #[trigger] period.rep@[j]@,
                    spec_periods_seq(location_id, location@.period.take(p as int)) == Ok::<
                        Seq<ForecastView>,
                        ForecastConversionErrorView,
                    >(outer_pre),
                    spec_rep_seq(location_id, period@.value, period@.rep.take(t as int))
                        matches Ok(inner) && forecasts_view(out@) == outer_pre + inner,
                decreases period.rep@.len() - t,
            {
                let ghost inner = spec_rep_seq(
                    location_id,
                    period@.value,
                    period@.rep.take(t as int),
                )->Ok_0;
                let rep = &period.rep[t];
                proof {
                    assert(period@.rep.take(t + 1).drop_last() =~= period@.rep.take(t as int));
                    assert(period@.rep.take(t + 1).last() == period@.rep[t as int]);
                }
                match Forecast::try_from(location_id, period.value.as_str(), rep) {
                    Ok(f) => {
                        proof {
                            assert(forecasts_view(out@.push(f)) =~= forecasts_view(out@).push(
                                f@,
                            ));
                            assert(outer_pre + inner.push(f@) =~= (outer_pre + inner).push(f@));
                        }
                        out.push(f);
                    },
                    Err(e) => {
                        proof {
                            lemma_rep_seq_err_prefix(
                                location_id,
                                period@.value,
                                period@.rep,
                                t + 1,
                            );
                            assert(location@.period.take(p + 1).drop_last() =~= location@
                                .period.take(p as int));
                            assert(location@.period.take(p + 1).last() == location@.period[p as int]);
                            lemma_periods_seq_err_prefix(location_id, location@.period, p + 1);
                        }
                        return Err(e);
                    },
                }
                t += 1;
            }
            proof {
                assert(period@.rep.take(period.rep@.len() as int) =~= period@.rep);
                assert(location@.period.take(p + 1).drop_last() =~= location@.period.take(
                    p as int,
                ));
                assert(location@.period.take(p + 1).last() == location@.period[p as int]);
            }
            proof {
                outer_pre = forecasts_view(out@);
            }
            p += 1;
        }
        proof {
            assert(location@.period.take(location.period@.len() as int) =~= location@.period);
        }
        Ok(Forecasts(out))
    }
}

/// Once a prefix of the timesteps fails to decode, the whole sequence fails
/// with that same first error.
pub(crate) proof fn lemma_rep_seq_err_prefix(location_id: i32, date: Seq<char>, reps: Seq<RepView>, k: int)
    requires
        0 <= k <= reps.len(),
        spec_rep_seq(location_id, date, reps.take(k)) is Err,
    ensures
        spec_rep_seq(location_id, date, reps) == spec_rep_seq(location_id, date, reps.take(k)),
    decreases reps.len() - k,
{
    if k == reps.len() {
        assert(reps.take(k) =~= reps);
    } else {
        assert(reps.take(k + 1).drop_last() =~= reps.take(k));
        lemma_rep_seq_err_prefix(location_id, date, reps, k + 1);
    }
}

/// Once a prefix of the periods fails to decode, the whole response fails
/// with that same first error.
pub(crate) proof fn lemma_periods_seq_err_prefix(location_id: i32, periods: Seq<ForecastPeriodView>, k: int)
    requires
        0 <= k <= periods.len(),
        spec_periods_seq(location_id, periods.take(k)) is Err,
    ensures
        spec_periods_seq(location_id, periods) == spec_periods_seq(location_id, periods.take(k)),
    decreases periods.len() - k,
{
    if k == periods.len() {
        assert(periods.take(k) =~= periods);
    } else {
        assert(periods.take(k + 1).drop_last() =~= periods.take(k));
        lemma_periods_seq_err_prefix(location_id, periods, k + 1);
    }
}

} // verus!
