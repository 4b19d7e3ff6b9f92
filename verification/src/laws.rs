//! The decode's aggregate guarantees: order preservation, fail-fast error
//! propagation, and determinism, stated over the decode relation that
//! [`crate::forecasts::Forecasts::try_from`] is proved to meet.

use vstd::prelude::*;
use crate::forecast::{spec_forecast, ForecastConversionErrorView, ForecastView};
use crate::forecast_response::{ForecastLocationView, ForecastPeriodView, RepView};
use crate::forecasts::{
    lemma_periods_seq_err_prefix, lemma_rep_seq_err_prefix, spec_decode, spec_periods_seq,
    spec_rep_seq,
};
use crate::numbers::spec_parse_i32;

verus! {

/// How many timesteps the periods before index `p` hold in all: the flat
/// position where period `p`'s records start in a decoded sequence.
pub open spec fn reps_before(periods: Seq<ForecastPeriodView>, p: int) -> int
    decreases p,
{
    if p <= 0 {
        0
    } else {
        reps_before(periods, p - 1) + periods[p - 1].rep.len()
    }
}

/// `reps_before` reads only the periods before `p`, so dropping the last
/// period does not change it.
proof fn lemma_reps_before_drop_last(periods: Seq<ForecastPeriodView>, p: int)
    requires
        0 <= p < periods.len(),
    ensures
        reps_before(periods.drop_last(), p) == reps_before(periods, p),
    decreases p,
{
    if p > 0 {
        lemma_reps_before_drop_last(periods, p - 1);
    }
}

/// Timestep counts are nonnegative, so `reps_before` grows with `p`.
proof fn lemma_reps_before_mono(periods: Seq<ForecastPeriodView>, a: int, b: int)
    requires
        0 <= a <= b,
    ensures
        reps_before(periods, a) <= reps_before(periods, b),
    decreases b,
{
    if a < b {
        lemma_reps_before_mono(periods, a, b - 1);
    }
}

/// A record decoded successfully carries the location identifier it was
/// decoded for.
proof fn lemma_forecast_ok_location(location_id: i32, date: Seq<char>, rep: RepView)
    requires
        spec_forecast(location_id, date, rep) is Ok,
    ensures
        spec_forecast(location_id, date, rep)->Ok_0.location_id == location_id,
{
    reveal(spec_forecast);
}

/// A successful timestep-sequence decode has one record per timestep: the
/// record at position `t` is the decode of timestep `t`, and it carries the
/// location identifier it was decoded for.
#[verifier::rlimit(60)]
#[verifier::spinoff_prover]
proof fn lemma_rep_seq_ok_index(location_id: i32, date: Seq<char>, reps: Seq<RepView>)
    requires
        spec_rep_seq(location_id, date, reps) is Ok,
    ensures
        spec_rep_seq(location_id, date, reps)->Ok_0.len() == reps.len(),
        forall|t: int| 0 <= t < reps.len() ==> spec_forecast(location_id, date, #[trigger] reps[t])
            is Ok,
        forall|t: int| 0 <= t < reps.len() ==> spec_rep_seq(location_id, date, reps)->Ok_0[t]
            == spec_forecast(location_id, date, #[trigger] reps[t])->Ok_0,
        forall|t: int| 0 <= t < reps.len() ==> (#[trigger] spec_rep_seq(
            location_id,
            date,
            reps,
        )->Ok_0[t]).location_id == location_id,
    decreases reps.len(),
{
    if reps.len() > 0 {
        let rest = reps.drop_last();
        lemma_rep_seq_ok_index(location_id, date, rest);
        lemma_forecast_ok_location(location_id, date, reps.last());
        let pre = spec_rep_seq(location_id, date, rest)->Ok_0;
        let f = spec_forecast(location_id, date, reps.last())->Ok_0;
        assert(spec_rep_seq(location_id, date, reps)->Ok_0 == pre.push(f));
        assert(reps.last() == reps[reps.len() - 1]);
        assert forall|t: int|
            0 <= t < reps.len() implies spec_forecast(location_id, date, #[trigger] reps[t]) is Ok
            && spec_rep_seq(location_id, date, reps)->Ok_0[t] == spec_forecast(
            location_id,
            date,
            reps[t],
        )->Ok_0 && spec_rep_seq(location_id, date, reps)->Ok_0[t].location_id == location_id by {
            if t < reps.len() - 1 {
                assert(rest[t] == reps[t]);
                assert(spec_forecast(location_id, date, rest[t]) is Ok);
                assert(pre[t] == spec_forecast(location_id, date, rest[t])->Ok_0);
                assert(pre[t].location_id == location_id);
                assert(pre.push(f)[t] == pre[t]);
            } else {
                assert(pre.push(f)[t] == f);
            }
        }
        assert forall|t: int| 0 <= t < reps.len() implies (#[trigger] spec_rep_seq(
            location_id,
            date,
            reps,
        )->Ok_0[t]).location_id == location_id by {
            assert(spec_forecast(location_id, date, reps[t]) is Ok);
        }
    }
}

/// A successful period-sequence decode concatenates the periods' records in
/// order: the record at `reps_before(periods, p) + t` is the decode of
/// timestep `t` of period `p`.
#[verifier::rlimit(100)]
#[verifier::spinoff_prover]
proof fn lemma_periods_seq_ok_index(location_id: i32, periods: Seq<ForecastPeriodView>)
    requires
        spec_periods_seq(location_id, periods) is Ok,
    ensures
        spec_periods_seq(location_id, periods)->Ok_0.len() == reps_before(
            periods,
            periods.len() as int,
        ),
        forall|p: int| 0 <= p < periods.len() ==> spec_rep_seq(
            location_id,
            (#[trigger] periods[p]).value,
            periods[p].rep,
        ) is Ok,
        forall|p: int, t: int| 0 <= p < periods.len() && 0 <= t < periods[p].rep.len()
            ==> spec_forecast(location_id, periods[p].value, #[trigger] periods[p].rep[t]) is Ok,
        forall|p: int, t: int| 0 <= p < periods.len() && 0 <= t < periods[p].rep.len()
            ==> reps_before(periods, p) + t < spec_periods_seq(location_id, periods)->Ok_0.len()
            && spec_periods_seq(location_id, periods)->Ok_0[reps_before(periods, p) + t]
            == spec_forecast(location_id, periods[p].value, #[trigger] periods[p].rep[t])->Ok_0,
        forall|i: int| 0 <= i < spec_periods_seq(location_id, periods)->Ok_0.len()
            ==> (#[trigger] spec_periods_seq(location_id, periods)->Ok_0[i]).location_id
            == location_id,
    decreases periods.len(),
{
    if periods.len() > 0 {
        let rest = periods.drop_last();
        let last = periods.last();
        lemma_periods_seq_ok_index(location_id, rest);
        lemma_rep_seq_ok_index(location_id, last.value, last.rep);
        let pre = spec_periods_seq(location_id, rest)->Ok_0;
        let s = spec_rep_seq(location_id, last.value, last.rep)->Ok_0;
        assert(spec_periods_seq(location_id, periods)->Ok_0 == pre + s);
        assert(last == periods[periods.len() - 1]);
        assert forall|p: int| 0 <= p < periods.len() implies reps_before(periods, p)
            == reps_before(rest, p) by {
            lemma_reps_before_drop_last(periods, p);
        }
        assert(rest.len() == periods.len() - 1);
        assert(pre.len() == reps_before(rest, rest.len() as int));
        assert(reps_before(rest, periods.len() - 1) == reps_before(periods, periods.len() - 1));
        assert(pre.len() == reps_before(periods, periods.len() - 1));
        assert(reps_before(periods, periods.len() as int) == reps_before(
            periods,
            periods.len() - 1,
        ) + last.rep.len());
        assert forall|p: int| 0 <= p < periods.len() implies spec_rep_seq(
            location_id,
            (#[trigger] periods[p]).value,
            periods[p].rep,
        ) is Ok by {
            if p < periods.len() - 1 {
                assert(rest[p] == periods[p]);
                assert(spec_rep_seq(location_id, rest[p].value, rest[p].rep) is Ok);
            }
        }
        assert forall|p: int, t: int|
            0 <= p < periods.len() && 0 <= t < periods[p].rep.len() implies spec_forecast(
            location_id,
            periods[p].value,
            #[trigger] periods[p].rep[t],
        ) is Ok && reps_before(periods, p) + t < (pre + s).len() && (pre + s)[reps_before(
            periods,
            p,
        ) + t] == spec_forecast(location_id, periods[p].value, periods[p].rep[t])->Ok_0 by {
            lemma_reps_before_mono(periods, 0, p);
            assert(reps_before(periods, 0) == 0);
            assert(reps_before(periods, p) >= 0);
            assert(reps_before(periods, p + 1) == reps_before(periods, p) + periods[p].rep.len());
            if p < periods.len() - 1 {
                assert(rest[p] == periods[p]);
                assert(spec_forecast(location_id, rest[p].value, rest[p].rep[t]) is Ok);
                assert(reps_before(rest, p) + t < pre.len() && pre[reps_before(rest, p) + t]
                    == spec_forecast(location_id, rest[p].value, rest[p].rep[t])->Ok_0);
                lemma_reps_before_mono(periods, p + 1, periods.len() - 1);
                assert(reps_before(periods, p) + t < reps_before(periods, p + 1));
                assert(reps_before(periods, p + 1) <= reps_before(periods, periods.len() - 1));
                lemma_reps_before_drop_last(periods, periods.len() - 1);
                assert(rest.len() == periods.len() - 1);
                assert(pre.len() == reps_before(rest, rest.len() as int));
                assert(pre.len() == reps_before(periods, periods.len() - 1));
                assert(reps_before(periods, p) + t < pre.len());
                assert((pre + s)[reps_before(periods, p) + t] == pre[reps_before(periods, p) + t]);
            } else {
                assert(periods[p].rep[t] == last.rep[t]);
                assert(spec_forecast(location_id, last.value, last.rep[t]) is Ok);
                assert(s[t] == spec_forecast(location_id, last.value, last.rep[t])->Ok_0);
                assert(reps_before(periods, p) == pre.len());
                assert((pre + s)[reps_before(periods, p) + t] == s[t]);
            }
        }
        assert forall|i: int| 0 <= i < (pre + s).len() implies (#[trigger] (pre + s)[
            i
        ]).location_id == location_id by {
            if i < pre.len() {
                assert((pre + s)[i] == pre[i]);
                assert(pre[i].location_id == location_id);
            } else {
                assert((pre + s)[i] == s[i - pre.len()]);
                assert(s[i - pre.len()].location_id == location_id);
            }
        }
    }
}

/// Order preservation: on success a response decodes to one record per
/// timestep; the record at flat position `reps_before(p) + t` is the decode
/// of timestep `t` of period `p`, so periods keep their payload order and
/// timesteps their order within each period; and every record carries the
/// location identifier parsed once from the response.
pub proof fn lemma_order_preserved(loc: ForecastLocationView, fs: Seq<ForecastView>)
    requires
        spec_decode(loc) == Ok::<Seq<ForecastView>, ForecastConversionErrorView>(fs),
    ensures
        spec_parse_i32(loc.i) is Some,
        fs.len() == reps_before(loc.period, loc.period.len() as int),
        forall|p: int, t: int| 0 <= p < loc.period.len() && 0 <= t < loc.period[p].rep.len()
            ==> reps_before(loc.period, p) + t < fs.len() && spec_forecast(
            spec_parse_i32(loc.i)->Some_0,
            loc.period[p].value,
            #[trigger] loc.period[p].rep[t],
        ) is Ok && fs[reps_before(loc.period, p) + t] == spec_forecast(
            spec_parse_i32(loc.i)->Some_0,
            loc.period[p].value,
            loc.period[p].rep[t],
        )->Ok_0,
        forall|i: int| 0 <= i < fs.len() ==> (#[trigger] fs[i]).location_id == spec_parse_i32(
            loc.i,
        )->Some_0,
{
    lemma_periods_seq_ok_index(spec_parse_i32(loc.i)->Some_0, loc.period);
}

/// All timestep sequences decoding means the period sequence decodes.
proof fn lemma_periods_seq_ok(location_id: i32, periods: Seq<ForecastPeriodView>)
    requires
        forall|q: int| 0 <= q < periods.len() ==> spec_rep_seq(
            location_id,
            (#[trigger] periods[q]).value,
            periods[q].rep,
        ) is Ok,
    ensures
        spec_periods_seq(location_id, periods) is Ok,
    decreases periods.len(),
{
    if periods.len() > 0 {
        assert(forall|q: int| 0 <= q < periods.len() - 1 ==> #[trigger] periods.drop_last()[q]
            == periods[q]);
        lemma_periods_seq_ok(location_id, periods.drop_last());
        assert(periods.last() == periods[periods.len() - 1]);
    }
}

/// Fail-fast aggregation: when every timestep strictly before position
/// `(p, t)` decodes and the timestep at `(p, t)` fails, the whole response
/// decodes to exactly that timestep's error: no partial sequence, and no
/// later timestep can change the outcome.
pub proof fn lemma_fail_fast(loc: ForecastLocationView, p: int, t: int)
    requires
        spec_parse_i32(loc.i) is Some,
        0 <= p < loc.period.len(),
        0 <= t < loc.period[p].rep.len(),
        forall|q: int| 0 <= q < p ==> spec_rep_seq(
            spec_parse_i32(loc.i)->Some_0,
            (#[trigger] loc.period[q]).value,
            loc.period[q].rep,
        ) is Ok,
        spec_rep_seq(
            spec_parse_i32(loc.i)->Some_0,
            loc.period[p].value,
            loc.period[p].rep.take(t),
        ) is Ok,
        spec_forecast(spec_parse_i32(loc.i)->Some_0, loc.period[p].value, loc.period[p].rep[t])
            is Err,
    ensures
        spec_decode(loc) == Err::<Seq<ForecastView>, ForecastConversionErrorView>(
            spec_forecast(
                spec_parse_i32(loc.i)->Some_0,
                loc.period[p].value,
                loc.period[p].rep[t],
            )->Err_0,
        ),
{
    let location_id = spec_parse_i32(loc.i)->Some_0;
    let reps = loc.period[p].rep;
    let date = loc.period[p].value;
    assert(reps.take(t + 1).drop_last() =~= reps.take(t));
    assert(reps.take(t + 1).last() == reps[t]);
    assert(spec_rep_seq(location_id, date, reps.take(t + 1)) == Err::<
        Seq<ForecastView>,
        ForecastConversionErrorView,
    >(spec_forecast(location_id, date, reps[t])->Err_0));
    lemma_rep_seq_err_prefix(location_id, date, reps, t + 1);
    assert(forall|q: int| 0 <= q < p ==> #[trigger] loc.period.take(p)[q] == loc.period[q]);
    lemma_periods_seq_ok(location_id, loc.period.take(p));
    assert(loc.period.take(p + 1).drop_last() =~= loc.period.take(p));
    assert(loc.period.take(p + 1).last() == loc.period[p]);
    assert(spec_periods_seq(location_id, loc.period.take(p + 1)) is Err);
    lemma_periods_seq_err_prefix(location_id, loc.period, p + 1);
}

/// Determinism: the decode relation pins exactly one outcome per payload,
/// so two decodes of equal payloads, and with them two decodes of the same
/// payload, agree.
pub proof fn lemma_decode_deterministic(
    loc: ForecastLocationView,
    r1: Result<Seq<ForecastView>, ForecastConversionErrorView>,
    r2: Result<Seq<ForecastView>, ForecastConversionErrorView>,
)
    requires
        r1 == spec_decode(loc),
        r2 == spec_decode(loc),
    ensures
        r1 == r2,
{
}

} // verus!
