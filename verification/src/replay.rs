//! What an assembly cycle holds after a sequence of reports, stated over the
//! sequence alone.

use vstd::prelude::*;
use crate::report::{centi_celsius, decoded, is_known_tag, raw_value, CO2_ADDRESS,
    HUMIDITY_ADDRESS, TEMPERATURE_ADDRESS};
use crate::snapshot::Partial;

verus! {

/// The raw value of the last report in `reports` that carries `tag`.
pub open spec fn latest(reports: Seq<Seq<u8>>, tag: u8) -> Option<int>
    decreases reports.len(),
{
    if reports.len() == 0 {
        None
    } else if reports.last()[0] == tag {
        Some(raw_value(reports.last()[1], reports.last()[2]))
    } else {
        latest(reports.drop_last(), tag)
    }
}

/// Whether some report in `reports` carries `tag`.
pub open spec fn seen(reports: Seq<Seq<u8>>, tag: u8) -> bool {
    exists|i: int| 0 <= i < reports.len() && (#[trigger] reports[i])[0] == tag
}

/// One more report is one more recorded reading.
pub proof fn lemma_replay_push(reports: Seq<Seq<u8>>, report: Seq<u8>)
    ensures
        Partial::replay(reports.push(report)) == Partial::replay(reports).with(decoded(report)),
{
    assert(reports.push(report).drop_last() =~= reports);
}

/// A report with an unknown tag changes nothing, and no single report
/// completes a cycle that has seen nothing.
pub proof fn lemma_unknown_tag_is_ignored(reports: Seq<Seq<u8>>, report: Seq<u8>)
    ensures
        !is_known_tag(report[0]) ==> Partial::replay(reports.push(report)) == Partial::replay(
            reports,
        ),
        !Partial::replay(seq![report]).is_complete(),
{
    lemma_replay_push(reports, report);
    lemma_replay_push(Seq::empty(), report);
    assert(Seq::<Seq<u8>>::empty().push(report) =~= seq![report]);
}

/// Each field of the cycle is the converted value of the last report that
/// carried its tag, and is absent if no report did: earlier reports with the
/// same tag leave no trace.
pub proof fn lemma_replay_keeps_latest(reports: Seq<Seq<u8>>)
    ensures
        Partial::replay(reports).co2 == match latest(reports, CO2_ADDRESS) {
            Some(raw) => Some(raw as u16),
            None => None,
        },
        Partial::replay(reports).temperature == match latest(reports, TEMPERATURE_ADDRESS) {
            Some(raw) => Some(centi_celsius(raw) as i32),
            None => None,
        },
        Partial::replay(reports).humidity == match latest(reports, HUMIDITY_ADDRESS) {
            Some(raw) => Some(raw as u16),
            None => None,
        },
    decreases reports.len(),
{
    if reports.len() > 0 {
        lemma_replay_keeps_latest(reports.drop_last());
    }
}

/// A tag has a latest value exactly if some report carried it.
pub proof fn lemma_latest_iff_seen(reports: Seq<Seq<u8>>, tag: u8)
    ensures
        latest(reports, tag).is_some() <==> seen(reports, tag),
    decreases reports.len(),
{
    if reports.len() > 0 {
        let front = reports.drop_last();
        lemma_latest_iff_seen(front, tag);
        if reports.last()[0] == tag {
            assert(reports[reports.len() - 1][0] == tag);
        } else if seen(front, tag) {
            let i = choose|i: int| 0 <= i < front.len() && (#[trigger] front[i])[0] == tag;
            assert(reports[i] == front[i]);
        } else if seen(reports, tag) {
            let i = choose|i: int| 0 <= i < reports.len() && (#[trigger] reports[i])[0] == tag;
            assert(front[i] == reports[i]);
        }
    }
}

/// A cycle is complete exactly if each of the three tags was carried by at
/// least one report, in whatever order they came.
pub proof fn lemma_complete_iff_all_seen(reports: Seq<Seq<u8>>)
    ensures
        Partial::replay(reports).is_complete() <==> (seen(reports, CO2_ADDRESS) && seen(
            reports,
            TEMPERATURE_ADDRESS,
        ) && seen(reports, HUMIDITY_ADDRESS)),
{
    lemma_replay_keeps_latest(reports);
    lemma_latest_iff_seen(reports, CO2_ADDRESS);
    lemma_latest_iff_seen(reports, TEMPERATURE_ADDRESS);
    lemma_latest_iff_seen(reports, HUMIDITY_ADDRESS);
}

/// Two sequences of reports that agree on the latest value of each of the
/// three tags give the same cycle, however their reports are interleaved.
pub proof fn lemma_replay_depends_on_latest_only(a: Seq<Seq<u8>>, b: Seq<Seq<u8>>)
    requires
        latest(a, CO2_ADDRESS) == latest(b, CO2_ADDRESS),
        latest(a, TEMPERATURE_ADDRESS) == latest(b, TEMPERATURE_ADDRESS),
        latest(a, HUMIDITY_ADDRESS) == latest(b, HUMIDITY_ADDRESS),
    ensures
        Partial::replay(a) == Partial::replay(b),
{
    lemma_replay_keeps_latest(a);
    lemma_replay_keeps_latest(b);
}

/// Two neighbouring reports with different tags may change places.
pub proof fn lemma_replay_swap(reports: Seq<Seq<u8>>, first: Seq<u8>, second: Seq<u8>)
    requires
        first[0] != second[0],
    ensures
        Partial::replay(reports.push(first).push(second)) == Partial::replay(
            reports.push(second).push(first),
        ),
{
    lemma_replay_push(reports, first);
    lemma_replay_push(reports, second);
    lemma_replay_push(reports.push(first), second);
    lemma_replay_push(reports.push(second), first);
}

} // verus!
