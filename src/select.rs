//! Choosing the sink to switch to: find the active sink, keep the sinks that
//! have something plugged in, and take the next one by index.
use crate::sink::{
    candidates, has_named, is_first_named, is_next_pick, none_above, sinks_view, PulseAudioSink,
    SinkModel, SwitchError,
};
use vstd::prelude::*;

verus! {

broadcast use Seq::lemma_filter_push;

/// The active sink: the first listed sink named `current_sink_name`, or
/// `NoActiveDevice` when none is.
pub fn get_current_active_sink<'a>(sinks: &'a [PulseAudioSink], current_sink_name: &String) -> (r:
    Result<&'a PulseAudioSink, SwitchError>)
    ensures
        r is Ok <==> has_named(sinks_view(sinks@), current_sink_name@),
        r matches Err(e) ==> e == SwitchError::NoActiveDevice,
        r matches Ok(s) ==> exists|i: int|
            is_first_named(sinks_view(sinks@), current_sink_name@, i) && *s == sinks@[i],
{
    let ghost view = sinks_view(sinks@);
    let mut i: usize = 0;
    while i < sinks.len()
        invariant
            i <= sinks@.len(),
            view == sinks_view(sinks@),
            forall|k: int| 0 <= k < i ==> view[k].name != current_sink_name@,
        decreases sinks@.len() - i,
    {
        if sinks[i].name == *current_sink_name {
            assert(is_first_named(view, current_sink_name@, i as int));
            return Ok(&sinks[i]);
        }
        i = i + 1;
    }
    Err(SwitchError::NoActiveDevice)
}

/// The sink to switch to after `current_sink`: the first of `sinks` with a
/// greater index, or the first of `sinks` when none has one. Fails with
/// `NoCandidateDevices` when `sinks` is empty.
pub fn get_sink_with_next_index<'a>(current_sink: &'a PulseAudioSink, sinks: &'a [PulseAudioSink]) -> (r:
    Result<&'a PulseAudioSink, SwitchError>)
    ensures
        r is Ok <==> sinks@.len() > 0,
        r matches Err(e) ==> e == SwitchError::NoCandidateDevices,
        r matches Ok(s) ==> exists|i: int|
            is_next_pick(sinks_view(sinks@), current_sink.index, i) && *s == sinks@[i],
{
    if sinks.len() == 0 {
        return Err(SwitchError::NoCandidateDevices);
    }
    let ghost view = sinks_view(sinks@);
    let mut i: usize = 0;
    while i < sinks.len()
        invariant
            i <= sinks@.len(),
            view == sinks_view(sinks@),
            forall|k: int| 0 <= k < i ==> #[trigger] view[k].index <= current_sink.index,
        decreases sinks@.len() - i,
    {
        if sinks[i].index > current_sink.index {
            assert(view[i as int].index > current_sink.index);
            assert(!none_above(view, current_sink.index));
            assert(is_next_pick(view, current_sink.index, i as int));
            return Ok(&sinks[i]);
        }
        i = i + 1;
    }
    assert(none_above(view, current_sink.index));
    assert(is_next_pick(view, current_sink.index, 0));
    Ok(&sinks[0])
}

/// The sinks that can be switched to, in their listed order: those with no
/// ports, and those with a port that is not reported as "not available".
pub fn filter_sinks_without_unavailable_port(sinks: &[PulseAudioSink]) -> (r: Vec<PulseAudioSink>)
    ensures
        sinks_view(r@) == candidates(sinks_view(sinks@)),
{
    let mut kept: Vec<PulseAudioSink> = Vec::new();
    let mut i: usize = 0;
    while i < sinks.len()
        invariant
            i <= sinks@.len(),
            sinks_view(kept@) == candidates(sinks_view(sinks@.subrange(0, i as int))),
        decreases sinks@.len() - i,
    {
        let ghost before = sinks_view(sinks@.subrange(0, i as int));
        assert(sinks_view(sinks@.subrange(0, i + 1)) =~= before.push(sinks@[i as int]@));
        if sinks[i].is_candidate() {
            let ghost old_kept = kept@;
            kept.push(sinks[i].duplicate());
            assert(sinks_view(kept@) =~= sinks_view(old_kept).push(sinks@[i as int]@));
        }
        i = i + 1;
    }
    assert(sinks@.subrange(0, sinks@.len() as int) =~= sinks@);
    kept
}

/// The whole choice: the active sink is the first listed sink named
/// `active_name`, the candidates are the listed sinks that can be switched
/// to, and the result is the candidate that follows the active sink by index.
pub fn pick_next_sink(sinks: &[PulseAudioSink], active_name: &String) -> (r: Result<
    PulseAudioSink,
    SwitchError,
>)
    ensures
        r is Ok <==> has_named(sinks_view(sinks@), active_name@) && candidates(
            sinks_view(sinks@),
        ).len() > 0,
        r matches Err(e) ==> e == if has_named(sinks_view(sinks@), active_name@) {
            SwitchError::NoCandidateDevices
        } else {
            SwitchError::NoActiveDevice
        },
        r matches Ok(s) ==> exists|a: int, i: int|
            is_first_named(sinks_view(sinks@), active_name@, a) && is_next_pick(
                candidates(sinks_view(sinks@)),
                sinks@[a].index,
                i,
            ) && s@ == candidates(sinks_view(sinks@))[i],
{
    let current = match get_current_active_sink(sinks, active_name) {
        Ok(s) => s,
        Err(e) => return Err(e),
    };
    let available = filter_sinks_without_unavailable_port(sinks);
    match get_sink_with_next_index(current, available.as_slice()) {
        Ok(next) => Ok(next.duplicate()),
        Err(e) => Err(e),
    }
}

/// The pick after a sink with index `current` either has a greater index,
/// or it is a wrap-around onto a sink with the lowest index of the listing.
/// On a wrap-around the pick is the first listed sink, so this holds of the
/// listings that, whenever they wrap, start at their lowest index.
pub proof fn lemma_pick_advances_or_is_lowest(sinks: Seq<SinkModel>, current: u32, i: int)
    requires
        is_next_pick(sinks, current, i),
        none_above(sinks, current) ==> forall|k: int|
            0 <= k < sinks.len() ==> sinks[0].index <= #[trigger] sinks[k].index,
    ensures
        sinks[i].index > current || forall|k: int|
            0 <= k < sinks.len() ==> sinks[i].index <= #[trigger] sinks[k].index,
{
}

} // verus!
