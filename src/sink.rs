//! The sinks and ports as the sound server lists them, and their models.
use vstd::prelude::*;

verus! {

/// One physical connector of a sink, with the presence the server reports
/// for it: "available", "not available", or anything else when unknown.
#[derive(Clone, Debug)]
pub struct SinkPort {
    pub availability: String,
}

/// One audio output as listed by the sound server.
#[derive(Clone, Debug)]
pub struct PulseAudioSink {
    /// Assigned by the server; only its order among the sinks of one listing matters.
    pub index: u32,
    /// Stable identifier, matched against the active sink's name.
    pub name: String,
    pub ports: Vec<SinkPort>,
}

/// The value a sink stands for: its index, its name, and the availability
/// text of each of its ports, in order.
pub struct SinkModel {
    pub index: u32,
    pub name: Seq<char>,
    pub ports: Seq<Seq<char>>,
}

/// Why no sink could be switched to.
#[derive(Clone, Copy, Debug, PartialEq, Eq, Structural)]
pub enum SwitchError {
    /// The sound server's control program could not be run.
    CollaboratorUnavailable,
    /// The control program's output does not have the expected shape.
    MalformedResponse,
    /// No listed sink carries the active sink's name.
    NoActiveDevice,
    /// Every listed sink has all of its ports unplugged.
    NoCandidateDevices,
}

impl View for SinkPort {
    type V = Seq<char>;

    open spec fn view(&self) -> Seq<char> {
        self.availability@
    }
}

impl View for PulseAudioSink {
    type V = SinkModel;

    open spec fn view(&self) -> SinkModel {
        SinkModel {
            index: self.index,
            name: self.name@,
            ports: self.ports@.map_values(|p: SinkPort| p@),
        }
    }
}

/// The models of a listing of sinks, in order.
pub open spec fn sinks_view(sinks: Seq<PulseAudioSink>) -> Seq<SinkModel> {
    sinks.map_values(|s: PulseAudioSink| s@)
}

/// A port counts as usable unless it reports exactly "not available".
pub open spec fn port_is_usable(availability: Seq<char>) -> bool {
    availability != "not available"@
}

/// A sink can be switched to when it has no ports at all (a virtual sink)
/// or at least one usable port.
pub open spec fn sink_is_candidate(s: SinkModel) -> bool {
    s.ports.len() == 0 || exists|j: int| 0 <= j < s.ports.len() && port_is_usable(#[trigger] s.ports[j])
}

/// The sinks of a listing that can be switched to, in their listed order.
pub open spec fn candidates(sinks: Seq<SinkModel>) -> Seq<SinkModel> {
    sinks.filter(|s: SinkModel| sink_is_candidate(s))
}

/// `i` is the position of the first sink in the listing that has this name.
pub open spec fn is_first_named(sinks: Seq<SinkModel>, name: Seq<char>, i: int) -> bool {
    &&& 0 <= i < sinks.len()
    &&& sinks[i].name == name
    &&& forall|k: int| 0 <= k < i ==> sinks[k].name != name
}

/// Some sink of the listing has this name.
pub open spec fn has_named(sinks: Seq<SinkModel>, name: Seq<char>) -> bool {
    exists|k: int| 0 <= k < sinks.len() && #[trigger] sinks[k].name == name
}

/// No sink of the listing has an index above `current`.
pub open spec fn none_above(sinks: Seq<SinkModel>, current: u32) -> bool {
    forall|k: int| 0 <= k < sinks.len() ==> #[trigger] sinks[k].index <= current
}

/// `i` is the position picked after a sink with index `current`: the first
/// sink with a greater index, or the first sink when there is none.
pub open spec fn is_next_pick(sinks: Seq<SinkModel>, current: u32, i: int) -> bool {
    &&& 0 <= i < sinks.len()
    &&& if none_above(sinks, current) {
        i == 0
    } else {
        &&& sinks[i].index > current
        &&& forall|k: int| 0 <= k < i ==> #[trigger] sinks[k].index <= current
    }
}

impl SinkPort {
    /// A port with the same availability text.
    pub fn duplicate(&self) -> (r: SinkPort)
        ensures
            r@ == self@,
    {
        SinkPort { availability: self.availability.clone() }
    }
}

impl PulseAudioSink {
    /// A sink with the same index, name and ports.
    pub fn duplicate(&self) -> (r: PulseAudioSink)
        ensures
            r@ == self@,
    {
        let mut ports: Vec<SinkPort> = Vec::new();
        let mut j: usize = 0;
        while j < self.ports.len()
            invariant
                j <= self.ports@.len(),
                ports@.len() == j,
                forall|k: int| 0 <= k < j ==> #[trigger] ports@[k]@ == self.ports@[k]@,
            decreases self.ports@.len() - j,
        {
            ports.push(self.ports[j].duplicate());
            j = j + 1;
        }
        let r = PulseAudioSink { index: self.index, name: self.name.clone(), ports };
        assert(r@.ports =~= self@.ports);
        r
    }

    /// Whether the sink has no ports or at least one that is not reported
    /// as "not available".
    pub fn is_candidate(&self) -> (r: bool)
        ensures
            r == sink_is_candidate(self@),
    {
        if self.ports.len() == 0 {
            return true;
        }
        let unplugged = "not available".to_owned();
        let mut j: usize = 0;
        while j < self.ports.len()
            invariant
                j <= self.ports@.len(),
                unplugged@ == "not available"@,
                forall|k: int| 0 <= k < j ==> !port_is_usable(#[trigger] self@.ports[k]),
            decreases self.ports@.len() - j,
        {
            if self.ports[j].availability != unplugged {
                assert(port_is_usable(self@.ports[j as int]));
                return true;
            }
            j = j + 1;
        }
        false
    }
}

} // verus!
