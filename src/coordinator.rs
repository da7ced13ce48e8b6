//! The coordinator: the single owner of the last observed running state,
//! which turns status samples into icon updates and a quit message into
//! shutdown.
use vstd::prelude::*;

verus! {

/// One of the two icons the tray can show.
#[derive(Clone, Copy, Debug, PartialEq, Eq, Structural)]
pub enum Icon {
    Okay,
    Cancel,
}

/// A change in the observed running state.
#[derive(Clone, Copy, Debug, PartialEq, Eq, Structural)]
pub enum Edge {
    /// The process was not running and now is.
    Started,
    /// The process was running and now is not.
    Stopped,
}

/// A message delivered to the coordinator.
#[derive(Clone, Copy, Debug, PartialEq, Eq, Structural)]
pub enum Message {
    /// A status sample: whether the process was observed running.
    ProcessUpdate(bool),
    /// The user asked the program to quit.
    Quit,
}

/// What the coordinator asks its caller to do after one message.
#[derive(Clone, Copy, Debug, PartialEq, Eq, Structural)]
pub enum Step {
    /// Nothing to show: the sample did not change the state.
    Unchanged,
    /// Show this icon.
    SetIcon(Icon),
    /// Leave the receive loop, stop the poller and wait for it.
    Shutdown,
}

/// The other icon.
pub open spec fn swapped(i: Icon) -> Icon {
    match i {
        Icon::Okay => Icon::Cancel,
        Icon::Cancel => Icon::Okay,
    }
}

/// The edge, if any, between the last observed state and a new sample.
pub open spec fn edge_between(last: bool, sample: bool) -> Option<Edge> {
    if !last && sample {
        Some(Edge::Started)
    } else if last && !sample {
        Some(Edge::Stopped)
    } else {
        None
    }
}

/// The icon shown on an edge: "ok" when the process starts and "cancel"
/// when it stops, the other way round when the icons are inverted.
pub open spec fn icon_for(e: Edge, invert: bool) -> Icon {
    let plain = match e {
        Edge::Started => Icon::Okay,
        Edge::Stopped => Icon::Cancel,
    };
    if invert {
        swapped(plain)
    } else {
        plain
    }
}

/// The icon update, if any, for one sample given the last observed state.
pub open spec fn reaction(last: bool, sample: bool, invert: bool) -> Option<Icon> {
    match edge_between(last, sample) {
        Some(e) => Some(icon_for(e, invert)),
        None => None,
    }
}

/// The observed state just before the sample at index `i`: the previous
/// sample, or `false` before the first one.
pub open spec fn state_before(samples: Seq<bool>, i: int) -> bool {
    if i <= 0 {
        false
    } else {
        samples[i - 1]
    }
}

/// The edges that a sequence of samples produces, one entry per sample.
pub open spec fn edges_of(samples: Seq<bool>) -> Seq<Option<Edge>> {
    Seq::new(samples.len(), |i: int| edge_between(state_before(samples, i), samples[i]))
}

/// The icon updates that a sequence of samples produces, one entry per
/// sample (`None` where no icon is set).
pub open spec fn updates_of(samples: Seq<bool>, invert: bool) -> Seq<Option<Icon>> {
    Seq::new(samples.len(), |i: int| reaction(state_before(samples, i), samples[i], invert))
}

/// The number of icon-set calls in a sequence of updates.
pub open spec fn count_set(u: Seq<Option<Icon>>) -> nat
    decreases u.len(),
{
    if u.len() == 0 {
        0
    } else {
        count_set(u.drop_last()) + if u.last() is Some {
            1nat
        } else {
            0nat
        }
    }
}

impl Icon {
    /// The icon's name as the tray knows it.
    pub fn name(&self) -> (r: &'static str)
        ensures
            *self == Icon::Okay ==> r@ == "ok"@,
            *self == Icon::Cancel ==> r@ == "cancel"@,
    {
        match self {
            Icon::Okay => "ok",
            Icon::Cancel => "cancel",
        }
    }
}

/// The icon shown when the process is seen to start.
pub fn running_icon(invert: bool) -> (r: Icon)
    ensures
        r == icon_for(Edge::Started, invert),
{
    if invert {
        Icon::Cancel
    } else {
        Icon::Okay
    }
}

/// The icon shown when the process is seen to stop.
pub fn stopped_icon(invert: bool) -> (r: Icon)
    ensures
        r == icon_for(Edge::Stopped, invert),
{
    if invert {
        Icon::Okay
    } else {
        Icon::Cancel
    }
}

/// The pure transition: from the last observed state and a sample, the
/// new state and the edge, if one fired.
pub fn transition(last: bool, sample: bool) -> (r: (bool, Option<Edge>))
    ensures
        r.0 == sample,
        r.1 == edge_between(last, sample),
{
    if !last && sample {
        (sample, Some(Edge::Started))
    } else if last && !sample {
        (sample, Some(Edge::Stopped))
    } else {
        (sample, None)
    }
}

/// The coordinator's state: the last observed running state and the two
/// icons, fixed at start-up from the inversion flag.
pub struct Coordinator {
    observed: bool,
    running: Icon,
    stopped: Icon,
}

impl Coordinator {
    /// The last observed running state.
    pub closed spec fn observed_state(&self) -> bool {
        self.observed
    }

    /// Whether the icons are inverted.
    pub closed spec fn inverts(&self) -> bool {
        self.running == Icon::Cancel
    }

    /// The icons agree with the inversion flag.
    pub closed spec fn wf(&self) -> bool {
        &&& self.running == icon_for(Edge::Started, self.inverts())
        &&& self.stopped == icon_for(Edge::Stopped, self.inverts())
    }

    /// A coordinator that has seen no sample yet: the process counts as
    /// not running.
    pub fn new(invert: bool) -> (r: Coordinator)
        ensures
            r.wf(),
            !r.observed_state(),
            r.inverts() == invert,
    {
        Coordinator { observed: false, running: running_icon(invert), stopped: stopped_icon(invert) }
    }

    /// The last observed running state.
    pub fn observed(&self) -> (r: bool)
        ensures
            r == self.observed_state(),
    {
        self.observed
    }

    /// Whether the icons are inverted.
    pub fn inverted(&self) -> (r: bool)
        requires
            self.wf(),
        ensures
            r == self.inverts(),
    {
        self.running == Icon::Cancel
    }

    /// Handles one message. A sample sets an icon exactly on an edge and
    /// always becomes the observed state; a quit asks for shutdown and
    /// leaves the state as it was.
    pub fn handle(&mut self, msg: Message) -> (r: Step)
        requires
            old(self).wf(),
        ensures
            final(self).wf(),
            final(self).inverts() == old(self).inverts(),
            match msg {
                Message::ProcessUpdate(b) => {
                    &&& final(self).observed_state() == b
                    &&& r == match reaction(old(self).observed_state(), b, old(self).inverts()) {
                        Some(i) => Step::SetIcon(i),
                        None => Step::Unchanged,
                    }
                },
                Message::Quit => {
                    &&& r == Step::Shutdown
                    &&& final(self).observed_state() == old(self).observed_state()
                },
            },
    {
        match msg {
            Message::ProcessUpdate(b) => {
                let (next, edge) = transition(self.observed, b);
                self.observed = next;
                match edge {
                    Some(Edge::Started) => Step::SetIcon(self.running),
                    Some(Edge::Stopped) => Step::SetIcon(self.stopped),
                    None => Step::Unchanged,
                }
            },
            Message::Quit => Step::Shutdown,
        }
    }
}

/// Feeds a sequence of samples to a fresh coordinator and records, for
/// each sample, the icon it set (`None` where it set none).
pub fn replay(samples: &Vec<bool>, invert: bool) -> (r: Vec<Option<Icon>>)
    ensures
        r@ == updates_of(samples@, invert),
{
    let mut c = Coordinator::new(invert);
    let mut out: Vec<Option<Icon>> = Vec::new();
    let mut i: usize = 0;
    while i < samples.len()
        invariant
            i <= samples@.len(),
            c.wf(),
            c.inverts() == invert,
            c.observed_state() == state_before(samples@, i as int),
            out@ == updates_of(samples@, invert).subrange(0, i as int),
        decreases samples@.len() - i,
    {
        let step = c.handle(Message::ProcessUpdate(samples[i]));
        let u = match step {
            Step::SetIcon(icon) => Some(icon),
            _ => None,
        };
        out.push(u);
        i = i + 1;
        assert(out@ =~= updates_of(samples@, invert).subrange(0, i as int));
    }
    assert(out@ =~= updates_of(samples@, invert));
    out
}

/// An icon is set on a sample exactly when the sample differs from the state
/// observed just before it (`false` before the first sample): the process
/// seen starting shows the running icon, seen stopping the stopped icon.
pub proof fn lemma_icon_set_iff_changed(samples: Seq<bool>, invert: bool)
    ensures
        updates_of(samples, invert).len() == samples.len(),
        forall|i: int|
            0 <= i < samples.len() ==> {
                &&& (#[trigger] updates_of(samples, invert)[i] is Some) == (samples[i]
                    != state_before(samples, i))
                &&& (!state_before(samples, i) && samples[i]) ==> updates_of(samples, invert)[i]
                    == Some(icon_for(Edge::Started, invert))
                &&& (state_before(samples, i) && !samples[i]) ==> updates_of(samples, invert)[i]
                    == Some(icon_for(Edge::Stopped, invert))
            },
{
}

/// Dropping the last sample drops the last update.
proof fn lemma_updates_prefix(samples: Seq<bool>, invert: bool)
    requires
        samples.len() > 0,
    ensures
        updates_of(samples, invert).drop_last() == updates_of(samples.drop_last(), invert),
{
    assert(updates_of(samples, invert).drop_last() =~= updates_of(samples.drop_last(), invert));
}

/// A run of samples that all report the process running sets an icon
/// exactly once, however long the run is.
pub proof fn lemma_steady_running_sets_once(samples: Seq<bool>, invert: bool)
    requires
        samples.len() >= 1,
        forall|i: int| 0 <= i < samples.len() ==> samples[i],
    ensures
        count_set(updates_of(samples, invert)) == 1,
    decreases samples.len(),
{
    lemma_updates_prefix(samples, invert);
    let n = samples.len() as int;
    if n == 1 {
        let u = updates_of(samples, invert);
        assert(u.drop_last().len() == 0);
        assert(count_set(u.drop_last()) == 0);
        assert(u.last() is Some);
    } else {
        lemma_steady_running_sets_once(samples.drop_last(), invert);
        let u = updates_of(samples, invert);
        assert(state_before(samples, n - 1));
        assert(u.last() is None);
        assert(count_set(u) == count_set(u.drop_last()));
    }
}

/// Inverting the icons changes no edge: both runs set an icon on the same
/// samples, and each icon of the inverted run is the other icon of the
/// plain run.
pub proof fn lemma_inversion_swaps_icons(samples: Seq<bool>)
    ensures
        updates_of(samples, true).len() == updates_of(samples, false).len(),
        forall|i: int|
            0 <= i < samples.len() ==> {
                &&& (#[trigger] updates_of(samples, true)[i] is Some) == (edges_of(samples)[i] is Some)
                &&& (updates_of(samples, false)[i] is Some) == (edges_of(samples)[i] is Some)
                &&& updates_of(samples, false)[i] is Some ==> updates_of(samples, true)[i]
                    == Some(swapped(updates_of(samples, false)[i]->Some_0))
            },
{
}

} // verus!
