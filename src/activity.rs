//! Aggregation of open/close activity on video capture nodes into a session count.

use vstd::prelude::*;
use vstd::string::*;

verus! {

/// What happened to a device node.
#[derive(Debug, Clone, Copy, PartialEq, Eq, Structural)]
pub enum EventKind {
    /// The node was opened.
    Open,
    /// The node was closed.
    Close,
    /// Any other notification.
    Other,
}

/// One notification of the operating system's device-activity source.
#[derive(Debug, Clone)]
pub struct DeviceEvent {
    /// File name of the node, relative to the watched directory.
    pub name: String,
    pub kind: EventKind,
}

/// The change of the "camera in use" signal that a batch of events caused.
#[derive(Debug, Clone, Copy, PartialEq, Eq, Structural)]
pub enum Transition {
    /// No change to act upon.
    Unchanged,
    /// New sessions were opened while the count is positive.
    SessionsActive,
    /// The count is zero after the batch changed it.
    NoSessions,
}

/// Whether a node name is that of a video capture node.
pub open spec fn is_video_name(name: Seq<char>) -> bool {
    name.len() >= 5 && name.subrange(0, 5) == seq!['v', 'i', 'd', 'e', 'o']
}

/// The kinds of the events on video capture nodes, in order.
pub open spec fn video_kinds(events: Seq<DeviceEvent>) -> Seq<EventKind>
    decreases events.len(),
{
    if events.len() == 0 {
        Seq::empty()
    } else {
        let rest = video_kinds(events.drop_last());
        if is_video_name(events.last().name@) {
            rest.push(events.last().kind)
        } else {
            rest
        }
    }
}

/// Number of events of kind `kind`.
pub open spec fn count_kind(kinds: Seq<EventKind>, kind: EventKind) -> nat
    decreases kinds.len(),
{
    if kinds.len() == 0 {
        0
    } else {
        count_kind(kinds.drop_last(), kind) + if kinds.last() == kind {
            1nat
        } else {
            0nat
        }
    }
}

/// The session count after `opens` opens and `closes` closes: the net change
/// is added with saturation at zero and at the largest `usize`.
pub open spec fn count_after(count: nat, opens: nat, closes: nat) -> nat {
    if opens >= closes {
        let sum = (count + (opens - closes)) as nat;
        if sum > usize::MAX {
            usize::MAX as nat
        } else {
            sum
        }
    } else if count >= closes - opens {
        (count - (closes - opens)) as nat
    } else {
        0
    }
}

/// The transition that a batch with `opens` opens and `closes` closes causes,
/// given the count after it.
pub open spec fn transition_of(new_count: nat, opens: nat, closes: nat) -> Transition {
    if opens == closes {
        Transition::Unchanged
    } else if opens > closes && new_count > 0 {
        Transition::SessionsActive
    } else if new_count == 0 {
        Transition::NoSessions
    } else {
        Transition::Unchanged
    }
}

/// Whether `name` starts with the prefix of video capture nodes.
pub fn is_video_device_name(name: &str) -> (r: bool)
    ensures
        r == is_video_name(name@),
{
    let prefix: &str = "video";
    proof {
        reveal_strlit("video");
    }
    let n = name.unicode_len();
    if n < 5 {
        return false;
    }
    let mut i: usize = 0;
    while i < 5
        invariant
            0 <= i <= 5,
            n == name@.len(),
            n >= 5,
            prefix@ == seq!['v', 'i', 'd', 'e', 'o'],
            forall|j: int| 0 <= j < i ==> name@[j] == prefix@[j],
        decreases 5 - i,
    {
        if name.get_char(i) != prefix.get_char(i) {
            assert(name@.subrange(0, 5)[i as int] != seq!['v', 'i', 'd', 'e', 'o'][i as int]);
            return false;
        }
        i = i + 1;
    }
    assert(name@.subrange(0, 5) =~= seq!['v', 'i', 'd', 'e', 'o']);
    true
}

/// The kinds of the events that concern video capture nodes, in order.
pub fn video_event_kinds(events: &Vec<DeviceEvent>) -> (r: Vec<EventKind>)
    ensures
        r@ == video_kinds(events@),
{
    let mut r: Vec<EventKind> = Vec::new();
    let mut i: usize = 0;
    while i < events.len()
        invariant
            0 <= i <= events@.len(),
            r@ == video_kinds(events@.subrange(0, i as int)),
        decreases events@.len() - i,
    {
        proof {
            let s = events@.subrange(0, i as int + 1);
            assert(s.drop_last() =~= events@.subrange(0, i as int));
        }
        if is_video_device_name(events[i].name.as_str()) {
            r.push(events[i].kind);
        }
        i = i + 1;
    }
    assert(events@.subrange(0, events@.len() as int) =~= events@);
    r
}

/// Running count of open capture sessions.
#[derive(Debug)]
pub struct ActivityAggregator {
    count: usize,
}

impl View for ActivityAggregator {
    type V = nat;

    closed spec fn view(&self) -> nat {
        self.count as nat
    }
}

impl ActivityAggregator {
    /// An aggregator with no open session.
    pub fn new() -> (r: ActivityAggregator)
        ensures
            r@ == 0,
    {
        ActivityAggregator { count: 0 }
    }

    /// The current session count.
    pub fn session_count(&self) -> (r: usize)
        ensures
            r as nat == self@,
    {
        self.count
    }

    /// Forgets all sessions.
    pub fn reset(&mut self)
        ensures
            final(self)@ == 0,
    {
        self.count = 0;
    }

    /// Applies one batch of events on video capture nodes: the net of opens
    /// minus closes is added to the count, saturating at zero, and the
    /// transition that the batch causes is returned.
    pub fn process_video_events(&mut self, events: &Vec<EventKind>) -> (r: Transition)
        ensures
            final(self)@ == count_after(
                old(self)@,
                count_kind(events@, EventKind::Open),
                count_kind(events@, EventKind::Close),
            ),
            r == transition_of(
                final(self)@,
                count_kind(events@, EventKind::Open),
                count_kind(events@, EventKind::Close),
            ),
            final(self)@ <= usize::MAX,
    {
        let mut opens: usize = 0;
        let mut closes: usize = 0;
        let mut i: usize = 0;
        while i < events.len()
            invariant
                0 <= i <= events@.len(),
                opens as nat == count_kind(events@.subrange(0, i as int), EventKind::Open),
                closes as nat == count_kind(events@.subrange(0, i as int), EventKind::Close),
                opens + closes <= i,
            decreases events@.len() - i,
        {
            proof {
                let s = events@.subrange(0, i as int + 1);
                assert(s.drop_last() =~= events@.subrange(0, i as int));
            }
            match events[i] {
                EventKind::Open => {
                    opens = opens + 1;
                },
                EventKind::Close => {
                    closes = closes + 1;
                },
                EventKind::Other => {},
            }
            i = i + 1;
        }
        assert(events@.subrange(0, events@.len() as int) =~= events@);
        if opens >= closes {
            self.count = self.count.saturating_add(opens - closes);
        } else {
            self.count = self.count.saturating_sub(closes - opens);
        }
        if opens == closes {
            Transition::Unchanged
        } else if opens > closes && self.count > 0 {
            Transition::SessionsActive
        } else if self.count == 0 {
            Transition::NoSessions
        } else {
            Transition::Unchanged
        }
    }
}

} // verus!
