use vstd::prelude::*;
use crate::event::{
    ChannelEvent, EventView, EXTENDED_STDERR, events_view, stdout_part, stderr_part, stdout_of,
    stderr_of, exit_of,
};
use crate::status::ExitStatus;

verus! {

/// What the task running the drain loop does next.
#[derive(Debug)]
pub enum DrainAction {
    /// Write these bytes to the stdout pipe, waiting while it is full.
    WriteStdout(Vec<u8>),
    /// Write these bytes to the stderr pipe, waiting while it is full.
    WriteStderr(Vec<u8>),
    /// Nothing to write; wait for the next event.
    Skip,
    /// The channel has closed: shut down both pipes and resolve to this status.
    Finish(ExitStatus),
}

/// The action that an inbound event calls for.
pub open spec fn routes(e: EventView, a: DrainAction) -> bool {
    match e {
        EventView::Data(b) => match a {
            DrainAction::WriteStdout(w) => w@ == b,
            _ => false,
        },
        EventView::ExtendedData(code, b) => if code == EXTENDED_STDERR {
            match a {
                DrainAction::WriteStderr(w) => w@ == b,
                _ => false,
            }
        } else {
            a is Skip
        },
        _ => a is Skip,
    }
}

/// The bytes that an action writes to standard output.
pub open spec fn stdout_written(a: DrainAction) -> Seq<u8> {
    match a {
        DrainAction::WriteStdout(w) => w@,
        _ => Seq::empty(),
    }
}

/// The bytes that an action writes to standard error.
pub open spec fn stderr_written(a: DrainAction) -> Seq<u8> {
    match a {
        DrainAction::WriteStderr(w) => w@,
        _ => Seq::empty(),
    }
}

/// The state machine that fans the channel's single ordered event stream out
/// to the stdout and stderr pipes and records the exit code.
///
/// It is running until the channel reports its end, and closed after.
/// An exit-status event does not end it: data that follows is still routed.
pub struct DrainLoop {
    exit: Option<u32>,
    finished: bool,
    seen: Ghost<Seq<EventView>>,
}

impl DrainLoop {
    /// The events consumed so far, in order.
    pub closed spec fn events(self) -> Seq<EventView> {
        self.seen@
    }

    /// True once the end of the channel has been seen.
    pub closed spec fn is_finished(self) -> bool {
        self.finished
    }

    /// The recorded exit code is that of the last exit-status event seen.
    pub closed spec fn wf(self) -> bool {
        self.exit == exit_of(self.seen@)
    }

    /// A loop in its initial state: running, no event seen, no exit code.
    pub fn new() -> (r: DrainLoop)
        ensures
            r.wf(),
            !r.is_finished(),
            r.events() == Seq::<EventView>::empty(),
    {
        DrainLoop { exit: None, finished: false, seen: Ghost(Seq::empty()) }
    }

    /// The exit code recorded so far.
    pub fn exit_code(&self) -> (r: Option<u32>)
        requires
            self.wf(),
        ensures
            r == exit_of(self.events()),
    {
        self.exit
    }

    /// Takes the next result of waiting on the channel: an event, or `None`
    /// once the channel has closed. Returns what to do with it.
    pub fn step(&mut self, event: Option<ChannelEvent>) -> (r: DrainAction)
        requires
            old(self).wf(),
            !old(self).is_finished(),
        ensures
            final(self).wf(),
            match event {
                Some(e) => {
                    &&& final(self).events() == old(self).events().push(e@)
                    &&& !final(self).is_finished()
                    &&& routes(e@, r)
                },
                None => {
                    &&& final(self).events() == old(self).events()
                    &&& final(self).is_finished()
                    &&& r is Finish
                    &&& r->Finish_0@ == exit_of(old(self).events())
                },
            },
    {
        match event {
            Some(e) => {
                proof {
                    let s = self.seen@.push(e@);
                    assert(s.drop_last() =~= self.seen@);
                    self.seen = Ghost(s);
                }
                match e {
                    ChannelEvent::Data(b) => DrainAction::WriteStdout(b),
                    ChannelEvent::ExtendedData(code, b) => {
                        if code == EXTENDED_STDERR {
                            DrainAction::WriteStderr(b)
                        } else {
                            DrainAction::Skip
                        }
                    },
                    ChannelEvent::ExitStatus(code) => {
                        self.exit = Some(code);
                        DrainAction::Skip
                    },
                    ChannelEvent::Other => DrainAction::Skip,
                }
            },
            None => {
                self.finished = true;
                DrainAction::Finish(ExitStatus::from_exit(self.exit))
            },
        }
    }
}

/// A routed action writes exactly the event's bytes to each stream.
pub proof fn lemma_routes_writes(e: EventView, a: DrainAction)
    requires
        routes(e, a),
    ensures
        stdout_written(a) == stdout_part(e),
        stderr_written(a) == stderr_part(e),
{
}

/// The result of a finished command: its status and everything it wrote.
#[derive(Debug)]
pub struct Output {
    pub status: ExitStatus,
    pub stdout: Vec<u8>,
    pub stderr: Vec<u8>,
}

impl Output {
    /// Runs the drain loop over a complete event stream, as received before
    /// the channel closed, and gathers what the pipes would carry.
    pub fn collect(events: Vec<ChannelEvent>) -> (r: Output)
        ensures
            r.stdout@ == stdout_of(events_view(events@)),
            r.stderr@ == stderr_of(events_view(events@)),
            r.status@ == exit_of(events_view(events@)),
    {
        let ghost all = events_view(events@);
        let mut rest = events;
        let mut drain = DrainLoop::new();
        let mut stdout: Vec<u8> = Vec::new();
        let mut stderr: Vec<u8> = Vec::new();
        while rest.len() > 0
            invariant
                drain.wf(),
                !drain.is_finished(),
                all == drain.events() + events_view(rest@),
                stdout@ == stdout_of(drain.events()),
                stderr@ == stderr_of(drain.events()),
            decreases rest.len(),
        {
            let ghost before = drain.events();
            let ghost rest_before = rest@;
            let e = rest.remove(0);
            proof {
                assert(events_view(rest@) =~= events_view(rest_before).drop_first());
                assert(events_view(rest_before) =~= seq![e@] + events_view(rest@));
            }
            let action = drain.step(Some(e));
            proof {
                assert(drain.events().drop_last() =~= before);
                lemma_routes_writes(e@, action);
            }
            match action {
                DrainAction::WriteStdout(mut w) => stdout.append(&mut w),
                DrainAction::WriteStderr(mut w) => stderr.append(&mut w),
                _ => {},
            }
            proof {
                assert(stdout@ =~= stdout_of(drain.events()));
                assert(stderr@ =~= stderr_of(drain.events()));
                assert(all =~= drain.events() + events_view(rest@));
            }
        }
        proof {
            assert(events_view(rest@) =~= Seq::<EventView>::empty());
            assert(all =~= drain.events());
        }
        let status = match drain.step(None) {
            DrainAction::Finish(s) => s,
            _ => ExitStatus::from_exit(None),
        };
        Output { status, stdout, stderr }
    }
}

} // verus!
