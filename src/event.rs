use vstd::prelude::*;

verus! {

/// The extended-data code that carries the remote standard error.
pub const EXTENDED_STDERR: u32 = 1;

/// One inbound message of the channel, in the order the peer sent it.
#[derive(Debug)]
pub enum ChannelEvent {
    /// Bytes of the remote standard output.
    Data(Vec<u8>),
    /// Bytes of an extended stream; code 1 is the remote standard error.
    ExtendedData(u32, Vec<u8>),
    /// The exit code of the remote command.
    ExitStatus(u32),
    /// Any other message; it carries nothing for the streams.
    Other,
}

/// The mathematical value of a channel event.
pub enum EventView {
    Data(Seq<u8>),
    ExtendedData(u32, Seq<u8>),
    ExitStatus(u32),
    Other,
}

impl View for ChannelEvent {
    type V = EventView;

    open spec fn view(&self) -> EventView {
        match self {
            ChannelEvent::Data(b) => EventView::Data(b@),
            ChannelEvent::ExtendedData(code, b) => EventView::ExtendedData(*code, b@),
            ChannelEvent::ExitStatus(code) => EventView::ExitStatus(*code),
            ChannelEvent::Other => EventView::Other,
        }
    }
}

/// The views of a sequence of events.
pub open spec fn events_view(s: Seq<ChannelEvent>) -> Seq<EventView> {
    s.map_values(|e: ChannelEvent| e@)
}

/// The bytes that one event contributes to standard output.
pub open spec fn stdout_part(e: EventView) -> Seq<u8> {
    match e {
        EventView::Data(b) => b,
        _ => Seq::empty(),
    }
}

/// The bytes that one event contributes to standard error.
pub open spec fn stderr_part(e: EventView) -> Seq<u8> {
    match e {
        EventView::ExtendedData(code, b) => if code == EXTENDED_STDERR {
            b
        } else {
            Seq::empty()
        },
        _ => Seq::empty(),
    }
}

/// Everything a stream of events writes to standard output, in order.
pub open spec fn stdout_of(s: Seq<EventView>) -> Seq<u8>
    decreases s.len(),
{
    if s.len() == 0 {
        Seq::empty()
    } else {
        stdout_of(s.drop_last()) + stdout_part(s.last())
    }
}

/// Everything a stream of events writes to standard error, in order.
pub open spec fn stderr_of(s: Seq<EventView>) -> Seq<u8>
    decreases s.len(),
{
    if s.len() == 0 {
        Seq::empty()
    } else {
        stderr_of(s.drop_last()) + stderr_part(s.last())
    }
}

/// The code of the last exit-status event of a stream, if it has one.
pub open spec fn exit_of(s: Seq<EventView>) -> Option<u32>
    decreases s.len(),
{
    if s.len() == 0 {
        None
    } else {
        match s.last() {
            EventView::ExitStatus(c) => Some(c),
            _ => exit_of(s.drop_last()),
        }
    }
}

/// Standard output of a concatenation is the concatenation of the parts.
pub proof fn lemma_stdout_append(a: Seq<EventView>, b: Seq<EventView>)
    ensures
        stdout_of(a + b) == stdout_of(a) + stdout_of(b),
    decreases b.len(),
{
    if b.len() == 0 {
        assert(a + b =~= a);
        assert(stdout_of(b) =~= Seq::empty());
        assert(stdout_of(a) + stdout_of(b) =~= stdout_of(a));
    } else {
        lemma_stdout_append(a, b.drop_last());
        assert((a + b).drop_last() =~= a + b.drop_last());
        assert((a + b).last() == b.last());
        assert(stdout_of(a + b) =~= stdout_of(a) + stdout_of(b));
    }
}

/// Standard error of a concatenation is the concatenation of the parts.
pub proof fn lemma_stderr_append(a: Seq<EventView>, b: Seq<EventView>)
    ensures
        stderr_of(a + b) == stderr_of(a) + stderr_of(b),
    decreases b.len(),
{
    if b.len() == 0 {
        assert(a + b =~= a);
        assert(stderr_of(b) =~= Seq::empty());
        assert(stderr_of(a) + stderr_of(b) =~= stderr_of(a));
    } else {
        lemma_stderr_append(a, b.drop_last());
        assert((a + b).drop_last() =~= a + b.drop_last());
        assert((a + b).last() == b.last());
        assert(stderr_of(a + b) =~= stderr_of(a) + stderr_of(b));
    }
}

/// The exit code of a concatenation is the later part's, if it has one.
pub proof fn lemma_exit_append(a: Seq<EventView>, b: Seq<EventView>)
    ensures
        exit_of(a + b) == (if exit_of(b) is Some {
            exit_of(b)
        } else {
            exit_of(a)
        }),
    decreases b.len(),
{
    if b.len() == 0 {
        assert(a + b =~= a);
    } else {
        lemma_exit_append(a, b.drop_last());
        assert((a + b).drop_last() =~= a + b.drop_last());
        assert((a + b).last() == b.last());
    }
}

} // verus!
