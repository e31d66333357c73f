use vstd::prelude::*;

verus! {

/// What the task forwarding stdin to the channel does next.
#[derive(Debug)]
pub enum ForwardAction {
    /// Send these bytes to the channel as ordinary data.
    Send(Vec<u8>),
    /// The stdin pipe reached its end: signal end of input to the channel and stop.
    CloseInput,
}

/// The state machine of the task that copies the stdin pipe into the channel.
///
/// It runs until the pipe reports end of stream or a send fails; a failed
/// send is kept so that it can be reported rather than lost.
pub struct StdinForwarder {
    finished: bool,
    failed: bool,
    sent: Ghost<Seq<Seq<u8>>>,
}

impl StdinForwarder {
    /// The chunks handed to the channel so far, in order.
    pub closed spec fn chunks_sent(self) -> Seq<Seq<u8>> {
        self.sent@
    }

    /// True once the forwarder has stopped.
    pub closed spec fn is_finished(self) -> bool {
        self.finished
    }

    /// True once a send to the channel has failed.
    pub closed spec fn has_failed(self) -> bool {
        self.failed
    }

    /// A forwarder that has sent nothing yet.
    pub fn new() -> (r: StdinForwarder)
        ensures
            !r.is_finished(),
            !r.has_failed(),
            r.chunks_sent() == Seq::<Seq<u8>>::empty(),
    {
        StdinForwarder { finished: false, failed: false, sent: Ghost(Seq::empty()) }
    }

    /// Takes the bytes of one read from the stdin pipe; an empty read is the
    /// end of the stream, which comes once the caller has dropped or closed
    /// its stdin handle.
    pub fn on_read(&mut self, chunk: Vec<u8>) -> (r: ForwardAction)
        requires
            !old(self).is_finished(),
        ensures
            final(self).has_failed() == old(self).has_failed(),
            chunk@.len() == 0 ==> {
                &&& r is CloseInput
                &&& final(self).is_finished()
                &&& final(self).chunks_sent() == old(self).chunks_sent()
            },
            chunk@.len() > 0 ==> {
                &&& r is Send
                &&& r->Send_0@ == chunk@
                &&& !final(self).is_finished()
                &&& final(self).chunks_sent() == old(self).chunks_sent().push(chunk@)
            },
    {
        if chunk.len() == 0 {
            self.finished = true;
            ForwardAction::CloseInput
        } else {
            self.sent = Ghost(self.sent@.push(chunk@));
            ForwardAction::Send(chunk)
        }
    }

    /// Records that sending to the channel failed; the forwarder stops.
    pub fn on_send_failed(&mut self)
        requires
            !old(self).is_finished(),
        ensures
            final(self).is_finished(),
            final(self).has_failed(),
            final(self).chunks_sent() == old(self).chunks_sent(),
    {
        self.finished = true;
        self.failed = true;
    }

    /// True when a send to the channel has failed.
    pub fn failed(&self) -> (r: bool)
        ensures
            r == self.has_failed(),
    {
        self.failed
    }
}

} // verus!
