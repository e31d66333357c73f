use vstd::prelude::*;

verus! {

/// A remote command not yet started: the channel it will run on and the
/// command line, as bytes. Starting it consumes it.
#[derive(Debug)]
pub struct Command<C> {
    inner: C,
    command: Vec<u8>,
}

impl<C> Command<C> {
    /// The channel the command will run on.
    pub closed spec fn channel(self) -> C {
        self.inner
    }

    /// The command line.
    pub closed spec fn command_line(self) -> Seq<u8> {
        self.command@
    }

    /// Binds a channel to a command line; nothing is sent.
    pub fn from_channel(inner: C, command: Vec<u8>) -> (r: Self)
        ensures
            r.channel() == inner,
            r.command_line() == command@,
    {
        Command { inner, command }
    }

    /// Gives back the channel and the command line, to start the command.
    pub fn into_parts(self) -> (r: (C, Vec<u8>))
        ensures
            r.0 == self.channel(),
            r.1@ == self.command_line(),
    {
        (self.inner, self.command)
    }
}

} // verus!
