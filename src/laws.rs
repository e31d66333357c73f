use vstd::prelude::*;
use crate::event::{
    EventView, EXTENDED_STDERR, stdout_of, stderr_of, exit_of, lemma_stdout_append,
    lemma_stderr_append, lemma_exit_append,
};
use crate::forward::StdinForwarder;

verus! {

/// The event stream of a peer that sends these chunks as ordinary data.
pub open spec fn data_events(chunks: Seq<Seq<u8>>) -> Seq<EventView> {
    chunks.map_values(|c: Seq<u8>| EventView::Data(c))
}

/// A command that writes nothing and exits with code `c` yields empty
/// streams and exactly that code; the status is a success only for 0.
pub proof fn law_silent_command_exit_code(c: u32)
    ensures
        stdout_of(seq![EventView::ExitStatus(c)]) == Seq::<u8>::empty(),
        stderr_of(seq![EventView::ExitStatus(c)]) == Seq::<u8>::empty(),
        exit_of(seq![EventView::ExitStatus(c)]) == Some(c),
        (exit_of(seq![EventView::ExitStatus(c)]) == Some(0u32)) == (c == 0),
{
    let s = seq![EventView::ExitStatus(c)];
    assert(s.drop_last() =~= Seq::<EventView>::empty());
    assert(s.last() == EventView::ExitStatus(c));
    assert(stdout_of(s.drop_last()) == Seq::<u8>::empty());
    assert(stderr_of(s.drop_last()) == Seq::<u8>::empty());
    assert(stdout_of(s) =~= Seq::<u8>::empty());
    assert(stderr_of(s) =~= Seq::<u8>::empty());
}

/// However the output is cut into data messages, standard output receives
/// every byte, in order, and standard error receives none.
pub proof fn law_data_chunks_delivered(chunks: Seq<Seq<u8>>)
    ensures
        stdout_of(data_events(chunks)) == chunks.flatten(),
        stderr_of(data_events(chunks)) == Seq::<u8>::empty(),
    decreases chunks.len(),
{
    if chunks.len() == 0 {
        assert(data_events(chunks) =~= Seq::<EventView>::empty());
    } else {
        let init = chunks.drop_last();
        law_data_chunks_delivered(init);
        assert(data_events(chunks).drop_last() =~= data_events(init));
        assert(chunks =~= init.push(chunks.last()));
        init.lemma_flatten_push(chunks.last());
        assert(stderr_of(data_events(chunks)) =~= Seq::<u8>::empty());
    }
}

/// An event that is not ordinary data never reaches standard output, and one
/// that is not extended data with the stderr code never reaches standard
/// error, wherever it stands in the stream.
pub proof fn law_streams_do_not_mix(a: Seq<EventView>, e: EventView, b: Seq<EventView>)
    ensures
        !(e is Data) ==> stdout_of(a.push(e) + b) == stdout_of(a + b),
        !(e matches EventView::ExtendedData(code, _) && code == EXTENDED_STDERR) ==> stderr_of(
            a.push(e) + b,
        ) == stderr_of(a + b),
{
    lemma_stdout_append(a.push(e), b);
    lemma_stdout_append(a, b);
    lemma_stderr_append(a.push(e), b);
    lemma_stderr_append(a, b);
    assert(a.push(e).drop_last() =~= a);
    if !(e is Data) {
        assert(stdout_of(a.push(e)) =~= stdout_of(a));
    }
    if !(e matches EventView::ExtendedData(code, _) && code == EXTENDED_STDERR) {
        assert(stderr_of(a.push(e)) =~= stderr_of(a));
    }
}

/// Data that follows an exit-status event is still delivered, after what
/// came before it; the code stands unless a later exit-status event replaces it.
pub proof fn law_data_after_exit(a: Seq<EventView>, c: u32, b: Seq<EventView>)
    ensures
        stdout_of(a.push(EventView::ExitStatus(c)) + b) == stdout_of(a) + stdout_of(b),
        stderr_of(a.push(EventView::ExitStatus(c)) + b) == stderr_of(a) + stderr_of(b),
        exit_of(a.push(EventView::ExitStatus(c)) + b) == (if exit_of(b) is Some {
            exit_of(b)
        } else {
            Some(c)
        }),
{
    let p = a.push(EventView::ExitStatus(c));
    lemma_stdout_append(p, b);
    lemma_stderr_append(p, b);
    lemma_exit_append(p, b);
    assert(p.drop_last() =~= a);
    assert(stdout_of(p) =~= stdout_of(a));
    assert(stderr_of(p) =~= stderr_of(a));
}

/// A stream without any exit-status event leaves the exit code unknown.
pub proof fn law_no_exit_status(s: Seq<EventView>)
    requires
        forall|i: int| 0 <= i < s.len() ==> !(#[trigger] s[i] is ExitStatus),
    ensures
        exit_of(s) == None::<u32>,
    decreases s.len(),
{
    if s.len() > 0 {
        let init = s.drop_last();
        assert forall|i: int| 0 <= i < init.len() implies !(#[trigger] init[i] is ExitStatus) by {
            assert(init[i] == s[i]);
        }
        law_no_exit_status(init);
        assert(!(s[s.len() - 1] is ExitStatus));
    }
}

/// What the stdin forwarder sent, echoed back by the remote command as data,
/// comes out on standard output as the same bytes in the same order.
pub proof fn law_echo_round_trip(f: StdinForwarder)
    ensures
        stdout_of(data_events(f.chunks_sent())) == f.chunks_sent().flatten(),
        stderr_of(data_events(f.chunks_sent())) == Seq::<u8>::empty(),
{
    law_data_chunks_delivered(f.chunks_sent());
}

} // verus!
