//! The output relay: one worker per session that drains the PTY's output.
//!
//! The relay is driven by the embedding application, which owns the blocking
//! read on its privately cloned reader handle: each read is handed in as one
//! event, and the relay answers with the event to publish.  A successful
//! read of `n > 0` bytes is published as one output event carrying the
//! lossily decoded text, in arrival order; end-of-stream and read errors are
//! each answered with a single exit event, after which the relay is done and
//! takes no further reads.

use vstd::prelude::*;
use vstd::utf8::decode_utf8;
use vstd::utf8::valid_utf8;

verus! {

/// What `String::from_utf8_lossy` decodes the given bytes to.  The decoding
/// is a pure function of the bytes alone: invalid UTF-8 sequences are
/// replaced with the replacement character, everything else is kept.
pub uninterp spec fn lossy_of(b: Seq<u8>) -> Seq<char>;

/// Relies on `String::from_utf8_lossy`: the result is a function of the
/// bytes alone, and on valid UTF-8 input it is exactly the decoded text,
/// with no replacement made.
#[verifier::external_body]
fn decode_lossy(bytes: &[u8]) -> (r: String)
    ensures
        r@ == lossy_of(bytes@),
        valid_utf8(bytes@) ==> r@ == decode_utf8(bytes@),
{
    String::from_utf8_lossy(bytes).to_string()
}

/// One blocking read from the relay's reader handle, as the embedding
/// application observed it.
#[derive(Debug, Clone, PartialEq, Eq)]
pub enum ReadEvent {
    /// The read returned these `n > 0` bytes.
    Data(Vec<u8>),
    /// The read returned length zero: the child exited and the PTY closed.
    Eof,
    /// The read failed; the relay does not retry.
    ReadFailed,
}

/// The event the relay publishes to the event sink in answer to one read.
#[derive(Debug, Clone, PartialEq, Eq)]
pub enum RelayAction {
    /// Publish one output event carrying this chunk of decoded terminal text.
    Output(String),
    /// Publish the single exit event and stop.
    Exit,
}

/// The relay bound to one session's reader handle.
///
/// The ghost fields record the relay's published history, so that the
/// ordering and exactly-once guarantees can be stated of every reachable
/// state: all bytes received, the raw chunk behind each published output
/// event, and the number of exit events published.
pub struct OutputRelay {
    /// Whether the exit event has been published and the relay has stopped.
    pub done: bool,
    /// All bytes received in data reads, concatenated in arrival order.
    pub read_bytes: Ghost<Seq<u8>>,
    /// The raw byte chunk behind each published output event, in order.
    pub published: Ghost<Seq<Seq<u8>>>,
    /// How many exit events have been published.
    pub exit_events: Ghost<int>,
}

impl OutputRelay {
    /// Well-formedness: the relay has published exactly one exit event once
    /// it is done and none before, and the published chunks concatenated are
    /// exactly the bytes received, in order.
    pub open spec fn wf(self) -> bool {
        &&& self.exit_events@ == if self.done {
            1int
        } else {
            0int
        }
        &&& self.published@.flatten() == self.read_bytes@
    }

    /// A relay that has read and published nothing.
    pub fn new() -> (r: OutputRelay)
        ensures
            r.wf(),
            !r.done,
            r.read_bytes@ == Seq::<u8>::empty(),
            r.published@ == Seq::<Seq<u8>>::empty(),
            r.exit_events@ == 0,
    {
        let r = OutputRelay {
            done: false,
            read_bytes: Ghost(Seq::empty()),
            published: Ghost(Seq::empty()),
            exit_events: Ghost(0),
        };
        proof {
            assert(r.published@.flatten() =~= r.read_bytes@);
        }
        r
    }

    /// Take one read and answer with the event to publish.
    ///
    /// Data is answered with one output event whose text is the lossy
    /// decoding of the chunk; end-of-stream and a read error are each
    /// answered with the exit event, exactly once, after which the relay is
    /// done.
    pub fn on_read(&mut self, ev: ReadEvent) -> (a: RelayAction)
        requires
            old(self).wf(),
            !old(self).done,
        ensures
            final(self).wf(),
            (match ev {
                ReadEvent::Data(b) => {
                    &&& a matches RelayAction::Output(s) && s@ == lossy_of(b@)
                    &&& !final(self).done
                    &&& final(self).read_bytes@ == old(self).read_bytes@ + b@
                    &&& final(self).published@ == old(self).published@.push(b@)
                    &&& final(self).exit_events@ == old(self).exit_events@
                },
                _ => {
                    &&& a is Exit
                    &&& final(self).done
                    &&& final(self).exit_events@ == old(self).exit_events@ + 1
                    &&& final(self).read_bytes@ == old(self).read_bytes@
                    &&& final(self).published@ == old(self).published@
                },
            }),
    {
        match ev {
            ReadEvent::Data(b) => {
                let text = decode_lossy(b.as_slice());
                self.read_bytes = Ghost(self.read_bytes@ + b@);
                self.published = Ghost(self.published@.push(b@));
                proof {
                    old(self).published@.lemma_flatten_push(b@);
                    assert(self.published@.flatten() =~= self.read_bytes@);
                }
                RelayAction::Output(text)
            },
            ReadEvent::Eof => {
                self.done = true;
                self.exit_events = Ghost(self.exit_events@ + 1);
                RelayAction::Exit
            },
            ReadEvent::ReadFailed => {
                self.done = true;
                self.exit_events = Ghost(self.exit_events@ + 1);
                RelayAction::Exit
            },
        }
    }
}

/// Exactly-once termination: in every reachable relay state at most one exit
/// event has been published, and exactly one has been published precisely
/// when the relay has stopped — whether the stream ended normally or with a
/// read error.
pub proof fn lemma_exit_exactly_once(r: OutputRelay)
    requires
        r.wf(),
    ensures
        0 <= r.exit_events@ <= 1,
        r.done <==> r.exit_events@ == 1,
{
}

/// Ordering: in every reachable relay state, the raw chunks behind the
/// published output events, concatenated, are exactly the bytes the child
/// wrote into the PTY as the relay received them, in order.  Each event
/// carries the lossy decoding of its own chunk, so the guarantee is exact at
/// the byte level and holds of the text up to decoding at chunk boundaries.
pub proof fn lemma_output_ordering(r: OutputRelay)
    requires
        r.wf(),
    ensures
        r.published@.flatten() == r.read_bytes@,
{
}

} // verus!
