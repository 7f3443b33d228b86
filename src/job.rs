use crate::socket;
use crate::socket::SocketAddress;
use vstd::prelude::*;
use vstd::string::StringSliceAdditionalSpecFns;

verus! {

/// The bytes that follow the metric key in a statsd counter increment: `:1|c`.
pub open spec fn counter_suffix() -> Seq<u8> {
    seq![58u8, 49u8, 124u8, 99u8]
}

/// The statsd line that increments the counter `statsd_key` by one: the
/// key's UTF-8 bytes followed by `:1|c`, with nothing escaped.
pub open spec fn payload_of(statsd_key: Seq<char>) -> Seq<u8> {
    vstd::utf8::encode_utf8(statsd_key) + counter_suffix()
}

pub fn build_payload(statsd_key: &str) -> (r: Vec<u8>)
    ensures
        r@ == payload_of(statsd_key@),
{
    let key = statsd_key.as_bytes();
    let mut bytes: Vec<u8> = Vec::new();
    let mut i: usize = 0;
    while i < key.len()
        invariant
            i <= key@.len(),
            key@ == statsd_key.spec_bytes(),
            bytes@ == key@.subrange(0, i as int),
        decreases key@.len() - i,
    {
        bytes.push(key[i]);
        i = i + 1;
    }
    // ":1|c"
    bytes.push(58u8);
    bytes.push(49u8);
    bytes.push(124u8);
    bytes.push(99u8);
    assert(bytes@ =~= payload_of(statsd_key@));
    bytes
}

/// Why one probe of a job failed.
#[allow(inconsistent_fields)]
#[derive(Debug)]
pub enum Error {
    /// Name resolution itself failed.
    LookupHost { source: std::io::Error },
    /// Name resolution succeeded with no candidate address.
    LookupHostEmpty,
    /// Writing the datagram failed after a socket was obtained.
    SendPayload { source: std::io::Error },
    /// No candidate address yielded a socket; holds the last refusal.
    SocketFactory { source: socket::Error },
}

/// One probe target at run time: its address text, kept verbatim, and the
/// payload built once from its metric key.
pub struct Job {
    address: String,
    payload: Vec<u8>,
}

impl View for Job {
    type V = (Seq<char>, Seq<u8>);

    closed spec fn view(&self) -> (Seq<char>, Seq<u8>) {
        (self.address@, self.payload@)
    }
}

impl Job {
    pub fn new(address: String, payload: &str) -> (r: Job)
        ensures
            r@.0 == address@,
            r@.1 == payload_of(payload@),
    {
        Job { address, payload: build_payload(payload) }
    }

    pub fn address(&self) -> (r: &str)
        ensures
            r@ == self@.0,
    {
        self.address.as_str()
    }

    /// The datagram that each probe of this job sends.
    pub fn payload(&self) -> (r: &[u8])
        ensures
            r@ == self@.1,
    {
        self.payload.as_slice()
    }
}

/// What a probe has to do next.
#[derive(Debug)]
pub enum Step {
    /// Obtain a socket for this candidate from the socket factory, then
    /// report the outcome with `Resolution::acquired`.
    Acquire(SocketAddress),
    /// Send the payload to this candidate over the socket just obtained, then
    /// report the outcome with `sent`.
    Send(SocketAddress),
    /// The probe has failed.
    Fail(Error),
}

/// The walk of one probe over the candidate addresses that its target
/// resolved to: they are tried in order, and the first one for which a socket
/// is obtained is the one the payload is sent to.
pub struct Resolution {
    candidates: Vec<SocketAddress>,
    current: usize,
}

impl View for Resolution {
    type V = (Seq<SocketAddress>, int);

    closed spec fn view(&self) -> (Seq<SocketAddress>, int) {
        (self.candidates@, self.current as int)
    }
}

impl Resolution {
    /// Whether the walk waits for the outcome of an `Acquire`.
    pub open spec fn awaiting(self) -> bool {
        0 <= self@.1 < self@.0.len()
    }

    /// Begins a probe from what name resolution returned.
    pub fn start(lookup: Result<Vec<SocketAddress>, std::io::Error>) -> (r: (Resolution, Step))
        ensures
            lookup matches Err(e) ==> r.1 == Step::Fail(Error::LookupHost { source: e })
                && !r.0.awaiting(),
            lookup matches Ok(c) ==> c@.len() == 0 ==> r.1 == Step::Fail(Error::LookupHostEmpty)
                && !r.0.awaiting(),
            lookup matches Ok(c) ==> c@.len() > 0 ==> r.1 == Step::Acquire(c@[0])
                && r.0@ == (c@, 0int) && r.0.awaiting(),
    {
        match lookup {
            Err(e) => (Resolution { candidates: Vec::new(), current: 0 }, Step::Fail(Error::LookupHost { source: e })),
            Ok(candidates) => {
                if candidates.len() == 0 {
                    (Resolution { candidates, current: 0 }, Step::Fail(Error::LookupHostEmpty))
                } else {
                    let first = candidates[0];
                    (Resolution { candidates, current: 0 }, Step::Acquire(first))
                }
            },
        }
    }

    /// The walk after the outcome `outcome` of the current `Acquire`, in a
    /// walk `state` of candidates and the index of the one being tried: send
    /// to that candidate on success; on failure try the next candidate, or
    /// fail with this refusal when none is left.
    pub open spec fn next(state: (Seq<SocketAddress>, int), outcome: Result<(), socket::Error>) -> ((Seq<SocketAddress>, int), Step) {
        let (c, i) = state;
        match outcome {
            Ok(_) => ((c, c.len() as int), Step::Send(c[i])),
            Err(e) => if i + 1 < c.len() {
                ((c, i + 1), Step::Acquire(c[i + 1]))
            } else {
                ((c, i + 1), Step::Fail(Error::SocketFactory { source: e }))
            },
        }
    }

    /// The step that a walk from `state` reaches when the socket factory
    /// answers its `Acquire` steps with `outcomes`, in order, until the walk
    /// sends, fails or runs out of answers.
    pub open spec fn run(state: (Seq<SocketAddress>, int), outcomes: Seq<Result<(), socket::Error>>) -> Step
        decreases outcomes.len(),
    {
        if outcomes.len() == 0 {
            Step::Acquire(state.0[state.1])
        } else {
            let (after, step) = Self::next(state, outcomes[0]);
            if step is Acquire && outcomes.len() > 1 {
                Self::run(after, outcomes.drop_first())
            } else {
                step
            }
        }
    }

    /// Family fallback: when, from candidate `from` on, the factory refuses
    /// each candidate it is asked for until it grants one, the probe sends to
    /// the granted candidate, and the candidates after it are never tried.
    pub proof fn lemma_first_granted_is_used(
        candidates: Seq<SocketAddress>,
        from: int,
        outcomes: Seq<Result<(), socket::Error>>,
    )
        requires
            0 <= from,
            outcomes.len() > 0,
            from + outcomes.len() <= candidates.len(),
            outcomes.last() is Ok,
            forall|i: int| 0 <= i < outcomes.len() - 1 ==> (#[trigger] outcomes[i]) is Err,
        ensures
            Self::run((candidates, from), outcomes) == Step::Send(candidates[from + outcomes.len() - 1]),
        decreases outcomes.len(),
    {
        if outcomes.len() > 1 {
            let rest = outcomes.drop_first();
            assert(outcomes[0] is Err);
            assert forall|i: int| 0 <= i < rest.len() - 1 implies (#[trigger] rest[i]) is Err by {
                assert(rest[i] == outcomes[i + 1]);
            }
            Self::lemma_first_granted_is_used(candidates, from + 1, rest);
        }
    }

    /// Takes the outcome of the current `Acquire` and says what comes next.
    pub fn acquired(&mut self, outcome: Result<(), socket::Error>) -> (r: Step)
        requires
            old(self).awaiting(),
        ensures
            (final(self)@, r) == Self::next(old(self)@, outcome),
    {
        let n = self.candidates.len();
        let chosen = self.candidates[self.current];
        match outcome {
            Ok(()) => {
                self.current = n;
                Step::Send(chosen)
            },
            Err(e) => {
                self.current = self.current + 1;
                if self.current < n {
                    Step::Acquire(self.candidates[self.current])
                } else {
                    Step::Fail(Error::SocketFactory { source: e })
                }
            },
        }
    }
}

/// The result of a probe from the outcome of its send.
pub fn sent(outcome: Result<(), std::io::Error>) -> (r: Result<(), Error>)
    ensures
        outcome is Ok ==> r is Ok,
        outcome matches Err(e) ==> r == Err::<(), Error>(Error::SendPayload { source: e }),
{
    match outcome {
        Ok(()) => Ok(()),
        Err(e) => Err(Error::SendPayload { source: e }),
    }
}

} // verus!
