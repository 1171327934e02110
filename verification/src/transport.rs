//! The datagram transport model.
//!
//! Datagrams in flight are a sequence, oldest first: a send appends, a
//! receive removes the first datagram addressed to the receiver (and, for a
//! connected receiver, sent by its peer). Each datagram is one discrete
//! message; there is no fragmentation or reassembly.

use vstd::prelude::*;

use crate::address::Address;
use crate::address::AddressView;

verus! {

/// One discrete message in flight.
pub struct Datagram {
    /// The message bytes, delivered atomically.
    pub payload: Vec<u8>,
    /// The sender's local address at the moment of the send.
    pub sender: Address,
    /// The destination path.
    pub dest: Vec<u8>,
}

/// The mathematical value of a [`Datagram`].
pub struct DatagramView {
    pub payload: Seq<u8>,
    pub sender: AddressView,
    pub dest: Seq<u8>,
}

impl View for Datagram {
    type V = DatagramView;

    open spec fn view(&self) -> DatagramView {
        DatagramView { payload: self.payload@, sender: self.sender@, dest: self.dest@ }
    }
}

/// The datagrams in flight, oldest first.
pub struct Transport {
    inflight: Vec<Datagram>,
}

impl View for Transport {
    type V = Seq<DatagramView>;

    closed spec fn view(&self) -> Seq<DatagramView> {
        self.inflight@.map_values(|d: Datagram| d@)
    }
}

/// Whether a datagram is deliverable to a receiver at path `dest`, under an
/// optional sender filter: a connected receiver accepts only datagrams whose
/// sender is bound to its peer's path.
pub open spec fn delivered_to(d: DatagramView, dest: Seq<u8>, from: Option<Seq<u8>>) -> bool {
    &&& d.dest == dest
    &&& (from matches Some(p) ==> d.sender == AddressView::Path(p))
}

/// The position of the oldest in-flight datagram deliverable to `dest`
/// under the sender filter `from`, if any.
pub open spec fn first_match(
    s: Seq<DatagramView>,
    dest: Seq<u8>,
    from: Option<Seq<u8>>,
) -> Option<int>
    decreases s.len(),
{
    if s.len() == 0 {
        None
    } else if delivered_to(s[0], dest, from) {
        Some(0)
    } else {
        match first_match(s.drop_first(), dest, from) {
            Some(i) => Some(i + 1),
            None => None,
        }
    }
}

/// When the first `i` datagrams are not deliverable, the oldest deliverable
/// one is found among the rest, at its position shifted by `i`.
pub proof fn lemma_first_match_skip(
    s: Seq<DatagramView>,
    dest: Seq<u8>,
    from: Option<Seq<u8>>,
    i: int,
)
    requires
        0 <= i <= s.len(),
        forall|j: int| 0 <= j < i ==> !delivered_to(s[j], dest, from),
    ensures
        first_match(s, dest, from) == match first_match(s.skip(i), dest, from) {
            Some(k) => Some(i + k),
            None => None::<int>,
        },
    decreases i,
{
    if i == 0 {
        assert(s.skip(0) =~= s);
    } else {
        assert(!delivered_to(s[0], dest, from));
        assert(forall|j: int|
            0 <= j < i - 1 ==> s.drop_first()[j] == s[j + 1] && !delivered_to(
                s.drop_first()[j],
                dest,
                from,
            ));
        lemma_first_match_skip(s.drop_first(), dest, from, i - 1);
        assert(s.drop_first().skip(i - 1) =~= s.skip(i));
    }
}

impl Transport {
    /// A transport with nothing in flight.
    pub fn new() -> (t: Transport)
        ensures
            t@ == Seq::<DatagramView>::empty(),
    {
        Transport { inflight: Vec::new() }
    }

    /// How many datagrams are in flight.
    pub fn len(&self) -> (n: usize)
        ensures
            n == self@.len(),
    {
        self.inflight.len()
    }

    /// Appends one datagram, behind everything already in flight.
    pub fn deliver(&mut self, d: Datagram)
        ensures
            final(self)@ == old(self)@.push(d@),
    {
        let ghost pre = self.inflight@;
        self.inflight.push(d);
        proof {
            assert(self.inflight@ == pre.push(d));
            assert(self.inflight@.map_values(|x: Datagram| x@) =~= pre.map_values(
                |x: Datagram| x@,
            ).push(d@));
        }
    }

    /// Removes and returns the oldest in-flight datagram addressed to
    /// `dest` whose sender passes the filter `from`; leaves the transport
    /// unchanged when there is none.
    pub fn take_matching(&mut self, dest: &Vec<u8>, from: &Option<Vec<u8>>) -> (r: Option<
        Datagram,
    >)
        ensures
            match first_match(old(self)@, dest@, crate::address::opt_path_view(*from)) {
                Some(i) => {
                    &&& r matches Some(d) && d@ == old(self)@[i]
                    &&& final(self)@ == old(self)@.remove(i)
                },
                None => {
                    &&& r is None
                    &&& final(self)@ == old(self)@
                },
            },
    {
        let ghost fromv = crate::address::opt_path_view(*from);
        let mut i: usize = 0;
        while i < self.inflight.len()
            invariant
                self == old(self),
                i <= self.inflight.len(),
                forall|j: int| 0 <= j < i ==> !delivered_to(self@[j], dest@, fromv),
                fromv == crate::address::opt_path_view(*from),
            decreases self.inflight.len() - i,
        {
            let d = &self.inflight[i];
            let dest_ok = crate::address::bytes_eq(&d.dest, dest);
            let from_ok = match from {
                None => true,
                Some(p) => match &d.sender {
                    Address::Path(q) => crate::address::bytes_eq(q, p),
                    Address::Unnamed => false,
                },
            };
            if dest_ok && from_ok {
                proof {
                    assert(delivered_to(self@[i as int], dest@, fromv));
                    lemma_first_match_skip(self@, dest@, fromv, i as int);
                    assert(self@.skip(i as int)[0] == self@[i as int]);
                    assert(first_match(self@, dest@, fromv) == Some(i as int));
                }
                let ghost pre = self.inflight@;
                let ghost prev = self@;
                let taken = self.inflight.remove(i);
                proof {
                    assert(taken@ == prev[i as int]);
                    assert(self.inflight@.map_values(|x: Datagram| x@) =~= pre.map_values(
                        |x: Datagram| x@,
                    ).remove(i as int));
                    assert(self@ == prev.remove(i as int));
                }
                return Some(taken);
            }
            proof {
                assert(!delivered_to(self@[i as int], dest@, fromv));
            }
            i = i + 1;
        }
        proof {
            lemma_first_match_skip(self@, dest@, fromv, self@.len() as int);
            assert(self@.skip(self@.len() as int) =~= Seq::<DatagramView>::empty());
            assert(first_match(self@, dest@, fromv) is None);
        }
        None
    }
}

} // verus!
