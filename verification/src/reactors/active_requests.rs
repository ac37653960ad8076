//! The requests of a reactor that wait for the executor: for each stream name
//! the channel over which the requester expects the reply.
//!
//! The table is modelled as a map from stream names to reply channels. A
//! reply channel is opaque: the model holds it as a token that says which
//! channel it is.

use vstd::prelude::*;

verus! {

/// A request that waits for the executor.
#[derive(Debug)]
struct ActiveRequest {
    stream_name: String,
    response_channel: tokio::sync::oneshot::Sender<Option<String>>,
}

/// Whether one of the requests is for the stream name.
spec fn names(requests: Seq<ActiveRequest>, stream_name: Seq<char>) -> bool {
    exists|i: int| 0 <= i < requests.len() && (#[trigger] requests[i]).stream_name@ == stream_name
}

/// Where the request for the stream name stands, if there is one.
spec fn place(requests: Seq<ActiveRequest>, stream_name: Seq<char>) -> int {
    choose|i: int| 0 <= i < requests.len() && (#[trigger] requests[i]).stream_name@ == stream_name
}

/// No stream name has two requests on record.
spec fn names_differ(requests: Seq<ActiveRequest>) -> bool {
    forall|i: int, j: int|
        0 <= i < j < requests.len() ==> (#[trigger] requests[i]).stream_name@ != (
        #[trigger] requests[j]).stream_name@
}

/// The requests as a map from stream names to reply channels.
spec fn table(requests: Seq<ActiveRequest>) -> Map<
    Seq<char>,
    tokio::sync::oneshot::Sender<Option<String>>,
> {
    Map::new(
        |stream_name: Seq<char>| names(requests, stream_name),
        |stream_name: Seq<char>| requests[place(requests, stream_name)].response_channel,
    )
}

/// Where no stream name stands twice, a request is found at its own place.
proof fn lemma_place_is_unique(requests: Seq<ActiveRequest>, i: int)
    requires
        names_differ(requests),
        0 <= i < requests.len(),
    ensures
        names(requests, requests[i].stream_name@),
        place(requests, requests[i].stream_name@) == i,
{
    let stream_name = requests[i].stream_name@;
    let p = place(requests, stream_name);
    assert(0 <= p < requests.len() && requests[p].stream_name@ == stream_name);
    if p < i {
        assert(requests[p].stream_name@ != requests[i].stream_name@);
    } else if i < p {
        assert(requests[i].stream_name@ != requests[p].stream_name@);
    }
}

/// Taking the request at place `i` away takes its stream name out of the map
/// and leaves the rest as it was.
proof fn lemma_table_without(requests: Seq<ActiveRequest>, i: int)
    requires
        names_differ(requests),
        0 <= i < requests.len(),
    ensures
        names_differ(requests.remove(i)),
        table(requests.remove(i)) == table(requests).remove(requests[i].stream_name@),
{
    let rest = requests.remove(i);
    let gone = requests[i].stream_name@;
    assert(names_differ(rest)) by {
        assert forall|a: int, b: int| 0 <= a < b < rest.len() implies (#[trigger] rest[a]).stream_name@
            != (#[trigger] rest[b]).stream_name@ by {
            let a0 = if a < i { a } else { a + 1 };
            let b0 = if b < i { b } else { b + 1 };
            assert(rest[a] == requests[a0]);
            assert(rest[b] == requests[b0]);
        }
    }
    assert forall|stream_name: Seq<char>| #[trigger]
        table(rest).dom().contains(stream_name) == table(requests).remove(gone).dom().contains(
            stream_name,
        ) by {
        if names(rest, stream_name) {
            let k = place(rest, stream_name);
            let k0 = if k < i { k } else { k + 1 };
            assert(rest[k] == requests[k0]);
            assert(requests[k0].stream_name@ == stream_name);
            if stream_name == gone {
                if k0 < i {
                    assert(requests[k0].stream_name@ != requests[i].stream_name@);
                } else {
                    assert(requests[i].stream_name@ != requests[k0].stream_name@);
                }
            }
        }
        if names(requests, stream_name) && stream_name != gone {
            let k0 = place(requests, stream_name);
            let k = if k0 < i { k0 } else { k0 - 1 };
            assert(rest[k] == requests[k0]);
            assert(rest[k].stream_name@ == stream_name);
        }
    }
    assert forall|stream_name: Seq<char>| #[trigger]
        table(rest).dom().contains(stream_name) implies table(rest)[stream_name] == table(
        requests,
    ).remove(gone)[stream_name] by {
        let k = place(rest, stream_name);
        let k0 = if k < i { k } else { k + 1 };
        assert(rest[k] == requests[k0]);
        lemma_place_is_unique(requests, k0);
    }
    assert(table(rest) =~= table(requests).remove(gone));
}

/// Putting a request for a stream name that has none at the end puts it into
/// the map and leaves the rest as it was.
proof fn lemma_table_with(requests: Seq<ActiveRequest>, request: ActiveRequest)
    requires
        names_differ(requests),
        !names(requests, request.stream_name@),
    ensures
        names_differ(requests.push(request)),
        table(requests.push(request)) == table(requests).insert(
            request.stream_name@,
            request.response_channel,
        ),
{
    let more = requests.push(request);
    let last = requests.len() as int;
    assert(names_differ(more)) by {
        assert forall|a: int, b: int| 0 <= a < b < more.len() implies (#[trigger] more[a]).stream_name@
            != (#[trigger] more[b]).stream_name@ by {
            assert(more[a] == requests[a]);
            if b < last {
                assert(more[b] == requests[b]);
            }
        }
    }
    assert(more[last] == request);
    lemma_place_is_unique(more, last);
    assert forall|stream_name: Seq<char>| #[trigger]
        table(more).dom().contains(stream_name) == table(requests).insert(
            request.stream_name@,
            request.response_channel,
        ).dom().contains(stream_name) by {
        if names(more, stream_name) {
            let k = place(more, stream_name);
            if k < last {
                assert(more[k] == requests[k]);
            }
        }
        if names(requests, stream_name) {
            let k = place(requests, stream_name);
            assert(more[k] == requests[k]);
        }
    }
    assert forall|stream_name: Seq<char>| #[trigger]
        table(more).dom().contains(stream_name) implies table(more)[stream_name] == table(
        requests,
    ).insert(request.stream_name@, request.response_channel)[stream_name] by {
        let k = place(more, stream_name);
        lemma_place_is_unique(more, k);
        if k < last {
            assert(more[k] == requests[k]);
            lemma_place_is_unique(requests, k);
        }
    }
    assert(table(more) =~= table(requests).insert(request.stream_name@, request.response_channel));
}

/// The requests that wait for the executor, keyed by stream name.
#[derive(Debug)]
pub struct ActiveRequests {
    requests: Vec<ActiveRequest>,
}

impl View for ActiveRequests {
    type V = Map<Seq<char>, tokio::sync::oneshot::Sender<Option<String>>>;

    closed spec fn view(&self) -> Map<Seq<char>, tokio::sync::oneshot::Sender<Option<String>>> {
        table(self.requests@)
    }
}

impl ActiveRequests {
    /// The invariant of the table: no stream name has two requests on record.
    pub closed spec fn well_formed(&self) -> bool {
        names_differ(self.requests@)
    }

    /// A table without requests.
    pub fn new() -> (requests: Self)
        ensures
            requests@ == Map::<Seq<char>, tokio::sync::oneshot::Sender<Option<String>>>::empty(),
            requests.well_formed(),
    {
        let requests = ActiveRequests { requests: Vec::new() };
        assert(requests@ =~= Map::<
            Seq<char>,
            tokio::sync::oneshot::Sender<Option<String>>,
        >::empty());
        requests
    }

    /// Where the request for the stream name stands.
    fn find(&self, stream_name: &String) -> (found: Option<usize>)
        requires
            self.well_formed(),
        ensures
            found.is_some() == self@.contains_key(stream_name@),
            found matches Some(i) ==> i < self.requests@.len() && self.requests@[i as int].stream_name@
                == stream_name@,
    {
        let mut i: usize = 0;
        while i < self.requests.len()
            invariant
                i <= self.requests@.len(),
                forall|k: int|
                    0 <= k < i ==> (#[trigger] self.requests@[k]).stream_name@ != stream_name@,
            decreases self.requests@.len() - i,
        {
            if self.requests[i].stream_name == *stream_name {
                return Some(i);
            }
            i += 1;
        }
        None
    }

    /// Whether a request for the stream name is on record.
    pub fn contains(&self, stream_name: &String) -> (present: bool)
        requires
            self.well_formed(),
        ensures
            present == self@.contains_key(stream_name@),
    {
        self.find(stream_name).is_some()
    }

    /// Puts the request for the stream name on record. A request that was on
    /// record for the same stream name gives way; its reply channel is handed
    /// back.
    pub fn insert(
        &mut self,
        stream_name: String,
        response_channel: tokio::sync::oneshot::Sender<Option<String>>,
    ) -> (replaced: Option<tokio::sync::oneshot::Sender<Option<String>>>)
        requires
            old(self).well_formed(),
        ensures
            final(self)@ == old(self)@.insert(stream_name@, response_channel),
            replaced == if old(self)@.contains_key(stream_name@) {
                Some(old(self)@[stream_name@])
            } else {
                None
            },
            final(self).well_formed(),
    {
        let replaced = self.remove(&stream_name);
        let request = ActiveRequest { stream_name, response_channel };
        proof {
            assert(!self@.dom().contains(stream_name@));
            assert(!names(self.requests@, stream_name@));
            lemma_table_with(self.requests@, request);
        }
        self.requests.push(request);
        assert(self@ =~= old(self)@.insert(stream_name@, response_channel));
        replaced
    }

    /// Takes the request for the stream name off the record and hands its
    /// reply channel over.
    pub fn remove(&mut self, stream_name: &String) -> (response_channel: Option<
        tokio::sync::oneshot::Sender<Option<String>>,
    >)
        requires
            old(self).well_formed(),
        ensures
            final(self)@ == old(self)@.remove(stream_name@),
            response_channel == if old(self)@.contains_key(stream_name@) {
                Some(old(self)@[stream_name@])
            } else {
                None
            },
            final(self).well_formed(),
    {
        match self.find(stream_name) {
            Some(i) => {
                proof {
                    lemma_place_is_unique(self.requests@, i as int);
                    lemma_table_without(self.requests@, i as int);
                }
                let request = self.requests.remove(i);
                Some(request.response_channel)
            },
            None => {
                assert(self@ =~= old(self)@.remove(stream_name@));
                None
            },
        }
    }
}

} // verus!
