//! The request ids under which a reactor speaks to the workflow manager. They
//! show up in the manager's logs and are kept stable.

use vstd::prelude::*;
use vstd::string::*;

verus! {

/// The id of the upsert that follows an executor's answer for a stream:
/// `reactor_<reactor name>_stream_<stream name>`.
pub open spec fn stream_request_id(reactor_name: Seq<char>, stream_name: Seq<char>) -> Seq<char> {
    "reactor_"@ + reactor_name + "_stream_"@ + stream_name
}

/// The id of the upserts that bring a newly registered workflow manager up to
/// date with the cache: `reactor_<reactor name>_cache_catchup`.
pub open spec fn catch_up_request_id(reactor_name: Seq<char>) -> Seq<char> {
    "reactor_"@ + reactor_name + "_cache_catchup"@
}

/// The id of the stop that follows the last keep-alive channel of a stream:
/// `from_reactor`.
pub open spec fn release_request_id() -> Seq<char> {
    "from_reactor"@
}

/// Writes the id of an upsert for one stream.
pub fn make_stream_request_id(reactor_name: &String, stream_name: &String) -> (id: String)
    ensures
        id@ == stream_request_id(reactor_name@, stream_name@),
{
    let mut id = String::from_str("reactor_");
    id.append(reactor_name.as_str());
    id.append("_stream_");
    id.append(stream_name.as_str());
    id
}

/// Writes the id of the upserts that replay the cache.
pub fn make_catch_up_request_id(reactor_name: &String) -> (id: String)
    ensures
        id@ == catch_up_request_id(reactor_name@),
{
    let mut id = String::from_str("reactor_");
    id.append(reactor_name.as_str());
    id.append("_cache_catchup");
    id
}

/// Writes the id of a stop.
pub fn make_release_request_id() -> (id: String)
    ensures
        id@ == release_request_id(),
{
    String::from_str("from_reactor")
}

} // verus!
