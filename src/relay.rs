//! Names of the events that cross between native code and the page.
use vstd::prelude::*;

verus! {

broadcast use vstd::string::group_string_axioms;

/// The prefix that every event name carries.
pub open spec fn namespace_prefix() -> Seq<char> {
    seq!['y', 't', 'm', ':']
}

/// `"<namespace>:<topic>"`.
pub open spec fn spec_event_name(topic: Seq<char>) -> Seq<char> {
    namespace_prefix() + topic
}

/// The event name under which `topic` is sent: the namespace, a colon, then
/// the topic.
pub fn event_name(topic: &str) -> (r: String)
    ensures
        r@ == spec_event_name(topic@),
{
    let mut name = String::new();
    name.append("ytm:");
    proof {
        reveal_strlit("ytm:");
    }
    name.append(topic);
    name
}

/// The event that asks the page to answer a correlated request.
pub fn request_event_name() -> (r: String)
    ensures
        r@ == spec_event_name(seq!['r', 'e', 'q', 'u', 'e', 's', 't']),
{
    let r = event_name("request");
    proof {
        reveal_strlit("request");
    }
    r
}

} // verus!
