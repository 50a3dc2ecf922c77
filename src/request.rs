use vstd::prelude::*;
use crate::method::{flags_set, get_method, selected_method, HttpMethod, MethodFlags};
use crate::url::{check_proto, normalized};

verus! {

/// What is sent: the normalized URL and the verb.
pub struct RequestSpec {
    pub url: String,
    pub method: HttpMethod,
}

/// Builds the request from the target and the method flags; none when more
/// than one flag is set.
pub fn request_spec(target: &String, flags: &MethodFlags) -> (r: Option<RequestSpec>)
    ensures
        r is Some <==> flags_set(*flags) <= 1,
        r matches Some(q) ==> q.url@ == normalized(target@) && q.method == selected_method(*flags),
{
    match get_method(flags) {
        Some(method) => Some(RequestSpec { url: check_proto(target), method }),
        None => None,
    }
}

} // verus!
