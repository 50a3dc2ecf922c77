use vstd::prelude::*;

verus! {

/// The HTTP verbs a request can be sent with.
#[derive(Clone, Copy, Debug, PartialEq, Eq, Structural)]
pub enum HttpMethod {
    Get,
    Post,
    Put,
    Delete,
    Patch,
    Options,
    Trace,
    Head,
}

/// The verb used when no flag selects one.
pub open spec fn default_method() -> HttpMethod {
    HttpMethod::Head
}

/// The method-selector flags as given on the command line.
#[derive(Clone, Copy, Debug, PartialEq, Eq, Structural)]
pub struct MethodFlags {
    pub get: bool,
    pub post: bool,
    pub put: bool,
    pub delete: bool,
    pub patch: bool,
    pub options: bool,
    pub trace: bool,
    pub head: bool,
}

/// Whether the flag that names `m` is set.
pub open spec fn flag_of(f: MethodFlags, m: HttpMethod) -> bool {
    match m {
        HttpMethod::Get => f.get,
        HttpMethod::Post => f.post,
        HttpMethod::Put => f.put,
        HttpMethod::Delete => f.delete,
        HttpMethod::Patch => f.patch,
        HttpMethod::Options => f.options,
        HttpMethod::Trace => f.trace,
        HttpMethod::Head => f.head,
    }
}

pub open spec fn count(b: bool) -> nat {
    if b {
        1
    } else {
        0
    }
}

/// How many of the flags are set.
pub open spec fn flags_set(f: MethodFlags) -> nat {
    count(f.get) + count(f.post) + count(f.put) + count(f.delete) + count(f.patch) + count(
        f.options,
    ) + count(f.trace) + count(f.head)
}

/// The verb the flags choose: the first set flag in the order
/// get, post, put, delete, patch, options, trace; else the default.
pub open spec fn selected_method(f: MethodFlags) -> HttpMethod {
    if f.get {
        HttpMethod::Get
    } else if f.post {
        HttpMethod::Post
    } else if f.put {
        HttpMethod::Put
    } else if f.delete {
        HttpMethod::Delete
    } else if f.patch {
        HttpMethod::Patch
    } else if f.options {
        HttpMethod::Options
    } else if f.trace {
        HttpMethod::Trace
    } else {
        default_method()
    }
}

/// The name of a verb as it goes on the wire.
pub open spec fn method_name(m: HttpMethod) -> Seq<char> {
    match m {
        HttpMethod::Get => "GET"@,
        HttpMethod::Post => "POST"@,
        HttpMethod::Put => "PUT"@,
        HttpMethod::Delete => "DELETE"@,
        HttpMethod::Patch => "PATCH"@,
        HttpMethod::Options => "OPTIONS"@,
        HttpMethod::Trace => "TRACE"@,
        HttpMethod::Head => "HEAD"@,
    }
}

impl HttpMethod {
    /// The verb's name, in capitals.
    pub fn as_str(&self) -> (r: &'static str)
        ensures
            r@ == method_name(*self),
    {
        match self {
            HttpMethod::Get => "GET",
            HttpMethod::Post => "POST",
            HttpMethod::Put => "PUT",
            HttpMethod::Delete => "DELETE",
            HttpMethod::Patch => "PATCH",
            HttpMethod::Options => "OPTIONS",
            HttpMethod::Trace => "TRACE",
            HttpMethod::Head => "HEAD",
        }
    }
}

fn one_if(b: bool) -> (r: u8)
    ensures
        r == count(b),
{
    if b {
        1
    } else {
        0
    }
}

/// Collapses the flags into one verb. The flags exclude one another: with two
/// or more set there is no verb.
pub fn get_method(flags: &MethodFlags) -> (r: Option<HttpMethod>)
    ensures
        flags_set(*flags) <= 1 ==> r == Some(selected_method(*flags)),
        flags_set(*flags) > 1 ==> r is None,
{
    let n: u8 = one_if(flags.get) + one_if(flags.post) + one_if(flags.put) + one_if(flags.delete)
        + one_if(flags.patch) + one_if(flags.options) + one_if(flags.trace) + one_if(flags.head);
    if n > 1 {
        return None;
    }
    let m = if flags.get {
        HttpMethod::Get
    } else if flags.post {
        HttpMethod::Post
    } else if flags.put {
        HttpMethod::Put
    } else if flags.delete {
        HttpMethod::Delete
    } else if flags.patch {
        HttpMethod::Patch
    } else if flags.options {
        HttpMethod::Options
    } else if flags.trace {
        HttpMethod::Trace
    } else {
        HttpMethod::Head
    };
    Some(m)
}

/// With exactly one flag set, the request uses the verb that flag names; with
/// none set, it uses the default verb.
pub proof fn lemma_flags_choose_method(f: MethodFlags, m: HttpMethod)
    ensures
        flags_set(f) == 1 && flag_of(f, m) ==> selected_method(f) == m,
        flags_set(f) == 0 ==> selected_method(f) == default_method(),
{
}

} // verus!
