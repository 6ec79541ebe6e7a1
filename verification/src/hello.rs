//! The greeter service used to exercise the transports end to end.
use vstd::prelude::*;
use vstd::string::StringExecFns;

verus! {

/// A greeting request: whom to greet.
#[derive(Debug)]
pub struct HelloRequest {
    pub name: String,
}

/// A greeting reply.
#[derive(Debug)]
pub struct HelloReply {
    pub message: String,
}

/// The greeter service: it answers every request with a greeting of the name.
#[derive(Debug)]
pub struct HelloWorldService {}

impl Default for HelloWorldService {
    fn default() -> (r: HelloWorldService)
        ensures
            r == (HelloWorldService {}),
    {
        HelloWorldService {}
    }
}

/// The greeting of a name: `hello ` followed by the name.
pub open spec fn spec_greeting(name: Seq<char>) -> Seq<char> {
    "hello "@ + name
}

impl HelloWorldService {
    /// Answers a request with `hello ` followed by the requested name.
    pub fn say_hello(&self, req: HelloRequest) -> (r: HelloReply)
        ensures
            r.message@ == spec_greeting(req.name@),
    {
        let greeting = String::from_str("hello ");
        proof {
            reveal_strlit("hello ");
        }
        let message = greeting.concat(req.name.as_str());
        HelloReply { message }
    }
}

} // verus!
