//! The greeter: greets every name but one, which it refuses as unauthenticated.

use vstd::prelude::*;

verus! {

/// Whom to greet.
#[derive(Debug, PartialEq, Eq)]
pub struct HelloRequest {
    pub name: String,
}

/// The greeting.
#[derive(Debug, PartialEq, Eq)]
pub struct HelloReply {
    pub message: String,
}

/// Why a greeting was refused.
#[derive(Debug, PartialEq, Eq)]
pub enum GreetError {
    /// The caller is not authenticated; carries the message to report.
    Unauthenticated(String),
}

/// The greeting service.
#[derive(Debug, Clone, Copy, PartialEq, Eq, Structural, Default)]
pub struct MyGreeter;

/// The name that the greeter refuses.
pub open spec fn refused_name() -> Seq<char> {
    "Error"@
}

/// The greeting for `name`.
pub open spec fn greeting(name: Seq<char>) -> Seq<char> {
    "Hello "@ + name + "!"@
}

/// The greeting for any name is "Hello ", then the whole name, then "!": it
/// is seven characters longer than the name and holds every character of the
/// name at the place after "Hello ".
pub proof fn lemma_greeting_holds_name(name: Seq<char>)
    ensures
        greeting(name).len() == name.len() + 7,
        greeting(name).subrange(0, 6) == "Hello "@,
        greeting(name).subrange(6, 6 + name.len() as int) == name,
        greeting(name)[6 + name.len() as int] == '!',
        forall|k: int| 0 <= k < name.len() ==> #[trigger] greeting(name)[6 + k] == name[k],
{
    reveal_strlit("Hello ");
    reveal_strlit("!");
    assert(greeting(name).subrange(0, 6) =~= "Hello "@);
    assert(greeting(name).subrange(6, 6 + name.len() as int) =~= name);
}

impl MyGreeter {
    /// Greets `request.name` with "Hello <name>!", except the name "Error",
    /// which is refused as unauthenticated with the message
    /// "Unauthenticated user".
    pub fn say_hello(&self, request: HelloRequest) -> (r: Result<HelloReply, GreetError>)
        ensures
            request.name@ == refused_name() <==> r is Err,
            r matches Err(GreetError::Unauthenticated(m)) ==> m@ == "Unauthenticated user"@,
            r matches Ok(reply) ==> reply.message@ == greeting(request.name@),
            r matches Ok(reply) ==> reply.message@.len() == request.name@.len() + 7,
            r matches Ok(reply) ==> reply.message@.subrange(6, 6 + request.name@.len() as int) == request.name@,
    {
        let refused = String::from_str("Error");
        if request.name == refused {
            return Err(GreetError::Unauthenticated(String::from_str("Unauthenticated user")));
        }
        let mut message = String::from_str("Hello ");
        message.append(request.name.as_str());
        message.append("!");
        proof {
            lemma_greeting_holds_name(request.name@);
        }
        Ok(HelloReply { message })
    }
}

} // verus!
