//! The greeting route.

use vstd::prelude::*;

verus! {

/// The query parameters of the greeting route.
#[derive(Debug, Clone, PartialEq, Eq)]
pub struct Params {
    pub name: Option<String>,
}

/// The greeting `Hello, <name>!`, with `world` where no name is given.
pub open spec fn greeting(name: Option<String>) -> Seq<char> {
    "Hello, "@ + match name {
        Some(n) => n@,
        None => "world"@,
    } + "!"@
}

/// Greets the name in the query, or the world.
pub fn echo(params: Params) -> (r: String)
    ensures
        r@ == greeting(params.name),
        params.name matches Some(n) ==> r@ == "Hello, "@ + n@ + "!"@,
        params.name is None ==> r@ == "Hello, "@ + "world"@ + "!"@,
{
    let mut s = String::from_str("Hello, ");
    match params.name {
        Some(n) => s.append(n.as_str()),
        None => s.append("world"),
    }
    s.append("!");
    s
}


/// Law: every given name is greeted as it is, `Hello, <name>!`; `world`
/// stands in only where no name is given.
pub proof fn lemma_greeting_uses_the_given_name(name: Option<String>)
    ensures
        name matches Some(n) ==> greeting(name) == "Hello, "@ + n@ + "!"@,
        name is None ==> greeting(name) == "Hello, "@ + "world"@ + "!"@,
{
}

/// Law: two greetings for given names are equal exactly when the names
/// are.
pub proof fn lemma_greeting_tells_names_apart(a: String, b: String)
    ensures
        (greeting(Some(a)) == greeting(Some(b))) <==> (a@ == b@),
{
    let p = "Hello, "@;
    let q = "!"@;
    if greeting(Some(a)) == greeting(Some(b)) {
        let ga = greeting(Some(a));
        assert(a@ =~= ga.subrange(p.len() as int, ga.len() - q.len()));
        assert(b@ =~= ga.subrange(p.len() as int, ga.len() - q.len()));
    }
}

} // verus!
