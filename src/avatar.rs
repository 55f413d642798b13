use vstd::prelude::*;
use vstd::string::StringExecFns;

verus! {

/// The avatar URL of a user: the identifier set into a fixed template, unescaped.
pub open spec fn avatar_url(id: Seq<char>) -> Seq<char> {
    "https://avatars.dicebear.com/api/adventurer-neutral/"@ + id + ".svg"@
}

/// Builds the avatar URL of the user `id`.
pub fn resolve(id: &str) -> (r: String)
    ensures
        r@ == avatar_url(id@),
{
    let mut url = String::from_str("https://avatars.dicebear.com/api/adventurer-neutral/");
    url.append(id);
    url.append(".svg");
    url
}

} // verus!
