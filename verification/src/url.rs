//! The address at which a server is reached.

use vstd::prelude::*;
use vstd::string::*;

use crate::text::{contains, law_occurs_in_parts, occurs_at, occurs_in};

verus! {

/// The URL for a server address: the address itself if it names a scheme, else the address under
/// the `ws` scheme.
pub open spec fn server_url(server_addr: Seq<char>) -> Seq<char> {
    if occurs_in(server_addr, "://"@) {
        server_addr
    } else {
        "ws://"@ + server_addr
    }
}

/// The URL for a server address.
pub fn websocket_url(server_addr: &str) -> (r: String)
    ensures
        r@ == server_url(server_addr@),
{
    if contains(server_addr, "://") {
        server_addr.to_string()
    } else {
        "ws://".to_string().concat(server_addr)
    }
}

/// A URL names a scheme, and the URL for a URL is the URL itself.
pub proof fn law_server_url_is_stable(server_addr: Seq<char>)
    ensures
        occurs_in(server_url(server_addr), "://"@),
        server_url(server_url(server_addr)) == server_url(server_addr),
{
    if !occurs_in(server_addr, "://"@) {
        let url = "ws://"@ + server_addr;
        reveal_strlit("://");
        reveal_strlit("ws://");
        assert(url.subrange(2, 5) =~= "://"@);
        assert(occurs_at(url, "://"@, 2));
    }
}

/// An address with a scheme in it is its own URL; any other address is reached under the `ws`
/// scheme.
pub proof fn law_server_url_adds_missing_scheme(
    server_addr: Seq<char>,
    scheme: Seq<char>,
    rest: Seq<char>,
)
    ensures
        server_url(scheme + "://"@ + rest) == scheme + "://"@ + rest,
        (forall|before: Seq<char>, after: Seq<char>|
            server_addr != #[trigger] (before + "://"@ + after)) ==> server_url(server_addr)
            == "ws://"@ + server_addr,
{
    law_occurs_in_parts(scheme + "://"@ + rest, "://"@);
    law_occurs_in_parts(server_addr, "://"@);
}

} // verus!
