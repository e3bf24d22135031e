use vstd::prelude::*;
use vstd::string::StrSliceExecFns;

verus! {

/// The status code of a successful reply.
pub const STATUS_OK: u16 = 200;

/// A reply to a request: its status code and its body.
pub struct Reply {
    pub status: u16,
    pub body: String,
}

/// The body of the reply to the root page.
pub open spec fn greeting() -> Seq<char> {
    "Hello, world!"@
}

/// True of the one request that the server answers itself: `GET` on `/`.
pub open spec fn is_index_request(method: Seq<char>, path: Seq<char>) -> bool {
    method == "GET"@ && path == "/"@
}

/// The reply to the root page.
pub fn index() -> (r: Reply)
    ensures
        r.status == STATUS_OK,
        r.body@ == greeting(),
{
    Reply { status: STATUS_OK, body: "Hello, world!".to_owned() }
}

/// True when the two texts hold the same characters.
pub fn same_text(a: &str, b: &str) -> (r: bool)
    ensures
        r == (a@ == b@),
{
    let n = a.unicode_len();
    if n != b.unicode_len() {
        return false;
    }
    let mut i: usize = 0;
    while i < n
        invariant
            n == a@.len(),
            n == b@.len(),
            i <= n,
            forall|j: int| 0 <= j < i ==> a@[j] == b@[j],
        decreases n - i,
    {
        if a.get_char(i) != b.get_char(i) {
            return false;
        }
        i = i + 1;
    }
    assert(a@ =~= b@);
    true
}

/// The reply to a request with the given method and path (the path without
/// its query string; headers play no part). `None` leaves the request to the
/// server's default handling.
pub fn route(method: &str, path: &str) -> (r: Option<Reply>)
    ensures
        r is Some <==> is_index_request(method@, path@),
        r is Some ==> r->0.status == STATUS_OK && r->0.body@ == greeting(),
{
    if same_text(method, "GET") && same_text(path, "/") {
        Some(index())
    } else {
        None
    }
}

} // verus!
