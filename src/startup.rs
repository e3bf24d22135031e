use vstd::prelude::*;

use crate::config::{decimal_digits, push_decimal, resolve_port, resolved_port, text_view, ConfigError};

verus! {

/// The address on which the server listens: every interface.
pub open spec fn bind_host() -> Seq<char> {
    "0.0.0.0"@
}

/// The line announced once the server is bound to `port`.
pub open spec fn banner_text(port: u16) -> Seq<char> {
    "Server running at http://0.0.0.0:"@ + decimal_digits(port as nat)
}

/// What the server does at startup: bind `host` at `port`, then print `banner`.
pub struct Startup {
    pub host: String,
    pub port: u16,
    pub banner: String,
}

/// The announcement line for a server bound to `port`.
pub fn banner(port: u16) -> (r: String)
    ensures
        r@ == banner_text(port),
{
    let mut s = "Server running at http://0.0.0.0:".to_owned();
    push_decimal(&mut s, port);
    s
}

/// Plans startup from the optional value of the port setting. An error means
/// that the process stops before any socket is bound.
pub fn plan_startup(var: Option<&str>) -> (r: Result<Startup, ConfigError>)
    ensures
        match resolved_port(text_view(var)) {
            Ok(p) => r is Ok && r->Ok_0.port == p && r->Ok_0.host@ == bind_host()
                && r->Ok_0.banner@ == banner_text(p),
            Err(e) => r is Err && r->Err_0 == e,
        },
{
    match resolve_port(var) {
        Ok(port) => Ok(Startup { host: "0.0.0.0".to_owned(), port, banner: banner(port) }),
        Err(e) => Err(e),
    }
}

} // verus!
