use vstd::prelude::*;

verus! {

/// The server's tracing: console output and export of spans.
pub struct Tracing;

/// The filter suffix that silences the HTTP/2 and tower buffer workers.
pub open spec fn quiet_workers() -> Seq<char> {
    ",h2=off,tower::buffer::worker=off"@
}

impl Tracing {
    /// The console's log filter: the configured `rust_log` directives, with the
    /// HTTP/2 and tower buffer workers silenced.
    pub fn env_filter(rust_log: &str) -> (r: String)
        ensures
            r@ == rust_log@ + quiet_workers(),
    {
        String::from_str(rust_log).concat(",h2=off,tower::buffer::worker=off")
    }
}

} // verus!
