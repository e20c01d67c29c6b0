use vstd::prelude::*;

verus! {

/// The typed error taxonomy that both the data accessor and the fact client
/// funnel their failures through.  Every component-level failure is surfaced
/// to the caller as one of these kinds; none is swallowed or retried.
#[derive(Clone, Copy, Debug, PartialEq, Eq, Structural)]
pub enum Error {
    /// The connection pool could not supply a connection.
    PoolAcquireError,
    /// The schema resource could not be read.
    SchemaLoadError,
    /// Executing the batch of schema statements failed.
    SchemaExecError,
    /// A read or write query failed at the storage engine.
    QueryError,
    /// A row or a response body did not match the expected shape.
    DecodeError,
    /// A network-level failure while reaching the external API.
    TransportError,
    /// The external API answered with the carried non-success status.
    UpstreamStatusError(u16),
}

} // verus!
