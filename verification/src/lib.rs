//! Core engine of a long-running NAT-PMP client that keeps a single port
//! mapping alive on a gateway and reports every change of the externally
//! reachable port to a downstream consumer.
//!
//! The library holds the decision logic only: the exponential backoff-retry
//! schedule used for every protocol exchange, the acceptance policy for
//! gateway responses, and the renewal scheduling of the held mapping. The
//! actual network transport (sending requests, reading responses), the
//! sleeps between attempts, and the downstream notification are performed by
//! the surrounding program, which feeds each observed transport event into
//! the decision functions here and carries out the actions they return.

pub mod backoff;
pub mod protocol;
pub mod query;
pub mod scheduler;

