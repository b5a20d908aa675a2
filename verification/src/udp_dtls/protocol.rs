use vstd::prelude::*;

verus! {

/// The DTLS protocol versions the client can pin.
#[derive(Debug, Copy, Clone, PartialEq, Eq, Structural)]
pub enum Protocol {
    Dtlsv10,
    Dtlsv12,
}

} // verus!
