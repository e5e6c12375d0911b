use vstd::prelude::*;

verus! {

/// The payload of the test processors: who published it and what it says.
pub struct TestMessage {
    pub publisher: String,
    pub data: String,
}

} // verus!
