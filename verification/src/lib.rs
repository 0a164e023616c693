//! Verified allocation helpers (the `xmalloc` family: zeroed and duplicated
//! buffers, checked array sizes, array growth) and the decisions behind
//! waiting on input and output descriptors.
pub mod xalloc;
pub mod growth;
pub mod iopoll;
