use vstd::prelude::*;

verus! {

/// Options for reading responses with timeout and buffer size.
#[derive(Debug, Clone, Copy)]
pub struct ReadOptions {
    /// Size of the read buffer in bytes.
    buffer_size: usize,
    /// Duration to wait before timing out.
    timeout: std::time::Duration,
}

impl ReadOptions {
    /// The number of bytes set aside to receive one reply.
    pub closed spec fn spec_buffer_size(&self) -> usize {
        self.buffer_size
    }

    /// How long to wait for a reply.
    pub closed spec fn spec_timeout(&self) -> std::time::Duration {
        self.timeout
    }

    /// A reply buffer must be able to hold at least one byte.
    pub open spec fn wf(&self) -> bool {
        self.spec_buffer_size() > 0
    }

    pub fn new(timeout: std::time::Duration, buffer_size: usize) -> (r: Self)
        requires
            buffer_size > 0,
        ensures
            r.spec_timeout() == timeout,
            r.spec_buffer_size() == buffer_size,
            r.wf(),
    {
        Self { timeout, buffer_size }
    }

    #[verifier::when_used_as_spec(spec_buffer_size)]
    pub fn buffer_size(&self) -> (r: usize)
        ensures
            r == self.spec_buffer_size(),
    {
        self.buffer_size
    }

    #[verifier::when_used_as_spec(spec_timeout)]
    pub fn timeout(&self) -> (r: std::time::Duration)
        ensures
            r == self.spec_timeout(),
    {
        self.timeout
    }
}

} // verus!
