//! An adapter that turns any single-pass sequence producer into one that
//! supports pushing items back (re-emitted in last-in, first-out order) and
//! peeking arbitrarily far ahead without consuming anything.

pub mod adapter;
pub mod laws;
pub mod lookahead;
pub mod producer;

pub use adapter::PushBackIterator;
pub use lookahead::LookaheadIterator;
pub use producer::ExactProducer;
pub use producer::LastProducer;
pub use producer::Producer;
pub use producer::ReversibleProducer;
pub use producer::VecProducer;
