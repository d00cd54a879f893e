//! Driver-independent plumbing for hardware video decoders: which backend a
//! decoder is bound to, how frames handed out by the native side are copied
//! into owned buffers, and which backend candidates survive a probe.
pub mod context;
pub mod frame;
pub mod decoder;
pub mod probe;
