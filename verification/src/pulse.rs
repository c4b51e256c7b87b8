//! The client side of the audio server's interface, without the wire: what
//! is asked of the server, and what is made of its answers.

pub use self::context::Context;
pub use self::stream::PulseAudioStream;

pub mod context;
pub mod request;
pub mod stream;
pub mod subscription_manager;
pub mod types;
