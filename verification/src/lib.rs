//! Host-side logic of the code-mode protocol: the connection handshake and
//! session bookkeeping, message framing, and the process-owned session model.

pub mod text;
pub mod protocol;
pub mod host;
pub mod host_laws;
pub mod remote_session;
pub mod session_laws;
pub mod frame;
pub mod run_laws;
