//! A description of how to run etcd in a disposable container: the image
//! coordinates, the arguments the server is started with, and the signal
//! that tells when it accepts client connections.

pub mod etcd;
pub mod ready;
pub mod url;

pub use etcd::{Etcd, EtcdArgs, ImageRef, DEFAULT_IMAGE_NAME, DEFAULT_IMAGE_TAG, ETCD_PORT};
pub use ready::{contains_bytes, stderr_signals_ready, READY_MESSAGE};
pub use url::{client_url, port_digits};
