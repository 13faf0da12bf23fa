//! Terminal input events: a verified model of keyboard and mouse input
//! decoded from a raw terminal byte stream or from console input records,
//! together with a broadcast channel that fans decoded events out to any
//! number of independent readers.
//!
//! The crate is organized along the data flow: raw bytes pass through the
//! escape-sequence decoder (`decode`, with its numeric parameter fields in
//! `fields`), console records through the record translation (`windows`);
//! a platform `source` feeds the decoded events into the `pool`, whose
//! broadcast `channel` delivers them to every registered consumer; `stream`
//! and `readers` are the consumer-side front-ends.  The event vocabulary
//! they all share lives in `events`.

pub mod channel;
pub mod decode;
pub mod events;
pub mod fields;
pub mod pool;
pub mod readers;
pub mod source;
pub mod stream;
pub mod windows;

pub use events::{InputEvent, InternalEvent, KeyEvent, MouseButton, MouseEvent};
pub use pool::EventPool;
pub use readers::{AsyncReader, SyncReader, UnixInput};
pub use stream::EventStream;
