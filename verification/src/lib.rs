//! Raw mouse-motion capture core: decoding of variable-length raw-input
//! records, the capture-loop control logic, and the sample store that
//! accumulates timestamped motion samples for a consumer.

pub mod capture;
pub mod decode;
pub mod event;
pub mod store;

pub use event::MouseRawData;
pub use event::MouseRawEvent;
pub use store::Database;
pub use store::RawInputPlugin;
