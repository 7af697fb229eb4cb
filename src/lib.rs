//! Run a standalone executable as a macOS application: build an `.app`
//! bundle around it, decide when to relaunch from that bundle, pace the
//! native event loop, and route native events to registered callbacks.
//!
//! Everything here is plain, verified logic. The host integration (native
//! object runtime, file system, process control, clocks) performs the steps
//! that this library computes.

pub mod bundle;
pub mod callback;
pub mod error;
pub mod event;
pub mod options;
pub mod paths;
pub mod plist;
pub mod runloop;
pub mod stopper;
pub mod trampoline;

pub use trampoline::Trampoline;
pub use trampoline::TrampolineView;
pub use error::FruitError;
pub use options::{create_logger, ActivationPolicy, InstallDir, LogDir, RunPeriod};
pub use paths::join_path;
pub use plist::{default_plist, forbidden_plist, is_forbidden};
pub use bundle::BundleStep;
pub use runloop::{time_is_up, LoopAction, LoopEvent, Phase, PumpStep, RunLoop, PASS_SLEEP_MS, POOL_RECYCLE_PASSES};
pub use callback::{same_key, CallbackTable, FruitCallbackKey};
pub use event::{kAEGetURL, kInternetEventClass, keyDirectObject, parse_url_event, AppleEventDescriptor};
pub use stopper::FruitStopper;
