//! Names, lists, starts and stops the compute instances of a cloud provider.
//!
//! The library holds every decision the tool makes and none of its
//! input or output: it reads the records a provider has answered with, and
//! says what is to be sent or printed next.

pub mod control;
pub mod directory;
pub mod fatal;
pub mod first;
pub mod instance;
pub mod measure;
pub mod provider;
pub mod render;
pub mod session;

pub use control::{ControlAction, ControlRequest, StateChange};
pub use directory::{find_instance_by_name, list};
pub use fatal::{Fatal, MissingField, Operation};
pub use instance::Instance;
pub use render::{print_instance_state_change, print_instances};
pub use session::{after_control, Command, Next};
