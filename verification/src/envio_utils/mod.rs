//! Driving the project wizard: configuration, prompt classification, response
//! planning and the run's state machine.

pub mod config;
pub mod docker;
pub mod driver;
pub mod keys;
pub mod planner;
pub mod project;
pub mod prompt;
pub mod script;
pub mod signatures;

pub use config::{ContractConfig, ContractDeployment, ContractSource, IndexerConfig};
pub use driver::{Command, Driver, ErrorKind, Event, ExitOutcome, ImportError, Phase};
pub use planner::{Action, Cursor, CursorAdvance, Key, Plan};
pub use project::{EnvioError, IndexerLogMessage, IndexerProgress, IndexerStatus};
pub use prompt::{PromptKind, Signature};
