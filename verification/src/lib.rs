//! Verified core of a grading worker for an online-judge platform.
//!
//! The library holds the worker's decision logic: the whitespace-tolerant
//! output checker, the sandbox telemetry parser, the verdict classifier,
//! the language registry, the sandbox command and path builders, the
//! connection-URL builders and the job orchestration state machine.
//! All I/O (queue, database, object store, process launching) lives in the
//! surrounding application, which feeds this library plain values.

pub mod checker;
pub mod classify;
pub mod languages;
pub mod metadata;
pub mod models;
pub mod orchestrator;
pub mod sandbox;
pub mod strutil;
pub mod urls;

pub use models::IoMode;
pub use models::JudgerAck;
pub use models::JudgerHeartbeat;
pub use models::JudgerJob;
pub use models::JudgerResult;
pub use models::LanguageConfig;
pub use models::Problem;
pub use models::ResultStatus;
pub use models::Status;
pub use models::TestCase;
pub use models::TestResult;
