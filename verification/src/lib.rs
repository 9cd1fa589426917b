//! Quorum time: a UTC timestamp agreed on by several unreliable sources, with
//! a free-running software clock to fall back on when they disagree.
//!
//! - [`clock`]: the software clock and its one-second step.
//! - [`runner`]: the clock together with the readiness flag of the task
//!   that advances it.
//! - [`sample`], [`reading`]: what one source reports, and how a timestamp
//!   in RFC 3339 form becomes a sample.
//! - [`deviation`], [`reconcile`]: when three samples agree, and on what.
//! - [`orchestrator`]: the order of waiting and asking, and the final
//!   choice between the sources' agreement and the software clock.
//! - [`report`]: the text of the timestamp that is reported.

pub mod clock;
pub mod deviation;
pub mod orchestrator;
pub mod reading;
pub mod reconcile;
pub mod report;
pub mod runner;
pub mod sample;

pub use clock::SoftClock;
pub use deviation::{check_pair_deviation_and_average, check_sequential_low_deviation};
pub use orchestrator::{get_date_time, next_step, Resolution, Source, Step};
pub use reading::UtcReading;
pub use reconcile::reconcile;
pub use report::format_utc;
pub use runner::ClockHandle;
pub use sample::{parse_timestamp, TimestampSample};
