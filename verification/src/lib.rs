//! Metric entries, the sinks that take them, and the global rendezvous point between the two.
//!
//! - [`value`] and [`entry`]: what values and entries write.
//! - [`close`], [`inflect`], [`namestyle`], [`concat`] and [`flex`]: how what a unit of work has
//!   collected becomes an entry, and how its fields are named.
//! - [`sink`], [`global`], [`reporter`], [`tokio_metrics_reporter`] and [`runtime_snapshot`]: where
//!   entries go, and how the metrics of a runtime get there.
//! - [`entry_impl`]: which code is generated for a type of metrics.
//! - [`fuzz`]: how formatters are fuzzed.
//! - [`laws`]: what holds of all of this, over what goes into functions and what comes out.
//!
//! Traits carry models, such as the calls that an entry makes. A model has a default body where
//! code that is not verified may implement the trait: such code need not spell the model out.
//! Verified implementations do, and are held to it.
pub mod boxed_reporter;
pub mod close;
pub mod concat;
pub mod entry;
pub mod entry_impl;
pub mod flex;
pub mod fuzz;
pub mod global;
pub mod inflect;
pub mod laws;
pub mod namestyle;
mod private;
pub mod reporter;
pub mod runtime_snapshot;
pub mod sink;
pub mod text;
pub mod time;
pub mod tokio_metrics_reporter;
pub mod value;
