//! What holds of the library as a whole, stated over what goes into its functions and what comes
//! out of them.
pub mod delivery;
pub mod drawn;
pub mod formats;
pub mod fuzzed;
pub mod generated;
pub mod naming;
pub mod reporting;
pub mod routing;
pub mod values;
