pub mod accounting;
pub mod executor;
pub mod limits;
pub mod outcome;
pub mod receipt;
pub mod receipt_budget;
pub mod version;
