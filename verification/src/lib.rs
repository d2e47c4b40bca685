//! Exact, currency-aware monetary arithmetic and a progressive tax engine.
//!
//! The `amount` module models decimal amounts as plain mantissa/scale pairs;
//! the `decimal` module performs the rounding arithmetic on them through
//! `rust_decimal`; `money` pairs an amount with a currency; `exchange` holds a
//! pair-symmetric rate table and performs cross-currency operations; `tax`
//! computes progressive bracket taxes and deductions.

pub mod amount;
pub mod decimal;
pub mod exchange;
pub mod money;
pub mod tax;

pub use amount::Amount;
pub use exchange::Exchange;
pub use money::Currency;
pub use money::Money;
pub use money::MoneyError;
pub use money::RoundedEq;
pub use tax::TaxBracket;
pub use tax::TaxDeduction;
pub use tax::TaxDeductionCategory;
pub use tax::TaxDeductionRule;
pub use tax::TaxError;
pub use tax::TaxSchedule;
