pub mod account;
pub mod amount;
pub mod errors;
pub mod ledger;
pub mod transaction;

pub use account::Account;
pub use amount::Amount;
pub use errors::EngineError;
pub use ledger::Ledger;
pub use transaction::{Input, State, Transaction, Type};
