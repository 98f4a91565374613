//! On-chain bookkeeping of NFT metadata updates: a vault that records which
//! mints had their metadata URI rewritten and when, the fee charged for each
//! update, and the replacement record handed to the metadata program.

pub mod fee;
pub mod handlers;
pub mod key;
pub mod laws;
pub mod metadata;
pub mod pda;
pub mod vault;

pub use fee::{update_fee, SPEC_FEE, STANDARD_FEE};
pub use handlers::{initialize_vault, update, InitializeVault, Initialized, Update, Updated};
pub use key::Key;
pub use metadata::{rewrite_uri, Collection, Creator, Data, DataV2, Metadata, UseMethod, Uses};
pub use pda::{check_pool_address, derive_pool_address};
pub use vault::{Vault, VaultError, VAULT_CAPACITY};
