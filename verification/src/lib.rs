//! A content-addressed record store: text is fingerprinted, checked, and
//! committed once into a caller-designated slot.
pub mod fingerprint;
pub mod record;
pub mod store;
pub mod substrate;

pub use fingerprint::md5_hash;
pub use record::ErrorCode;
pub use record::QueryString;
pub use record::StoreError;
pub use record::StoreResult;
pub use record::StoreString;
pub use record::StringRecord;
pub use store::commit_record;
pub use store::store_string;
