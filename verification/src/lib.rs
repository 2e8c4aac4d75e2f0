//! A verified core for a small file manager: a catalog of datastore
//! registrations and file records, a registry of cached backend handles, a
//! naming policy for deriving physical storage keys, and a resource manager
//! that sequences catalog and backend operations with explicit
//! partial-failure guarantees.

mod error;
mod meta;
mod naming;
mod registry;
mod rm;
mod s3;
mod strutil;

pub use error::Error;
pub use meta::build;
pub use meta::ds_exists;
pub use meta::ds_ids_unique;
pub use meta::ds_removed;
pub use meta::filter_view;
pub use meta::gid_removed;
pub use meta::init;
pub use meta::lemma_query_absent_gid_empty;
pub use meta::lemma_query_unfiltered;
pub use meta::lemma_record_still_queryable;
pub use meta::query_spec;
pub use meta::record_matches;
pub use meta::Catalog;
pub use meta::DataStorageRecord;
pub use meta::MetaRecord;
pub use naming::base_name;
pub use naming::base_name_spec;
pub use naming::extension;
pub use naming::extension_spec;
pub use naming::policy_valid;
pub use naming::raw_key_spec;
pub use naming::resolve_raw_key;
pub use registry::Registry;
pub use rm::DataStorage;
pub use rm::Resolution;
pub use rm::RM;
pub use s3::escaped;
pub use s3::escaped_char;
pub use s3::hex_char_spec;
pub use s3::s3config_json_spec;
pub use s3::S3config;
pub use strutil::str_eq;
