//! Verified core of a MISP to Microsoft Sentinel threat-intelligence synchronizer.

pub mod text;
pub mod timestamp;
pub mod trusted;
pub mod error;
pub mod stix;
pub mod misp;
pub mod config;
pub mod sync;
pub mod sentinel;
pub mod progress;

pub use config::{Config, KeyVaultConfig};
pub use error::Error;
pub use misp::{MispAttribute, MispEvent};
pub use progress::Phase;
pub use stix::{
    create_file_hash_pattern, create_pattern, ObservableType, StixAttackPattern, StixIdentity,
    StixIndicator, StixObject, StixRelationship, StixThreatActor,
};
pub use sync::Syncer;
