//! Plain data carried by the object API: the pieces of a compose request
//! and the customer-encryption metadata of a stored object.

use vstd::prelude::*;

verus! {

/// Contains data about how a user might encrypt their files in the store.
#[derive(Debug, PartialEq)]
pub struct CustomerEncrypton {
    /// The encryption algorithm.
    pub encryption_algorithm: String,
    /// SHA256 hash value of the encryption key.
    pub key_sha256: String,
}

/// One of the objects that is to be composed into a new one.
#[derive(Debug, PartialEq)]
pub struct SourceObject {
    /// The source object's name. All source objects must share a storage
    /// class and reside in one bucket.
    pub name: String,
    /// The generation of this object to use as the source.
    pub generation: Option<i64>,
    /// Conditions that must be met for this operation to execute.
    pub object_preconditions: Option<ObjectPrecondition>,
}

/// Allows conditional copying of a file.
#[derive(Debug, PartialEq)]
pub struct ObjectPrecondition {
    /// Only perform the composition if the generation of the source object
    /// that would be used matches this value.
    pub if_generation_match: i64,
}

} // verus!
