//! Identifier and value types of the LOC registry: pure data, no behavior.

use vstd::prelude::*;

verus! {

/// Identifier of an authenticated account (owner, requester or submitter).
pub type AccountId = u64;

/// Caller-supplied unique identifier of a LOC.
pub type LocId = u64;

/// Height of the externally supplied, monotonic block counter.
pub type BlockNumber = u64;

/// Number of items recorded under a Collection LOC.
pub type CollectionSize = u32;

/// An opaque content hash value.
pub type Hash = u128;

/// Identifier of an item inside a Collection LOC.
pub type CollectionItemId = u128;

/// The flavor of a LOC, fixed at creation. A void LOC may only be
/// replaced by a LOC of the same type.
#[derive(Clone, Copy, PartialEq, Eq, Debug, Structural)]
pub enum LocType {
    Transaction,
    Identity,
    Collection,
}

impl Default for LocType {
    fn default() -> (r: LocType)
        ensures
            r == LocType::Transaction,
    {
        LocType::Transaction
    }
}

/// The party on whose behalf a LOC was opened: absent, an account, or
/// another (identity) LOC.
#[derive(Clone, Copy, PartialEq, Eq, Debug, Structural)]
pub enum Requester {
    /// No external requester.
    Absent,
    Account(AccountId),
    Loc(LocId),
}

impl Default for Requester {
    fn default() -> (r: Requester)
        ensures
            r == Requester::Absent,
    {
        Requester::Absent
    }
}

/// A metadata entry attached to a LOC.
#[derive(Clone, PartialEq, Eq, Debug)]
pub struct MetadataItem {
    pub name: Vec<u8>,
    pub value: Vec<u8>,
    pub submitter: AccountId,
}

/// A link from one LOC to another existing LOC.
#[derive(Clone, PartialEq, Eq, Debug)]
pub struct LocLink {
    pub id: LocId,
    pub nature: Vec<u8>,
}

/// A file attached to a LOC, identified by its content hash.
#[derive(Clone, PartialEq, Eq, Debug)]
pub struct File {
    pub hash: Hash,
    pub nature: Vec<u8>,
    pub submitter: AccountId,
}

/// The terminal void marker of a LOC, optionally pointing at the LOC
/// that replaces it.
#[derive(Clone, Copy, PartialEq, Eq, Debug)]
pub struct LocVoidInfo {
    pub replacer: Option<LocId>,
}

/// A Legal Officer Case record.
#[verifier::ext_equal]
#[derive(Clone, PartialEq, Eq, Debug)]
pub struct LegalOfficerCase {
    pub owner: AccountId,
    pub requester: Requester,
    pub metadata: Vec<MetadataItem>,
    pub files: Vec<File>,
    pub closed: bool,
    pub loc_type: LocType,
    pub links: Vec<LocLink>,
    pub void_info: Option<LocVoidInfo>,
    pub replacer_of: Option<LocId>,
    pub collection_last_block_submission: Option<BlockNumber>,
    pub collection_max_size: Option<CollectionSize>,
    pub collection_can_upload: bool,
    pub seal: Option<Hash>,
}

/// A terms-and-conditions reference carried by a collection item,
/// pointing at the LOC that records the applicable terms.
#[derive(Clone, PartialEq, Eq, Debug)]
pub struct TermsAndConditionsElement {
    pub tc_type: Vec<u8>,
    pub tc_loc: LocId,
    pub details: Vec<u8>,
}

/// A file attached to a collection item.
#[derive(Clone, PartialEq, Eq, Debug)]
pub struct CollectionItemFile {
    pub name: Vec<u8>,
    pub content_type: Vec<u8>,
    pub size: u32,
    pub hash: Hash,
}

/// The external token a collection item may refer to.
#[derive(Clone, PartialEq, Eq, Debug)]
pub struct CollectionItemToken {
    pub token_type: Vec<u8>,
    pub token_id: Vec<u8>,
}

/// An immutable catalogue entry under a Collection LOC.
#[verifier::ext_equal]
#[derive(Clone, PartialEq, Eq, Debug)]
pub struct CollectionItem {
    pub description: Vec<u8>,
    pub files: Vec<CollectionItemFile>,
    pub token: Option<CollectionItemToken>,
    pub restricted_delivery: bool,
    pub terms_and_conditions: Vec<TermsAndConditionsElement>,
}

/// Externally supplied size bounds on the byte fields of submitted
/// payloads.
#[derive(Clone, Copy, PartialEq, Eq, Debug)]
pub struct Config {
    pub max_metadata_item_name_size: usize,
    pub max_metadata_item_value_size: usize,
    pub max_file_nature_size: usize,
    pub max_link_nature_size: usize,
    pub max_collection_item_description_size: usize,
    pub max_collection_item_token_type_size: usize,
    pub max_collection_item_token_id_size: usize,
}

/// Notification raised by a successful operation.
#[derive(Clone, Copy, PartialEq, Eq, Debug, Structural)]
pub enum Event {
    /// Issued upon LOC creation.
    LocCreated(LocId),
    /// Issued when a LOC is closed.
    LocClosed(LocId),
    /// Issued when a LOC is voided.
    LocVoid(LocId),
    /// Issued when an item was added to a collection.
    ItemAdded(LocId, CollectionItemId),
}

/// Error conditions reported by the registry. Every failure is named,
/// synchronous and leaves the store unchanged.
#[derive(Clone, Copy, PartialEq, Eq, Debug, Structural)]
pub enum Error {
    /// The LOC ID has already been used.
    AlreadyExists,
    /// Target LOC does not exist.
    NotFound,
    /// Unauthorized LOC operation.
    Unauthorized,
    /// Occurs when trying to mutate a closed LOC.
    CannotMutate,
    /// Occurs when trying to close an already closed LOC.
    AlreadyClosed,
    /// Occurs when trying to link to a non-existent LOC.
    LinkedLocNotFound,
    /// Occurs when trying to replace a void LOC with a non-existent LOC.
    ReplacerLocNotFound,
    /// Occurs when trying to void a LOC already void.
    AlreadyVoid,
    /// Occurs when trying to void a LOC by replacing it with an already
    /// void LOC.
    ReplacerLocAlreadyVoid,
    /// Occurs when trying to void a LOC by replacing it with a LOC
    /// already replacing another LOC.
    ReplacerLocAlreadyReplacing,
    /// Occurs when trying to mutate a void LOC.
    CannotMutateVoid,
    /// Unexpected requester given the LOC type.
    UnexpectedRequester,
    /// Occurs when trying to void a LOC by replacing it with a LOC of a
    /// different type.
    ReplacerLocWrongType,
    /// Submitter must be either the LOC owner or the LOC requester
    /// (only when the requester is an account).
    InvalidSubmitter,
    /// A Collection LOC must be limited in time and/or quantity of items.
    CollectionHasNoLimit,
    /// Item cannot be added to the given collection: it may be missing
    /// or not eligible.
    WrongCollectionLoc,
    /// An item with the same identifier already exists in the collection.
    CollectionItemAlreadyExists,
    /// A collection item field holds too many bytes.
    CollectionItemTooMuchData,
    /// The collection limits have been reached.
    CollectionLimitsReached,
    /// A metadata item field holds too many bytes.
    MetadataItemInvalid,
    /// A file field holds too many bytes.
    FileInvalid,
    /// A link field holds too many bytes.
    LocLinkInvalid,
    /// Cannot attach files to this item because the Collection LOC does
    /// not allow it.
    CannotUpload,
    /// Must attach at least one file.
    MustUpload,
    /// Cannot attach the same file multiple times.
    DuplicateFile,
    /// Restricted delivery requires an underlying token.
    MissingToken,
    /// Restricted delivery requires at least one associated file.
    MissingFiles,
    /// A terms-and-conditions LOC does not exist.
    TermsAndConditionsLocNotFound,
    /// A terms-and-conditions LOC is not closed.
    TermsAndConditionsLocNotClosed,
    /// A terms-and-conditions LOC is void.
    TermsAndConditionsLocVoid,
}

/// Version tag of the stored record schema.
#[derive(Clone, Copy, PartialEq, Eq, Debug, Structural)]
pub enum StorageVersion {
    V1,
    V2MakeLocVoid,
    V3RequesterEnum,
    V4ItemSubmitter,
    V5Collection,
    V6ItemUpload,
    V7ItemToken,
    V8AddSeal,
    V9TermsAndConditions,
}

impl Default for StorageVersion {
    fn default() -> (r: StorageVersion)
        ensures
            r == StorageVersion::V8AddSeal,
    {
        StorageVersion::V8AddSeal
    }
}

} // verus!
