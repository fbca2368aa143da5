//! The admission and lifecycle rules of the registry, as spec functions.
//!
//! `PalletView` is the mathematical snapshot of the whole record store.
//! For each public operation there is an `*_outcome` function that maps a
//! snapshot and the operation's inputs to the exact result the operation
//! returns: `Ok(())`, or the first failing check's error. The executable
//! operations ensure that their result equals the outcome function, so
//! these definitions are the single place where the validation pipelines
//! are written down.

use vstd::prelude::*;
use crate::types::{
    AccountId, BlockNumber, CollectionItem, CollectionItemFile, CollectionItemId,
    CollectionItemToken, CollectionSize, Config, Error, Event, LegalOfficerCase, LocId, LocType,
    LocVoidInfo, MetadataItem, Requester, TermsAndConditionsElement,
};

verus! {

/// Snapshot of the registry: the five storage indexes, the running block
/// height, the raised events and the configured size bounds.
#[verifier::ext_equal]
pub struct PalletView {
    pub locs: Map<LocId, LegalOfficerCase>,
    pub account_locs: Map<AccountId, Seq<LocId>>,
    pub identity_loc_locs: Map<LocId, Seq<LocId>>,
    pub collection_items: Map<(LocId, CollectionItemId), CollectionItem>,
    pub collection_sizes: Map<LocId, CollectionSize>,
    pub current_block: BlockNumber,
    pub events: Seq<Event>,
    pub config: Config,
}

/// A freshly created LOC: open, non-void, with empty evidence sequences
/// and no collection bounds.
pub open spec fn is_fresh_loc(
    l: LegalOfficerCase,
    owner: AccountId,
    requester: Requester,
    loc_type: LocType,
) -> bool {
    &&& l.owner == owner
    &&& l.requester == requester
    &&& l.metadata@.len() == 0
    &&& l.files@.len() == 0
    &&& !l.closed
    &&& l.loc_type == loc_type
    &&& l.links@.len() == 0
    &&& l.void_info is None
    &&& l.replacer_of is None
    &&& l.collection_last_block_submission is None
    &&& l.collection_max_size is None
    &&& !l.collection_can_upload
    &&& l.seal is None
}

/// A freshly created Collection LOC, carrying its bounds and upload flag.
pub open spec fn is_fresh_collection_loc(
    l: LegalOfficerCase,
    owner: AccountId,
    requester: Requester,
    collection_last_block_submission: Option<BlockNumber>,
    collection_max_size: Option<CollectionSize>,
    collection_can_upload: bool,
) -> bool {
    &&& l.owner == owner
    &&& l.requester == requester
    &&& l.metadata@.len() == 0
    &&& l.files@.len() == 0
    &&& !l.closed
    &&& l.loc_type == LocType::Collection
    &&& l.links@.len() == 0
    &&& l.void_info is None
    &&& l.replacer_of is None
    &&& l.collection_last_block_submission == collection_last_block_submission
    &&& l.collection_max_size == collection_max_size
    &&& l.collection_can_upload == collection_can_upload
    &&& l.seal is None
}

/// Appending a LOC id under a key of an account or identity-LOC index,
/// starting a fresh list when the key is new.
pub open spec fn index_append<K>(m: Map<K, Seq<LocId>>, key: K, loc_id: LocId) -> Map<
    K,
    Seq<LocId>,
> {
    let prev = if m.contains_key(key) {
        m[key]
    } else {
        Seq::empty()
    };
    m.insert(key, prev.push(loc_id))
}

/// A valid closed logion identity anchor: an Identity LOC without an
/// external requester that is closed and not void. Only such a LOC may
/// stand as the requester of a logion Transaction LOC.
pub open spec fn is_identity_anchor(l: LegalOfficerCase) -> bool {
    &&& l.loc_type is Identity
    &&& l.requester is Absent
    &&& l.closed
    &&& l.void_info is None
}

/// The submitter of a metadata item or file must be the LOC owner or,
/// only when the requester is an account, that requester.
pub open spec fn valid_submitter(submitter: AccountId, l: LegalOfficerCase) -> bool {
    ||| submitter == l.owner
    ||| l.requester matches Requester::Account(requester) && submitter == requester
}

/// The record after its void marker is set.
pub open spec fn loc_voided(pre: LegalOfficerCase, replacer: Option<LocId>) -> LegalOfficerCase {
    LegalOfficerCase { void_info: Some(LocVoidInfo { replacer }), ..pre }
}

/// The record after it is designated as the replacer of a voided LOC.
pub open spec fn loc_replacing(pre: LegalOfficerCase, replaced: LocId) -> LegalOfficerCase {
    LegalOfficerCase { replacer_of: Some(replaced), ..pre }
}

/// The record after closing, with the optional seal.
pub open spec fn loc_closed(
    pre: LegalOfficerCase,
    seal: Option<crate::types::Hash>,
) -> LegalOfficerCase {
    LegalOfficerCase { closed: true, seal, ..pre }
}

/// The new record relates to the old one by appending one metadata item.
pub open spec fn loc_with_metadata(
    pre: LegalOfficerCase,
    post: LegalOfficerCase,
    item: MetadataItem,
) -> bool {
    &&& post == (LegalOfficerCase { metadata: post.metadata, ..pre })
    &&& post.metadata@ == pre.metadata@.push(item)
}

/// The new record relates to the old one by appending one file.
pub open spec fn loc_with_file(
    pre: LegalOfficerCase,
    post: LegalOfficerCase,
    file: crate::types::File,
) -> bool {
    &&& post == (LegalOfficerCase { files: post.files, ..pre })
    &&& post.files@ == pre.files@.push(file)
}

/// The new record relates to the old one by appending one link.
pub open spec fn loc_with_link(
    pre: LegalOfficerCase,
    post: LegalOfficerCase,
    link: crate::types::LocLink,
) -> bool {
    &&& post == (LegalOfficerCase { links: post.links, ..pre })
    &&& post.links@ == pre.links@.push(link)
}

/// Outcome of creating a LOC whose requester needs no validation: the
/// identifier alone decides.
pub open spec fn create_loc_outcome(v: PalletView, loc_id: LocId) -> Result<(), Error> {
    if v.locs.contains_key(loc_id) {
        Err(Error::AlreadyExists)
    } else {
        Ok(())
    }
}

/// Outcome of creating a logion Transaction LOC, requested by an
/// identity LOC that must be a valid closed identity anchor.
pub open spec fn create_logion_transaction_loc_outcome(
    v: PalletView,
    loc_id: LocId,
    requester_loc_id: LocId,
) -> Result<(), Error> {
    if v.locs.contains_key(loc_id) {
        Err(Error::AlreadyExists)
    } else if !v.locs.contains_key(requester_loc_id) {
        Err(Error::UnexpectedRequester)
    } else if !is_identity_anchor(v.locs[requester_loc_id]) {
        Err(Error::UnexpectedRequester)
    } else {
        Ok(())
    }
}

/// Outcome of creating a Collection LOC: it must carry at least one
/// bound, and its identifier must be fresh.
pub open spec fn create_collection_loc_outcome(
    v: PalletView,
    loc_id: LocId,
    collection_last_block_submission: Option<BlockNumber>,
    collection_max_size: Option<CollectionSize>,
) -> Result<(), Error> {
    if collection_last_block_submission is None && collection_max_size is None {
        Err(Error::CollectionHasNoLimit)
    } else if v.locs.contains_key(loc_id) {
        Err(Error::AlreadyExists)
    } else {
        Ok(())
    }
}

/// The shared gate of the mutation pipeline: the LOC must exist, the
/// caller must own it, and it must be neither closed nor void.
pub open spec fn mutation_gate(v: PalletView, who: AccountId, loc_id: LocId) -> Option<Error> {
    if !v.locs.contains_key(loc_id) {
        Some(Error::NotFound)
    } else if v.locs[loc_id].owner != who {
        Some(Error::Unauthorized)
    } else if v.locs[loc_id].closed {
        Some(Error::CannotMutate)
    } else if v.locs[loc_id].void_info is Some {
        Some(Error::CannotMutateVoid)
    } else {
        None
    }
}

/// Outcome of adding a metadata item.
pub open spec fn add_metadata_outcome(
    v: PalletView,
    who: AccountId,
    loc_id: LocId,
    item: MetadataItem,
) -> Result<(), Error> {
    if item.name@.len() > v.config.max_metadata_item_name_size {
        Err(Error::MetadataItemInvalid)
    } else if item.value@.len() > v.config.max_metadata_item_value_size {
        Err(Error::MetadataItemInvalid)
    } else {
        match mutation_gate(v, who, loc_id) {
            Some(e) => Err(e),
            None => if !valid_submitter(item.submitter, v.locs[loc_id]) {
                Err(Error::InvalidSubmitter)
            } else {
                Ok(())
            },
        }
    }
}

/// Outcome of adding a file.
pub open spec fn add_file_outcome(
    v: PalletView,
    who: AccountId,
    loc_id: LocId,
    file: crate::types::File,
) -> Result<(), Error> {
    if file.nature@.len() > v.config.max_file_nature_size {
        Err(Error::FileInvalid)
    } else {
        match mutation_gate(v, who, loc_id) {
            Some(e) => Err(e),
            None => if !valid_submitter(file.submitter, v.locs[loc_id]) {
                Err(Error::InvalidSubmitter)
            } else {
                Ok(())
            },
        }
    }
}

/// Outcome of adding a link: after the shared gate, the link target
/// must exist.
pub open spec fn add_link_outcome(
    v: PalletView,
    who: AccountId,
    loc_id: LocId,
    link: crate::types::LocLink,
) -> Result<(), Error> {
    if link.nature@.len() > v.config.max_link_nature_size {
        Err(Error::LocLinkInvalid)
    } else {
        match mutation_gate(v, who, loc_id) {
            Some(e) => Err(e),
            None => if !v.locs.contains_key(link.id) {
                Err(Error::LinkedLocNotFound)
            } else {
                Ok(())
            },
        }
    }
}

/// Outcome of closing a LOC, with or without a seal.
pub open spec fn close_outcome(v: PalletView, who: AccountId, loc_id: LocId) -> Result<(), Error> {
    if !v.locs.contains_key(loc_id) {
        Err(Error::NotFound)
    } else if v.locs[loc_id].owner != who {
        Err(Error::Unauthorized)
    } else if v.locs[loc_id].void_info is Some {
        Err(Error::CannotMutateVoid)
    } else if v.locs[loc_id].closed {
        Err(Error::AlreadyClosed)
    } else {
        Ok(())
    }
}

/// Outcome of voiding a LOC, optionally replacing it: the target must
/// exist, be owned by the caller and not be void already; a replacer
/// must exist, be non-void, not already replace another LOC, and be of
/// the same type as the target.
pub open spec fn make_void_outcome(
    v: PalletView,
    who: AccountId,
    loc_id: LocId,
    replacer_loc_id: Option<LocId>,
) -> Result<(), Error> {
    if !v.locs.contains_key(loc_id) {
        Err(Error::NotFound)
    } else if v.locs[loc_id].owner != who {
        Err(Error::Unauthorized)
    } else if v.locs[loc_id].void_info is Some {
        Err(Error::AlreadyVoid)
    } else {
        match replacer_loc_id {
            None => Ok(()),
            Some(replacer) => if !v.locs.contains_key(replacer) {
                Err(Error::ReplacerLocNotFound)
            } else if v.locs[replacer].void_info is Some {
                Err(Error::ReplacerLocAlreadyVoid)
            } else if v.locs[replacer].replacer_of is Some {
                Err(Error::ReplacerLocAlreadyReplacing)
            } else if v.locs[replacer].loc_type != v.locs[loc_id].loc_type {
                Err(Error::ReplacerLocWrongType)
            } else {
                Ok(())
            },
        }
    }
}

/// Eligibility of a collection for item admission: it is a Collection
/// LOC, the caller is its account requester, and it is closed and not
/// void.
pub open spec fn can_add_item(who: AccountId, collection_loc: LegalOfficerCase) -> bool {
    &&& collection_loc.loc_type is Collection
    &&& collection_loc.requester matches Requester::Account(requester) && requester == who
    &&& collection_loc.closed
    &&& collection_loc.void_info is None
}

/// The stored item counter of a collection, zero when absent.
pub open spec fn collection_size_of(v: PalletView, loc_id: LocId) -> CollectionSize {
    if v.collection_sizes.contains_key(loc_id) {
        v.collection_sizes[loc_id]
    } else {
        0
    }
}

/// A collection's limits are reached when the stored counter meets the
/// configured maximum size, or the block height meets the submission
/// deadline.
pub open spec fn collection_limits_reached(
    v: PalletView,
    loc_id: LocId,
    collection_loc: LegalOfficerCase,
) -> bool {
    ||| collection_loc.collection_max_size matches Some(limit) && collection_size_of(v, loc_id)
        >= limit
    ||| collection_loc.collection_last_block_submission matches Some(last_block)
        && v.current_block >= last_block
}

/// The content hashes of the files of one item are pairwise distinct.
pub open spec fn unique_hashes(files: Seq<CollectionItemFile>) -> bool {
    forall|i: int, j: int| 0 <= i < j < files.len() ==> files[i].hash != files[j].hash
}

/// The check of a single terms-and-conditions reference: its LOC must
/// exist, not be void, and be closed, in that order.
pub open spec fn tc_element_outcome(
    locs: Map<LocId, LegalOfficerCase>,
    tc: TermsAndConditionsElement,
) -> Option<Error> {
    if !locs.contains_key(tc.tc_loc) {
        Some(Error::TermsAndConditionsLocNotFound)
    } else if locs[tc.tc_loc].void_info is Some {
        Some(Error::TermsAndConditionsLocVoid)
    } else if !locs[tc.tc_loc].closed {
        Some(Error::TermsAndConditionsLocNotClosed)
    } else {
        None
    }
}

/// The first failing terms-and-conditions reference decides; `None`
/// when every reference passes.
pub open spec fn first_tc_outcome(
    locs: Map<LocId, LegalOfficerCase>,
    tcs: Seq<TermsAndConditionsElement>,
) -> Option<Error>
    decreases tcs.len(),
{
    if tcs.len() == 0 {
        None
    } else if tc_element_outcome(locs, tcs[0]) is Some {
        tc_element_outcome(locs, tcs[0])
    } else {
        first_tc_outcome(locs, tcs.drop_first())
    }
}

/// Outcome of adding an item to a collection: the ordered validation
/// pipeline of the admission engine, first failure wins.
pub open spec fn add_collection_item_outcome(
    v: PalletView,
    who: AccountId,
    collection_loc_id: LocId,
    item_id: CollectionItemId,
    item_description: Seq<u8>,
    item_files: Seq<CollectionItemFile>,
    item_token: Option<CollectionItemToken>,
    restricted_delivery: bool,
    terms_and_conditions: Seq<TermsAndConditionsElement>,
) -> Result<(), Error> {
    if item_description.len() > v.config.max_collection_item_description_size {
        Err(Error::CollectionItemTooMuchData)
    } else if item_token matches Some(token) && token.token_type@.len()
        > v.config.max_collection_item_token_type_size {
        Err(Error::CollectionItemTooMuchData)
    } else if item_token matches Some(token) && token.token_id@.len()
        > v.config.max_collection_item_token_id_size {
        Err(Error::CollectionItemTooMuchData)
    } else if restricted_delivery && item_token is None {
        Err(Error::MissingToken)
    } else if restricted_delivery && item_files.len() == 0 {
        Err(Error::MissingFiles)
    } else if !v.locs.contains_key(collection_loc_id) {
        Err(Error::WrongCollectionLoc)
    } else if v.collection_items.contains_key((collection_loc_id, item_id)) {
        Err(Error::CollectionItemAlreadyExists)
    } else if !can_add_item(who, v.locs[collection_loc_id]) {
        Err(Error::WrongCollectionLoc)
    } else if collection_limits_reached(v, collection_loc_id, v.locs[collection_loc_id]) {
        Err(Error::CollectionLimitsReached)
    } else if !v.locs[collection_loc_id].collection_can_upload && item_files.len() > 0 {
        Err(Error::CannotUpload)
    } else if v.locs[collection_loc_id].collection_can_upload && item_files.len() == 0 {
        Err(Error::MustUpload)
    } else if v.locs[collection_loc_id].collection_can_upload && !unique_hashes(item_files) {
        Err(Error::DuplicateFile)
    } else {
        match first_tc_outcome(v.locs, terms_and_conditions) {
            Some(e) => Err(e),
            None => Ok(()),
        }
    }
}

/// A LOC of the account that is owned by the given authority, of type
/// Identity, and closed. Void status is deliberately not checked here:
/// the identity query preserves that existing behavior.
pub open spec fn is_closed_identity_owned_by(
    locs: Map<LocId, LegalOfficerCase>,
    id: LocId,
    legal_officer: AccountId,
) -> bool {
    &&& locs.contains_key(id)
    &&& locs[id].owner == legal_officer
    &&& locs[id].loc_type is Identity
    &&& locs[id].closed
}

/// The account holds at least one closed Identity LOC issued by the
/// given authority, among the LOCs indexed under the account.
pub open spec fn has_closed_identity_loc_with(
    v: PalletView,
    account: AccountId,
    legal_officer: AccountId,
) -> bool {
    &&& v.account_locs.contains_key(account)
    &&& exists|k: int|
        0 <= k < v.account_locs[account].len() && is_closed_identity_owned_by(
            v.locs,
            v.account_locs[account][k],
            legal_officer,
        )
}

} // verus!
