//! Global properties of the registry, stated and proved over the
//! outcome functions and views that the operations' contracts use.

use vstd::prelude::*;
use crate::types::{
    AccountId, BlockNumber, CollectionItemFile, CollectionItemId, CollectionItemToken,
    CollectionSize, Error, File, LegalOfficerCase, LocId, LocLink, MetadataItem,
    TermsAndConditionsElement,
};
use crate::rules::{
    PalletView, add_collection_item_outcome, add_file_outcome, add_link_outcome,
    add_metadata_outcome, can_add_item, close_outcome, collection_limits_reached,
    collection_size_of, create_collection_loc_outcome, create_loc_outcome,
    create_logion_transaction_loc_outcome, make_void_outcome, unique_hashes, valid_submitter,
};

verus! {

/// Uniqueness of identifiers: creating any flavor of LOC under an
/// identifier that is already recorded fails with `AlreadyExists`,
/// whatever the rest of the payload. For a Collection LOC this holds
/// whenever a bound is given; with no bound at all the creation already
/// fails with `CollectionHasNoLimit`, before the identifier is looked
/// at. That a failed creation leaves every record unchanged is part of
/// each operation's own contract.
pub proof fn lemma_existing_id_rejected(
    v: PalletView,
    loc_id: LocId,
    requester_loc_id: LocId,
    collection_last_block_submission: Option<BlockNumber>,
    collection_max_size: Option<CollectionSize>,
)
    requires
        v.locs.contains_key(loc_id),
    ensures
        create_loc_outcome(v, loc_id) == Err::<(), Error>(Error::AlreadyExists),
        create_logion_transaction_loc_outcome(v, loc_id, requester_loc_id) == Err::<(), Error>(
            Error::AlreadyExists,
        ),
        collection_last_block_submission is Some || collection_max_size is Some
            ==> create_collection_loc_outcome(
            v,
            loc_id,
            collection_last_block_submission,
            collection_max_size,
        ) == Err::<(), Error>(Error::AlreadyExists),
{
}

/// Void terminality: once a LOC's void marker is set, no voiding of it
/// and no addition of metadata, a file or a link to it can ever
/// succeed, for any caller, payload or replacer.
pub proof fn lemma_void_is_terminal(
    v: PalletView,
    who: AccountId,
    loc_id: LocId,
    replacer_loc_id: Option<LocId>,
    item: MetadataItem,
    file: File,
    link: LocLink,
)
    requires
        v.locs.contains_key(loc_id),
        v.locs[loc_id].void_info is Some,
    ensures
        make_void_outcome(v, who, loc_id, replacer_loc_id) is Err,
        add_metadata_outcome(v, who, loc_id, item) is Err,
        add_file_outcome(v, who, loc_id, file) is Err,
        add_link_outcome(v, who, loc_id, link) is Err,
        close_outcome(v, who, loc_id) is Err,
{
}

/// Replacer exclusivity: a LOC that already replaces another LOC can
/// never be designated as a replacer again, whatever LOC is being
/// voided and whoever calls.
pub proof fn lemma_replacer_is_exclusive(
    v: PalletView,
    who: AccountId,
    loc_id: LocId,
    replacer_loc_id: LocId,
)
    requires
        v.locs.contains_key(replacer_loc_id),
        v.locs[replacer_loc_id].replacer_of is Some,
    ensures
        make_void_outcome(v, who, loc_id, Some(replacer_loc_id)) is Err,
{
}

/// The submitter gate: when the size checks and the shared mutation
/// gate pass, adding metadata or a file succeeds exactly when the
/// submitter is the LOC owner or, only for an account requester, that
/// requester; every other submitter is rejected with
/// `InvalidSubmitter`. In particular, on a LOC whose requester is
/// absent or another LOC, only the owner may submit.
pub proof fn lemma_submitter_gate(
    v: PalletView,
    who: AccountId,
    loc_id: LocId,
    item: MetadataItem,
    file: File,
)
    requires
        item.name@.len() <= v.config.max_metadata_item_name_size,
        item.value@.len() <= v.config.max_metadata_item_value_size,
        file.nature@.len() <= v.config.max_file_nature_size,
        v.locs.contains_key(loc_id),
        v.locs[loc_id].owner == who,
        !v.locs[loc_id].closed,
        v.locs[loc_id].void_info is None,
    ensures
        add_metadata_outcome(v, who, loc_id, item) is Ok <==> valid_submitter(
            item.submitter,
            v.locs[loc_id],
        ),
        !valid_submitter(item.submitter, v.locs[loc_id]) ==> add_metadata_outcome(
            v,
            who,
            loc_id,
            item,
        ) == Err::<(), Error>(Error::InvalidSubmitter),
        add_file_outcome(v, who, loc_id, file) is Ok <==> valid_submitter(
            file.submitter,
            v.locs[loc_id],
        ),
        !valid_submitter(file.submitter, v.locs[loc_id]) ==> add_file_outcome(
            v,
            who,
            loc_id,
            file,
        ) == Err::<(), Error>(Error::InvalidSubmitter),
        (v.locs[loc_id].requester is Absent || v.locs[loc_id].requester is Loc) ==> (
        add_metadata_outcome(v, who, loc_id, item) is Ok <==> item.submitter
            == v.locs[loc_id].owner),
{
}

/// The collection bound requirement: a Collection LOC with neither a
/// submission deadline nor a maximum size is always rejected with
/// `CollectionHasNoLimit`, whatever the identifier and the rest of the
/// payload.
pub proof fn lemma_collection_needs_a_limit(v: PalletView, loc_id: LocId)
    ensures
        create_collection_loc_outcome(v, loc_id, None, None) == Err::<(), Error>(
            Error::CollectionHasNoLimit,
        ),
{
}

/// Admission monotonicity: once a collection's limits are reached, they
/// stay reached in every snapshot with an equal or greater block height
/// and an equal or greater stored counter for that collection.
pub proof fn lemma_limits_stay_reached(
    pre: PalletView,
    post: PalletView,
    loc_id: LocId,
    collection_loc: LegalOfficerCase,
)
    requires
        collection_limits_reached(pre, loc_id, collection_loc),
        post.current_block >= pre.current_block,
        collection_size_of(post, loc_id) >= collection_size_of(pre, loc_id),
    ensures
        collection_limits_reached(post, loc_id, collection_loc),
{
}

/// Upload/file coupling: when every earlier check of the admission
/// pipeline passes, a collection that forbids uploads rejects any file
/// with `CannotUpload`; one that allows uploads rejects an empty file
/// list with `MustUpload` and a repeated content hash with
/// `DuplicateFile`.
pub proof fn lemma_upload_file_coupling(
    v: PalletView,
    who: AccountId,
    collection_loc_id: LocId,
    item_id: CollectionItemId,
    item_description: Seq<u8>,
    item_files: Seq<CollectionItemFile>,
    item_token: Option<CollectionItemToken>,
    restricted_delivery: bool,
    terms_and_conditions: Seq<TermsAndConditionsElement>,
)
    requires
        item_description.len() <= v.config.max_collection_item_description_size,
        item_token matches Some(token) ==> token.token_type@.len()
            <= v.config.max_collection_item_token_type_size && token.token_id@.len()
            <= v.config.max_collection_item_token_id_size,
        restricted_delivery ==> item_token is Some && item_files.len() > 0,
        v.locs.contains_key(collection_loc_id),
        !v.collection_items.contains_key((collection_loc_id, item_id)),
        can_add_item(who, v.locs[collection_loc_id]),
        !collection_limits_reached(v, collection_loc_id, v.locs[collection_loc_id]),
    ensures
        !v.locs[collection_loc_id].collection_can_upload && item_files.len() > 0
            ==> add_collection_item_outcome(
            v,
            who,
            collection_loc_id,
            item_id,
            item_description,
            item_files,
            item_token,
            restricted_delivery,
            terms_and_conditions,
        ) == Err::<(), Error>(Error::CannotUpload),
        v.locs[collection_loc_id].collection_can_upload && item_files.len() == 0
            ==> add_collection_item_outcome(
            v,
            who,
            collection_loc_id,
            item_id,
            item_description,
            item_files,
            item_token,
            restricted_delivery,
            terms_and_conditions,
        ) == Err::<(), Error>(Error::MustUpload),
        v.locs[collection_loc_id].collection_can_upload && item_files.len() > 0 && !unique_hashes(
            item_files,
        ) ==> add_collection_item_outcome(
            v,
            who,
            collection_loc_id,
            item_id,
            item_description,
            item_files,
            item_token,
            restricted_delivery,
            terms_and_conditions,
        ) == Err::<(), Error>(Error::DuplicateFile),
{
}

/// Only the eligible requester may fill a collection: when the caller
/// is not the account requester of the collection (or the LOC is not a
/// closed, non-void Collection LOC at all), admission fails with
/// `WrongCollectionLoc`, provided the payload checks pass and the key
/// is fresh.
pub proof fn lemma_admission_needs_eligibility(
    v: PalletView,
    who: AccountId,
    collection_loc_id: LocId,
    item_id: CollectionItemId,
    item_description: Seq<u8>,
    item_files: Seq<CollectionItemFile>,
    item_token: Option<CollectionItemToken>,
    restricted_delivery: bool,
    terms_and_conditions: Seq<TermsAndConditionsElement>,
)
    requires
        item_description.len() <= v.config.max_collection_item_description_size,
        item_token matches Some(token) ==> token.token_type@.len()
            <= v.config.max_collection_item_token_type_size && token.token_id@.len()
            <= v.config.max_collection_item_token_id_size,
        restricted_delivery ==> item_token is Some && item_files.len() > 0,
        v.locs.contains_key(collection_loc_id),
        !v.collection_items.contains_key((collection_loc_id, item_id)),
        !can_add_item(who, v.locs[collection_loc_id]),
    ensures
        add_collection_item_outcome(
            v,
            who,
            collection_loc_id,
            item_id,
            item_description,
            item_files,
            item_token,
            restricted_delivery,
            terms_and_conditions,
        ) == Err::<(), Error>(Error::WrongCollectionLoc),
{
}

} // verus!
