//! The LOC registry: lifecycle engine, collection admission engine and
//! identity query, over an in-memory record store.

use vstd::prelude::*;
use crate::types::{
    AccountId, BlockNumber, CollectionItem, CollectionItemFile, CollectionItemId,
    CollectionItemToken, CollectionSize, Config, Error, Event, LegalOfficerCase, LocId, LocLink,
    LocType, LocVoidInfo, MetadataItem, Requester, TermsAndConditionsElement,
};
use crate::types::File;
use crate::rules::{
    PalletView, add_collection_item_outcome, add_file_outcome, add_link_outcome,
    add_metadata_outcome, can_add_item, close_outcome, collection_limits_reached,
    collection_size_of, create_collection_loc_outcome, create_loc_outcome,
    create_logion_transaction_loc_outcome, first_tc_outcome, has_closed_identity_loc_with,
    index_append, is_closed_identity_owned_by, is_fresh_collection_loc, is_fresh_loc,
    is_identity_anchor, loc_closed, loc_replacing, loc_voided, loc_with_file, loc_with_link,
    loc_with_metadata, make_void_outcome, tc_element_outcome, unique_hashes, valid_submitter,
};
use crate::store::{
    assoc_map, assoc_map_seqs, distinct_keys, find_entry, find_item_entry,
    lemma_assoc_map_contains, lemma_assoc_map_index, lemma_assoc_map_push,
    lemma_assoc_map_seqs_contains, lemma_assoc_map_seqs_index, lemma_assoc_map_seqs_push,
    lemma_assoc_map_seqs_update, lemma_assoc_map_update, lemma_remove_insert_is_update,
};

verus! {

/// The registry of Legal Officer Cases.
///
/// It owns the record store: LOCs by id, requested LOC ids by account
/// and by identity LOC, collection items by (LOC id, item id), item
/// counters by LOC id, plus the raised events, the externally supplied
/// block height and the configured size bounds.
pub struct Pallet {
    locs: Vec<(LocId, LegalOfficerCase)>,
    account_locs: Vec<(AccountId, Vec<LocId>)>,
    identity_loc_locs: Vec<(LocId, Vec<LocId>)>,
    collection_items: Vec<((LocId, CollectionItemId), CollectionItem)>,
    collection_sizes: Vec<(LocId, CollectionSize)>,
    events: Vec<Event>,
    current_block: BlockNumber,
    config: Config,
}

impl View for Pallet {
    type V = PalletView;

    closed spec fn view(&self) -> PalletView {
        PalletView {
            locs: assoc_map(self.locs@),
            account_locs: assoc_map_seqs(self.account_locs@),
            identity_loc_locs: assoc_map_seqs(self.identity_loc_locs@),
            collection_items: assoc_map(self.collection_items@),
            collection_sizes: assoc_map(self.collection_sizes@),
            current_block: self.current_block,
            events: self.events@,
            config: self.config,
        }
    }
}

impl Pallet {
    /// Well-formedness of the record store: every index holds pairwise
    /// distinct keys.
    pub closed spec fn wf(self) -> bool {
        &&& distinct_keys(self.locs@)
        &&& distinct_keys(self.account_locs@)
        &&& distinct_keys(self.identity_loc_locs@)
        &&& distinct_keys(self.collection_items@)
        &&& distinct_keys(self.collection_sizes@)
    }

    /// An empty registry with the given size bounds, at the given block
    /// height.
    pub fn new(config: Config, current_block: BlockNumber) -> (r: Pallet)
        ensures
            r.wf(),
            r@.locs == Map::<LocId, LegalOfficerCase>::empty(),
            r@.account_locs == Map::<AccountId, Seq<LocId>>::empty(),
            r@.identity_loc_locs == Map::<LocId, Seq<LocId>>::empty(),
            r@.collection_items == Map::<(LocId, CollectionItemId), CollectionItem>::empty(),
            r@.collection_sizes == Map::<LocId, CollectionSize>::empty(),
            r@.current_block == current_block,
            r@.events == Seq::<Event>::empty(),
            r@.config == config,
    {
        Pallet {
            locs: Vec::new(),
            account_locs: Vec::new(),
            identity_loc_locs: Vec::new(),
            collection_items: Vec::new(),
            collection_sizes: Vec::new(),
            events: Vec::new(),
            current_block,
            config,
        }
    }

    /// Index of the entry of the given LOC in the store, tied to the
    /// map view.
    fn find_loc(&self, loc_id: LocId) -> (r: Option<usize>)
        requires
            self.wf(),
        ensures
            match r {
                Some(i) => i < self.locs@.len() && self.locs@[i as int].0 == loc_id
                    && self@.locs.contains_key(loc_id) && self@.locs[loc_id] == self.locs@[
                    i as int].1,
                None => !self@.locs.contains_key(loc_id),
            },
    {
        let r = find_entry(&self.locs, loc_id);
        proof {
            lemma_assoc_map_contains(self.locs@, loc_id);
            match r {
                Some(i) => lemma_assoc_map_index(self.locs@, i as int),
                None => {},
            }
        }
        r
    }

    /// Whether a LOC with this identifier is recorded.
    fn contains_loc(&self, loc_id: LocId) -> (r: bool)
        requires
            self.wf(),
        ensures
            r == self@.locs.contains_key(loc_id),
    {
        self.find_loc(loc_id).is_some()
    }

    /// Records a LOC under a fresh identifier.
    fn insert_new_loc(&mut self, loc_id: LocId, loc: LegalOfficerCase)
        requires
            old(self).wf(),
            !old(self)@.locs.contains_key(loc_id),
        ensures
            final(self).wf(),
            final(self)@ == (PalletView {
                locs: old(self)@.locs.insert(loc_id, loc),
                ..old(self)@
            }),
    {
        proof {
            lemma_assoc_map_contains(self.locs@, loc_id);
            lemma_assoc_map_push(self.locs@, loc_id, loc);
        }
        self.locs.push((loc_id, loc));
        proof {
            assert(self@ =~= (PalletView {
                locs: old(self)@.locs.insert(loc_id, loc),
                ..old(self)@
            }));
        }
    }

    /// Appends a LOC id to the list indexed under the requester account,
    /// starting the list when the account has none yet.
    fn link_with_account(&mut self, account_id: AccountId, loc_id: LocId)
        requires
            old(self).wf(),
        ensures
            final(self).wf(),
            final(self)@ == (PalletView {
                account_locs: index_append(old(self)@.account_locs, account_id, loc_id),
                ..old(self)@
            }),
    {
        let ghost entries0 = self.account_locs@;
        let r = find_entry(&self.account_locs, account_id);
        proof {
            lemma_assoc_map_seqs_contains(entries0, account_id);
        }
        match r {
            Some(i) => {
                proof {
                    lemma_assoc_map_seqs_index(entries0, i as int);
                }
                let mut entry = self.account_locs.remove(i);
                entry.1.push(loc_id);
                self.account_locs.insert(i, entry);
                proof {
                    lemma_remove_insert_is_update(
                        entries0,
                        i as int,
                        self.account_locs@[i as int],
                    );
                    assert(self.account_locs@ =~= entries0.update(
                        i as int,
                        (account_id, self.account_locs@[i as int].1),
                    ));
                    lemma_assoc_map_seqs_update(entries0, i as int, self.account_locs@[i as int].1);
                    assert(self.account_locs@[i as int].1@ == entries0[i as int].1@.push(loc_id));
                    assert(self@ =~= (PalletView {
                        account_locs: index_append(old(self)@.account_locs, account_id, loc_id),
                        ..old(self)@
                    }));
                }
            },
            None => {
                let mut list: Vec<LocId> = Vec::new();
                list.push(loc_id);
                proof {
                    lemma_assoc_map_seqs_push(entries0, account_id, list);
                }
                self.account_locs.push((account_id, list));
                proof {
                    assert(self@.account_locs == assoc_map_seqs(entries0).insert(
                        account_id,
                        seq![loc_id],
                    ));
                    assert(self@ =~= (PalletView {
                        account_locs: index_append(old(self)@.account_locs, account_id, loc_id),
                        ..old(self)@
                    }));
                }
            },
        }
    }

    /// An open, non-void LOC with empty evidence and no collection
    /// bounds.
    fn build_open_loc(who: AccountId, requester: Requester, loc_type: LocType) -> (r:
        LegalOfficerCase)
        ensures
            is_fresh_loc(r, who, requester, loc_type),
    {
        LegalOfficerCase {
            owner: who,
            requester,
            metadata: Vec::new(),
            files: Vec::new(),
            closed: false,
            loc_type,
            links: Vec::new(),
            void_info: None,
            replacer_of: None,
            collection_last_block_submission: None,
            collection_max_size: None,
            collection_can_upload: false,
            seal: None,
        }
    }

    /// Creates a Polkadot Identity LOC: a LOC linking a real identity to
    /// an account. Fails with `AlreadyExists` when the identifier is
    /// taken; otherwise records the open LOC, indexes it under the
    /// requester account and raises `LocCreated`.
    pub fn create_polkadot_identity_loc(
        &mut self,
        who: AccountId,
        loc_id: LocId,
        requester_account_id: AccountId,
    ) -> (r: Result<(), Error>)
        requires
            old(self).wf(),
        ensures
            final(self).wf(),
            r == create_loc_outcome(old(self)@, loc_id),
            r is Err ==> final(self)@ == old(self)@,
            r is Ok ==> ({
                let l = final(self)@.locs[loc_id];
                &&& is_fresh_loc(l, who, Requester::Account(requester_account_id), LocType::Identity)
                &&& final(self)@ == (PalletView {
                    locs: old(self)@.locs.insert(loc_id, l),
                    account_locs: index_append(
                        old(self)@.account_locs,
                        requester_account_id,
                        loc_id,
                    ),
                    events: old(self)@.events.push(Event::LocCreated(loc_id)),
                    ..old(self)@
                })
            }),
    {
        if self.contains_loc(loc_id) {
            return Err(Error::AlreadyExists);
        }
        let loc = Self::build_open_loc(
            who,
            Requester::Account(requester_account_id),
            LocType::Identity,
        );
        self.insert_new_loc(loc_id, loc);
        self.link_with_account(requester_account_id, loc_id);
        self.events.push(Event::LocCreated(loc_id));
        Ok(())
    }

    /// The recorded LOC with the given identifier, when there is one.
    pub fn loc(&self, loc_id: LocId) -> (r: Option<&LegalOfficerCase>)
        requires
            self.wf(),
        ensures
            match r {
                Some(l) => self@.locs.contains_key(loc_id) && *l == self@.locs[loc_id],
                None => !self@.locs.contains_key(loc_id),
            },
    {
        match self.find_loc(loc_id) {
            Some(i) => Some(&self.locs[i].1),
            None => None,
        }
    }

    /// The LOC ids requested by the given account, when any.
    pub fn account_locs(&self, account_id: AccountId) -> (r: Option<&Vec<LocId>>)
        requires
            self.wf(),
        ensures
            match r {
                Some(ids) => self@.account_locs.contains_key(account_id) && ids@
                    == self@.account_locs[account_id],
                None => !self@.account_locs.contains_key(account_id),
            },
    {
        let r = find_entry(&self.account_locs, account_id);
        proof {
            lemma_assoc_map_seqs_contains(self.account_locs@, account_id);
            match r {
                Some(i) => lemma_assoc_map_seqs_index(self.account_locs@, i as int),
                None => {},
            }
        }
        match r {
            Some(i) => Some(&self.account_locs[i].1),
            None => None,
        }
    }

    /// The LOC ids requested through the given identity LOC, when any.
    pub fn identity_loc_locs(&self, loc_id: LocId) -> (r: Option<&Vec<LocId>>)
        requires
            self.wf(),
        ensures
            match r {
                Some(ids) => self@.identity_loc_locs.contains_key(loc_id) && ids@
                    == self@.identity_loc_locs[loc_id],
                None => !self@.identity_loc_locs.contains_key(loc_id),
            },
    {
        let r = find_entry(&self.identity_loc_locs, loc_id);
        proof {
            lemma_assoc_map_seqs_contains(self.identity_loc_locs@, loc_id);
            match r {
                Some(i) => lemma_assoc_map_seqs_index(self.identity_loc_locs@, i as int),
                None => {},
            }
        }
        match r {
            Some(i) => Some(&self.identity_loc_locs[i].1),
            None => None,
        }
    }

    /// Appends a LOC id to the list indexed under the requesting
    /// identity LOC, starting the list when it has none yet.
    fn link_with_identity_loc(&mut self, requester_loc_id: LocId, loc_id: LocId)
        requires
            old(self).wf(),
        ensures
            final(self).wf(),
            final(self)@ == (PalletView {
                identity_loc_locs: index_append(
                    old(self)@.identity_loc_locs,
                    requester_loc_id,
                    loc_id,
                ),
                ..old(self)@
            }),
    {
        let ghost entries0 = self.identity_loc_locs@;
        let r = find_entry(&self.identity_loc_locs, requester_loc_id);
        proof {
            lemma_assoc_map_seqs_contains(entries0, requester_loc_id);
        }
        match r {
            Some(i) => {
                proof {
                    lemma_assoc_map_seqs_index(entries0, i as int);
                }
                let mut entry = self.identity_loc_locs.remove(i);
                entry.1.push(loc_id);
                self.identity_loc_locs.insert(i, entry);
                proof {
                    lemma_remove_insert_is_update(
                        entries0,
                        i as int,
                        self.identity_loc_locs@[i as int],
                    );
                    assert(self.identity_loc_locs@ =~= entries0.update(
                        i as int,
                        (requester_loc_id, self.identity_loc_locs@[i as int].1),
                    ));
                    lemma_assoc_map_seqs_update(
                        entries0,
                        i as int,
                        self.identity_loc_locs@[i as int].1,
                    );
                    assert(self.identity_loc_locs@[i as int].1@ == entries0[
                        i as int].1@.push(loc_id));
                    assert(self@ =~= (PalletView {
                        identity_loc_locs: index_append(
                            old(self)@.identity_loc_locs,
                            requester_loc_id,
                            loc_id,
                        ),
                        ..old(self)@
                    }));
                }
            },
            None => {
                let mut list: Vec<LocId> = Vec::new();
                list.push(loc_id);
                proof {
                    lemma_assoc_map_seqs_push(entries0, requester_loc_id, list);
                }
                self.identity_loc_locs.push((requester_loc_id, list));
                proof {
                    assert(self@.identity_loc_locs == assoc_map_seqs(entries0).insert(
                        requester_loc_id,
                        seq![loc_id],
                    ));
                    assert(self@ =~= (PalletView {
                        identity_loc_locs: index_append(
                            old(self)@.identity_loc_locs,
                            requester_loc_id,
                            loc_id,
                        ),
                        ..old(self)@
                    }));
                }
            },
        }
    }

    /// Creates a logion Identity LOC: a LOC describing a real identity
    /// not yet linked to an account, so it has no requester.
    pub fn create_logion_identity_loc(&mut self, who: AccountId, loc_id: LocId) -> (r: Result<
        (),
        Error,
    >)
        requires
            old(self).wf(),
        ensures
            final(self).wf(),
            r == create_loc_outcome(old(self)@, loc_id),
            r is Err ==> final(self)@ == old(self)@,
            r is Ok ==> ({
                let l = final(self)@.locs[loc_id];
                &&& is_fresh_loc(l, who, Requester::Absent, LocType::Identity)
                &&& final(self)@ == (PalletView {
                    locs: old(self)@.locs.insert(loc_id, l),
                    events: old(self)@.events.push(Event::LocCreated(loc_id)),
                    ..old(self)@
                })
            }),
    {
        if self.contains_loc(loc_id) {
            return Err(Error::AlreadyExists);
        }
        let loc = Self::build_open_loc(who, Requester::Absent, LocType::Identity);
        self.insert_new_loc(loc_id, loc);
        self.events.push(Event::LocCreated(loc_id));
        Ok(())
    }

    /// Creates a Polkadot Transaction LOC: a LOC requested with an
    /// account.
    pub fn create_polkadot_transaction_loc(
        &mut self,
        who: AccountId,
        loc_id: LocId,
        requester_account_id: AccountId,
    ) -> (r: Result<(), Error>)
        requires
            old(self).wf(),
        ensures
            final(self).wf(),
            r == create_loc_outcome(old(self)@, loc_id),
            r is Err ==> final(self)@ == old(self)@,
            r is Ok ==> ({
                let l = final(self)@.locs[loc_id];
                &&& is_fresh_loc(
                    l,
                    who,
                    Requester::Account(requester_account_id),
                    LocType::Transaction,
                )
                &&& final(self)@ == (PalletView {
                    locs: old(self)@.locs.insert(loc_id, l),
                    account_locs: index_append(
                        old(self)@.account_locs,
                        requester_account_id,
                        loc_id,
                    ),
                    events: old(self)@.events.push(Event::LocCreated(loc_id)),
                    ..old(self)@
                })
            }),
    {
        if self.contains_loc(loc_id) {
            return Err(Error::AlreadyExists);
        }
        let loc = Self::build_open_loc(
            who,
            Requester::Account(requester_account_id),
            LocType::Transaction,
        );
        self.insert_new_loc(loc_id, loc);
        self.link_with_account(requester_account_id, loc_id);
        self.events.push(Event::LocCreated(loc_id));
        Ok(())
    }

    /// Whether the record is a valid closed logion identity anchor.
    fn is_anchor(loc: &LegalOfficerCase) -> (r: bool)
        ensures
            r == is_identity_anchor(*loc),
    {
        loc.loc_type == LocType::Identity && (match loc.requester {
            Requester::Absent => true,
            _ => false,
        }) && loc.closed && loc.void_info.is_none()
    }

    /// Creates a logion Transaction LOC: a LOC requested with a logion
    /// Identity LOC. The requester LOC must be a valid closed identity
    /// anchor, else the operation fails with `UnexpectedRequester`.
    pub fn create_logion_transaction_loc(
        &mut self,
        who: AccountId,
        loc_id: LocId,
        requester_loc_id: LocId,
    ) -> (r: Result<(), Error>)
        requires
            old(self).wf(),
        ensures
            final(self).wf(),
            r == create_logion_transaction_loc_outcome(old(self)@, loc_id, requester_loc_id),
            r is Err ==> final(self)@ == old(self)@,
            r is Ok ==> ({
                let l = final(self)@.locs[loc_id];
                &&& is_fresh_loc(l, who, Requester::Loc(requester_loc_id), LocType::Transaction)
                &&& final(self)@ == (PalletView {
                    locs: old(self)@.locs.insert(loc_id, l),
                    identity_loc_locs: index_append(
                        old(self)@.identity_loc_locs,
                        requester_loc_id,
                        loc_id,
                    ),
                    events: old(self)@.events.push(Event::LocCreated(loc_id)),
                    ..old(self)@
                })
            }),
    {
        if self.contains_loc(loc_id) {
            return Err(Error::AlreadyExists);
        }
        let anchor_ok = match self.find_loc(requester_loc_id) {
            None => false,
            Some(i) => Self::is_anchor(&self.locs[i].1),
        };
        if !anchor_ok {
            return Err(Error::UnexpectedRequester);
        }
        let loc = Self::build_open_loc(who, Requester::Loc(requester_loc_id), LocType::Transaction);
        self.insert_new_loc(loc_id, loc);
        self.link_with_identity_loc(requester_loc_id, loc_id);
        self.events.push(Event::LocCreated(loc_id));
        Ok(())
    }

    /// An open Collection LOC carrying its bounds and upload flag.
    fn build_open_collection_loc(
        who: AccountId,
        requester: Requester,
        collection_last_block_submission: Option<BlockNumber>,
        collection_max_size: Option<CollectionSize>,
        collection_can_upload: bool,
    ) -> (r: LegalOfficerCase)
        ensures
            is_fresh_collection_loc(
                r,
                who,
                requester,
                collection_last_block_submission,
                collection_max_size,
                collection_can_upload,
            ),
    {
        LegalOfficerCase {
            owner: who,
            requester,
            metadata: Vec::new(),
            files: Vec::new(),
            closed: false,
            loc_type: LocType::Collection,
            links: Vec::new(),
            void_info: None,
            replacer_of: None,
            collection_last_block_submission,
            collection_max_size,
            collection_can_upload,
            seal: None,
        }
    }

    /// Creates a Collection LOC. It must carry a submission deadline, a
    /// maximum size, or both: a collection with neither bound is
    /// rejected with `CollectionHasNoLimit`.
    pub fn create_collection_loc(
        &mut self,
        who: AccountId,
        loc_id: LocId,
        requester_account_id: AccountId,
        collection_last_block_submission: Option<BlockNumber>,
        collection_max_size: Option<CollectionSize>,
        collection_can_upload: bool,
    ) -> (r: Result<(), Error>)
        requires
            old(self).wf(),
        ensures
            final(self).wf(),
            r == create_collection_loc_outcome(
                old(self)@,
                loc_id,
                collection_last_block_submission,
                collection_max_size,
            ),
            r is Err ==> final(self)@ == old(self)@,
            r is Ok ==> ({
                let l = final(self)@.locs[loc_id];
                &&& is_fresh_collection_loc(
                    l,
                    who,
                    Requester::Account(requester_account_id),
                    collection_last_block_submission,
                    collection_max_size,
                    collection_can_upload,
                )
                &&& final(self)@ == (PalletView {
                    locs: old(self)@.locs.insert(loc_id, l),
                    account_locs: index_append(
                        old(self)@.account_locs,
                        requester_account_id,
                        loc_id,
                    ),
                    events: old(self)@.events.push(Event::LocCreated(loc_id)),
                    ..old(self)@
                })
            }),
    {
        if collection_last_block_submission.is_none() && collection_max_size.is_none() {
            return Err(Error::CollectionHasNoLimit);
        }
        if self.contains_loc(loc_id) {
            return Err(Error::AlreadyExists);
        }
        let loc = Self::build_open_collection_loc(
            who,
            Requester::Account(requester_account_id),
            collection_last_block_submission,
            collection_max_size,
            collection_can_upload,
        );
        self.insert_new_loc(loc_id, loc);
        self.link_with_account(requester_account_id, loc_id);
        self.events.push(Event::LocCreated(loc_id));
        Ok(())
    }

    /// Checks the submitter of a metadata item or file: it must be the
    /// LOC owner or, only when the requester is an account, that
    /// requester.
    fn validate_submitter(submitter: AccountId, loc: &LegalOfficerCase) -> (r: Result<(), Error>)
        ensures
            r is Ok <==> valid_submitter(submitter, *loc),
            r is Err ==> r == Err::<(), Error>(Error::InvalidSubmitter),
    {
        if submitter == loc.owner {
            return Ok(());
        }
        match loc.requester {
            Requester::Account(requester) => if submitter == requester {
                Ok(())
            } else {
                Err(Error::InvalidSubmitter)
            },
            _ => Err(Error::InvalidSubmitter),
        }
    }

    /// Adds a metadata item to an open, non-void LOC of the caller.
    pub fn add_metadata(&mut self, who: AccountId, loc_id: LocId, item: MetadataItem) -> (r:
        Result<(), Error>)
        requires
            old(self).wf(),
        ensures
            final(self).wf(),
            r == add_metadata_outcome(old(self)@, who, loc_id, item),
            r is Err ==> final(self)@ == old(self)@,
            r is Ok ==> ({
                let l = final(self)@.locs[loc_id];
                &&& loc_with_metadata(old(self)@.locs[loc_id], l, item)
                &&& final(self)@ == (PalletView {
                    locs: old(self)@.locs.insert(loc_id, l),
                    ..old(self)@
                })
            }),
    {
        if item.name.len() > self.config.max_metadata_item_name_size {
            return Err(Error::MetadataItemInvalid);
        }
        if item.value.len() > self.config.max_metadata_item_value_size {
            return Err(Error::MetadataItemInvalid);
        }
        let i = match self.find_loc(loc_id) {
            None => {
                return Err(Error::NotFound);
            },
            Some(i) => i,
        };
        if self.locs[i].1.owner != who {
            return Err(Error::Unauthorized);
        }
        if self.locs[i].1.closed {
            return Err(Error::CannotMutate);
        }
        if self.locs[i].1.void_info.is_some() {
            return Err(Error::CannotMutateVoid);
        }
        match Self::validate_submitter(item.submitter, &self.locs[i].1) {
            Err(e) => {
                return Err(e);
            },
            Ok(()) => {},
        }
        let ghost entries0 = self.locs@;
        let mut entry = self.locs.remove(i);
        entry.1.metadata.push(item);
        self.locs.insert(i, entry);
        proof {
            lemma_remove_insert_is_update(entries0, i as int, self.locs@[i as int]);
            assert(self.locs@ =~= entries0.update(i as int, (loc_id, self.locs@[i as int].1)));
            lemma_assoc_map_update(entries0, i as int, self.locs@[i as int].1);
            assert(self@ =~= (PalletView {
                locs: old(self)@.locs.insert(loc_id, self.locs@[i as int].1),
                ..old(self)@
            }));
        }
        Ok(())
    }

    /// Adds a file to an open, non-void LOC of the caller.
    pub fn add_file(&mut self, who: AccountId, loc_id: LocId, file: File) -> (r: Result<
        (),
        Error,
    >)
        requires
            old(self).wf(),
        ensures
            final(self).wf(),
            r == add_file_outcome(old(self)@, who, loc_id, file),
            r is Err ==> final(self)@ == old(self)@,
            r is Ok ==> ({
                let l = final(self)@.locs[loc_id];
                &&& loc_with_file(old(self)@.locs[loc_id], l, file)
                &&& final(self)@ == (PalletView {
                    locs: old(self)@.locs.insert(loc_id, l),
                    ..old(self)@
                })
            }),
    {
        if file.nature.len() > self.config.max_file_nature_size {
            return Err(Error::FileInvalid);
        }
        let i = match self.find_loc(loc_id) {
            None => {
                return Err(Error::NotFound);
            },
            Some(i) => i,
        };
        if self.locs[i].1.owner != who {
            return Err(Error::Unauthorized);
        }
        if self.locs[i].1.closed {
            return Err(Error::CannotMutate);
        }
        if self.locs[i].1.void_info.is_some() {
            return Err(Error::CannotMutateVoid);
        }
        match Self::validate_submitter(file.submitter, &self.locs[i].1) {
            Err(e) => {
                return Err(e);
            },
            Ok(()) => {},
        }
        let ghost entries0 = self.locs@;
        let mut entry = self.locs.remove(i);
        entry.1.files.push(file);
        self.locs.insert(i, entry);
        proof {
            lemma_remove_insert_is_update(entries0, i as int, self.locs@[i as int]);
            assert(self.locs@ =~= entries0.update(i as int, (loc_id, self.locs@[i as int].1)));
            lemma_assoc_map_update(entries0, i as int, self.locs@[i as int].1);
            assert(self@ =~= (PalletView {
                locs: old(self)@.locs.insert(loc_id, self.locs@[i as int].1),
                ..old(self)@
            }));
        }
        Ok(())
    }

    /// Adds a link to another existing LOC to an open, non-void LOC of
    /// the caller.
    pub fn add_link(&mut self, who: AccountId, loc_id: LocId, link: LocLink) -> (r: Result<
        (),
        Error,
    >)
        requires
            old(self).wf(),
        ensures
            final(self).wf(),
            r == add_link_outcome(old(self)@, who, loc_id, link),
            r is Err ==> final(self)@ == old(self)@,
            r is Ok ==> ({
                let l = final(self)@.locs[loc_id];
                &&& loc_with_link(old(self)@.locs[loc_id], l, link)
                &&& final(self)@ == (PalletView {
                    locs: old(self)@.locs.insert(loc_id, l),
                    ..old(self)@
                })
            }),
    {
        if link.nature.len() > self.config.max_link_nature_size {
            return Err(Error::LocLinkInvalid);
        }
        let i = match self.find_loc(loc_id) {
            None => {
                return Err(Error::NotFound);
            },
            Some(i) => i,
        };
        if self.locs[i].1.owner != who {
            return Err(Error::Unauthorized);
        }
        if self.locs[i].1.closed {
            return Err(Error::CannotMutate);
        }
        if self.locs[i].1.void_info.is_some() {
            return Err(Error::CannotMutateVoid);
        }
        if !self.contains_loc(link.id) {
            return Err(Error::LinkedLocNotFound);
        }
        let ghost entries0 = self.locs@;
        let mut entry = self.locs.remove(i);
        entry.1.links.push(link);
        self.locs.insert(i, entry);
        proof {
            lemma_remove_insert_is_update(entries0, i as int, self.locs@[i as int]);
            assert(self.locs@ =~= entries0.update(i as int, (loc_id, self.locs@[i as int].1)));
            lemma_assoc_map_update(entries0, i as int, self.locs@[i as int].1);
            assert(self@ =~= (PalletView {
                locs: old(self)@.locs.insert(loc_id, self.locs@[i as int].1),
                ..old(self)@
            }));
        }
        Ok(())
    }

    /// The shared closing path: the LOC must exist, belong to the
    /// caller, not be void and not be closed already; then it is closed
    /// and the optional seal recorded.
    fn do_close(&mut self, who: AccountId, loc_id: LocId, seal: Option<crate::types::Hash>) -> (r: Result<
        (),
        Error,
    >)
        requires
            old(self).wf(),
        ensures
            final(self).wf(),
            r == close_outcome(old(self)@, who, loc_id),
            r is Err ==> final(self)@ == old(self)@,
            r is Ok ==> final(self)@ == (PalletView {
                locs: old(self)@.locs.insert(loc_id, loc_closed(old(self)@.locs[loc_id], seal)),
                events: old(self)@.events.push(Event::LocClosed(loc_id)),
                ..old(self)@
            }),
    {
        let i = match self.find_loc(loc_id) {
            None => {
                return Err(Error::NotFound);
            },
            Some(i) => i,
        };
        if self.locs[i].1.owner != who {
            return Err(Error::Unauthorized);
        }
        if self.locs[i].1.void_info.is_some() {
            return Err(Error::CannotMutateVoid);
        }
        if self.locs[i].1.closed {
            return Err(Error::AlreadyClosed);
        }
        let ghost entries0 = self.locs@;
        let mut entry = self.locs.remove(i);
        entry.1.closed = true;
        entry.1.seal = seal;
        self.locs.insert(i, entry);
        self.events.push(Event::LocClosed(loc_id));
        proof {
            lemma_remove_insert_is_update(entries0, i as int, self.locs@[i as int]);
            assert(self.locs@ =~= entries0.update(i as int, (loc_id, self.locs@[i as int].1)));
            lemma_assoc_map_update(entries0, i as int, self.locs@[i as int].1);
            assert(self@ =~= (PalletView {
                locs: old(self)@.locs.insert(loc_id, loc_closed(old(self)@.locs[loc_id], seal)),
                events: old(self)@.events.push(Event::LocClosed(loc_id)),
                ..old(self)@
            }));
        }
        Ok(())
    }

    /// Closes a LOC without a seal.
    pub fn close(&mut self, who: AccountId, loc_id: LocId) -> (r: Result<(), Error>)
        requires
            old(self).wf(),
        ensures
            final(self).wf(),
            r == close_outcome(old(self)@, who, loc_id),
            r is Err ==> final(self)@ == old(self)@,
            r is Ok ==> final(self)@ == (PalletView {
                locs: old(self)@.locs.insert(loc_id, loc_closed(old(self)@.locs[loc_id], None)),
                events: old(self)@.events.push(Event::LocClosed(loc_id)),
                ..old(self)@
            }),
    {
        self.do_close(who, loc_id, None)
    }

    /// Closes a LOC and records the given seal. The seal is never
    /// overwritten later, because closing again is rejected.
    pub fn close_and_seal(&mut self, who: AccountId, loc_id: LocId, seal: crate::types::Hash) -> (r: Result<
        (),
        Error,
    >)
        requires
            old(self).wf(),
        ensures
            final(self).wf(),
            r == close_outcome(old(self)@, who, loc_id),
            r is Err ==> final(self)@ == old(self)@,
            r is Ok ==> final(self)@ == (PalletView {
                locs: old(self)@.locs.insert(
                    loc_id,
                    loc_closed(old(self)@.locs[loc_id], Some(seal)),
                ),
                events: old(self)@.events.push(Event::LocClosed(loc_id)),
                ..old(self)@
            }),
    {
        self.do_close(who, loc_id, Some(seal))
    }

    /// The shared voiding path. The target must exist, belong to the
    /// caller and not be void; a replacer must exist, be non-void, not
    /// already replace another LOC and share the target's type. Both
    /// sides of the relation are recorded before the call returns, so
    /// no caller can observe one side without the other.
    fn do_make_void(
        &mut self,
        who: AccountId,
        loc_id: LocId,
        replacer_loc_id: Option<LocId>,
    ) -> (r: Result<(), Error>)
        requires
            old(self).wf(),
        ensures
            final(self).wf(),
            r == make_void_outcome(old(self)@, who, loc_id, replacer_loc_id),
            r is Err ==> final(self)@ == old(self)@,
            r is Ok ==> ({
                let mid = old(self)@.locs.insert(
                    loc_id,
                    loc_voided(old(self)@.locs[loc_id], replacer_loc_id),
                );
                final(self)@ == (PalletView {
                    locs: match replacer_loc_id {
                        None => mid,
                        Some(replacer) => mid.insert(replacer, loc_replacing(mid[replacer], loc_id)),
                    },
                    events: old(self)@.events.push(Event::LocVoid(loc_id)),
                    ..old(self)@
                })
            }),
    {
        let i = match self.find_loc(loc_id) {
            None => {
                return Err(Error::NotFound);
            },
            Some(i) => i,
        };
        if self.locs[i].1.owner != who {
            return Err(Error::Unauthorized);
        }
        if self.locs[i].1.void_info.is_some() {
            return Err(Error::AlreadyVoid);
        }
        let replacer_index: Option<usize> = match replacer_loc_id {
            None => None,
            Some(replacer) => {
                let j = match self.find_loc(replacer) {
                    None => {
                        return Err(Error::ReplacerLocNotFound);
                    },
                    Some(j) => j,
                };
                if self.locs[j].1.void_info.is_some() {
                    return Err(Error::ReplacerLocAlreadyVoid);
                }
                if self.locs[j].1.replacer_of.is_some() {
                    return Err(Error::ReplacerLocAlreadyReplacing);
                }
                if self.locs[j].1.loc_type != self.locs[i].1.loc_type {
                    return Err(Error::ReplacerLocWrongType);
                }
                Some(j)
            },
        };
        let ghost entries0 = self.locs@;
        let mut entry = self.locs.remove(i);
        entry.1.void_info = Some(LocVoidInfo { replacer: replacer_loc_id });
        self.locs.insert(i, entry);
        proof {
            lemma_remove_insert_is_update(entries0, i as int, self.locs@[i as int]);
            assert(self.locs@ =~= entries0.update(i as int, (loc_id, self.locs@[i as int].1)));
            lemma_assoc_map_update(entries0, i as int, self.locs@[i as int].1);
        }
        let ghost entries1 = self.locs@;
        match replacer_index {
            None => {},
            Some(j) => {
                proof {
                    assert(entries1[j as int].0 == entries0[j as int].0);
                    lemma_assoc_map_index(entries1, j as int);
                }
                let mut entry2 = self.locs.remove(j);
                entry2.1.replacer_of = Some(loc_id);
                self.locs.insert(j, entry2);
                proof {
                    lemma_remove_insert_is_update(entries1, j as int, self.locs@[j as int]);
                    assert(self.locs@ =~= entries1.update(
                        j as int,
                        (entries1[j as int].0, self.locs@[j as int].1),
                    ));
                    lemma_assoc_map_update(entries1, j as int, self.locs@[j as int].1);
                }
            },
        }
        self.events.push(Event::LocVoid(loc_id));
        proof {
            let mid = old(self)@.locs.insert(
                loc_id,
                loc_voided(old(self)@.locs[loc_id], replacer_loc_id),
            );
            match replacer_loc_id {
                None => {
                    assert(self@ =~= (PalletView {
                        locs: mid,
                        events: old(self)@.events.push(Event::LocVoid(loc_id)),
                        ..old(self)@
                    }));
                },
                Some(replacer) => {
                    assert(self@ =~= (PalletView {
                        locs: mid.insert(replacer, loc_replacing(mid[replacer], loc_id)),
                        events: old(self)@.events.push(Event::LocVoid(loc_id)),
                        ..old(self)@
                    }));
                },
            }
        }
        Ok(())
    }

    /// Makes a LOC void without designating a replacer.
    pub fn make_void(&mut self, who: AccountId, loc_id: LocId) -> (r: Result<(), Error>)
        requires
            old(self).wf(),
        ensures
            final(self).wf(),
            r == make_void_outcome(old(self)@, who, loc_id, None),
            r is Err ==> final(self)@ == old(self)@,
            r is Ok ==> final(self)@ == (PalletView {
                locs: old(self)@.locs.insert(
                    loc_id,
                    loc_voided(old(self)@.locs[loc_id], None),
                ),
                events: old(self)@.events.push(Event::LocVoid(loc_id)),
                ..old(self)@
            }),
    {
        self.do_make_void(who, loc_id, None)
    }

    /// Makes a LOC void and designates a replacer of the same type.
    /// Both the void marker on the target and the back-reference on the
    /// replacer are recorded atomically with respect to any caller.
    pub fn make_void_and_replace(
        &mut self,
        who: AccountId,
        loc_id: LocId,
        replacer_loc_id: LocId,
    ) -> (r: Result<(), Error>)
        requires
            old(self).wf(),
        ensures
            final(self).wf(),
            r == make_void_outcome(old(self)@, who, loc_id, Some(replacer_loc_id)),
            r is Err ==> final(self)@ == old(self)@,
            r is Ok ==> ({
                let mid = old(self)@.locs.insert(
                    loc_id,
                    loc_voided(old(self)@.locs[loc_id], Some(replacer_loc_id)),
                );
                final(self)@ == (PalletView {
                    locs: mid.insert(replacer_loc_id, loc_replacing(mid[replacer_loc_id], loc_id)),
                    events: old(self)@.events.push(Event::LocVoid(loc_id)),
                    ..old(self)@
                })
            }),
    {
        self.do_make_void(who, loc_id, Some(replacer_loc_id))
    }

    /// The recorded collection item under the given collection LOC and
    /// item identifier, when there is one.
    pub fn collection_items(&self, collection_loc_id: LocId, item_id: CollectionItemId) -> (r:
        Option<&CollectionItem>)
        requires
            self.wf(),
        ensures
            match r {
                Some(item) => self@.collection_items.contains_key((collection_loc_id, item_id))
                    && *item == self@.collection_items[(collection_loc_id, item_id)],
                None => !self@.collection_items.contains_key((collection_loc_id, item_id)),
            },
    {
        let r = find_item_entry(&self.collection_items, collection_loc_id, item_id);
        proof {
            lemma_assoc_map_contains(self.collection_items@, (collection_loc_id, item_id));
            match r {
                Some(i) => lemma_assoc_map_index(self.collection_items@, i as int),
                None => {},
            }
        }
        match r {
            Some(i) => Some(&self.collection_items[i].1),
            None => None,
        }
    }

    /// The stored item counter of a collection, when one was recorded.
    pub fn collection_size(&self, collection_loc_id: LocId) -> (r: Option<CollectionSize>)
        requires
            self.wf(),
        ensures
            match r {
                Some(size) => self@.collection_sizes.contains_key(collection_loc_id) && size
                    == self@.collection_sizes[collection_loc_id],
                None => !self@.collection_sizes.contains_key(collection_loc_id),
            },
    {
        let r = find_entry(&self.collection_sizes, collection_loc_id);
        proof {
            lemma_assoc_map_contains(self.collection_sizes@, collection_loc_id);
            match r {
                Some(i) => lemma_assoc_map_index(self.collection_sizes@, i as int),
                None => {},
            }
        }
        match r {
            Some(i) => Some(self.collection_sizes[i].1),
            None => None,
        }
    }

    /// The stored item counter of a collection, zero when absent.
    fn collection_size_or_zero(&self, collection_loc_id: LocId) -> (r: CollectionSize)
        requires
            self.wf(),
        ensures
            r == collection_size_of(self@, collection_loc_id),
    {
        match self.collection_size(collection_loc_id) {
            Some(size) => size,
            None => 0,
        }
    }

    /// Whether the collection's limits are reached: the stored counter
    /// meets the configured maximum size, or the block height meets the
    /// submission deadline.
    fn limits_reached(&self, collection_loc_id: LocId, collection_loc: &LegalOfficerCase) -> (r:
        bool)
        requires
            self.wf(),
        ensures
            r == collection_limits_reached(self@, collection_loc_id, *collection_loc),
    {
        let collection_size = self.collection_size_or_zero(collection_loc_id);
        let size_reached = match collection_loc.collection_max_size {
            None => false,
            Some(limit) => collection_size >= limit,
        };
        let block_reached = match collection_loc.collection_last_block_submission {
            None => false,
            Some(last_block) => self.current_block >= last_block,
        };
        size_reached || block_reached
    }

    /// Whether the caller may add items to this collection: it is a
    /// Collection LOC, closed, not void, and the caller is its account
    /// requester.
    fn can_accept_item(who: AccountId, collection_loc: &LegalOfficerCase) -> (r: bool)
        ensures
            r == can_add_item(who, *collection_loc),
    {
        collection_loc.loc_type == LocType::Collection && (match collection_loc.requester {
            Requester::Account(requester) => requester == who,
            _ => false,
        }) && collection_loc.closed && collection_loc.void_info.is_none()
    }

    /// Whether the content hashes of the given item files are pairwise
    /// distinct.
    fn has_unique_hashes(files: &Vec<CollectionItemFile>) -> (r: bool)
        ensures
            r == unique_hashes(files@),
    {
        let mut i: usize = 0;
        while i < files.len()
            invariant
                i <= files@.len(),
                forall|p: int, q: int| 0 <= p < q < i ==> files@[p].hash != files@[q].hash,
            decreases files@.len() - i,
        {
            let mut j: usize = 0;
            while j < i
                invariant
                    j <= i < files@.len(),
                    forall|p: int| 0 <= p < j ==> files@[p].hash != files@[i as int].hash,
                decreases i - j,
            {
                if files[j].hash == files[i].hash {
                    return false;
                }
                j = j + 1;
            }
            i = i + 1;
        }
        true
    }

    /// Records a collection item under a fresh (collection, item) key.
    fn insert_new_item(
        &mut self,
        collection_loc_id: LocId,
        item_id: CollectionItemId,
        item: CollectionItem,
    )
        requires
            old(self).wf(),
            !old(self)@.collection_items.contains_key((collection_loc_id, item_id)),
        ensures
            final(self).wf(),
            final(self)@ == (PalletView {
                collection_items: old(self)@.collection_items.insert(
                    (collection_loc_id, item_id),
                    item,
                ),
                ..old(self)@
            }),
    {
        proof {
            lemma_assoc_map_contains(self.collection_items@, (collection_loc_id, item_id));
            lemma_assoc_map_push(self.collection_items@, (collection_loc_id, item_id), item);
        }
        self.collection_items.push(((collection_loc_id, item_id), item));
        proof {
            assert(self@ =~= (PalletView {
                collection_items: old(self)@.collection_items.insert(
                    (collection_loc_id, item_id),
                    item,
                ),
                ..old(self)@
            }));
        }
    }

    /// Increments the stored item counter of a collection, starting it
    /// at one when absent.
    fn bump_collection_size(&mut self, collection_loc_id: LocId)
        requires
            old(self).wf(),
            collection_size_of(old(self)@, collection_loc_id) < CollectionSize::MAX,
        ensures
            final(self).wf(),
            final(self)@ == (PalletView {
                collection_sizes: old(self)@.collection_sizes.insert(
                    collection_loc_id,
                    (collection_size_of(old(self)@, collection_loc_id) + 1) as CollectionSize,
                ),
                ..old(self)@
            }),
    {
        let ghost entries0 = self.collection_sizes@;
        let r = find_entry(&self.collection_sizes, collection_loc_id);
        proof {
            lemma_assoc_map_contains(entries0, collection_loc_id);
        }
        match r {
            Some(i) => {
                proof {
                    lemma_assoc_map_index(entries0, i as int);
                }
                let current = self.collection_sizes[i].1;
                let mut entry = self.collection_sizes.remove(i);
                entry.1 = current + 1;
                self.collection_sizes.insert(i, entry);
                proof {
                    lemma_remove_insert_is_update(entries0, i as int, self.collection_sizes@[
                        i as int]);
                    assert(self.collection_sizes@ =~= entries0.update(
                        i as int,
                        (collection_loc_id, self.collection_sizes@[i as int].1),
                    ));
                    lemma_assoc_map_update(entries0, i as int, self.collection_sizes@[i as int].1);
                    assert(self@ =~= (PalletView {
                        collection_sizes: old(self)@.collection_sizes.insert(
                            collection_loc_id,
                            (collection_size_of(old(self)@, collection_loc_id)
                                + 1) as CollectionSize,
                        ),
                        ..old(self)@
                    }));
                }
            },
            None => {
                proof {
                    lemma_assoc_map_push(entries0, collection_loc_id, 1 as CollectionSize);
                }
                self.collection_sizes.push((collection_loc_id, 1));
                proof {
                    assert(self@ =~= (PalletView {
                        collection_sizes: old(self)@.collection_sizes.insert(
                            collection_loc_id,
                            (collection_size_of(old(self)@, collection_loc_id)
                                + 1) as CollectionSize,
                        ),
                        ..old(self)@
                    }));
                }
            },
        }
    }

    /// The shared admission path of the collection engine: the ordered
    /// validation pipeline of the spec-level outcome, then one atomic
    /// insertion of the immutable item, the counter increment and the
    /// notification.
    fn do_add_collection_item(
        &mut self,
        who: AccountId,
        collection_loc_id: LocId,
        item_id: CollectionItemId,
        item_description: Vec<u8>,
        item_files: Vec<CollectionItemFile>,
        item_token: Option<CollectionItemToken>,
        restricted_delivery: bool,
        terms_and_conditions: Vec<TermsAndConditionsElement>,
    ) -> (r: Result<(), Error>)
        requires
            old(self).wf(),
            collection_size_of(old(self)@, collection_loc_id) < CollectionSize::MAX,
        ensures
            final(self).wf(),
            r == add_collection_item_outcome(
                old(self)@,
                who,
                collection_loc_id,
                item_id,
                item_description@,
                item_files@,
                item_token,
                restricted_delivery,
                terms_and_conditions@,
            ),
            r is Err ==> final(self)@ == old(self)@,
            r is Ok ==> final(self)@ == (PalletView {
                collection_items: old(self)@.collection_items.insert(
                    (collection_loc_id, item_id),
                    (CollectionItem {
                        description: item_description,
                        files: item_files,
                        token: item_token,
                        restricted_delivery,
                        terms_and_conditions,
                    }),
                ),
                collection_sizes: old(self)@.collection_sizes.insert(
                    collection_loc_id,
                    (collection_size_of(old(self)@, collection_loc_id) + 1) as CollectionSize,
                ),
                events: old(self)@.events.push(Event::ItemAdded(collection_loc_id, item_id)),
                ..old(self)@
            }),
    {
        if item_description.len() > self.config.max_collection_item_description_size {
            return Err(Error::CollectionItemTooMuchData);
        }
        match &item_token {
            Some(token) => if token.token_type.len()
                > self.config.max_collection_item_token_type_size {
                return Err(Error::CollectionItemTooMuchData);
            },
            None => {},
        }
        match &item_token {
            Some(token) => if token.token_id.len()
                > self.config.max_collection_item_token_id_size {
                return Err(Error::CollectionItemTooMuchData);
            },
            None => {},
        }
        if restricted_delivery && item_token.is_none() {
            return Err(Error::MissingToken);
        }
        if restricted_delivery && item_files.len() == 0 {
            return Err(Error::MissingFiles);
        }
        let i = match self.find_loc(collection_loc_id) {
            None => {
                return Err(Error::WrongCollectionLoc);
            },
            Some(i) => i,
        };
        if self.collection_items_contain(collection_loc_id, item_id) {
            return Err(Error::CollectionItemAlreadyExists);
        }
        if !Self::can_accept_item(who, &self.locs[i].1) {
            return Err(Error::WrongCollectionLoc);
        }
        if self.limits_reached(collection_loc_id, &self.locs[i].1) {
            return Err(Error::CollectionLimitsReached);
        }
        if !self.locs[i].1.collection_can_upload && item_files.len() > 0 {
            return Err(Error::CannotUpload);
        }
        if self.locs[i].1.collection_can_upload {
            if item_files.len() == 0 {
                return Err(Error::MustUpload);
            }
            if !Self::has_unique_hashes(&item_files) {
                return Err(Error::DuplicateFile);
            }
        }
        match self.check_terms_and_conditions(&terms_and_conditions) {
            Err(e) => {
                return Err(e);
            },
            Ok(()) => {},
        }
        let item = CollectionItem {
            description: item_description,
            files: item_files,
            token: item_token,
            restricted_delivery,
            terms_and_conditions,
        };
        self.insert_new_item(collection_loc_id, item_id, item);
        self.bump_collection_size(collection_loc_id);
        self.events.push(Event::ItemAdded(collection_loc_id, item_id));
        proof {
            assert(self@ =~= (PalletView {
                collection_items: old(self)@.collection_items.insert(
                    (collection_loc_id, item_id),
                    (CollectionItem {
                        description: item_description,
                        files: item_files,
                        token: item_token,
                        restricted_delivery,
                        terms_and_conditions,
                    }),
                ),
                collection_sizes: old(self)@.collection_sizes.insert(
                    collection_loc_id,
                    (collection_size_of(old(self)@, collection_loc_id) + 1) as CollectionSize,
                ),
                events: old(self)@.events.push(Event::ItemAdded(collection_loc_id, item_id)),
                ..old(self)@
            }));
        }
        Ok(())
    }

    /// Whether an item with this key is already recorded.
    fn collection_items_contain(&self, collection_loc_id: LocId, item_id: CollectionItemId) -> (r:
        bool)
        requires
            self.wf(),
        ensures
            r == self@.collection_items.contains_key((collection_loc_id, item_id)),
    {
        let r = find_item_entry(&self.collection_items, collection_loc_id, item_id);
        proof {
            lemma_assoc_map_contains(self.collection_items@, (collection_loc_id, item_id));
        }
        r.is_some()
    }

    /// Checks every terms-and-conditions reference in order: its LOC
    /// must exist, not be void and be closed; the first failing
    /// reference decides.
    fn check_terms_and_conditions(&self, terms_and_conditions: &Vec<TermsAndConditionsElement>)
        -> (r: Result<(), Error>)
        requires
            self.wf(),
        ensures
            match first_tc_outcome(self@.locs, terms_and_conditions@) {
                Some(e) => r == Err::<(), Error>(e),
                None => r is Ok,
            },
    {
        let ghost tcs = terms_and_conditions@;
        proof {
            assert(tcs.skip(0) =~= tcs);
        }
        let mut t: usize = 0;
        while t < terms_and_conditions.len()
            invariant
                self.wf(),
                t <= tcs.len(),
                tcs == terms_and_conditions@,
                first_tc_outcome(self@.locs, tcs) == first_tc_outcome(
                    self@.locs,
                    tcs.skip(t as int),
                ),
                forall|m: int| 0 <= m < t ==> tc_element_outcome(self@.locs, tcs[m]) is None,
            decreases tcs.len() - t,
        {
            proof {
                assert(tcs.skip(t as int)[0] == tcs[t as int]);
            }
            let tc_loc = terms_and_conditions[t].tc_loc;
            match self.find_loc(tc_loc) {
                None => {
                    return Err(Error::TermsAndConditionsLocNotFound);
                },
                Some(i) => {
                    if self.locs[i].1.void_info.is_some() {
                        return Err(Error::TermsAndConditionsLocVoid);
                    }
                    if !self.locs[i].1.closed {
                        return Err(Error::TermsAndConditionsLocNotClosed);
                    }
                },
            }
            proof {
                assert(tcs.skip(t as int).drop_first() =~= tcs.skip(t as int + 1));
            }
            t = t + 1;
        }
        proof {
            assert(tcs.skip(tcs.len() as int) =~= Seq::<TermsAndConditionsElement>::empty());
        }
        Ok(())
    }

    /// Adds an item to a collection.
    pub fn add_collection_item(
        &mut self,
        who: AccountId,
        collection_loc_id: LocId,
        item_id: CollectionItemId,
        item_description: Vec<u8>,
        item_files: Vec<CollectionItemFile>,
        item_token: Option<CollectionItemToken>,
        restricted_delivery: bool,
    ) -> (r: Result<(), Error>)
        requires
            old(self).wf(),
            collection_size_of(old(self)@, collection_loc_id) < CollectionSize::MAX,
        ensures
            final(self).wf(),
            r == add_collection_item_outcome(
                old(self)@,
                who,
                collection_loc_id,
                item_id,
                item_description@,
                item_files@,
                item_token,
                restricted_delivery,
                Seq::<TermsAndConditionsElement>::empty(),
            ),
            r is Err ==> final(self)@ == old(self)@,
            r is Ok ==> ({
                let stored = final(self)@.collection_items[(collection_loc_id, item_id)];
                &&& stored.description@ == item_description@
                &&& stored.files@ == item_files@
                &&& stored.token == item_token
                &&& stored.restricted_delivery == restricted_delivery
                &&& stored.terms_and_conditions@
                    == Seq::<TermsAndConditionsElement>::empty()
                &&& final(self)@ == (PalletView {
                    collection_items: old(self)@.collection_items.insert(
                        (collection_loc_id, item_id),
                        stored,
                    ),
                    collection_sizes: old(self)@.collection_sizes.insert(
                        collection_loc_id,
                        (collection_size_of(old(self)@, collection_loc_id) + 1) as CollectionSize,
                    ),
                    events: old(self)@.events.push(
                        Event::ItemAdded(collection_loc_id, item_id),
                    ),
                    ..old(self)@
                })
            }),
    {
        self.do_add_collection_item(
            who,
            collection_loc_id,
            item_id,
            item_description,
            item_files,
            item_token,
            restricted_delivery,
            Vec::new(),
        )
    }

    /// Adds an item with terms and conditions to a collection.
    pub fn add_collection_item_with_terms_and_conditions(
        &mut self,
        who: AccountId,
        collection_loc_id: LocId,
        item_id: CollectionItemId,
        item_description: Vec<u8>,
        item_files: Vec<CollectionItemFile>,
        item_token: Option<CollectionItemToken>,
        restricted_delivery: bool,
        terms_and_conditions: Vec<TermsAndConditionsElement>,
    ) -> (r: Result<(), Error>)
        requires
            old(self).wf(),
            collection_size_of(old(self)@, collection_loc_id) < CollectionSize::MAX,
        ensures
            final(self).wf(),
            r == add_collection_item_outcome(
                old(self)@,
                who,
                collection_loc_id,
                item_id,
                item_description@,
                item_files@,
                item_token,
                restricted_delivery,
                terms_and_conditions@,
            ),
            r is Err ==> final(self)@ == old(self)@,
            r is Ok ==> final(self)@ == (PalletView {
                collection_items: old(self)@.collection_items.insert(
                    (collection_loc_id, item_id),
                    (CollectionItem {
                        description: item_description,
                        files: item_files,
                        token: item_token,
                        restricted_delivery,
                        terms_and_conditions,
                    }),
                ),
                collection_sizes: old(self)@.collection_sizes.insert(
                    collection_loc_id,
                    (collection_size_of(old(self)@, collection_loc_id) + 1) as CollectionSize,
                ),
                events: old(self)@.events.push(Event::ItemAdded(collection_loc_id, item_id)),
                ..old(self)@
            }),
    {
        self.do_add_collection_item(
            who,
            collection_loc_id,
            item_id,
            item_description,
            item_files,
            item_token,
            restricted_delivery,
            terms_and_conditions,
        )
    }

    /// Whether the account holds at least one closed Identity LOC
    /// issued by the given authority. Void status is deliberately not
    /// checked: this preserves the existing behavior of the query.
    fn has_closed_identity_loc(&self, account: AccountId, legal_officer: AccountId) -> (r: bool)
        requires
            self.wf(),
        ensures
            r == has_closed_identity_loc_with(self@, account, legal_officer),
    {
        let ids = match self.account_locs(account) {
            None => {
                return false;
            },
            Some(ids) => ids,
        };
        let mut k: usize = 0;
        while k < ids.len()
            invariant
                self.wf(),
                k <= ids@.len(),
                self@.account_locs.contains_key(account),
                ids@ == self@.account_locs[account],
                forall|m: int|
                    0 <= m < k ==> !is_closed_identity_owned_by(
                        self@.locs,
                        ids@[m],
                        legal_officer,
                    ),
            decreases ids@.len() - k,
        {
            match self.find_loc(ids[k]) {
                Some(i) => {
                    let l = &self.locs[i].1;
                    if l.owner == legal_officer && l.loc_type == LocType::Identity && l.closed {
                        return true;
                    }
                },
                None => {},
            }
            k = k + 1;
        }
        false
    }

    /// Whether the account holds, for each of the two given
    /// authorities independently, at least one closed Identity LOC
    /// owned by that authority.
    pub fn has_closed_identity_locs(
        &self,
        account: AccountId,
        legal_officers: &Vec<AccountId>,
    ) -> (r: bool)
        requires
            self.wf(),
            legal_officers@.len() >= 2,
        ensures
            r == (has_closed_identity_loc_with(self@, account, legal_officers@[0])
                && has_closed_identity_loc_with(self@, account, legal_officers@[1])),
    {
        self.has_closed_identity_loc(account, legal_officers[0])
            && self.has_closed_identity_loc(account, legal_officers[1])
    }

    /// The block height the registry currently sees.
    pub fn block_number(&self) -> (r: BlockNumber)
        ensures
            r == self@.current_block,
    {
        self.current_block
    }

    /// The events raised so far, oldest first.
    pub fn events(&self) -> (r: &Vec<Event>)
        ensures
            r@ == self@.events,
    {
        &self.events
    }
}

} // verus!
