//! Attachments, metadata and tags of proposals.

use vstd::prelude::*;

use crate::constants::{
    MAX_ATTACHMENTS, MAX_ATTACHMENT_LEN, MAX_METADATA_ENTRIES, MAX_METADATA_VALUE_LEN, MAX_TAGS,
    MIN_ATTACHMENT_LEN,
};
use crate::env::{Action, Env, EnvModel};
use crate::errors::VaultError;
use crate::lifecycle::may_edit;
use crate::primitives::{list_contains, list_position, Address, Symbol, Text, Texts};
use crate::proposals::Outcome;
use crate::storage;
use crate::table::Table;
use crate::types::ProposalModel;
use crate::VaultDAO;

verus! {

impl EnvModel {
    /// The proposal that an address may change, or the reason for refusal.
    pub open spec fn editable(self, caller: Address, proposal_id: u64) -> Result<
        ProposalModel,
        VaultError,
    > {
        match self.proposal(proposal_id) {
            Err(error) => Err(error),
            Ok(proposal) => if self.may_edit(caller, proposal) {
                Ok(proposal)
            } else {
                Err(VaultError::Unauthorized)
            },
        }
    }

    /// The state after the attachments of a proposal were replaced.
    pub open spec fn keep_attachments(self, proposal_id: u64, attachments: Seq<Seq<u8>>) -> 
        EnvModel {
        self.with_attachments(proposal_id, attachments).act(Action::ExtendInstanceTtl)
    }

    /// The state after a proposal was changed.
    pub open spec fn keep_proposal(self, proposal: ProposalModel) -> EnvModel {
        self.with_proposal(proposal).act(Action::ExtendInstanceTtl)
    }

    /// What attaching to a proposal leaves behind.
    pub open spec fn attach(self, caller: Address, proposal_id: u64, attachment: Seq<u8>) -> Outcome<
        (),
    > {
        let attachments = self.attachments(proposal_id);
        match self.editable(caller, proposal_id) {
            Err(error) => (self, Err(error)),
            Ok(_) => if !(MIN_ATTACHMENT_LEN <= attachment.len() <= MAX_ATTACHMENT_LEN) {
                (self, Err(VaultError::AttachmentHashInvalid))
            } else if attachments.len() >= MAX_ATTACHMENTS {
                (self, Err(VaultError::TooManyAttachments))
            } else if attachments.contains(attachment) {
                (self, Err(VaultError::AttachmentHashInvalid))
            } else {
                (self.keep_attachments(proposal_id, attachments.push(attachment)), Ok(()))
            },
        }
    }

    /// What detaching from a proposal leaves behind.
    pub open spec fn detach(self, caller: Address, proposal_id: u64, index: u32) -> Outcome<()> {
        let attachments = self.attachments(proposal_id);
        match self.editable(caller, proposal_id) {
            Err(error) => (self, Err(error)),
            Ok(_) => if index >= attachments.len() {
                (self, Err(VaultError::ProposalNotFound))
            } else {
                (self.keep_attachments(proposal_id, attachments.remove(index as int)), Ok(()))
            },
        }
    }

    /// What setting a metadata entry of a proposal leaves behind.
    pub open spec fn set_metadata(
        self,
        caller: Address,
        proposal_id: u64,
        key: Symbol,
        value: Seq<u8>,
    ) -> Outcome<()> {
        match self.editable(caller, proposal_id) {
            Err(error) => (self, Err(error)),
            Ok(proposal) => if value.len() == 0 || value.len() > MAX_METADATA_VALUE_LEN {
                (self, Err(VaultError::MetadataValueInvalid))
            } else if !proposal.metadata.contains_key(key) && proposal.metadata.dom().len()
                >= MAX_METADATA_ENTRIES {
                (self, Err(VaultError::ExceedsProposalLimit))
            } else {
                (
                    self.keep_proposal(
                        ProposalModel {
                            metadata: proposal.metadata.insert(key, value),
                            ..proposal
                        },
                    ),
                    Ok(()),
                )
            },
        }
    }

    /// What removing a metadata entry of a proposal leaves behind.
    pub open spec fn remove_metadata(self, caller: Address, proposal_id: u64, key: Symbol) -> Outcome<
        (),
    > {
        match self.editable(caller, proposal_id) {
            Err(error) => (self, Err(error)),
            Ok(proposal) => (
                self.keep_proposal(
                    ProposalModel { metadata: proposal.metadata.remove(key), ..proposal },
                ),
                Ok(()),
            ),
        }
    }

    /// What tagging a proposal leaves behind. A tag that it has is not added again.
    pub open spec fn tag(self, caller: Address, proposal_id: u64, tag: Symbol) -> Outcome<()> {
        match self.editable(caller, proposal_id) {
            Err(error) => (self, Err(error)),
            Ok(proposal) => if tag.spec_is_empty() {
                (self, Err(VaultError::MetadataValueInvalid))
            } else if proposal.tags.contains(tag) {
                (self, Ok(()))
            } else if proposal.tags.len() >= MAX_TAGS {
                (self, Err(VaultError::TooManyTags))
            } else {
                (
                    self.keep_proposal(
                        ProposalModel { tags: proposal.tags.push(tag), ..proposal },
                    ),
                    Ok(()),
                )
            },
        }
    }

    /// What removing a tag from a proposal leaves behind.
    pub open spec fn untag(self, caller: Address, proposal_id: u64, tag: Symbol) -> Outcome<()> {
        match self.editable(caller, proposal_id) {
            Err(error) => (self, Err(error)),
            Ok(proposal) => match crate::primitives::first_index(proposal.tags, tag) {
                None => (self, Err(VaultError::ProposalNotFound)),
                Some(i) => (
                    self.keep_proposal(
                        ProposalModel { tags: proposal.tags.remove(i), ..proposal },
                    ),
                    Ok(()),
                ),
            },
        }
    }

    /// Whether a proposal has a tag.
    pub open spec fn has_tag(self, id: u64, tag: Symbol) -> bool {
        match self.proposal(id) {
            Ok(proposal) => proposal.tags.contains(tag),
            Err(_) => false,
        }
    }
}

/// Tags, attachments and metadata stay within their bounds, whatever is added.
pub proof fn law_annotations_stay_bounded(
    env: EnvModel,
    caller: Address,
    id: u64,
    tag: Symbol,
    attachment: Seq<u8>,
)
    requires
        env.proposal(id) matches Ok(p) && p.id == id && p.tags.len() <= MAX_TAGS
            && p.attachments.len() <= MAX_ATTACHMENTS && p.tags.no_duplicates(),
    ensures
        env.tag(caller, id, tag).0.proposal(id) matches Ok(p) && p.tags.len() <= MAX_TAGS
            && p.tags.no_duplicates(),
        env.attach(caller, id, attachment).0.proposal(id) matches Ok(p) && p.attachments.len()
            <= MAX_ATTACHMENTS,
{
    let p = env.proposal(id)->Ok_0;
    assert(!p.tags.contains(tag) ==> p.tags.push(tag).no_duplicates());
}

/// Loads a proposal that an address may change.
fn load_editable(env: &Env, caller: &Address, proposal_id: u64) -> (r: Result<
    crate::types::Proposal,
    VaultError,
>)
    ensures
        crate::errors::res_view(r) == env@.editable(*caller, proposal_id),
{
    let proposal = storage::get_proposal(env, proposal_id)?;
    if !may_edit(env, caller, &proposal) {
        return Err(VaultError::Unauthorized);
    }
    Ok(proposal)
}

impl VaultDAO {
    /// Attaches a content identifier to a proposal. Admins and its proposer may.
    pub fn add_attachment(env: &mut Env, caller: Address, proposal_id: u64, attachment: Text) -> (r:
        Result<(), VaultError>)
        requires
            old(env)@.authorized(caller),
        ensures
            (final(env)@, r) == old(env)@.attach(caller, proposal_id, attachment@),
    {
        let _ = load_editable(env, &caller, proposal_id)?;
        let len: usize = attachment.len();
        if len < MIN_ATTACHMENT_LEN as usize || len > MAX_ATTACHMENT_LEN as usize {
            return Err(VaultError::AttachmentHashInvalid);
        }
        let mut attachments = storage::get_attachments(env, proposal_id);
        if attachments.len() >= MAX_ATTACHMENTS as usize {
            return Err(VaultError::TooManyAttachments);
        }
        if attachments.contains(&attachment) {
            return Err(VaultError::AttachmentHashInvalid);
        }
        attachments.push(attachment);
        storage::set_attachments(env, proposal_id, &attachments);
        storage::extend_instance_ttl(env);
        Ok(())
    }

    /// Removes the attachment at a position. Admins and the proposer may.
    pub fn remove_attachment(env: &mut Env, caller: Address, proposal_id: u64, index: u32) -> (r:
        Result<(), VaultError>)
        requires
            old(env)@.authorized(caller),
        ensures
            (final(env)@, r) == old(env)@.detach(caller, proposal_id, index),
    {
        let _ = load_editable(env, &caller, proposal_id)?;
        let mut attachments = storage::get_attachments(env, proposal_id);
        if index as usize >= attachments.len() {
            return Err(VaultError::ProposalNotFound);
        }
        attachments.remove(index as usize);
        storage::set_attachments(env, proposal_id, &attachments);
        storage::extend_instance_ttl(env);
        Ok(())
    }

    /// The attachments of a proposal.
    pub fn get_attachments(env: &Env, proposal_id: u64) -> (r: Texts)
        ensures
            r@ == env@.attachments(proposal_id),
    {
        storage::get_attachments(env, proposal_id)
    }

    /// Sets a metadata entry of a proposal. Admins and its proposer may.
    pub fn set_proposal_metadata(
        env: &mut Env,
        caller: Address,
        proposal_id: u64,
        key: Symbol,
        value: Text,
    ) -> (r: Result<(), VaultError>)
        requires
            old(env)@.authorized(caller),
        ensures
            (final(env)@, r) == old(env)@.set_metadata(caller, proposal_id, key, value@),
    {
        let mut proposal = load_editable(env, &caller, proposal_id)?;
        let len: usize = value.len();
        if len == 0 || len > MAX_METADATA_VALUE_LEN as usize {
            return Err(VaultError::MetadataValueInvalid);
        }
        if !proposal.metadata.contains(&key) && proposal.metadata.len()
            >= MAX_METADATA_ENTRIES as usize {
            return Err(VaultError::ExceedsProposalLimit);
        }
        proposal.metadata.insert(key, value);
        storage::set_proposal(env, &proposal);
        storage::extend_instance_ttl(env);
        Ok(())
    }

    /// Removes a metadata entry of a proposal. Admins and its proposer may.
    pub fn remove_proposal_metadata(
        env: &mut Env,
        caller: Address,
        proposal_id: u64,
        key: Symbol,
    ) -> (r: Result<(), VaultError>)
        requires
            old(env)@.authorized(caller),
        ensures
            (final(env)@, r) == old(env)@.remove_metadata(caller, proposal_id, key),
    {
        let mut proposal = load_editable(env, &caller, proposal_id)?;
        proposal.metadata.remove(&key);
        storage::set_proposal(env, &proposal);
        storage::extend_instance_ttl(env);
        Ok(())
    }

    /// The metadata entry of a proposal under a key.
    pub fn get_proposal_metadata_value(env: &Env, proposal_id: u64, key: Symbol) -> (r: Result<
        Option<Text>,
        VaultError,
    >)
        ensures
            match env@.proposal(proposal_id) {
                Ok(proposal) => r matches Ok(value) && crate::table::opt_view(value)
                    == crate::table::find(proposal.metadata, key),
                Err(error) => r matches Err(e) && e == error,
            },
    {
        let proposal = storage::get_proposal(env, proposal_id)?;
        Ok(proposal.metadata.fetch(&key))
    }

    /// The metadata of a proposal.
    pub fn get_proposal_metadata(env: &Env, proposal_id: u64) -> (r: Result<
        Table<Symbol, Text>,
        VaultError,
    >)
        ensures
            match env@.proposal(proposal_id) {
                Ok(proposal) => r matches Ok(metadata) && metadata@ == proposal.metadata,
                Err(error) => r matches Err(e) && e == error,
            },
    {
        let proposal = storage::get_proposal(env, proposal_id)?;
        Ok(proposal.metadata)
    }

    /// Tags a proposal. Admins and its proposer may.
    pub fn add_proposal_tag(env: &mut Env, caller: Address, proposal_id: u64, tag: Symbol) -> (r:
        Result<(), VaultError>)
        requires
            old(env)@.authorized(caller),
        ensures
            (final(env)@, r) == old(env)@.tag(caller, proposal_id, tag),
    {
        let mut proposal = load_editable(env, &caller, proposal_id)?;
        if tag.is_empty() {
            return Err(VaultError::MetadataValueInvalid);
        }
        if list_contains(&proposal.tags, &tag) {
            return Ok(());
        }
        if proposal.tags.len() >= MAX_TAGS as usize {
            return Err(VaultError::TooManyTags);
        }
        proposal.tags.push(tag);
        storage::set_proposal(env, &proposal);
        storage::extend_instance_ttl(env);
        Ok(())
    }

    /// Removes a tag from a proposal. Admins and its proposer may.
    pub fn remove_proposal_tag(env: &mut Env, caller: Address, proposal_id: u64, tag: Symbol) -> (r:
        Result<(), VaultError>)
        requires
            old(env)@.authorized(caller),
        ensures
            (final(env)@, r) == old(env)@.untag(caller, proposal_id, tag),
    {
        let mut proposal = load_editable(env, &caller, proposal_id)?;
        let found = match list_position(&proposal.tags, &tag) {
            Some(index) => index,
            None => return Err(VaultError::ProposalNotFound),
        };
        let _ = proposal.tags.remove(found);
        storage::set_proposal(env, &proposal);
        storage::extend_instance_ttl(env);
        Ok(())
    }

    /// The tags of a proposal.
    pub fn get_proposal_tags(env: &Env, proposal_id: u64) -> (r: Result<Vec<Symbol>, VaultError>)
        ensures
            match env@.proposal(proposal_id) {
                Ok(proposal) => r matches Ok(tags) && tags@ == proposal.tags,
                Err(error) => r matches Err(e) && e == error,
            },
    {
        let proposal = storage::get_proposal(env, proposal_id)?;
        Ok(proposal.tags)
    }

    /// The proposals with a tag, in ascending order.
    pub fn get_proposals_by_tag(env: &Env, tag: Symbol) -> (r: Vec<u64>)
        ensures
            r@ == env@.proposal_ids().filter(|id: u64| env@.has_tag(id, tag)),
    {
        let ghost keep = |id: u64| env@.has_tag(id, tag);
        let next_id: u64 = storage::get_next_proposal_id(env);
        let mut found: Vec<u64> = Vec::new();
        let mut id: u64 = 1;
        proof {
            reveal(Seq::filter);
        }
        while id < next_id
            invariant
                1 <= id,
                id <= next_id || id == 1,
                keep == (|id: u64| env@.has_tag(id, tag)),
                found@ == crate::storage::ids_below(env@.proposals.records, id as nat).filter(
                    keep,
                ),
                next_id == env@.proposals.next_id,
            decreases next_id - id,
        {
            proof {
                reveal(Seq::filter);
                let before = crate::storage::ids_below(env@.proposals.records, id as nat);
                assert(before.push(id).drop_last() =~= before);
            }
            if let Ok(proposal) = storage::get_proposal(env, id) {
                if list_contains(&proposal.tags, &tag) {
                    found.push(id);
                }
            }
            id += 1;
        }
        proof {
            if next_id == 0 {
                assert(env@.proposal_ids() =~= crate::storage::ids_below(
                    env@.proposals.records,
                    1,
                ));
            }
        }
        found
    }
}

} // verus!
