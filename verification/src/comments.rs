//! Comments on proposals.

use vstd::prelude::*;

use crate::env::{Action, Env, EnvModel, Event};
use crate::errors::VaultError;
use crate::primitives::{Address, Symbol};
use crate::proposals::Outcome;
use crate::storage;
use crate::types::Comment;
use crate::VaultDAO;

verus! {

/// The comments with the given identifiers, as far as they exist, in order.
pub open spec fn comments_of(records: Map<u64, Comment>, ids: Seq<u64>) -> Seq<Comment>
    decreases ids.len(),
{
    if ids.len() == 0 {
        Seq::empty()
    } else {
        let earlier = comments_of(records, ids.drop_last());
        if records.contains_key(ids.last()) {
            earlier.push(records[ids.last()])
        } else {
            earlier
        }
    }
}

impl EnvModel {
    /// What commenting on a proposal leaves behind. A comment may answer another.
    pub open spec fn add_comment(
        self,
        author: Address,
        proposal_id: u64,
        text: Symbol,
        parent_id: u64,
    ) -> Outcome<u64> {
        let id = self.proposals.next_comment_id;
        match self.proposal(proposal_id) {
            Err(error) => (self, Err(error)),
            Ok(_) => if parent_id > 0 && self.comment(parent_id) is Err {
                (self, Err(VaultError::ProposalNotFound))
            } else {
                (
                    self.bump_next_comment_id().with_comment(
                        Comment {
                            id,
                            proposal_id,
                            author,
                            text,
                            parent_id,
                            created_at: self.now(),
                            edited_at: 0,
                        },
                    ).comment_push(proposal_id, id).act(Action::ExtendInstanceTtl).publish(
                        Event::CommentAdded { comment_id: id, proposal_id, author },
                    ),
                    Ok(id),
                )
            },
        }
    }

    /// What editing a comment leaves behind.
    pub open spec fn edit_comment(self, author: Address, comment_id: u64, new_text: Symbol) -> Outcome<
        (),
    > {
        match self.comment(comment_id) {
            Err(error) => (self, Err(error)),
            Ok(comment) => if comment.author != author {
                (self, Err(VaultError::Unauthorized))
            } else {
                (
                    self.with_comment(
                        Comment { text: new_text, edited_at: self.now(), ..comment },
                    ).act(Action::ExtendInstanceTtl).publish(
                        Event::CommentEdited { comment_id, author },
                    ),
                    Ok(()),
                )
            },
        }
    }
}

impl VaultDAO {
    /// Comments on a proposal, or answers another comment.
    pub fn add_comment(
        env: &mut Env,
        author: Address,
        proposal_id: u64,
        text: Symbol,
        parent_id: u64,
    ) -> (r: Result<u64, VaultError>)
        requires
            old(env)@.authorized(author),
            old(env)@.has_room(),
        ensures
            (final(env)@, r) == old(env)@.add_comment(author, proposal_id, text, parent_id),
    {
        let _ = storage::get_proposal(env, proposal_id)?;
        if parent_id > 0 {
            let _ = storage::get_comment(env, parent_id)?;
        }
        let comment_id: u64 = storage::increment_comment_id(env);
        let comment = Comment {
            id: comment_id,
            proposal_id,
            author,
            text,
            parent_id,
            created_at: env.now(),
            edited_at: 0,
        };
        storage::set_comment(env, &comment);
        storage::add_comment_to_proposal(env, proposal_id, comment_id);
        storage::extend_instance_ttl(env);
        env.publish(Event::CommentAdded { comment_id, proposal_id, author });
        Ok(comment_id)
    }

    /// Edits a comment. Only its author may.
    pub fn edit_comment(env: &mut Env, author: Address, comment_id: u64, new_text: Symbol) -> (r:
        Result<(), VaultError>)
        requires
            old(env)@.authorized(author),
        ensures
            (final(env)@, r) == old(env)@.edit_comment(author, comment_id, new_text),
    {
        let mut comment = storage::get_comment(env, comment_id)?;
        if comment.author != author {
            return Err(VaultError::Unauthorized);
        }
        comment.text = new_text;
        comment.edited_at = env.now();
        storage::set_comment(env, &comment);
        storage::extend_instance_ttl(env);
        env.publish(Event::CommentEdited { comment_id, author });
        Ok(())
    }

    /// The comments of a proposal, in order.
    pub fn get_proposal_comments(env: &Env, proposal_id: u64) -> (r: Vec<Comment>)
        ensures
            r@ == comments_of(env@.proposals.comments, env@.comment_ids(proposal_id)),
    {
        let ids = storage::get_proposal_comments(env, proposal_id);
        let mut comments: Vec<Comment> = Vec::new();
        let mut i: usize = 0;
        while i < ids.len()
            invariant
                i <= ids.len(),
                comments@ == comments_of(env@.proposals.comments, ids@.take(i as int)),
            decreases ids.len() - i,
        {
            assert(ids@.take(i + 1).drop_last() =~= ids@.take(i as int));
            if let Ok(comment) = storage::get_comment(env, ids[i]) {
                comments.push(comment);
            }
            i += 1;
        }
        assert(ids@.take(ids@.len() as int) =~= ids@);
        comments
    }

    /// The comment with an identifier.
    pub fn get_comment(env: &Env, comment_id: u64) -> (r: Result<Comment, VaultError>)
        ensures
            r == env@.comment(comment_id),
    {
        storage::get_comment(env, comment_id)
    }
}

} // verus!
