//! Who a prompt names, of the people who can open the session it is for.
//!
//! A mention of someone who cannot see the session is dropped: no access is
//! granted on mention, and a notification they cannot follow is worse than
//! none.

use crate::harness::error::HarnessError;
use crate::sessions::model::{contains_user, MacroUserId};
use crate::text::{same_text, Text};
use std::sync::Arc;
use vstd::prelude::*;

verus! {

/// One mention a markdown text holds.
#[derive(Debug, PartialEq, Eq)]
pub struct Mention {
    /// What kind of thing is mentioned.
    pub entity_type: String,
    /// Which one.
    pub entity_id: String,
}

/// The ids of the users among some mentions, in order.
pub open spec fn user_ids(mentions: Seq<Mention>) -> Seq<Text>
    decreases mentions.len(),
{
    if mentions.len() == 0 {
        Seq::empty()
    } else {
        let before = user_ids(mentions.drop_last());
        if mentions.last().entity_type@ == "user"@ {
            before.push(mentions.last().entity_id@)
        } else {
            before
        }
    }
}

/// The ids of the users among some mentions, in order.
pub fn mentioned_user_ids(mentions: &Vec<Mention>) -> (ids: Vec<String>)
    ensures
        ids.deep_view() == user_ids(mentions@),
{
    let mut ids: Vec<String> = Vec::new();
    let mut i: usize = 0;
    assert(ids.deep_view() =~= user_ids(mentions@.take(0)));
    while i < mentions.len()
        invariant
            i <= mentions@.len(),
            ids.deep_view() == user_ids(mentions@.take(i as int)),
        decreases mentions@.len() - i,
    {
        let ghost before = ids.deep_view();
        proof {
            assert(mentions@.take(i + 1).drop_last() =~= mentions@.take(i as int));
            assert(mentions@.take(i + 1).last() == mentions@[i as int]);
        }
        if same_text(mentions[i].entity_type.as_str(), "user") {
            ids.push(mentions[i].entity_id.clone());
            assert(ids.deep_view() =~= before.push(mentions@[i as int].entity_id@));
        }
        i = i + 1;
    }
    assert(mentions@.take(i as int) =~= mentions@);
    ids
}

/// The users among some mentioned ids who may open the session, each once, in
/// order of first mention. An id that names no user is `None`, and skipped.
pub open spec fn visible_users(mentioned: Seq<Option<Text>>, viewers: Seq<Text>) -> Seq<Text>
    decreases mentioned.len(),
{
    if mentioned.len() == 0 {
        Seq::empty()
    } else {
        let before = visible_users(mentioned.drop_last(), viewers);
        match mentioned.last() {
            Some(user) => if viewers.contains(user) && !before.contains(user) {
                before.push(user)
            } else {
                before
            },
            None => before,
        }
    }
}

/// How the lookup of a prompt's mentions goes on.
#[derive(Debug, PartialEq, Eq)]
pub enum MentionStep {
    /// The lookup is over.
    Finish(Result<Vec<MacroUserId>, HarnessError>),
    /// Somebody is named: find out who may open the session.
    AskViewers {
        /// The mentioned ids.
        ids: Vec<String>,
    },
}

/// A mention lookup over a source of mentions and the session's viewers.
#[derive(Debug)]
pub struct LexicalPromptMentions<Source, Access> {
    /// Finds the mentions of a text.
    pub source: Source,
    /// Lists who may open a session.
    pub access: Arc<Access>,
}

impl<Source, Access> LexicalPromptMentions<Source, Access> {
    /// Parse with `source`, narrow by `access`.
    pub fn new(source: Source, access: Arc<Access>) -> (mentions: Self)
        ensures
            mentions.source == source,
            mentions.access == access,
    {
        LexicalPromptMentions { source, access }
    }

    /// Go on from the mentioned ids. A prompt that names nobody never asks who
    /// can see the session, and a failed lookup is an error, not an empty
    /// answer.
    pub fn begin(&self, mentioned: Result<Vec<String>, HarnessError>) -> (step: MentionStep)
        ensures
            match mentioned {
                Err(error) => step == MentionStep::Finish(Err(error)),
                Ok(ids) => if ids@.len() == 0 {
                    step matches MentionStep::Finish(Ok(users)) && users@.len() == 0
                } else {
                    step == (MentionStep::AskViewers { ids })
                },
            },
    {
        match mentioned {
            Err(error) => MentionStep::Finish(Err(error)),
            Ok(ids) => {
                if ids.is_empty() {
                    MentionStep::Finish(Ok(Vec::new()))
                } else {
                    MentionStep::AskViewers { ids }
                }
            },
        }
    }

    /// The mentioned users who may open the session. `mentioned` holds what
    /// each mentioned id reads as, and `viewers` who may open the session.
    pub fn narrow(
        &self,
        mentioned: &Vec<Option<MacroUserId>>,
        viewers: Result<Vec<MacroUserId>, HarnessError>,
    ) -> (users: Result<Vec<MacroUserId>, HarnessError>)
        ensures
            match viewers {
                Err(error) => users == Err::<Vec<MacroUserId>, HarnessError>(error),
                Ok(viewers) => users matches Ok(users) && users.deep_view() == visible_users(
                    mentioned.deep_view(),
                    viewers.deep_view(),
                ),
            },
    {
        let viewers: Vec<MacroUserId> = match viewers {
            Ok(viewers) => viewers,
            Err(error) => return Err(error),
        };
        let ghost all = mentioned.deep_view();
        let mut users: Vec<MacroUserId> = Vec::new();
        let mut i: usize = 0;
        assert(users.deep_view() =~= visible_users(all.take(0), viewers.deep_view()));
        while i < mentioned.len()
            invariant
                i <= mentioned@.len(),
                all == mentioned.deep_view(),
                users.deep_view() == visible_users(all.take(i as int), viewers.deep_view()),
            decreases mentioned@.len() - i,
        {
            let ghost before = users.deep_view();
            proof {
                assert(all.take(i + 1).drop_last() =~= all.take(i as int));
                assert(all.take(i + 1).last() == mentioned@[i as int].deep_view());
            }
            if let Some(user) = &mentioned[i] {
                if contains_user(&viewers, user) && !contains_user(&users, user) {
                    users.push(user.clone());
                    assert(users.deep_view() =~= before.push(user.deep_view()));
                }
            }
            i = i + 1;
        }
        assert(all.take(i as int) =~= all);
        Ok(users)
    }
}

/// Nobody is told who was not mentioned or cannot see the session, everybody
/// is told who was and can, and nobody is told twice.
pub proof fn law_exactly_the_visible_mentions_are_told(
    mentioned: Seq<Option<Text>>,
    viewers: Seq<Text>,
)
    ensures
        visible_users(mentioned, viewers).no_duplicates(),
        forall|user: Text| #[trigger]
            visible_users(mentioned, viewers).contains(user) <==> viewers.contains(user)
                && mentioned.contains(Some(user)),
    decreases mentioned.len(),
{
    if mentioned.len() > 0 {
        let rest = mentioned.drop_last();
        let before = visible_users(rest, viewers);
        let after = visible_users(mentioned, viewers);
        law_exactly_the_visible_mentions_are_told(rest, viewers);
        assert forall|user: Text| #[trigger] after.contains(user) <==> viewers.contains(user)
            && mentioned.contains(Some(user)) by {
            if after.contains(user) {
                if before.contains(user) {
                    let i = rest.index_of(Some(user));
                    assert(mentioned[i] == Some(user));
                } else {
                    assert(mentioned[mentioned.len() - 1] == Some(user));
                }
            }
            if viewers.contains(user) && mentioned.contains(Some(user)) {
                let i = mentioned.index_of(Some(user));
                if i < rest.len() {
                    assert(rest[i] == Some(user));
                    assert(before.contains(user));
                    assert(after[before.index_of(user)] == user);
                } else if !before.contains(user) {
                    assert(after[before.len() as int] == user);
                } else {
                    assert(after[before.index_of(user)] == user);
                }
            }
        }
    }
}

} // verus!
