use crate::common::err::{AppError, AppErrorView};
use crate::flow::{Action, ActionView};
use crate::model::topic::{TopicFront, TopicFrontView};
use vstd::prelude::*;

verus! {

/// The error of a topic that names no user.
pub open spec fn no_owner() -> AppErrorView {
    AppErrorView::BusinessError(500, "用户不能为空"@)
}

/// What is asked of the store for a new topic: nothing where the topic names
/// no user, and otherwise a row that names the user as its owner.
pub open spec fn topic_insert(topic: TopicFrontView) -> Result<ActionView, AppErrorView> {
    match topic.user_id {
        Some(user_id) => Ok(
            ActionView::InsertTopic {
                user_id,
                title: topic.title,
                content: topic.content,
                tags: topic.tags,
            },
        ),
        None => Err(no_owner()),
    }
}

/// Asks for a new topic to be stored. A topic that names no user is turned
/// down.
pub fn insert_one_topic(new_topic: TopicFront) -> (out: Result<Action, AppError>)
    ensures
        match out {
            Ok(action) => topic_insert(new_topic@) == Ok::<ActionView, AppErrorView>(action@),
            Err(e) => topic_insert(new_topic@) == Err::<ActionView, AppErrorView>(e@),
        },
{
    let TopicFront { user_id, title, content, tags } = new_topic;
    match user_id {
        Some(user_id) => Ok(Action::InsertTopic { user_id, title, content, tags }),
        None => Err(AppError::BusinessError(500, "用户不能为空")),
    }
}

/// Whether the store took a new topic, by the id it gave the row.
pub fn topic_inserted(last_insert_id: u64) -> (taken: bool)
    ensures
        taken == (last_insert_id > 0),
{
    last_insert_id > 0
}

/// Whether the store pinned or unpinned a topic, by the rows it changed.
pub fn topic_top_updated(rows_affected: u64) -> (changed: bool)
    ensures
        changed == (rows_affected > 0),
{
    rows_affected > 0
}

} // verus!
