use crate::common::api::ApiResult;
use crate::common::err::{AppError, AppErrorView};
use crate::flow::{
    abort, envelope, finish, json_reply, Action, ActionView, Flow, FlowView, Reply,
};
use crate::model::topic::TopicFront;
use crate::model::user::{UserToken, VerifyStatus};
use crate::repository::topic_repository::{insert_one_topic, topic_inserted};
use vstd::prelude::*;

verus! {

/// Starts the creation of a topic by the user whom the guard let in: the
/// topic is to be stored as that user's, whatever owner the client named.
pub fn create_topic(new_topic: TopicFront, user_token: &UserToken) -> (out: (Flow, Action))
    ensures
        out.0@ == FlowView::TopicInsert,
        out.1@ == (ActionView::InsertTopic {
            user_id: user_token.pk_id,
            title: new_topic@.title,
            content: new_topic@.content,
            tags: new_topic@.tags,
        }),
{
    let mut topic = new_topic;
    topic.user_id = Some(user_token.pk_id);
    match insert_one_topic(topic) {
        Ok(action) => (Flow::TopicInsert, action),
        Err(e) => abort(e),
    }
}

/// How the creation of a topic ends: well where the store gave the row an id.
pub open spec fn topic_after_inserted(id: u64) -> ActionView {
    if id > 0 {
        ActionView::Reply(
            json_reply(envelope(200, "创建主题成功"@, Some(VerifyStatus::of(true)))),
        )
    } else {
        ActionView::Fail(AppErrorView::BusinessError(500, "创建主题失败"@))
    }
}

/// Ends the creation of a topic.
pub fn topic_on_inserted(id: u64) -> (out: (Flow, Action))
    ensures
        out.0@ == FlowView::Finished,
        out.1@ == topic_after_inserted(id),
{
    if topic_inserted(id) {
        finish(Reply::json(ApiResult::ok().msg("创建主题成功").data(VerifyStatus::success())))
    } else {
        abort(AppError::BusinessError(500, "创建主题失败"))
    }
}

} // verus!
