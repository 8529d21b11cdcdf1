//! What a handler asks to have done.

use vstd::prelude::*;
use crate::cache::CacheCommand;
use crate::cache::CacheView;
use crate::message::Reply;
use crate::message::ReplyView;
use crate::models::Channel;
use crate::models::ChannelView;
use crate::store::Change;
use crate::store::ChangeView;

verus! {

/// One thing to do. The effects of a handler are carried out in order, and the first change or
/// command that fails ends the connection; what is sent to a client that is gone is lost.
#[derive(Debug)]
pub enum Effect {
    /// Changes the database.
    Apply(Change),
    /// Sends a command to Redis.
    Cache(CacheCommand),
    /// Answers the client.
    Reply(Reply),
    /// Sends a text to the client as it stands.
    SendText(String),
}

/// An effect by what it holds.
pub enum EffectView {
    Apply(ChangeView),
    Cache(CacheView),
    Reply(ReplyView),
    SendText(Seq<char>),
}

impl DeepView for Effect {
    type V = EffectView;

    open spec fn deep_view(&self) -> EffectView {
        match self {
            Effect::Apply(change) => EffectView::Apply(change.deep_view()),
            Effect::Cache(command) => EffectView::Cache(command.deep_view()),
            Effect::Reply(reply) => EffectView::Reply(reply.deep_view()),
            Effect::SendText(text) => EffectView::SendText(text@),
        }
    }
}

/// The effect of an answer.
pub open spec fn answer(content: Seq<char>, icon: Seq<char>, channel: ChannelView) -> EffectView {
    EffectView::Reply(ReplyView { content, icon, channel })
}

/// An answer to the client.
pub fn reply(content: String, icon: &'static str, channel: &Channel) -> (r: Effect)
    ensures
        r.deep_view() == answer(content@, icon@, channel.deep_view()),
{
    Effect::Reply(Reply { content, icon, channel: channel.clone() })
}

/// One effect.
pub fn one(a: Effect) -> (r: Vec<Effect>)
    ensures
        r.deep_view() == seq![a.deep_view()],
{
    let r: Vec<Effect> = vec![a];
    assert(r.deep_view() =~= seq![a.deep_view()]);
    r
}

/// Two effects in order.
pub fn two(a: Effect, b: Effect) -> (r: Vec<Effect>)
    ensures
        r.deep_view() == seq![a.deep_view(), b.deep_view()],
{
    let r: Vec<Effect> = vec![a, b];
    assert(r.deep_view() =~= seq![a.deep_view(), b.deep_view()]);
    r
}

/// Three effects in order.
pub fn three(a: Effect, b: Effect, c: Effect) -> (r: Vec<Effect>)
    ensures
        r.deep_view() == seq![a.deep_view(), b.deep_view(), c.deep_view()],
{
    let r: Vec<Effect> = vec![a, b, c];
    assert(r.deep_view() =~= seq![a.deep_view(), b.deep_view(), c.deep_view()]);
    r
}

/// Four effects in order.
pub fn four(a: Effect, b: Effect, c: Effect, d: Effect) -> (r: Vec<Effect>)
    ensures
        r.deep_view() == seq![a.deep_view(), b.deep_view(), c.deep_view(), d.deep_view()],
{
    let r: Vec<Effect> = vec![a, b, c, d];
    assert(r.deep_view() =~= seq![a.deep_view(), b.deep_view(), c.deep_view(), d.deep_view()]);
    r
}

} // verus!
