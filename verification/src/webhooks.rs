use vstd::prelude::*;
use crate::sql::webhooks::Webhook;

verus! {

/// One call to make for a notification: the address, the name to post
/// under, and the message.
#[derive(Debug)]
pub struct WebhookCall {
    pub url: String,
    pub username: String,
    pub content: String,
}

/// Whether `call` delivers `message` to `hook`.
pub open spec fn delivers(call: WebhookCall, message: Seq<char>, hook: Webhook) -> bool {
    call.url@ == hook.url@ && call.username@ == hook.username@ && call.content@ == message
}

/// The call that delivers `message` to one webhook.
pub fn send_message_inner(message: &str, wh: &Webhook) -> (call: WebhookCall)
    ensures
        delivers(call, message@, *wh),
{
    WebhookCall { url: wh.get_url(), username: wh.get_username(), content: message.to_owned() }
}

/// The calls that deliver `message`: one to each stored webhook, in the
/// stored order. The calls do not depend on each other, so one that fails
/// stops none of the others.
pub fn send_message(message: &str, hooks: &Vec<Webhook>) -> (calls: Vec<WebhookCall>)
    ensures
        calls@.len() == hooks@.len(),
        forall|i: int| 0 <= i < calls@.len() ==> delivers(#[trigger] calls@[i], message@, hooks@[i]),
{
    let mut calls: Vec<WebhookCall> = Vec::new();
    let mut i: usize = 0;
    while i < hooks.len()
        invariant
            0 <= i <= hooks.len(),
            calls@.len() == i,
            forall|j: int| 0 <= j < i ==> delivers(#[trigger] calls@[j], message@, hooks@[j]),
        decreases hooks.len() - i,
    {
        calls.push(send_message_inner(message, &hooks[i]));
        i += 1;
    }
    calls
}

} // verus!
