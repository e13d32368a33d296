use vstd::prelude::*;
use crate::sql::SqlError;
use crate::text::str_eq;

verus! {

/// Where a notification is sent to: a name to tell the webhooks apart, the
/// address to call, and the name under which the message is posted.
#[derive(Debug)]
pub struct Webhook {
    pub name: String,
    pub url: String,
    pub username: String,
}

impl Webhook {
    /// A webhook of the given parts.
    pub fn new(name: &str, url: &str, username: &str) -> (hook: Webhook)
        ensures
            hook.name@ == name@,
            hook.url@ == url@,
            hook.username@ == username@,
    {
        Webhook { name: name.to_owned(), url: url.to_owned(), username: username.to_owned() }
    }

    /// The name that tells this webhook from the others.
    pub fn get_name(&self) -> (name: String)
        ensures
            name@ == self.name@,
    {
        self.name.clone()
    }

    /// The address that is called.
    pub fn get_url(&self) -> (url: String)
        ensures
            url@ == self.url@,
    {
        self.url.clone()
    }

    /// The name under which the message is posted.
    pub fn get_username(&self) -> (username: String)
        ensures
            username@ == self.username@,
    {
        self.username.clone()
    }
}

/// Whether a webhook of the given name is stored.
pub open spec fn has_webhook(hooks: Seq<Webhook>, name: Seq<char>) -> bool {
    exists|j: int| 0 <= j < hooks.len() && (#[trigger] hooks[j]).name@ == name
}

/// The stored webhooks without those of the given name.
pub open spec fn without_webhook(hooks: Seq<Webhook>, name: Seq<char>) -> Seq<Webhook> {
    hooks.filter(|h: Webhook| h.name@ != name)
}

/// Whether a webhook of the given name is stored.
pub fn webhook_exists(hooks: &Vec<Webhook>, name: &str) -> (exists: bool)
    ensures
        exists == has_webhook(hooks@, name@),
{
    let mut i: usize = 0;
    while i < hooks.len()
        invariant
            0 <= i <= hooks.len(),
            forall|j: int| 0 <= j < i ==> (#[trigger] hooks@[j]).name@ != name@,
        decreases hooks.len() - i,
    {
        if str_eq(hooks[i].name.as_str(), name) {
            return true;
        }
        i += 1;
    }
    false
}

/// Stores a webhook of the given parts after the ones that are stored. A
/// name that a stored webhook has is refused.
pub fn add_webhook(hooks: &mut Vec<Webhook>, name: &str, url: &str, username: &str) -> (r: Result<
    (),
    SqlError,
>)
    ensures
        r is Err <==> has_webhook(old(hooks)@, name@),
        r matches Err(e) ==> (e matches SqlError::WebhookNameExists(n) && n@ == name@) && final(hooks)@ == old(hooks)@,
        r is Ok ==> {
            &&& final(hooks)@.len() == old(hooks)@.len() + 1
            &&& final(hooks)@.drop_last() == old(hooks)@
            &&& final(hooks)@.last().name@ == name@
            &&& final(hooks)@.last().url@ == url@
            &&& final(hooks)@.last().username@ == username@
        },
{
    if webhook_exists(hooks, name) {
        return Err(SqlError::WebhookNameExists(name.to_owned()));
    }
    let hook = Webhook::new(name, url, username);
    assert(hooks@.push(hook).drop_last() =~= hooks@);
    hooks.push(hook);
    Ok(())
}

/// Removes the webhook of the given name and says whether one was there
/// to remove.
pub fn delete_webhook(hooks: &mut Vec<Webhook>, name: &str) -> (removed: bool)
    ensures
        final(hooks)@ == without_webhook(old(hooks)@, name@),
        removed == has_webhook(old(hooks)@, name@),
{
    let mut all: Vec<Webhook> = Vec::new();
    std::mem::swap(hooks, &mut all);
    let ghost was = all@;
    let mut removed = false;
    proof {
        reveal(Seq::filter);
        assert(hooks@ =~= without_webhook(was.subrange(0, 0), name@));
    }
    for hook in it: all
        invariant
            it.seq() == was,
            hooks@ == without_webhook(was.subrange(0, it.index() as int), name@),
            removed == has_webhook(was.subrange(0, it.index() as int), name@),
    {
        proof {
            reveal(Seq::filter);
            let upto = was.subrange(0, it.index() + 1);
            let before = was.subrange(0, it.index() as int);
            assert(upto.drop_last() =~= before);
            assert(upto.last() == hook);
            if has_webhook(before, name@) {
                let j = choose|j: int|
                    0 <= j < before.len() && (#[trigger] before[j]).name@ == name@;
                assert(upto[j].name@ == name@);
            }
            if hook.name@ == name@ {
                assert(upto[it.index() as int].name@ == name@);
            }
            if has_webhook(upto, name@) && hook.name@ != name@ {
                let j = choose|j: int| 0 <= j < upto.len() && (#[trigger] upto[j]).name@ == name@;
                assert(before[j].name@ == name@);
            }
        }
        if str_eq(hook.name.as_str(), name) {
            removed = true;
        } else {
            hooks.push(hook);
        }
    }
    assert(was.subrange(0, was.len() as int) =~= was);
    removed
}

} // verus!
