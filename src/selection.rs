use vstd::prelude::*;

use crate::entry::ResultEntry;
use crate::search::RemoteFailure;

verus! {

/// One step of handling an activated result, performed in order by the caller.
#[derive(Clone, Copy, Debug, PartialEq, Eq, Structural)]
pub enum Effect {
    /// Open the chat with this id in the sidebar.
    SelectChat(i64),
    /// Ask the remote service to mark this id as recently found; a failure is
    /// logged and changes nothing that follows.
    AddRecentlyFound(i64),
    /// Log that the activated item is neither a chat nor a user.
    WarnUnexpectedItem,
    /// Close the search panel.
    Close,
}

/// What activating a result asks of the caller.
#[derive(Clone, Debug, PartialEq, Eq)]
pub enum ActivationStep {
    /// Perform these effects in order; the activation is then over.
    Run(Vec<Effect>),
    /// Ask the remote service for the private chat with this user, then hand
    /// the outcome to `after_private_chat`.
    CreatePrivateChat { user_id: i64, force: bool },
}

impl ActivationStep {
    pub open spec fn runs(self, effects: Seq<Effect>) -> bool {
        match self {
            ActivationStep::Run(v) => v@ == effects,
            _ => false,
        }
    }
}

/// The effects of activating `item`, or `None` where a private chat must be
/// created first. `private_chat_exists` tells, for a user, whether the local
/// directory holds the private chat with them, whose id is the user's id.
pub open spec fn activation_effects(item: Option<ResultEntry>, private_chat_exists: bool) -> Option<
    Seq<Effect>,
> {
    match item {
        Some(ResultEntry::Chat(id)) => Some(
            seq![Effect::SelectChat(id), Effect::AddRecentlyFound(id), Effect::Close],
        ),
        Some(ResultEntry::User(id)) => if private_chat_exists {
            Some(seq![Effect::SelectChat(id), Effect::AddRecentlyFound(id), Effect::Close])
        } else {
            None
        },
        None => Some(seq![Effect::WarnUnexpectedItem, Effect::Close]),
    }
}

/// The effects that follow the creation of the private chat with `user_id`:
/// the created chat is selected only when the creation succeeded.
pub open spec fn creation_effects(user_id: i64, outcome: Result<i64, RemoteFailure>) -> Seq<
    Effect,
> {
    match outcome {
        Ok(chat_id) => seq![
            Effect::SelectChat(chat_id),
            Effect::AddRecentlyFound(user_id),
            Effect::Close,
        ],
        Err(_) => seq![Effect::AddRecentlyFound(user_id), Effect::Close],
    }
}

/// Resolves an activated result (`None`: the position held no chat or user)
/// into what the caller does: a chat, or a user whose private chat exists,
/// is selected, marked as recently found, and the panel closed; for a user
/// without a private chat, that chat is created first; anything else is
/// logged and the panel closed.
pub fn list_activate(item: Option<ResultEntry>, private_chat_exists: bool) -> (r: ActivationStep)
    ensures
        match activation_effects(item, private_chat_exists) {
            Some(effects) => r.runs(effects),
            None => r == (ActivationStep::CreatePrivateChat {
                user_id: item.unwrap().spec_id(),
                force: true,
            }),
        },
{
    let mut effects: Vec<Effect> = Vec::new();
    match item {
        Some(ResultEntry::Chat(id)) => {
            effects.push(Effect::SelectChat(id));
            effects.push(Effect::AddRecentlyFound(id));
        },
        Some(ResultEntry::User(id)) => {
            if !private_chat_exists {
                return ActivationStep::CreatePrivateChat { user_id: id, force: true };
            }
            effects.push(Effect::SelectChat(id));
            effects.push(Effect::AddRecentlyFound(id));
        },
        None => {
            effects.push(Effect::WarnUnexpectedItem);
        },
    }
    effects.push(Effect::Close);
    assert(effects@ =~= activation_effects(item, private_chat_exists).unwrap());
    ActivationStep::Run(effects)
}

/// The effects that end the activation of the user `user_id` once the
/// creation of their private chat has an outcome.
pub fn after_private_chat(user_id: i64, outcome: Result<i64, RemoteFailure>) -> (r: Vec<Effect>)
    ensures
        r@ == creation_effects(user_id, outcome),
{
    let mut effects: Vec<Effect> = Vec::new();
    if let Ok(chat_id) = outcome {
        effects.push(Effect::SelectChat(chat_id));
    }
    effects.push(Effect::AddRecentlyFound(user_id));
    effects.push(Effect::Close);
    assert(effects@ =~= creation_effects(user_id, outcome));
    effects
}

/// Activating a chat result selects it, always asks to mark it as recently
/// found, and always closes the panel last; no step depends on the outcome of
/// the marking.
pub proof fn lemma_chat_activation(id: i64, private_chat_exists: bool)
    ensures
        activation_effects(Some(ResultEntry::Chat(id)), private_chat_exists) is Some,
        ({
            let effects = activation_effects(Some(ResultEntry::Chat(id)), private_chat_exists).unwrap();
            &&& effects.contains(Effect::SelectChat(id))
            &&& effects.contains(Effect::AddRecentlyFound(id))
            &&& effects.last() == Effect::Close
        }),
{
    let effects = activation_effects(Some(ResultEntry::Chat(id)), private_chat_exists).unwrap();
    assert(effects[0] == Effect::SelectChat(id));
    assert(effects[1] == Effect::AddRecentlyFound(id));
}

/// Activating a user result creates no private chat where one exists and
/// selects it; where none exists it asks to create one, then selects the
/// created chat on success and selects nothing on failure. Either way it marks
/// the user as recently found and closes the panel last.
pub proof fn lemma_user_activation(user_id: i64, created: i64, failure: RemoteFailure)
    ensures
        activation_effects(Some(ResultEntry::User(user_id)), true) == Some(
            seq![Effect::SelectChat(user_id), Effect::AddRecentlyFound(user_id), Effect::Close],
        ),
        activation_effects(Some(ResultEntry::User(user_id)), false) is None,
        creation_effects(user_id, Ok(created)).contains(Effect::SelectChat(created)),
        forall|i: int|
            0 <= i < creation_effects(user_id, Err(failure)).len() ==> !(#[trigger] creation_effects(
                user_id,
                Err(failure),
            )[i] is SelectChat),
        creation_effects(user_id, Ok(created)).contains(Effect::AddRecentlyFound(user_id)),
        creation_effects(user_id, Err(failure)).contains(Effect::AddRecentlyFound(user_id)),
        creation_effects(user_id, Ok(created)).last() == Effect::Close,
        creation_effects(user_id, Err(failure)).last() == Effect::Close,
{
    assert(creation_effects(user_id, Ok(created))[0] == Effect::SelectChat(created));
    assert(creation_effects(user_id, Ok(created))[1] == Effect::AddRecentlyFound(user_id));
    assert(creation_effects(user_id, Err(failure))[0] == Effect::AddRecentlyFound(user_id));
}

} // verus!
