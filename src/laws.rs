use crate::model::{out_of_vc, presences_with, ChannelId, ChannelKey, GuildId, UserId};
use vstd::prelude::*;

verus! {

/// Recording a channel's name makes the channel resolve to that name, and
/// removing the channel afterwards leaves it unknown.
pub proof fn lemma_channel_name_upsert_then_remove(
    names: Map<ChannelKey, Seq<char>>,
    key: ChannelKey,
    name: Seq<char>,
)
    ensures
        names.insert(key, name).contains_key(key),
        names.insert(key, name)[key] == name,
        !names.insert(key, name).remove(key).contains_key(key),
{
}

/// Recording a user's presence makes it that channel; a second record for the
/// same user replaces the first without adding an entry; removing the user
/// afterwards leaves the user absent.
pub proof fn lemma_voice_presence_overwrite_then_remove(
    presences: Map<UserId, ChannelKey>,
    user: UserId,
    first: ChannelKey,
    second: ChannelKey,
)
    ensures
        presences.insert(user, first)[user] == first,
        presences.insert(user, first).insert(user, second)[user] == second,
        presences.insert(user, first).insert(user, second).dom() == presences.insert(
            user,
            first,
        ).dom(),
        !presences.insert(user, first).insert(user, second).remove(user).contains_key(user),
{
    assert(presences.insert(user, first).insert(user, second).dom() =~= presences.insert(
        user,
        first,
    ).dom());
}

/// After a reset no channel resolves to a name, no user has a presence, and no
/// message is out of voice context.
pub proof fn lemma_reset_forgets_everything(
    names: Map<ChannelKey, Seq<char>>,
    presences: Map<UserId, ChannelKey>,
)
    requires
        names == Map::<ChannelKey, Seq<char>>::empty(),
        presences == Map::<UserId, ChannelKey>::empty(),
    ensures
        forall|k: ChannelKey| !#[trigger] names.contains_key(k),
        forall|u: UserId| !#[trigger] presences.contains_key(u),
        forall|u: UserId, k: ChannelKey| !#[trigger] out_of_vc(names, presences, u, k),
{
}

/// Applying the same update twice in a row has the same effect as applying it once.
pub proof fn lemma_updates_idempotent(
    names: Map<ChannelKey, Seq<char>>,
    presences: Map<UserId, ChannelKey>,
    key: ChannelKey,
    name: Seq<char>,
    user: UserId,
)
    ensures
        names.insert(key, name).insert(key, name) == names.insert(key, name),
        names.remove(key).remove(key) == names.remove(key),
        presences.insert(user, key).insert(user, key) == presences.insert(user, key),
        presences.remove(user).remove(user) == presences.remove(user),
{
    assert(names.insert(key, name).insert(key, name) =~= names.insert(key, name));
    assert(names.remove(key).remove(key) =~= names.remove(key));
    assert(presences.insert(user, key).insert(user, key) =~= presences.insert(user, key));
    assert(presences.remove(user).remove(user) =~= presences.remove(user));
}

/// A message posted in a channel whose name equals the name of the author's
/// voice channel is not out of context, even when the two channels differ.
pub proof fn lemma_same_name_matches(
    names: Map<ChannelKey, Seq<char>>,
    presences: Map<UserId, ChannelKey>,
    user: UserId,
    vc_key: ChannelKey,
    msg_key: ChannelKey,
)
    requires
        presences.contains_key(user),
        presences[user] == vc_key,
        names.contains_key(vc_key),
        names.contains_key(msg_key),
        names[vc_key] == names[msg_key],
    ensures
        !out_of_vc(names, presences, user, msg_key),
{
}

/// After a reset, re-populating from a snapshot in which nobody occupies a
/// voice channel leaves the voice-presence table empty, whatever channel names
/// are recorded alongside.
pub proof fn lemma_resync_without_voice(
    guild_id: GuildId,
    voice_states: Seq<(UserId, Option<ChannelId>)>,
)
    requires
        forall|i: int| 0 <= i < voice_states.len() ==> #[trigger] voice_states[i].1 is None,
    ensures
        presences_with(Map::empty(), guild_id, voice_states) == Map::<UserId, ChannelKey>::empty(),
    decreases voice_states.len(),
{
    if voice_states.len() > 0 {
        let rest = voice_states.drop_last();
        assert forall|i: int| 0 <= i < rest.len() implies #[trigger] rest[i].1 is None by {
            assert(rest[i] == voice_states[i]);
        }
        lemma_resync_without_voice(guild_id, rest);
        assert(voice_states[voice_states.len() - 1].1 is None);
    }
}

} // verus!
