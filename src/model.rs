use std::collections::BTreeMap;
use vstd::std_specs::btree::spec_btree_map_iter;
use vstd::std_specs::iter::IteratorSpec;
use vstd::prelude::*;

verus! {

broadcast use {
    vstd::std_specs::btree::group_btree_axioms,
    vstd::std_specs::btree::axiom_spec_btree_map_iter,
    vstd::laws_cmp::group_laws_cmp,
};

/// Platform-assigned identifier of a guild.
pub type GuildId = u64;

/// Platform-assigned identifier of a channel.
pub type ChannelId = u64;

/// Platform-assigned identifier of a user.
pub type UserId = u64;

/// A channel is known by the guild it lives in and its own identifier.
pub type ChannelKey = (GuildId, ChannelId);

/// Whether a message posted by a user in `msg_key` is outside the user's voice
/// context, given the channel-name table `names` and the voice-presence table
/// `presences`.
///
/// A user with no voice presence is never out of context. Otherwise the two
/// channels match only when both names are known and equal; a name that is
/// not known matches nothing.
pub open spec fn out_of_vc(
    names: Map<ChannelKey, Seq<char>>,
    presences: Map<UserId, ChannelKey>,
    user: UserId,
    msg_key: ChannelKey,
) -> bool {
    presences.contains_key(user) && !{
        let vc_key = presences[user];
        &&& names.contains_key(vc_key)
        &&& names.contains_key(msg_key)
        &&& names[vc_key] == names[msg_key]
    }
}

/// The channel-name table after recording, in order, the name of each channel
/// of `channels` (guild, channel, name).
pub open spec fn names_with(
    names: Map<ChannelKey, Seq<char>>,
    channels: Seq<(GuildId, ChannelId, String)>,
) -> Map<ChannelKey, Seq<char>>
    decreases channels.len(),
{
    if channels.len() == 0 {
        names
    } else {
        let last = channels.last();
        names_with(names, channels.drop_last()).insert((last.0, last.1), last.2@)
    }
}

/// The voice-presence table after recording, in order, each voice state of
/// `voice_states` (user, channel if any) in guild `guild_id`; a state without
/// a channel leaves the table as it is.
pub open spec fn presences_with(
    presences: Map<UserId, ChannelKey>,
    guild_id: GuildId,
    voice_states: Seq<(UserId, Option<ChannelId>)>,
) -> Map<UserId, ChannelKey>
    decreases voice_states.len(),
{
    if voice_states.len() == 0 {
        presences
    } else {
        let last = voice_states.last();
        let before = presences_with(presences, guild_id, voice_states.drop_last());
        match last.1 {
            Some(channel_id) => before.insert(last.0, (guild_id, channel_id)),
            None => before,
        }
    }
}

/// `entries` (guild, channel, name) lists the channel-name table `names`:
/// each channel once, with its name.
pub open spec fn lists_names(
    entries: Seq<(GuildId, ChannelId, String)>,
    names: Map<ChannelKey, Seq<char>>,
) -> bool {
    &&& forall|i: int|
        #![trigger entries[i]]
        0 <= i < entries.len() ==> names.contains_key((entries[i].0, entries[i].1))
            && names[(entries[i].0, entries[i].1)] == entries[i].2@
    &&& forall|k: ChannelKey|
        #[trigger] names.contains_key(k) ==> exists|i: int|
            0 <= i < entries.len() && #[trigger] entries[i].0 == k.0 && entries[i].1 == k.1
    &&& forall|i: int, j: int|
        0 <= i < j < entries.len() ==> (#[trigger] entries[i].0, entries[i].1) != (
            #[trigger] entries[j].0,
            entries[j].1,
        )
}

/// `entries` (user, guild, channel) lists the voice-presence table
/// `presences`: each user once, with the channel they occupy.
pub open spec fn lists_presences(
    entries: Seq<(UserId, GuildId, ChannelId)>,
    presences: Map<UserId, ChannelKey>,
) -> bool {
    &&& forall|i: int|
        #![trigger entries[i]]
        0 <= i < entries.len() ==> presences.contains_key(entries[i].0)
            && presences[entries[i].0] == (entries[i].1, entries[i].2)
    &&& forall|u: UserId|
        #[trigger] presences.contains_key(u) ==> exists|i: int|
            0 <= i < entries.len() && #[trigger] entries[i].0 == u
    &&& forall|i: int, j: int|
        0 <= i < j < entries.len() ==> #[trigger] entries[i].0 != #[trigger] entries[j].0
}

/// The membership store: the name of every known channel, and the voice
/// channel that each user currently occupies.
pub struct Model {
    channel_names: BTreeMap<ChannelKey, String>,
    user_vc_pairs: BTreeMap<UserId, ChannelKey>,
}

impl Model {
    /// The channel-name table: each known channel key and its display name.
    pub closed spec fn names(&self) -> Map<ChannelKey, Seq<char>> {
        Map::new(
            |k: ChannelKey| self.channel_names@.contains_key(k),
            |k: ChannelKey| self.channel_names@[k]@,
        )
    }

    /// The voice-presence table: each user in voice and the channel they occupy.
    pub closed spec fn presences(&self) -> Map<UserId, ChannelKey> {
        self.user_vc_pairs@
    }

    /// An empty store.
    pub fn new() -> (r: Self)
        ensures
            r.names() == Map::<ChannelKey, Seq<char>>::empty(),
            r.presences() == Map::<UserId, ChannelKey>::empty(),
    {
        let r = Model { channel_names: BTreeMap::new(), user_vc_pairs: BTreeMap::new() };
        assert(r.names() =~= Map::<ChannelKey, Seq<char>>::empty());
        r
    }

    /// Records `channel_name` as the name of the channel, replacing any earlier one.
    pub fn add_channel_name_pair(
        &mut self,
        guild_id: GuildId,
        channel_id: ChannelId,
        channel_name: String,
    )
        ensures
            final(self).names() == old(self).names().insert((guild_id, channel_id), channel_name@),
            final(self).presences() == old(self).presences(),
    {
        self.channel_names.insert((guild_id, channel_id), channel_name);
        assert(self.names() =~= old(self).names().insert((guild_id, channel_id), channel_name@));
    }

    /// Forgets the name of the channel; nothing happens if it is not known.
    pub fn remove_channel_name_pair(&mut self, guild_id: GuildId, channel_id: ChannelId)
        ensures
            final(self).names() == old(self).names().remove((guild_id, channel_id)),
            final(self).presences() == old(self).presences(),
    {
        self.channel_names.remove(&(guild_id, channel_id));
        assert(self.names() =~= old(self).names().remove((guild_id, channel_id)));
    }

    /// Records that the user occupies the given voice channel, replacing any
    /// earlier presence of that user.
    pub fn add_or_update_user_voice_status(
        &mut self,
        user_id: UserId,
        guild_id: GuildId,
        channel_id: ChannelId,
    )
        ensures
            final(self).presences() == old(self).presences().insert(user_id, (guild_id, channel_id)),
            final(self).names() == old(self).names(),
    {
        self.user_vc_pairs.insert(user_id, (guild_id, channel_id));
    }

    /// Forgets the user's voice presence; nothing happens if there is none.
    pub fn remove_user_voice_status(&mut self, user_id: &UserId)
        ensures
            final(self).presences() == old(self).presences().remove(*user_id),
            final(self).names() == old(self).names(),
    {
        self.user_vc_pairs.remove(user_id);
    }

    /// Whether a message by `msg_user_id` posted in the given channel falls
    /// outside the user's current voice channel.
    pub fn msg_is_out_of_vc(
        &self,
        msg_user_id: &UserId,
        msg_guild_id: GuildId,
        msg_ch_id: ChannelId,
    ) -> (r: bool)
        ensures
            r == out_of_vc(self.names(), self.presences(), *msg_user_id, (msg_guild_id, msg_ch_id)),
    {
        match self.user_vc_pairs.get(msg_user_id) {
            Some(vc_key) => {
                let vc_name = self.channel_names.get(vc_key);
                let msg_name = self.channel_names.get(&(msg_guild_id, msg_ch_id));
                match (vc_name, msg_name) {
                    (Some(a), Some(b)) => !(*a == *b),
                    _ => true,
                }
            },
            None => false,
        }
    }

    /// Records a guild snapshot: the name of every channel of `channels`
    /// (guild, channel, name), then the presence of every user of
    /// `voice_states` (user, channel if any) who occupies a channel of guild
    /// `guild_id`. Later entries win over earlier ones for the same key.
    pub fn add_guild_snapshot(
        &mut self,
        guild_id: GuildId,
        channels: &Vec<(GuildId, ChannelId, String)>,
        voice_states: &Vec<(UserId, Option<ChannelId>)>,
    )
        ensures
            final(self).names() == names_with(old(self).names(), channels@),
            final(self).presences() == presences_with(old(self).presences(), guild_id, voice_states@),
    {
        let mut i: usize = 0;
        while i < channels.len()
            invariant
                i <= channels@.len(),
                self.names() == names_with(old(self).names(), channels@.subrange(0, i as int)),
                self.presences() == old(self).presences(),
            decreases channels.len() - i,
        {
            let entry = &channels[i];
            self.add_channel_name_pair(entry.0, entry.1, entry.2.clone());
            assert(channels@.subrange(0, i + 1).drop_last() =~= channels@.subrange(0, i as int));
            i = i + 1;
        }
        assert(channels@.subrange(0, i as int) =~= channels@);
        let mut j: usize = 0;
        while j < voice_states.len()
            invariant
                j <= voice_states@.len(),
                i == channels@.len(),
                self.names() == names_with(old(self).names(), channels@),
                self.presences() == presences_with(
                    old(self).presences(),
                    guild_id,
                    voice_states@.subrange(0, j as int),
                ),
            decreases voice_states.len() - j,
        {
            let (user_id, channel) = voice_states[j];
            assert(voice_states@.subrange(0, j + 1).drop_last() =~= voice_states@.subrange(
                0,
                j as int,
            ));
            if let Some(channel_id) = channel {
                self.add_or_update_user_voice_status(user_id, guild_id, channel_id);
            }
            j = j + 1;
        }
        assert(voice_states@.subrange(0, j as int) =~= voice_states@);
    }

    /// Applies a voice-state change: a user in a channel of a guild is
    /// recorded there; a user without guild or channel has left voice.
    pub fn update_voice_state(
        &mut self,
        user_id: UserId,
        guild_id: Option<GuildId>,
        channel_id: Option<ChannelId>,
    )
        ensures
            final(self).names() == old(self).names(),
            final(self).presences() == match (guild_id, channel_id) {
                (Some(g), Some(c)) => old(self).presences().insert(user_id, (g, c)),
                _ => old(self).presences().remove(user_id),
            },
    {
        match (guild_id, channel_id) {
            (Some(g), Some(c)) => self.add_or_update_user_voice_status(user_id, g, c),
            _ => self.remove_user_voice_status(&user_id),
        }
    }

    /// Every entry of the channel-name table, as (guild, channel, name).
    pub fn channel_name_entries(&self) -> (r: Vec<(GuildId, ChannelId, String)>)
        ensures
            lists_names(r@, self.names()),
    {
        let mut r: Vec<(GuildId, ChannelId, String)> = Vec::new();
        let entries = self.channel_names.iter();
        let ghost s = entries.remaining();
        for kv in it: entries
            invariant
                r@.len() == it.index(),
                it.seq() == s,
                s.no_duplicates(),
                s == spec_btree_map_iter(&self.channel_names).remaining(),
                forall|i: int|
                    #![trigger r@[i]]
                    0 <= i < r@.len() ==> r@[i].0 == (*it.seq()[i].0).0 && r@[i].1 == (
                        *it.seq()[i].0).1 && r@[i].2 == *it.seq()[i].1,
        {
            let (k, v) = kv;
            r.push((k.0, k.1, v.clone()));
        }
        proof {
            let m = self.channel_names@;
            assert forall|i: int| #![trigger r@[i]] 0 <= i < r@.len() implies self.names().contains_key(
                (r@[i].0, r@[i].1),
            ) && self.names()[(r@[i].0, r@[i].1)] == r@[i].2@ by {
                assert(m.contains_key(*s[i].0));
            }
            assert forall|k: ChannelKey| #[trigger] self.names().contains_key(k) implies exists|
                i: int,
            | 0 <= i < r@.len() && #[trigger] r@[i].0 == k.0 && r@[i].1 == k.1 by {
                assert(m.contains_key(k));
                assert(s.contains((&k, &m[k])));
                let i = choose|i: int| 0 <= i < s.len() && s[i] == (&k, &m[k]);
                assert(r@[i].0 == k.0 && r@[i].1 == k.1);
            }
            assert forall|i: int, j: int| 0 <= i < j < r@.len() implies (#[trigger] r@[i].0, r@[i].1)
                != (#[trigger] r@[j].0, r@[j].1) by {
                if (r@[i].0, r@[i].1) == (r@[j].0, r@[j].1) {
                    assert(*s[i].0 == *s[j].0);
                    assert(m.contains_key(*s[i].0));
                    assert(*s[i].1 == m[*s[i].0]);
                    assert(*s[j].1 == m[*s[j].0]);
                    assert(s[i] == s[j]);
                }
            }
        }
        r
    }

    /// Every entry of the voice-presence table, as (user, guild, channel).
    pub fn voice_presence_entries(&self) -> (r: Vec<(UserId, GuildId, ChannelId)>)
        ensures
            lists_presences(r@, self.presences()),
    {
        let mut r: Vec<(UserId, GuildId, ChannelId)> = Vec::new();
        let entries = self.user_vc_pairs.iter();
        let ghost s = entries.remaining();
        for kv in it: entries
            invariant
                r@.len() == it.index(),
                it.seq() == s,
                s.no_duplicates(),
                s == spec_btree_map_iter(&self.user_vc_pairs).remaining(),
                forall|i: int|
                    #![trigger r@[i]]
                    0 <= i < r@.len() ==> r@[i].0 == *it.seq()[i].0 && r@[i].1 == (
                        *it.seq()[i].1).0 && r@[i].2 == (*it.seq()[i].1).1,
        {
            let (user_id, key) = kv;
            r.push((*user_id, key.0, key.1));
        }
        proof {
            let m = self.user_vc_pairs@;
            assert forall|i: int| #![trigger r@[i]] 0 <= i < r@.len() implies m.contains_key(r@[i].0)
                && m[r@[i].0] == (r@[i].1, r@[i].2) by {
                assert(m.contains_key(*s[i].0));
            }
            assert forall|u: UserId| #[trigger] m.contains_key(u) implies exists|i: int|
                0 <= i < r@.len() && #[trigger] r@[i].0 == u by {
                assert(s.contains((&u, &m[u])));
                let i = choose|i: int| 0 <= i < s.len() && s[i] == (&u, &m[u]);
                assert(r@[i].0 == u);
            }
            assert forall|i: int, j: int| 0 <= i < j < r@.len() implies #[trigger] r@[i].0
                != #[trigger] r@[j].0 by {
                if r@[i].0 == r@[j].0 {
                    assert(m.contains_key(*s[i].0));
                    assert(*s[i].1 == m[*s[i].0]);
                    assert(*s[j].1 == m[*s[j].0]);
                    assert(s[i] == s[j]);
                }
            }
        }
        r
    }

    /// Whether a message posted by `author` in channel `channel_id` calls for a
    /// warning: only a message posted in a guild can, and then exactly when it
    /// is out of the author's voice context.
    pub fn should_warn(&self, author: &UserId, guild_id: Option<GuildId>, channel_id: ChannelId) -> (r:
        bool)
        ensures
            r == match guild_id {
                Some(g) => out_of_vc(self.names(), self.presences(), *author, (g, channel_id)),
                None => false,
            },
    {
        match guild_id {
            Some(g) => self.msg_is_out_of_vc(author, g, channel_id),
            None => false,
        }
    }

    /// Empties both tables.
    pub fn clear(&mut self)
        ensures
            final(self).names() == Map::<ChannelKey, Seq<char>>::empty(),
            final(self).presences() == Map::<UserId, ChannelKey>::empty(),
    {
        self.channel_names.clear();
        self.user_vc_pairs.clear();
        assert(self.names() =~= Map::<ChannelKey, Seq<char>>::empty());
    }
}

} // verus!
