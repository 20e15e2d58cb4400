use crate::model::{lists_names, lists_presences, ChannelId, GuildId, Model, UserId};
use vstd::prelude::*;
use vstd::string::{StrSliceExecFns, StringExecFns};

verus! {

/// First lines of the dump: the title and the columns of the channel-name table.
pub const NAMES_HEADER: &'static str = "channel_names:\nguild_id,channel_id,name\n";

/// Lines between the two tables of the dump: the title and the columns of the
/// voice-presence table.
pub const PRESENCES_HEADER: &'static str = "user_vc_pairs:\nuser_id,guild_id,channel_id\n";

/// The longest reply, in characters, that the platform accepts.
pub const MAX_MESSAGE_CHARS: usize = 2000;

/// Sent in place of a status dump that would not fit in one message.
pub const STATUS_TOO_LONG: &'static str = "内容が2000 Unicode Code Pointを越えました。ログを参照してください。";

/// The decimal digit `d` as a character.
pub open spec fn digit_char(d: nat) -> char {
    if d == 0 {
        '0'
    } else if d == 1 {
        '1'
    } else if d == 2 {
        '2'
    } else if d == 3 {
        '3'
    } else if d == 4 {
        '4'
    } else if d == 5 {
        '5'
    } else if d == 6 {
        '6'
    } else if d == 7 {
        '7'
    } else if d == 8 {
        '8'
    } else {
        '9'
    }
}

/// `n` written in decimal, without leading zeros.
pub open spec fn decimal(n: nat) -> Seq<char>
    decreases n,
{
    if n < 10 {
        seq![digit_char(n)]
    } else {
        decimal(n / 10).push(digit_char(n % 10))
    }
}

/// One dump line of the channel-name table: `guild,channel,name`.
pub open spec fn name_line(e: (GuildId, ChannelId, String)) -> Seq<char> {
    decimal(e.0 as nat) + seq![','] + decimal(e.1 as nat) + seq![','] + e.2@ + seq!['\n']
}

/// One dump line of the voice-presence table: `user,guild,channel`.
pub open spec fn presence_line(e: (UserId, GuildId, ChannelId)) -> Seq<char> {
    decimal(e.0 as nat) + seq![','] + decimal(e.1 as nat) + seq![','] + decimal(e.2 as nat) + seq![
        '\n',
    ]
}

/// The lines of all of `entries`, in order.
pub open spec fn name_lines(entries: Seq<(GuildId, ChannelId, String)>) -> Seq<char>
    decreases entries.len(),
{
    if entries.len() == 0 {
        Seq::empty()
    } else {
        name_lines(entries.drop_last()) + name_line(entries.last())
    }
}

/// The lines of all of `entries`, in order.
pub open spec fn presence_lines(entries: Seq<(UserId, GuildId, ChannelId)>) -> Seq<char>
    decreases entries.len(),
{
    if entries.len() == 0 {
        Seq::empty()
    } else {
        presence_lines(entries.drop_last()) + presence_line(entries.last())
    }
}

/// The dump of the two tables: the channel names first, then the voice
/// presences, each under its header.
pub open spec fn dump_text(
    names: Seq<(GuildId, ChannelId, String)>,
    presences: Seq<(UserId, GuildId, ChannelId)>,
) -> Seq<char> {
    NAMES_HEADER@ + name_lines(names) + PRESENCES_HEADER@ + presence_lines(presences)
}

fn digit_str(d: u64) -> (r: &'static str)
    requires
        d < 10,
    ensures
        r@ == seq![digit_char(d as nat)],
{
    proof {
        reveal_strlit("0");
        reveal_strlit("1");
        reveal_strlit("2");
        reveal_strlit("3");
        reveal_strlit("4");
        reveal_strlit("5");
        reveal_strlit("6");
        reveal_strlit("7");
        reveal_strlit("8");
        reveal_strlit("9");
    }
    if d == 0 {
        "0"
    } else if d == 1 {
        "1"
    } else if d == 2 {
        "2"
    } else if d == 3 {
        "3"
    } else if d == 4 {
        "4"
    } else if d == 5 {
        "5"
    } else if d == 6 {
        "6"
    } else if d == 7 {
        "7"
    } else if d == 8 {
        "8"
    } else {
        "9"
    }
}

/// Appends `n` in decimal to `out`.
pub fn push_decimal(out: &mut String, n: u64)
    ensures
        final(out)@ == old(out)@ + decimal(n as nat),
    decreases n,
{
    if n >= 10 {
        push_decimal(out, n / 10);
    }
    out.append(digit_str(n % 10));
    proof {
        if n >= 10 {
            assert(decimal(n as nat) == decimal((n / 10) as nat).push(digit_char((n % 10) as nat)));
        }
    }
    assert(out@ =~= old(out)@ + decimal(n as nat));
}

fn push_comma(out: &mut String)
    ensures
        final(out)@ == old(out)@ + seq![','],
{
    proof {
        reveal_strlit(",");
    }
    out.append(",");
}

fn push_newline(out: &mut String)
    ensures
        final(out)@ == old(out)@ + seq!['\n'],
{
    proof {
        reveal_strlit("\n");
    }
    out.append("\n");
}

/// Renders the two tables given as entry lists.
pub fn render_dump(
    names: &Vec<(GuildId, ChannelId, String)>,
    presences: &Vec<(UserId, GuildId, ChannelId)>,
) -> (r: String)
    ensures
        r@ == dump_text(names@, presences@),
{
    let mut out = String::new();
    out.append(NAMES_HEADER);
    let mut i: usize = 0;
    while i < names.len()
        invariant
            i <= names@.len(),
            out@ == NAMES_HEADER@ + name_lines(names@.subrange(0, i as int)),
        decreases names.len() - i,
    {
        let ghost before = out@;
        let e = &names[i];
        push_decimal(&mut out, e.0);
        push_comma(&mut out);
        push_decimal(&mut out, e.1);
        push_comma(&mut out);
        out.append(e.2.as_str());
        push_newline(&mut out);
        assert(names@.subrange(0, i + 1).drop_last() =~= names@.subrange(0, i as int));
        assert(out@ =~= before + name_line(names@[i as int]));
        i = i + 1;
    }
    assert(names@.subrange(0, i as int) =~= names@);
    out.append(PRESENCES_HEADER);
    let mut j: usize = 0;
    while j < presences.len()
        invariant
            j <= presences@.len(),
            out@ == NAMES_HEADER@ + name_lines(names@) + PRESENCES_HEADER@ + presence_lines(
                presences@.subrange(0, j as int),
            ),
        decreases presences.len() - j,
    {
        let ghost before = out@;
        let e = presences[j];
        push_decimal(&mut out, e.0);
        push_comma(&mut out);
        push_decimal(&mut out, e.1);
        push_comma(&mut out);
        push_decimal(&mut out, e.2);
        push_newline(&mut out);
        assert(presences@.subrange(0, j + 1).drop_last() =~= presences@.subrange(0, j as int));
        assert(out@ =~= before + presence_line(presences@[j as int]));
        j = j + 1;
    }
    assert(presences@.subrange(0, j as int) =~= presences@);
    out
}

impl Model {
    /// A diagnostic dump of both tables: the channel names first, then the
    /// voice presences, each entry on a line of its own. Entries come in a
    /// stable order that carries no meaning.
    pub fn dump(&self) -> (r: String)
        ensures
            exists|names: Seq<(GuildId, ChannelId, String)>, presences: Seq<(UserId, GuildId, ChannelId)>|
                {
                    &&& lists_names(names, self.names())
                    &&& lists_presences(presences, self.presences())
                    &&& r@ == dump_text(names, presences)
                },
    {
        let names = self.channel_name_entries();
        let presences = self.voice_presence_entries();
        render_dump(&names, &presences)
    }
}

/// The reply to a status request: the dump itself when it fits in one
/// message, else a notice that it is too long.
pub fn status_reply(dump: String) -> (r: String)
    ensures
        dump@.len() <= MAX_MESSAGE_CHARS ==> r@ == dump@,
        dump@.len() > MAX_MESSAGE_CHARS ==> r@ == STATUS_TOO_LONG@,
{
    if dump.as_str().unicode_len() <= MAX_MESSAGE_CHARS {
        dump
    } else {
        String::from_str(STATUS_TOO_LONG)
    }
}

} // verus!
