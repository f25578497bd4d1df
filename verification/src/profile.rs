use vstd::prelude::*;

use crate::discord::ReactionUserInfo;
use crate::message_format::{digits_to_u64, digits_value, is_ascii_digit};
use crate::text::{chars_of, decimal_spec, push_decimal, push_str};

verus! {

/// The user part of Discord's profile answer, as read from its JSON: each field holds the
/// text found there, `None` where the field is missing or not text.
#[derive(Clone, Debug)]
pub struct RawProfileUser {
    pub id: Option<String>,
    pub username: Option<String>,
    pub global_name: Option<String>,
    pub avatar: Option<String>,
}

/// One entry of the profile's mutual servers, as read from its JSON.
#[derive(Clone, Debug)]
pub struct RawMutualGuild {
    pub id: Option<String>,
    pub nick: Option<String>,
}

/// One entry of the member's role list, as read from its JSON: text, a number, or anything
/// else.
#[derive(Clone, Debug)]
pub enum RawRoleId {
    Text(String),
    Number(u64),
    Other,
}

/// Discord's answer to `/users/{id}/profile`, as read from its JSON: `user`, the `bio` and
/// `pronouns` of `user_profile`, `mutual_guilds`, `mutual_friends_count` and the `nick` and
/// `roles` of `guild_member`.
#[derive(Clone, Debug)]
pub struct RawUserProfile {
    pub user: Option<RawProfileUser>,
    pub bio: Option<String>,
    pub pronouns: Option<String>,
    pub mutual_guilds: Option<Vec<RawMutualGuild>>,
    pub mutual_friends_count: Option<u64>,
    pub guild_nick: Option<String>,
    pub roles: Option<Vec<RawRoleId>>,
}

/// The relationship with a user, as Discord counts relationships.
#[derive(Clone, Copy, Debug, PartialEq, Eq, Structural)]
pub enum FriendStatus {
    NoRelationship,
    Friend,
    Blocked,
    IncomingRequest,
    OutgoingRequest,
}

#[derive(Clone, Debug)]
pub struct MutualGuildInfo {
    pub guild_id: u64,
    pub nick: Option<String>,
}

/// What the profile popup shows of a user.
#[derive(Clone, Debug)]
pub struct UserProfileInfo {
    pub user_id: u64,
    pub username: String,
    pub global_name: Option<String>,
    pub guild_nick: Option<String>,
    pub role_ids: Vec<u64>,
    pub avatar_url: Option<String>,
    pub bio: Option<String>,
    pub pronouns: Option<String>,
    pub mutual_guilds: Vec<MutualGuildInfo>,
    pub mutual_friends_count: u32,
    pub friend_status: FriendStatus,
    pub note: Option<String>,
}

/// A text without one leading `+`.
pub open spec fn unsigned_part(s: Seq<char>) -> Seq<char> {
    if s.len() > 0 && s[0] == '+' {
        s.drop_first()
    } else {
        s
    }
}

/// The number a text writes as `str::parse::<u64>` reads it: an optional `+`, then one or
/// more decimal digits whose value fits in a `u64`.
pub open spec fn parse_u64_spec(s: Seq<char>) -> Option<u64> {
    let digits = unsigned_part(s);
    if digits.len() > 0 && (forall|i: int| 0 <= i < digits.len() ==> is_ascii_digit(#[trigger] digits[i]))
        && digits_value(digits) <= u64::MAX {
        Some(digits_value(digits) as u64)
    } else {
        None
    }
}

/// An id written as text: the number it writes, when that is not zero.
pub open spec fn parse_id_spec(s: Seq<char>) -> Option<u64> {
    match parse_u64_spec(s) {
        Some(v) => if v != 0 {
            Some(v)
        } else {
            None
        },
        None => None,
    }
}

/// A text that is there and not empty.
pub open spec fn non_empty(s: Option<String>) -> Option<Seq<char>> {
    match s {
        Some(t) => if t@.len() > 0 {
            Some(t@)
        } else {
            None
        },
        None => None,
    }
}

/// Whether `o` holds the text `t`, or both hold nothing.
pub open spec fn same_text(o: Option<String>, t: Option<Seq<char>>) -> bool {
    match (o, t) {
        (Some(a), Some(b)) => a@ == b,
        (None, None) => true,
        _ => false,
    }
}

/// The avatar address of a user: from the user's id (any number) and a non-empty avatar
/// hash; an animated avatar (hash beginning with `a_`) is a GIF, any other a PNG.
pub open spec fn avatar_url_spec(user: RawProfileUser) -> Option<Seq<char>> {
    match (user.id, non_empty(user.avatar)) {
        (Some(id), Some(hash)) => match parse_u64_spec(id@) {
            Some(n) => {
                let animated = hash.len() >= 2 && hash[0] == 'a' && hash[1] == '_';
                let ext = if animated {
                    "gif"@
                } else {
                    "png"@
                };
                Some("https://cdn.discordapp.com/avatars/"@ + decimal_spec(n as nat) + "/"@ + hash + "."@
                    + ext)
            },
            None => None,
        },
        _ => None,
    }
}

/// A role id of the member's list: text that writes a number, or a number; zero is no id.
pub open spec fn role_id_spec(r: RawRoleId) -> Option<u64> {
    match r {
        RawRoleId::Text(t) => parse_id_spec(t@),
        RawRoleId::Number(n) => if n != 0 {
            Some(n)
        } else {
            None
        },
        RawRoleId::Other => None,
    }
}

/// The role ids of a list, skipping entries that are none, in order.
pub open spec fn role_ids_spec(rs: Seq<RawRoleId>) -> Seq<u64>
    decreases rs.len(),
{
    if rs.len() == 0 {
        Seq::empty()
    } else {
        let prev = role_ids_spec(rs.drop_last());
        match role_id_spec(rs.last()) {
            Some(id) => prev.push(id),
            None => prev,
        }
    }
}

/// The mutual servers of a list, skipping entries without a valid id, in order.
pub open spec fn mutual_guild_ids_spec(gs: Seq<RawMutualGuild>) -> Seq<u64>
    decreases gs.len(),
{
    if gs.len() == 0 {
        Seq::empty()
    } else {
        let prev = mutual_guild_ids_spec(gs.drop_last());
        match gs.last().id {
            Some(id) => match parse_id_spec(id@) {
                Some(g) => prev.push(g),
                None => prev,
            },
            None => prev,
        }
    }
}

/// The nicknames that go with `mutual_guild_ids_spec`, each non-empty or none.
pub open spec fn mutual_guild_nicks_spec(gs: Seq<RawMutualGuild>) -> Seq<Option<Seq<char>>>
    decreases gs.len(),
{
    if gs.len() == 0 {
        Seq::empty()
    } else {
        let prev = mutual_guild_nicks_spec(gs.drop_last());
        match gs.last().id {
            Some(id) => match parse_id_spec(id@) {
                Some(g) => prev.push(non_empty(gs.last().nick)),
                None => prev,
            },
            None => prev,
        }
    }
}

/// Reads a number as `str::parse::<u64>` does (`parse_u64_spec`).
pub fn parse_u64(s: &str) -> (v: Option<u64>)
    ensures
        v == parse_u64_spec(s@),
{
    let chars = chars_of(s);
    let n = chars.len();
    let start: usize = if n > 0 && chars[0] == '+' {
        1
    } else {
        0
    };
    let ghost digits = unsigned_part(s@);
    assert(digits =~= chars@.subrange(start as int, n as int));
    if start == n {
        return None;
    }
    let mut k: usize = start;
    while k < n
        invariant
            start <= k <= n == chars@.len(),
            digits == unsigned_part(s@),
            digits == chars@.subrange(start as int, n as int),
            forall|q: int| start <= q < k ==> is_ascii_digit(#[trigger] chars@[q]),
        decreases n - k,
    {
        if !('0' <= chars[k] && chars[k] <= '9') {
            assert(!is_ascii_digit(digits[k - start]));
            return None;
        }
        k = k + 1;
    }
    assert forall|i: int| 0 <= i < digits.len() implies is_ascii_digit(#[trigger] digits[i]) by {
        assert(digits[i] == chars@[start + i]);
    }
    digits_to_u64(chars.as_slice(), start, n)
}

/// Reads an id: a number other than zero.
pub fn parse_id(s: &str) -> (v: Option<u64>)
    ensures
        v == parse_id_spec(s@),
{
    match parse_u64(s) {
        Some(v) => if v != 0 {
            Some(v)
        } else {
            None
        },
        None => None,
    }
}

fn non_empty_text(s: &Option<String>) -> (out: Option<String>)
    ensures
        same_text(out, non_empty(*s)),
{
    match s {
        Some(t) => {
            if t.as_str().unicode_len() > 0 {
                Some(t.clone())
            } else {
                None
            }
        },
        None => None,
    }
}

/// The avatar address of a user (`avatar_url_spec`).
pub fn profile_avatar_url(user: &RawProfileUser) -> (url: Option<String>)
    ensures
        same_text(url, avatar_url_spec(*user)),
{
    let id = match &user.id {
        Some(id) => id,
        None => {
            return None;
        },
    };
    let hash = match non_empty_text(&user.avatar) {
        Some(h) => h,
        None => {
            return None;
        },
    };
    let n = match parse_u64(id.as_str()) {
        Some(n) => n,
        None => {
            return None;
        },
    };
    let hash_chars = chars_of(hash.as_str());
    let animated = hash_chars.len() >= 2 && hash_chars[0] == 'a' && hash_chars[1] == '_';
    let mut url = String::new();
    push_str(&mut url, "https://cdn.discordapp.com/avatars/");
    push_decimal(&mut url, n);
    push_str(&mut url, "/");
    push_str(&mut url, hash.as_str());
    push_str(&mut url, ".");
    if animated {
        push_str(&mut url, "gif");
    } else {
        push_str(&mut url, "png");
    }
    Some(url)
}

/// A role id of the member's list (`role_id_spec`).
pub fn parse_profile_role_id(r: &RawRoleId) -> (id: Option<u64>)
    ensures
        id == role_id_spec(*r),
{
    match r {
        RawRoleId::Text(t) => parse_id(t.as_str()),
        RawRoleId::Number(n) => if *n != 0 {
            Some(*n)
        } else {
            None
        },
        RawRoleId::Other => None,
    }
}

fn profile_role_ids(rs: &Vec<RawRoleId>) -> (ids: Vec<u64>)
    ensures
        ids@ == role_ids_spec(rs@),
{
    let mut ids: Vec<u64> = Vec::new();
    let mut i: usize = 0;
    while i < rs.len()
        invariant
            i <= rs@.len(),
            ids@ == role_ids_spec(rs@.take(i as int)),
        decreases rs@.len() - i,
    {
        assert(rs@.take(i + 1).drop_last() =~= rs@.take(i as int));
        match parse_profile_role_id(&rs[i]) {
            Some(id) => ids.push(id),
            None => {},
        }
        i = i + 1;
    }
    assert(rs@.take(i as int) =~= rs@);
    ids
}

/// Whether `out` holds the mutual servers that `gs` lists, in order.
pub open spec fn mutual_guilds_match(out: Seq<MutualGuildInfo>, gs: Seq<RawMutualGuild>) -> bool {
    &&& out.len() == mutual_guild_ids_spec(gs).len()
    &&& mutual_guild_nicks_spec(gs).len() == out.len()
    &&& forall|t: int|
        0 <= t < out.len() ==> #[trigger] out[t].guild_id == mutual_guild_ids_spec(gs)[t]
            && same_text(out[t].nick, mutual_guild_nicks_spec(gs)[t])
}

fn mutual_guilds_of(gs: &Vec<RawMutualGuild>) -> (out: Vec<MutualGuildInfo>)
    ensures
        mutual_guilds_match(out@, gs@),
{
    let mut out: Vec<MutualGuildInfo> = Vec::new();
    let mut i: usize = 0;
    while i < gs.len()
        invariant
            i <= gs@.len(),
            mutual_guilds_match(out@, gs@.take(i as int)),
        decreases gs@.len() - i,
    {
        assert(gs@.take(i + 1).drop_last() =~= gs@.take(i as int));
        assert(gs@.take(i + 1).last() == gs@[i as int]);
        let ghost ids_before = mutual_guild_ids_spec(gs@.take(i as int));
        let ghost nicks_before = mutual_guild_nicks_spec(gs@.take(i as int));
        let ghost out_before = out@;
        let mut pushed = false;
        if let Some(id) = &gs[i].id {
            if let Some(g) = parse_id(id.as_str()) {
                let nick = non_empty_text(&gs[i].nick);
                out.push(MutualGuildInfo { guild_id: g, nick });
                pushed = true;
                proof {
                    let ids_after = mutual_guild_ids_spec(gs@.take(i + 1));
                    let nicks_after = mutual_guild_nicks_spec(gs@.take(i + 1));
                    assert(ids_after == ids_before.push(g));
                    assert(nicks_after == nicks_before.push(non_empty(gs@[i as int].nick)));
                    assert forall|t: int| 0 <= t < out@.len() implies #[trigger] out@[t].guild_id
                        == ids_after[t] && same_text(out@[t].nick, nicks_after[t]) by {
                        if t < out_before.len() {
                            assert(out@[t] == out_before[t]);
                        }
                    }
                    assert(mutual_guilds_match(out@, gs@.take(i + 1)));
                }
            }
        }
        if !pushed {
            assert(mutual_guild_ids_spec(gs@.take(i + 1)) == ids_before);
            assert(mutual_guild_nicks_spec(gs@.take(i + 1)) == nicks_before);
            assert(mutual_guilds_match(out@, gs@.take(i + 1)));
        }
        i = i + 1;
    }
    assert(gs@.take(i as int) =~= gs@);
    out
}

/// Builds the profile the popup shows from Discord's answer. The username is empty where
/// the answer has none; the display name, nickname, bio and pronouns count only when not
/// empty; mutual servers and roles without a valid id are skipped; the count of mutual
/// friends is held at `u32::MAX`. The relationship is left as `NoRelationship` for the caller
/// to fill in.
pub fn parse_user_profile_response(user_id: u64, body: &RawUserProfile, note: Option<String>) -> (profile:
    UserProfileInfo)
    ensures
        profile.user_id == user_id,
        profile.username@ == (match body.user {
            Some(u) => match u.username {
                Some(n) => n@,
                None => Seq::empty(),
            },
            None => Seq::empty(),
        }),
        same_text(
            profile.global_name,
            match body.user {
                Some(u) => non_empty(u.global_name),
                None => None,
            },
        ),
        same_text(
            profile.avatar_url,
            match body.user {
                Some(u) => avatar_url_spec(u),
                None => None,
            },
        ),
        same_text(profile.bio, non_empty(body.bio)),
        same_text(profile.pronouns, non_empty(body.pronouns)),
        same_text(profile.guild_nick, non_empty(body.guild_nick)),
        profile.role_ids@ == (match body.roles {
            Some(rs) => role_ids_spec(rs@),
            None => Seq::empty(),
        }),
        match body.mutual_guilds {
            Some(gs) => mutual_guilds_match(profile.mutual_guilds@, gs@),
            None => profile.mutual_guilds@.len() == 0,
        },
        profile.mutual_friends_count == (match body.mutual_friends_count {
            Some(n) => if n > u32::MAX {
                u32::MAX
            } else {
                n as u32
            },
            None => 0,
        }),
        profile.friend_status == FriendStatus::NoRelationship,
        profile.note == note,
{
    let (username, global_name, avatar_url) = match &body.user {
        Some(u) => {
            let username = match &u.username {
                Some(n) => n.clone(),
                None => String::new(),
            };
            (username, non_empty_text(&u.global_name), profile_avatar_url(u))
        },
        None => (String::new(), None, None),
    };
    let mutual_guilds = match &body.mutual_guilds {
        Some(gs) => mutual_guilds_of(gs),
        None => Vec::new(),
    };
    let mutual_friends_count: u32 = match body.mutual_friends_count {
        Some(n) => if n > u32::MAX as u64 {
            u32::MAX
        } else {
            n as u32
        },
        None => 0,
    };
    let role_ids = match &body.roles {
        Some(rs) => profile_role_ids(rs),
        None => Vec::new(),
    };
    UserProfileInfo {
        user_id,
        username,
        global_name,
        guild_nick: non_empty_text(&body.guild_nick),
        role_ids,
        avatar_url,
        bio: non_empty_text(&body.bio),
        pronouns: non_empty_text(&body.pronouns),
        mutual_guilds,
        mutual_friends_count,
        friend_status: FriendStatus::NoRelationship,
        note,
    }
}

/// A user of a reaction list, as read from its JSON: `id`, `global_name` and `username`,
/// each the text found there.
#[derive(Clone, Debug)]
pub struct RawReactionUser {
    pub id: Option<String>,
    pub global_name: Option<String>,
    pub username: Option<String>,
}

/// A user of a reaction list as shown: a valid id, and the display name when it is not
/// empty, else the username; none without either.
pub open spec fn reaction_user_spec(u: RawReactionUser) -> Option<(u64, Seq<char>)> {
    match u.id {
        Some(id) => match parse_id_spec(id@) {
            Some(uid) => match non_empty(u.global_name) {
                Some(name) => Some((uid, name)),
                None => match u.username {
                    Some(name) => Some((uid, name@)),
                    None => None,
                },
            },
            None => None,
        },
        None => None,
    }
}

/// A user of a reaction list (`reaction_user_spec`).
pub fn reaction_user_info_from_raw(u: &RawReactionUser) -> (info: Option<ReactionUserInfo>)
    ensures
        match info {
            Some(i) => reaction_user_spec(*u) == Some((i.user_id, i.display_name@)),
            None => reaction_user_spec(*u) is None,
        },
{
    let user_id = match &u.id {
        Some(id) => match parse_id(id.as_str()) {
            Some(v) => v,
            None => {
                return None;
            },
        },
        None => {
            return None;
        },
    };
    let display_name = match non_empty_text(&u.global_name) {
        Some(name) => name,
        None => match &u.username {
            Some(name) => name.clone(),
            None => {
                return None;
            },
        },
    };
    Some(ReactionUserInfo { user_id, display_name })
}

} // verus!
