//! The commands that clients can give.

use vstd::prelude::*;
use crate::commands::admin::admin_step;
use crate::commands::user::user_step;
use crate::commands::user::Chance;
use crate::models::ChannelView;
use crate::ws::CommandCallView;

pub mod admin;
pub mod user;

verus! {

/// The names of the commands that everyone can give.
pub open spec fn user_commands() -> Seq<Seq<char>> {
    seq![
        "/help"@,
        "/echo"@,
        "/calc"@,
        "/roll"@,
        "/get_history"@,
        "/propose_channel"@,
        "/get_active_users"@,
    ]
}

/// The names of the administrators' commands.
pub open spec fn admin_commands() -> Seq<Seq<char>> {
    seq![
        "/ban"@,
        "/rm_admin"@,
        "/meow_event"@,
        "/stop_meow"@,
        "/delete_channel"@,
        "/list_proposals"@,
        "/approve_channel"@,
        "/reject_channel"@,
        "/channel_ban"@,
        "/channel_unban"@,
    ]
}

/// How long each name is, and the letter behind its slash: no two names agree in both.
pub proof fn lemma_name_marks()
    ensures
        "/help"@.len() == 5 && "/help"@[1] == 'h',
        "/echo"@.len() == 5 && "/echo"@[1] == 'e',
        "/calc"@.len() == 5 && "/calc"@[1] == 'c',
        "/roll"@.len() == 5 && "/roll"@[1] == 'r',
        "/get_history"@.len() == 12 && "/get_history"@[1] == 'g',
        "/propose_channel"@.len() == 16 && "/propose_channel"@[1] == 'p',
        "/get_active_users"@.len() == 17 && "/get_active_users"@[1] == 'g',
        "/ban"@.len() == 4 && "/ban"@[1] == 'b',
        "/rm_admin"@.len() == 9 && "/rm_admin"@[1] == 'r',
        "/meow_event"@.len() == 11 && "/meow_event"@[1] == 'm',
        "/stop_meow"@.len() == 10 && "/stop_meow"@[1] == 's',
        "/delete_channel"@.len() == 15 && "/delete_channel"@[1] == 'd',
        "/list_proposals"@.len() == 15 && "/list_proposals"@[1] == 'l',
        "/approve_channel"@.len() == 16 && "/approve_channel"@[1] == 'a',
        "/reject_channel"@.len() == 15 && "/reject_channel"@[1] == 'r',
        "/channel_ban"@.len() == 12 && "/channel_ban"@[1] == 'c',
        "/channel_unban"@.len() == 14 && "/channel_unban"@[1] == 'c',
{
    reveal_strlit("/help");
    reveal_strlit("/echo");
    reveal_strlit("/calc");
    reveal_strlit("/roll");
    reveal_strlit("/get_history");
    reveal_strlit("/propose_channel");
    reveal_strlit("/get_active_users");
    reveal_strlit("/ban");
    reveal_strlit("/rm_admin");
    reveal_strlit("/meow_event");
    reveal_strlit("/stop_meow");
    reveal_strlit("/delete_channel");
    reveal_strlit("/list_proposals");
    reveal_strlit("/approve_channel");
    reveal_strlit("/reject_channel");
    reveal_strlit("/channel_ban");
    reveal_strlit("/channel_unban");
}

/// All commands have different names, so that no user's command hides an administrator's.
pub proof fn lemma_commands_distinct()
    ensures
        (user_commands() + admin_commands()).no_duplicates(),
{
    lemma_name_marks();
    let all = user_commands() + admin_commands();
    assert forall|i: int, j: int| 0 <= i < all.len() && 0 <= j < all.len() && i != j implies all[i]
        != all[j] by {
        assert(all[i].len() != all[j].len() || all[i][1] != all[j][1]);
    }
}

/// A command that everyone can give is handled exactly if its name is among theirs, and an
/// administrator's command exactly if its name is among the administrators'.
pub proof fn lemma_handled(
    command: Seq<char>,
    args: Seq<char>,
    channel: ChannelView,
    username: Seq<char>,
    chance: Chance,
    is_super_admin: bool,
    now: int,
)
    ensures
        user_step(command, args, channel, username, chance) !is NotHandled
            <==> user_commands().contains(command),
        admin_step(command, args, channel, username, is_super_admin, now) !is NotHandled
            <==> admin_commands().contains(command),
{
    let u = user_commands();
    assert(u[0] == "/help"@);
    assert(u[1] == "/echo"@);
    assert(u[2] == "/calc"@);
    assert(u[3] == "/roll"@);
    assert(u[4] == "/get_history"@);
    assert(u[5] == "/propose_channel"@);
    assert(u[6] == "/get_active_users"@);
    let a = admin_commands();
    assert(a[0] == "/ban"@);
    assert(a[1] == "/rm_admin"@);
    assert(a[2] == "/meow_event"@);
    assert(a[3] == "/stop_meow"@);
    assert(a[4] == "/delete_channel"@);
    assert(a[5] == "/list_proposals"@);
    assert(a[6] == "/approve_channel"@);
    assert(a[7] == "/reject_channel"@);
    assert(a[8] == "/channel_ban"@);
    assert(a[9] == "/channel_unban"@);
}

/// An administrator's command starts only for an administrator; for anyone else it is answered like
/// a command that there is not.
pub proof fn lemma_admins_only(call: CommandCallView, chance: Chance, now: int)
    requires
        !call.user.is_admin,
        !call.user.is_super_admin,
        !user_commands().contains(call.command),
    ensures
        call.step(chance, now) == call.unknown(),
{
    lemma_handled(call.command, call.args, call.channel, call.username, chance, false, now);
}

} // verus!
