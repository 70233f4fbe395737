//! What each panel command hands to harbor and answers, stated over its
//! arguments and harbor's reply.
use vstd::prelude::*;

use crate::commands::{
    begin_plan, final_answer, lookup_outcome, room_plan, Answer, HarborOutput, HarborRequest,
    Stage,
};
use crate::formats::{json_parse, json_text_member, utf8_lossy};
use crate::harbor::{checked_arg, harbor_binary_of, policy_override, text_reply};
use crate::paths::{path_after_prefix, path_joined, tilde_expanded};
use crate::text::{decimal, trim};
use vstd::utf8::encode_utf8;

verus! {

/// A value harbor takes as one argument: not blank once trimmed, and not
/// beginning with `-`.
pub open spec fn plain_value(v: Seq<char>) -> bool {
    trim(v).len() > 0 && trim(v)[0] != '-'
}

/// An optional value that is absent, blank, or plain.
pub open spec fn plain_or_blank(o: Option<String>) -> bool {
    match o {
        Some(v) => trim(v@).len() == 0 || plain_value(v@),
        None => true,
    }
}

/// An optional value that would read as a flag.
pub open spec fn flag_like(o: Option<String>) -> bool {
    match o {
        Some(v) => trim(v@).len() > 0 && trim(v@)[0] == '-',
        None => false,
    }
}

/// The arguments an optional value adds: `flag` and the trimmed value, or
/// nothing when it is absent or blank.
pub open spec fn optional_args(flag: Seq<char>, o: Option<String>) -> Seq<Seq<char>> {
    match o {
        Some(v) => if trim(v@).len() > 0 {
            seq![flag, trim(v@)]
        } else {
            seq![]
        },
        None => seq![],
    }
}

/// A value is refused exactly when it is blank or begins with `-` once
/// trimmed; any other value is accepted as its trimmed text, whatever else it
/// holds.
pub proof fn law_argument_check(label: Seq<char>, value: Seq<char>)
    ensures
        trim(value).len() == 0 ==> checked_arg(label, value) == Err::<Seq<char>, Seq<char>>(
            label + " must not be empty"@,
        ),
        trim(value).len() > 0 && trim(value)[0] == '-' ==> checked_arg(label, value) == Err::<
            Seq<char>,
            Seq<char>,
        >(label + " must not start with '-'"@),
        plain_value(value) ==> checked_arg(label, value) == Ok::<Seq<char>, Seq<char>>(trim(value)),
{
}

/// Adding an MCP server scopes the channel on the fly (`--map`), then runs
/// `mcp-add` in the room harbor names, with the trimmed values and, when
/// given, the trimmed argument list; without a room it cannot scope.
pub proof fn law_add_mcp(
    channel: String,
    name: String,
    command: String,
    args: Option<String>,
    room: Seq<char>,
)
    requires
        plain_value(channel@),
        plain_value(name@),
        plain_value(command@),
    ensures
        plain_or_blank(args) ==> begin_plan(HarborRequest::AddMcp { channel, name, command, args })
            == Ok::<(Seq<Seq<char>>, Stage), Seq<char>>(
            (seq!["channel-tools"@, trim(channel@), "--map"@, "--json"@], Stage::RoomLookup),
        ),
        plain_or_blank(args) ==> room_plan(
            HarborRequest::AddMcp { channel, name, command, args },
            Some(room),
        ) == Ok::<Seq<Seq<char>>, Seq<char>>(
            seq![
                "mcp-add"@,
                "--room"@,
                room,
                "--name"@,
                trim(name@),
                "--command"@,
                trim(command@),
            ] + optional_args("--args"@, args),
        ),
        plain_or_blank(args) ==> room_plan(
            HarborRequest::AddMcp { channel, name, command, args },
            None,
        ) == Err::<Seq<Seq<char>>, Seq<char>>("could not scope this channel"@),
        flag_like(args) ==> begin_plan(HarborRequest::AddMcp { channel, name, command, args })
            == Err::<(Seq<Seq<char>>, Stage), Seq<char>>("args must not start with '-'"@),
{
    let base = seq![
        "mcp-add"@,
        "--room"@,
        room,
        "--name"@,
        trim(name@),
        "--command"@,
        trim(command@),
    ];
    reveal_strlit("args");
    reveal_strlit(" must not start with '-'");
    reveal_strlit("args must not start with '-'");
    assert("args"@ + " must not start with '-'"@ =~= "args must not start with '-'"@);
    match args {
        Some(a) => {
            if trim(a@).len() == 0 {
                assert(base + optional_args("--args"@, args) =~= base);
            }
        },
        None => {
            assert(base + optional_args("--args"@, args) =~= base);
        },
    }
}

/// Installing a new skill scopes the channel on the fly, then runs
/// `skill-install` in the room harbor names, naming the skill when a name is
/// given; a flag-like name is refused before any run.
pub proof fn law_add_new_skill(
    channel: String,
    source: String,
    name: Option<String>,
    room: Seq<char>,
)
    requires
        plain_value(channel@),
        plain_value(source@),
    ensures
        plain_or_blank(name) ==> begin_plan(HarborRequest::AddNewSkill { channel, source, name })
            == Ok::<(Seq<Seq<char>>, Stage), Seq<char>>(
            (seq!["channel-tools"@, trim(channel@), "--map"@, "--json"@], Stage::RoomLookup),
        ),
        plain_or_blank(name) ==> room_plan(
            HarborRequest::AddNewSkill { channel, source, name },
            Some(room),
        ) == Ok::<Seq<Seq<char>>, Seq<char>>(
            seq!["skill-install"@, "--source"@, trim(source@), "--room"@, room] + optional_args(
                "--name"@,
                name,
            ),
        ),
        plain_or_blank(name) ==> room_plan(
            HarborRequest::AddNewSkill { channel, source, name },
            None,
        ) == Err::<Seq<Seq<char>>, Seq<char>>("could not scope this channel"@),
        flag_like(name) ==> begin_plan(HarborRequest::AddNewSkill { channel, source, name })
            == Err::<(Seq<Seq<char>>, Stage), Seq<char>>("name must not start with '-'"@),
{
    let base = seq!["skill-install"@, "--source"@, trim(source@), "--room"@, room];
    reveal_strlit("name");
    reveal_strlit(" must not start with '-'");
    reveal_strlit("name must not start with '-'");
    assert("name"@ + " must not start with '-'"@ =~= "name must not start with '-'"@);
    match name {
        Some(n) => {
            if trim(n@).len() == 0 {
                assert(base + optional_args("--name"@, name) =~= base);
            }
        },
        None => {
            assert(base + optional_args("--name"@, name) =~= base);
        },
    }
}

/// Adding an existing skill scopes the channel on the fly, then runs
/// `skill-room-add` in the room harbor names.
pub proof fn law_add_existing_skill(channel: String, skill: String, room: Seq<char>)
    requires
        plain_value(channel@),
        plain_value(skill@),
    ensures
        begin_plan(HarborRequest::AddExistingSkill { channel, skill }) == Ok::<
            (Seq<Seq<char>>, Stage),
            Seq<char>,
        >((seq!["channel-tools"@, trim(channel@), "--map"@, "--json"@], Stage::RoomLookup)),
        room_plan(HarborRequest::AddExistingSkill { channel, skill }, Some(room)) == Ok::<
            Seq<Seq<char>>,
            Seq<char>,
        >(seq!["skill-room-add"@, "--skill"@, trim(skill@), "--room"@, room]),
        room_plan(HarborRequest::AddExistingSkill { channel, skill }, None) == Err::<
            Seq<Seq<char>>,
            Seq<char>,
        >("could not scope this channel"@),
{
}

/// Removing a skill looks the room up without scoping the channel, then runs
/// `skill-remove` in that room; a channel without a room has nothing to
/// remove.
pub proof fn law_remove_skill(channel: String, skill: String, room: Seq<char>)
    requires
        plain_value(channel@),
        plain_value(skill@),
    ensures
        begin_plan(HarborRequest::RemoveSkill { channel, skill }) == Ok::<
            (Seq<Seq<char>>, Stage),
            Seq<char>,
        >((seq!["channel-tools"@, trim(channel@), "--json"@], Stage::RoomLookup)),
        room_plan(HarborRequest::RemoveSkill { channel, skill }, Some(room)) == Ok::<
            Seq<Seq<char>>,
            Seq<char>,
        >(seq!["skill-remove"@, "--name"@, trim(skill@), "--room"@, room, "--yes"@]),
        room_plan(HarborRequest::RemoveSkill { channel, skill }, None) == Err::<
            Seq<Seq<char>>,
            Seq<char>,
        >("this channel has no tools to remove"@),
{
}

/// Removing an MCP server looks the room up without scoping the channel,
/// then runs `mcp-remove` in that room.
pub proof fn law_remove_mcp(channel: String, name: String, room: Seq<char>)
    requires
        plain_value(channel@),
        plain_value(name@),
    ensures
        begin_plan(HarborRequest::RemoveMcp { channel, name }) == Ok::<
            (Seq<Seq<char>>, Stage),
            Seq<char>,
        >((seq!["channel-tools"@, trim(channel@), "--json"@], Stage::RoomLookup)),
        room_plan(HarborRequest::RemoveMcp { channel, name }, Some(room)) == Ok::<
            Seq<Seq<char>>,
            Seq<char>,
        >(seq!["mcp-remove"@, "--room"@, room, "--name"@, trim(name@)]),
        room_plan(HarborRequest::RemoveMcp { channel, name }, None) == Err::<
            Seq<Seq<char>>,
            Seq<char>,
        >("this channel has no tools to remove"@),
{
}

/// The commands on one channel that need no room run harbor once, directly,
/// with the trimmed channel as one argument.
pub proof fn law_direct_commands(channel: String, file: String, text: String)
    requires
        plain_value(channel@),
    ensures
        begin_plan(HarborRequest::Get { channel }) == Ok::<(Seq<Seq<char>>, Stage), Seq<char>>(
            (seq!["channel-tools"@, trim(channel@), "--json"@], Stage::Final),
        ),
        begin_plan(HarborRequest::PoolSkills) == Ok::<(Seq<Seq<char>>, Stage), Seq<char>>(
            (seq!["skills-list"@, "--json"@], Stage::Final),
        ),
        begin_plan(HarborRequest::GetPersona { channel }) == Ok::<
            (Seq<Seq<char>>, Stage),
            Seq<char>,
        >((seq!["channel-persona"@, trim(channel@), "--json"@], Stage::Final)),
        begin_plan(HarborRequest::SyncPersona { channel }) == Ok::<
            (Seq<Seq<char>>, Stage),
            Seq<char>,
        >((seq!["channel-persona"@, trim(channel@), "--sync"@, "--json"@], Stage::Final)),
        begin_plan(HarborRequest::RemovePersona { channel }) == Ok::<
            (Seq<Seq<char>>, Stage),
            Seq<char>,
        >((seq!["channel-persona"@, trim(channel@), "--remove"@], Stage::Final)),
        trim(file@).len() > 0 ==> begin_plan(HarborRequest::SetPersonaFile { channel, file })
            == Ok::<(Seq<Seq<char>>, Stage), Seq<char>>(
            (seq!["channel-persona"@, trim(channel@), "--set-file="@ + trim(file@)], Stage::Final),
        ),
        trim(file@).len() == 0 ==> begin_plan(HarborRequest::SetPersonaFile { channel, file })
            == Err::<(Seq<Seq<char>>, Stage), Seq<char>>("file must not be empty"@),
        trim(text@).len() > 0 ==> begin_plan(HarborRequest::SetPersonaInline { channel, text })
            == Ok::<(Seq<Seq<char>>, Stage), Seq<char>>(
            (seq!["channel-persona"@, trim(channel@), "--set-inline="@ + text@], Stage::Final),
        ),
        trim(text@).len() == 0 ==> begin_plan(HarborRequest::SetPersonaInline { channel, text })
            == Err::<(Seq<Seq<char>>, Stage), Seq<char>>("persona text must not be empty"@),
{
}

/// Editing a room's persona runs `room-persona` once with the trimmed room
/// and name and the text as given; blank text is refused.
pub proof fn law_edit_room_persona(room: String, name: String, text: String)
    requires
        plain_value(room@),
        plain_value(name@),
    ensures
        trim(text@).len() > 0 ==> begin_plan(HarborRequest::EditRoomPersona { room, name, text })
            == Ok::<(Seq<Seq<char>>, Stage), Seq<char>>(
            (
                seq!["room-persona"@, trim(room@), trim(name@), "--set-body="@ + text@],
                Stage::Final,
            ),
        ),
        trim(text@).len() == 0 ==> begin_plan(HarborRequest::EditRoomPersona { room, name, text })
            == Err::<(Seq<Seq<char>>, Stage), Seq<char>>("persona text must not be empty"@),
{
}

/// The read commands answer with the JSON document harbor printed; a failed
/// exit answers with the exit status and the trimmed error output.
pub proof fn law_read_commands_answer_json(req: HarborRequest, out: HarborOutput)
    requires
        req is Get || req is PoolSkills || req is GetPersona || req is SyncPersona,
    ensures
        out.success && json_parse(out.stdout@) is Ok ==> final_answer(req, Ok(out)) == Ok::<
            Answer,
            Seq<char>,
        >(Answer::Json(json_parse(out.stdout@)->Ok_0)),
        !out.success ==> final_answer(req, Ok(out)) == Err::<Answer, Seq<char>>(
            "harbor "@ + out.status@ + ": "@ + trim(utf8_lossy(out.stderr@)),
        ),
        out.success && json_parse(out.stdout@) is Err ==> final_answer(req, Ok(out)) == Err::<
            Answer,
            Seq<char>,
        >(
            "harbor returned invalid JSON: "@ + json_parse(out.stdout@)->Err_0 + " (got "@ + decimal(
                (encode_utf8(utf8_lossy(out.stdout@)).len() as usize) as nat,
            ) + " bytes)"@,
        ),
{
}

/// The other commands answer with harbor's trimmed output as text; a failed
/// exit answers with the trimmed output and error output, a line apart.
pub proof fn law_mutations_answer_text(req: HarborRequest, out: HarborOutput)
    requires
        !(req is Get || req is PoolSkills || req is GetPersona || req is SyncPersona),
    ensures
        out.success ==> final_answer(req, Ok(out)) == Ok::<Answer, Seq<char>>(
            Answer::Text(trim(utf8_lossy(out.stdout@))),
        ),
        !out.success ==> final_answer(req, Ok(out)) == Err::<Answer, Seq<char>>(
            trim(trim(utf8_lossy(out.stdout@)) + "\n"@ + trim(utf8_lossy(out.stderr@))),
        ),
{
}

/// Whatever the command, a run that could not be carried out ends it with
/// that run's error.
pub proof fn law_failed_runs_end_commands(req: HarborRequest, e: String)
    ensures
        final_answer(req, Err(e)) == Err::<Answer, Seq<char>>(e@),
        lookup_outcome(req, Err(e)) == Err::<(Seq<Seq<char>>, Stage), Seq<char>>(e@),
{
}

/// The room lookup's reply decides the command's run through its `room`
/// member; a failed lookup ends the command with the exit status and the
/// trimmed error output.
pub proof fn law_room_lookup_reply(req: HarborRequest, out: HarborOutput)
    ensures
        !out.success ==> lookup_outcome(req, Ok(out)) == Err::<(Seq<Seq<char>>, Stage), Seq<char>>(
            "harbor "@ + out.status@ + ": "@ + trim(utf8_lossy(out.stderr@)),
        ),
        out.success && json_parse(out.stdout@) is Ok && room_plan(
            req,
            json_text_member(out.stdout@, "room"@),
        ) is Ok ==> lookup_outcome(req, Ok(out)) == Ok::<(Seq<Seq<char>>, Stage), Seq<char>>(
            (room_plan(req, json_text_member(out.stdout@, "room"@))->Ok_0, Stage::Final),
        ),
{
}

/// The harbor binary is the policy's, unless that is blank or absent.
pub proof fn law_harbor_binary(configured: Option<Seq<char>>)
    ensures
        configured is Some && trim(configured->0).len() > 0 ==> harbor_binary_of(configured)
            == configured->0,
        !(configured is Some && trim(configured->0).len() > 0) ==> harbor_binary_of(configured)
            == "harbor"@,
{
}

/// The policy location from the environment is used as given exactly when
/// it is not blank.
pub proof fn law_policy_override(env_value: Option<Seq<char>>)
    ensures
        env_value is Some && trim(env_value->0).len() > 0 ==> policy_override(env_value)
            == env_value,
        !(env_value is Some && trim(env_value->0).len() > 0) ==> policy_override(env_value)
            is None,
{
}

/// A successful mutating command answers its trimmed output; any failure
/// is an error.
pub proof fn law_text_reply(success: bool, stdout: Seq<u8>, stderr: Seq<u8>)
    ensures
        success <==> text_reply(success, stdout, stderr) is Ok,
        success ==> text_reply(success, stdout, stderr) == Ok::<Seq<char>, Seq<char>>(
            trim(utf8_lossy(stdout)),
        ),
{
}

/// A path is rewritten only when it begins with a `~` component and a home
/// directory is known: then it is the home directory joined with the rest.
pub proof fn law_tilde_expansion(path: Seq<char>, home: Option<Seq<char>>)
    ensures
        path_after_prefix(path, "~"@) is None ==> tilde_expanded(path, home) == path,
        home is None ==> tilde_expanded(path, home) == path,
        path_after_prefix(path, "~"@) is Some && home is Some ==> tilde_expanded(path, home)
            == path_joined(home->0, path_after_prefix(path, "~"@)->0),
{
}

} // verus!
