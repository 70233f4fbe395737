//! The channel-tools commands of the desktop panel, as a machine that decides
//! which harbor invocation comes next from the replies of the earlier ones.
//!
//! A command starts with [`begin`]; each [`Action::Run`] is carried out by the
//! caller, whose reply goes to [`step`] with the action's stage, until an
//! [`Action::Finish`] gives the command's answer.
use vstd::prelude::*;

use crate::formats::{json_parse, json_text_member, read_json_text_member};
use crate::harbor::{
    checked_arg, failed_read_message, invalid_json_message, json_output, opt_text, safe_arg,
    text_output, text_reply,
};
use crate::text::{trim, trimmed};

verus! {

/// A panel command and its arguments, as the panel sends them.
pub enum HarborRequest {
    /// The skills and MCP servers a channel exposes.
    Get { channel: String },
    /// Every skill in the pool.
    PoolSkills,
    /// Remove a skill from a scoped channel.
    RemoveSkill { channel: String, skill: String },
    /// Remove an MCP server from a scoped channel.
    RemoveMcp { channel: String, name: String },
    /// Add an existing skill, scoping the channel if needed.
    AddExistingSkill { channel: String, skill: String },
    /// Install a new skill into the channel, scoping it if needed.
    AddNewSkill { channel: String, source: String, name: Option<String> },
    /// The persona a channel runs under.
    GetPersona { channel: String },
    /// Apply the room's persona when it is unambiguous.
    SyncPersona { channel: String },
    /// Override the persona with a file.
    SetPersonaFile { channel: String, file: String },
    /// Override the persona with text.
    SetPersonaInline { channel: String, text: String },
    /// Rewrite a room's persona file.
    EditRoomPersona { room: String, name: String, text: String },
    /// Remove a channel's persona override.
    RemovePersona { channel: String },
    /// Add an MCP server, scoping the channel if needed.
    AddMcp { channel: String, name: String, command: String, args: Option<String> },
}

/// What the reply to a harbor run is for.
pub enum Stage {
    /// The lookup of the room that backs the channel.
    RoomLookup,
    /// The command's own invocation.
    Final,
}

/// What a harbor run gave back: whether it exited successfully, its exit
/// status as displayed, and its output and error output.
pub struct HarborOutput {
    pub success: bool,
    pub status: String,
    pub stdout: Vec<u8>,
    pub stderr: Vec<u8>,
}

/// A command's answer: a JSON document for the read commands, text for the
/// others.
pub enum Reply {
    Json(serde_json::Value),
    Text(String),
}

/// What to do next: run harbor with the given arguments and hand the reply to
/// the given stage, or finish with an answer.
pub enum Action {
    Run { argv: Vec<String>, next: Stage },
    Finish(Result<Reply, String>),
}

/// Whether the command answers with JSON.
pub open spec fn answers_json(req: HarborRequest) -> bool {
    req is Get || req is PoolSkills || req is GetPersona || req is SyncPersona
}

/// Whether the command needs the room that backs the channel.
pub open spec fn needs_room(req: HarborRequest) -> bool {
    req is RemoveSkill || req is RemoveMcp || req is AddExistingSkill || req is AddNewSkill
        || req is AddMcp
}

/// The lookup of the room backing `channel`; with `create`, harbor scopes
/// the channel first when it has no room.
pub open spec fn room_lookup_argv(channel: Seq<char>, create: bool) -> Seq<Seq<char>> {
    if create {
        seq!["channel-tools"@, channel, "--map"@, "--json"@]
    } else {
        seq!["channel-tools"@, channel, "--json"@]
    }
}

/// A run, or the error that ends the command, as texts.
pub open spec fn plan_of(a: Action) -> Option<Result<(Seq<Seq<char>>, Stage), Seq<char>>> {
    match a {
        Action::Run { argv, next } => Some(Ok((argv.deep_view(), next))),
        Action::Finish(Err(m)) => Some(Err(m@)),
        Action::Finish(Ok(_)) => None,
    }
}

/// The abstract value of a command's answer.
pub enum Answer {
    Json(serde_json::Value),
    Text(Seq<char>),
}

/// The answer an action finishes with, or `None` for a run.
pub open spec fn answer_of(a: Action) -> Option<Result<Answer, Seq<char>>> {
    match a {
        Action::Run { .. } => None,
        Action::Finish(Ok(Reply::Text(t))) => Some(Ok(Answer::Text(t@))),
        Action::Finish(Ok(Reply::Json(v))) => Some(Ok(Answer::Json(v))),
        Action::Finish(Err(m)) => Some(Err(m@)),
    }
}

/// An optional value handed to harbor as one argument: absent or blank, it is
/// left out; otherwise it is checked as [`checked_arg`] checks values.
pub open spec fn checked_optional(label: Seq<char>, value: Option<Seq<char>>) -> Result<
    Option<Seq<char>>,
    Seq<char>,
> {
    match value {
        Some(v) => if trim(v).len() > 0 {
            match checked_arg(label, v) {
                Ok(w) => Ok(Some(w)),
                Err(m) => Err(m),
            }
        } else {
            Ok(None)
        },
        None => Ok(None),
    }
}

/// The first run of a command, or the error its arguments give: the
/// arguments are checked in the command's order, then the command runs
/// directly or first looks up the channel's room.
pub open spec fn begin_plan(req: HarborRequest) -> Result<(Seq<Seq<char>>, Stage), Seq<char>> {
    match req {
        HarborRequest::Get { channel } => match checked_arg("channel"@, channel@) {
            Ok(c) => Ok((seq!["channel-tools"@, c, "--json"@], Stage::Final)),
            Err(m) => Err(m),
        },
        HarborRequest::PoolSkills => Ok((seq!["skills-list"@, "--json"@], Stage::Final)),
        HarborRequest::RemoveSkill { channel, skill } => match checked_arg("channel"@, channel@) {
            Ok(c) => match checked_arg("skill"@, skill@) {
                Ok(_) => Ok((room_lookup_argv(c, false), Stage::RoomLookup)),
                Err(m) => Err(m),
            },
            Err(m) => Err(m),
        },
        HarborRequest::RemoveMcp { channel, name } => match checked_arg("channel"@, channel@) {
            Ok(c) => match checked_arg("name"@, name@) {
                Ok(_) => Ok((room_lookup_argv(c, false), Stage::RoomLookup)),
                Err(m) => Err(m),
            },
            Err(m) => Err(m),
        },
        HarborRequest::AddExistingSkill { channel, skill } => match checked_arg(
            "channel"@,
            channel@,
        ) {
            Ok(c) => match checked_arg("skill"@, skill@) {
                Ok(_) => Ok((room_lookup_argv(c, true), Stage::RoomLookup)),
                Err(m) => Err(m),
            },
            Err(m) => Err(m),
        },
        HarborRequest::AddNewSkill { channel, source, name } => match checked_arg(
            "channel"@,
            channel@,
        ) {
            Ok(c) => match checked_arg("source"@, source@) {
                Ok(_) => match checked_optional("name"@, opt_text(name)) {
                    Ok(_) => Ok((room_lookup_argv(c, true), Stage::RoomLookup)),
                    Err(m) => Err(m),
                },
                Err(m) => Err(m),
            },
            Err(m) => Err(m),
        },
        HarborRequest::GetPersona { channel } => match checked_arg("channel"@, channel@) {
            Ok(c) => Ok((seq!["channel-persona"@, c, "--json"@], Stage::Final)),
            Err(m) => Err(m),
        },
        HarborRequest::SyncPersona { channel } => match checked_arg("channel"@, channel@) {
            Ok(c) => Ok((seq!["channel-persona"@, c, "--sync"@, "--json"@], Stage::Final)),
            Err(m) => Err(m),
        },
        HarborRequest::SetPersonaFile { channel, file } => match checked_arg(
            "channel"@,
            channel@,
        ) {
            Ok(c) => if trim(file@).len() == 0 {
                Err("file must not be empty"@)
            } else {
                Ok((seq!["channel-persona"@, c, "--set-file="@ + trim(file@)], Stage::Final))
            },
            Err(m) => Err(m),
        },
        HarborRequest::SetPersonaInline { channel, text } => match checked_arg(
            "channel"@,
            channel@,
        ) {
            Ok(c) => if trim(text@).len() == 0 {
                Err("persona text must not be empty"@)
            } else {
                Ok((seq!["channel-persona"@, c, "--set-inline="@ + text@], Stage::Final))
            },
            Err(m) => Err(m),
        },
        HarborRequest::EditRoomPersona { room, name, text } => match checked_arg("room"@, room@) {
            Ok(r) => match checked_arg("name"@, name@) {
                Ok(n) => if trim(text@).len() == 0 {
                    Err("persona text must not be empty"@)
                } else {
                    Ok((seq!["room-persona"@, r, n, "--set-body="@ + text@], Stage::Final))
                },
                Err(m) => Err(m),
            },
            Err(m) => Err(m),
        },
        HarborRequest::RemovePersona { channel } => match checked_arg("channel"@, channel@) {
            Ok(c) => Ok((seq!["channel-persona"@, c, "--remove"@], Stage::Final)),
            Err(m) => Err(m),
        },
        HarborRequest::AddMcp { channel, name, command, args } => match checked_arg(
            "channel"@,
            channel@,
        ) {
            Ok(c) => match checked_arg("name"@, name@) {
                Ok(_) => match checked_arg("command"@, command@) {
                    Ok(_) => match checked_optional("args"@, opt_text(args)) {
                        Ok(_) => Ok((room_lookup_argv(c, true), Stage::RoomLookup)),
                        Err(m) => Err(m),
                    },
                    Err(m) => Err(m),
                },
                Err(m) => Err(m),
            },
            Err(m) => Err(m),
        },
    }
}

/// The command's run once the room backing its channel is known (`None`
/// when harbor named none), or the error that ends it. The arguments are
/// checked again as [`begin_plan`] checks them; an optional name or argument
/// list is added only when it is not blank.
pub open spec fn room_plan(req: HarborRequest, room: Option<Seq<char>>) -> Result<
    Seq<Seq<char>>,
    Seq<char>,
> {
    match req {
        HarborRequest::RemoveSkill { channel, skill } => match checked_arg("channel"@, channel@) {
            Ok(_) => match checked_arg("skill"@, skill@) {
                Ok(s) => match room {
                    Some(r) => Ok(seq!["skill-remove"@, "--name"@, s, "--room"@, r, "--yes"@]),
                    None => Err("this channel has no tools to remove"@),
                },
                Err(m) => Err(m),
            },
            Err(m) => Err(m),
        },
        HarborRequest::RemoveMcp { channel, name } => match checked_arg("channel"@, channel@) {
            Ok(_) => match checked_arg("name"@, name@) {
                Ok(n) => match room {
                    Some(r) => Ok(seq!["mcp-remove"@, "--room"@, r, "--name"@, n]),
                    None => Err("this channel has no tools to remove"@),
                },
                Err(m) => Err(m),
            },
            Err(m) => Err(m),
        },
        HarborRequest::AddExistingSkill { channel, skill } => match checked_arg(
            "channel"@,
            channel@,
        ) {
            Ok(_) => match checked_arg("skill"@, skill@) {
                Ok(s) => match room {
                    Some(r) => Ok(seq!["skill-room-add"@, "--skill"@, s, "--room"@, r]),
                    None => Err("could not scope this channel"@),
                },
                Err(m) => Err(m),
            },
            Err(m) => Err(m),
        },
        HarborRequest::AddNewSkill { channel, source, name } => match checked_arg(
            "channel"@,
            channel@,
        ) {
            Ok(_) => match checked_arg("source"@, source@) {
                Ok(src) => match checked_optional("name"@, opt_text(name)) {
                    Ok(nm) => match room {
                        Some(r) => {
                            let base = seq!["skill-install"@, "--source"@, src, "--room"@, r];
                            match nm {
                                Some(v) => Ok(base + seq!["--name"@, v]),
                                None => Ok(base),
                            }
                        },
                        None => Err("could not scope this channel"@),
                    },
                    Err(m) => Err(m),
                },
                Err(m) => Err(m),
            },
            Err(m) => Err(m),
        },
        HarborRequest::AddMcp { channel, name, command, args } => match checked_arg(
            "channel"@,
            channel@,
        ) {
            Ok(_) => match checked_arg("name"@, name@) {
                Ok(n) => match checked_arg("command"@, command@) {
                    Ok(cmd) => match checked_optional("args"@, opt_text(args)) {
                        Ok(extra) => match room {
                            Some(r) => {
                                let base = seq![
                                    "mcp-add"@,
                                    "--room"@,
                                    r,
                                    "--name"@,
                                    n,
                                    "--command"@,
                                    cmd,
                                ];
                                match extra {
                                    Some(a) => Ok(base + seq!["--args"@, a]),
                                    None => Ok(base),
                                }
                            },
                            None => Err("could not scope this channel"@),
                        },
                        Err(m) => Err(m),
                    },
                    Err(m) => Err(m),
                },
                Err(m) => Err(m),
            },
            Err(m) => Err(m),
        },
        _ => Err(seq![]),
    }
}

/// A room plan as the plan of a final run.
pub open spec fn final_run(p: Result<Seq<Seq<char>>, Seq<char>>) -> Result<
    (Seq<Seq<char>>, Stage),
    Seq<char>,
> {
    match p {
        Ok(argv) => Ok((argv, Stage::Final)),
        Err(m) => Err(m),
    }
}

/// The value of an optional harbor argument: `None` when absent or blank,
/// else the value [`safe_arg`] accepts, or its error.
pub fn safe_optional(label: &str, value: &Option<String>) -> (r: Result<Option<String>, String>)
    ensures
        match r {
            Ok(Some(v)) => checked_optional(label@, opt_text(*value)) == Ok::<
                Option<Seq<char>>,
                Seq<char>,
            >(Some(v@)),
            Ok(None) => checked_optional(label@, opt_text(*value)) == Ok::<
                Option<Seq<char>>,
                Seq<char>,
            >(None),
            Err(m) => checked_optional(label@, opt_text(*value)) == Err::<
                Option<Seq<char>>,
                Seq<char>,
            >(m@),
        },
{
    match value {
        Some(v) => {
            if trimmed(v.as_str()).as_str().is_empty() {
                Ok(None)
            } else {
                match safe_arg(label, v.as_str()) {
                    Ok(w) => Ok(Some(w)),
                    Err(m) => Err(m),
                }
            }
        },
        None => Ok(None),
    }
}

fn push_text(argv: &mut Vec<String>, s: &str)
    ensures
        final(argv).deep_view() == old(argv).deep_view().push(s@),
{
    let ghost before = argv.deep_view();
    argv.push(String::from_str(s));
    assert(argv.deep_view() =~= before.push(s@));
}

fn push_owned(argv: &mut Vec<String>, s: String)
    ensures
        final(argv).deep_view() == old(argv).deep_view().push(s@),
{
    let ghost before = argv.deep_view();
    argv.push(s);
    assert(argv.deep_view() =~= before.push(s@));
}

fn lookup_run(channel: String, create: bool) -> (r: Action)
    ensures
        plan_of(r) == Some(
            Ok::<(Seq<Seq<char>>, Stage), Seq<char>>(
                (room_lookup_argv(channel@, create), Stage::RoomLookup),
            ),
        ),
{
    let mut argv: Vec<String> = Vec::new();
    push_text(&mut argv, "channel-tools");
    push_owned(&mut argv, channel);
    if create {
        push_text(&mut argv, "--map");
    }
    push_text(&mut argv, "--json");
    assert(argv.deep_view() =~= room_lookup_argv(channel@, create));
    Action::Run { argv, next: Stage::RoomLookup }
}

/// The first step of a command: its arguments checked, then the first
/// harbor run (a room lookup for the commands that need the channel's room),
/// or the error that ends the command.
pub fn begin(req: &HarborRequest) -> (r: Action)
    ensures
        plan_of(r) == Some(begin_plan(*req)),
{
    match req {
        HarborRequest::Get { channel } => {
            let c = match safe_arg("channel", channel.as_str()) {
                Ok(v) => v,
                Err(m) => return Action::Finish(Err(m)),
            };
            let mut argv: Vec<String> = Vec::new();
            push_text(&mut argv, "channel-tools");
            push_owned(&mut argv, c);
            push_text(&mut argv, "--json");
            assert(argv.deep_view() =~= seq!["channel-tools"@, c@, "--json"@]);
            Action::Run { argv, next: Stage::Final }
        },
        HarborRequest::PoolSkills => {
            let mut argv: Vec<String> = Vec::new();
            push_text(&mut argv, "skills-list");
            push_text(&mut argv, "--json");
            assert(argv.deep_view() =~= seq!["skills-list"@, "--json"@]);
            Action::Run { argv, next: Stage::Final }
        },
        HarborRequest::RemoveSkill { channel, skill } => {
            let c = match safe_arg("channel", channel.as_str()) {
                Ok(v) => v,
                Err(m) => return Action::Finish(Err(m)),
            };
            match safe_arg("skill", skill.as_str()) {
                Ok(_) => {},
                Err(m) => return Action::Finish(Err(m)),
            }
            lookup_run(c, false)
        },
        HarborRequest::RemoveMcp { channel, name } => {
            let c = match safe_arg("channel", channel.as_str()) {
                Ok(v) => v,
                Err(m) => return Action::Finish(Err(m)),
            };
            match safe_arg("name", name.as_str()) {
                Ok(_) => {},
                Err(m) => return Action::Finish(Err(m)),
            }
            lookup_run(c, false)
        },
        HarborRequest::AddExistingSkill { channel, skill } => {
            let c = match safe_arg("channel", channel.as_str()) {
                Ok(v) => v,
                Err(m) => return Action::Finish(Err(m)),
            };
            match safe_arg("skill", skill.as_str()) {
                Ok(_) => {},
                Err(m) => return Action::Finish(Err(m)),
            }
            lookup_run(c, true)
        },
        HarborRequest::AddNewSkill { channel, source, name } => {
            let c = match safe_arg("channel", channel.as_str()) {
                Ok(v) => v,
                Err(m) => return Action::Finish(Err(m)),
            };
            match safe_arg("source", source.as_str()) {
                Ok(_) => {},
                Err(m) => return Action::Finish(Err(m)),
            }
            match safe_optional("name", name) {
                Ok(_) => {},
                Err(m) => return Action::Finish(Err(m)),
            }
            lookup_run(c, true)
        },
        HarborRequest::GetPersona { channel } => {
            let c = match safe_arg("channel", channel.as_str()) {
                Ok(v) => v,
                Err(m) => return Action::Finish(Err(m)),
            };
            let mut argv: Vec<String> = Vec::new();
            push_text(&mut argv, "channel-persona");
            push_owned(&mut argv, c);
            push_text(&mut argv, "--json");
            assert(argv.deep_view() =~= seq!["channel-persona"@, c@, "--json"@]);
            Action::Run { argv, next: Stage::Final }
        },
        HarborRequest::SyncPersona { channel } => {
            let c = match safe_arg("channel", channel.as_str()) {
                Ok(v) => v,
                Err(m) => return Action::Finish(Err(m)),
            };
            let mut argv: Vec<String> = Vec::new();
            push_text(&mut argv, "channel-persona");
            push_owned(&mut argv, c);
            push_text(&mut argv, "--sync");
            push_text(&mut argv, "--json");
            assert(argv.deep_view() =~= seq!["channel-persona"@, c@, "--sync"@, "--json"@]);
            Action::Run { argv, next: Stage::Final }
        },
        HarborRequest::SetPersonaFile { channel, file } => {
            let c = match safe_arg("channel", channel.as_str()) {
                Ok(v) => v,
                Err(m) => return Action::Finish(Err(m)),
            };
            let f = trimmed(file.as_str());
            if f.as_str().is_empty() {
                return Action::Finish(Err(String::from_str("file must not be empty")));
            }
            let mut argv: Vec<String> = Vec::new();
            push_text(&mut argv, "channel-persona");
            push_owned(&mut argv, c);
            push_owned(&mut argv, String::from_str("--set-file=").concat(f.as_str()));
            assert(argv.deep_view() =~= seq!["channel-persona"@, c@, "--set-file="@ + f@]);
            Action::Run { argv, next: Stage::Final }
        },
        HarborRequest::SetPersonaInline { channel, text } => {
            let c = match safe_arg("channel", channel.as_str()) {
                Ok(v) => v,
                Err(m) => return Action::Finish(Err(m)),
            };
            if trimmed(text.as_str()).as_str().is_empty() {
                return Action::Finish(Err(String::from_str("persona text must not be empty")));
            }
            let mut argv: Vec<String> = Vec::new();
            push_text(&mut argv, "channel-persona");
            push_owned(&mut argv, c);
            push_owned(&mut argv, String::from_str("--set-inline=").concat(text.as_str()));
            assert(argv.deep_view() =~= seq!["channel-persona"@, c@, "--set-inline="@ + text@]);
            Action::Run { argv, next: Stage::Final }
        },
        HarborRequest::EditRoomPersona { room, name, text } => {
            let r = match safe_arg("room", room.as_str()) {
                Ok(v) => v,
                Err(m) => return Action::Finish(Err(m)),
            };
            let n = match safe_arg("name", name.as_str()) {
                Ok(v) => v,
                Err(m) => return Action::Finish(Err(m)),
            };
            if trimmed(text.as_str()).as_str().is_empty() {
                return Action::Finish(Err(String::from_str("persona text must not be empty")));
            }
            let mut argv: Vec<String> = Vec::new();
            push_text(&mut argv, "room-persona");
            push_owned(&mut argv, r);
            push_owned(&mut argv, n);
            push_owned(&mut argv, String::from_str("--set-body=").concat(text.as_str()));
            assert(argv.deep_view() =~= seq!["room-persona"@, r@, n@, "--set-body="@ + text@]);
            Action::Run { argv, next: Stage::Final }
        },
        HarborRequest::RemovePersona { channel } => {
            let c = match safe_arg("channel", channel.as_str()) {
                Ok(v) => v,
                Err(m) => return Action::Finish(Err(m)),
            };
            let mut argv: Vec<String> = Vec::new();
            push_text(&mut argv, "channel-persona");
            push_owned(&mut argv, c);
            push_text(&mut argv, "--remove");
            assert(argv.deep_view() =~= seq!["channel-persona"@, c@, "--remove"@]);
            Action::Run { argv, next: Stage::Final }
        },
        HarborRequest::AddMcp { channel, name, command, args } => {
            let c = match safe_arg("channel", channel.as_str()) {
                Ok(v) => v,
                Err(m) => return Action::Finish(Err(m)),
            };
            match safe_arg("name", name.as_str()) {
                Ok(_) => {},
                Err(m) => return Action::Finish(Err(m)),
            }
            match safe_arg("command", command.as_str()) {
                Ok(_) => {},
                Err(m) => return Action::Finish(Err(m)),
            }
            match safe_optional("args", args) {
                Ok(_) => {},
                Err(m) => return Action::Finish(Err(m)),
            }
            lookup_run(c, true)
        },
    }
}

/// The command's own run once the room backing its channel is known (`None`
/// when harbor named none), or the error that ends the command.
pub fn with_room(req: &HarborRequest, room: Option<String>) -> (r: Action)
    requires
        needs_room(*req),
    ensures
        plan_of(r) == Some(final_run(room_plan(*req, opt_text(room)))),
{
    match req {
        HarborRequest::RemoveSkill { channel, skill } => {
            match safe_arg("channel", channel.as_str()) {
                Ok(_) => {},
                Err(m) => return Action::Finish(Err(m)),
            }
            let s = match safe_arg("skill", skill.as_str()) {
                Ok(v) => v,
                Err(m) => return Action::Finish(Err(m)),
            };
            let r = match room {
                Some(r) => r,
                None => return Action::Finish(
                    Err(String::from_str("this channel has no tools to remove")),
                ),
            };
            let mut argv: Vec<String> = Vec::new();
            push_text(&mut argv, "skill-remove");
            push_text(&mut argv, "--name");
            push_owned(&mut argv, s);
            push_text(&mut argv, "--room");
            push_owned(&mut argv, r);
            push_text(&mut argv, "--yes");
            assert(argv.deep_view() =~= seq![
                "skill-remove"@,
                "--name"@,
                s@,
                "--room"@,
                r@,
                "--yes"@,
            ]);
            Action::Run { argv, next: Stage::Final }
        },
        HarborRequest::RemoveMcp { channel, name } => {
            match safe_arg("channel", channel.as_str()) {
                Ok(_) => {},
                Err(m) => return Action::Finish(Err(m)),
            }
            let n = match safe_arg("name", name.as_str()) {
                Ok(v) => v,
                Err(m) => return Action::Finish(Err(m)),
            };
            let r = match room {
                Some(r) => r,
                None => return Action::Finish(
                    Err(String::from_str("this channel has no tools to remove")),
                ),
            };
            let mut argv: Vec<String> = Vec::new();
            push_text(&mut argv, "mcp-remove");
            push_text(&mut argv, "--room");
            push_owned(&mut argv, r);
            push_text(&mut argv, "--name");
            push_owned(&mut argv, n);
            assert(argv.deep_view() =~= seq!["mcp-remove"@, "--room"@, r@, "--name"@, n@]);
            Action::Run { argv, next: Stage::Final }
        },
        HarborRequest::AddExistingSkill { channel, skill } => {
            match safe_arg("channel", channel.as_str()) {
                Ok(_) => {},
                Err(m) => return Action::Finish(Err(m)),
            }
            let s = match safe_arg("skill", skill.as_str()) {
                Ok(v) => v,
                Err(m) => return Action::Finish(Err(m)),
            };
            let r = match room {
                Some(r) => r,
                None => return Action::Finish(Err(String::from_str("could not scope this channel"))),
            };
            let mut argv: Vec<String> = Vec::new();
            push_text(&mut argv, "skill-room-add");
            push_text(&mut argv, "--skill");
            push_owned(&mut argv, s);
            push_text(&mut argv, "--room");
            push_owned(&mut argv, r);
            assert(argv.deep_view() =~= seq!["skill-room-add"@, "--skill"@, s@, "--room"@, r@]);
            Action::Run { argv, next: Stage::Final }
        },
        HarborRequest::AddNewSkill { channel, source, name } => {
            match safe_arg("channel", channel.as_str()) {
                Ok(_) => {},
                Err(m) => return Action::Finish(Err(m)),
            }
            let src = match safe_arg("source", source.as_str()) {
                Ok(v) => v,
                Err(m) => return Action::Finish(Err(m)),
            };
            let nm = match safe_optional("name", name) {
                Ok(v) => v,
                Err(m) => return Action::Finish(Err(m)),
            };
            let r = match room {
                Some(r) => r,
                None => return Action::Finish(Err(String::from_str("could not scope this channel"))),
            };
            let mut argv: Vec<String> = Vec::new();
            push_text(&mut argv, "skill-install");
            push_text(&mut argv, "--source");
            push_owned(&mut argv, src);
            push_text(&mut argv, "--room");
            push_owned(&mut argv, r);
            let ghost base = seq!["skill-install"@, "--source"@, src@, "--room"@, r@];
            assert(argv.deep_view() =~= base);
            if let Some(v) = nm {
                push_text(&mut argv, "--name");
                push_owned(&mut argv, v);
                assert(argv.deep_view() =~= base + seq!["--name"@, v@]);
            }
            Action::Run { argv, next: Stage::Final }
        },
        HarborRequest::AddMcp { channel, name, command, args } => {
            match safe_arg("channel", channel.as_str()) {
                Ok(_) => {},
                Err(m) => return Action::Finish(Err(m)),
            }
            let n = match safe_arg("name", name.as_str()) {
                Ok(v) => v,
                Err(m) => return Action::Finish(Err(m)),
            };
            let cmd = match safe_arg("command", command.as_str()) {
                Ok(v) => v,
                Err(m) => return Action::Finish(Err(m)),
            };
            let extra = match safe_optional("args", args) {
                Ok(v) => v,
                Err(m) => return Action::Finish(Err(m)),
            };
            let r = match room {
                Some(r) => r,
                None => return Action::Finish(Err(String::from_str("could not scope this channel"))),
            };
            let mut argv: Vec<String> = Vec::new();
            push_text(&mut argv, "mcp-add");
            push_text(&mut argv, "--room");
            push_owned(&mut argv, r);
            push_text(&mut argv, "--name");
            push_owned(&mut argv, n);
            push_text(&mut argv, "--command");
            push_owned(&mut argv, cmd);
            let ghost base = seq!["mcp-add"@, "--room"@, r@, "--name"@, n@, "--command"@, cmd@];
            assert(argv.deep_view() =~= base);
            if let Some(extra) = extra {
                push_text(&mut argv, "--args");
                push_owned(&mut argv, extra);
                assert(argv.deep_view() =~= base + seq!["--args"@, extra@]);
            }
            Action::Run { argv, next: Stage::Final }
        },
        _ => Action::Finish(Err(String::new())),
    }
}

/// What the reply to the room lookup leads to: a failed run, a failed exit
/// or output that is no JSON document ends the command; otherwise the JSON
/// member `room` (a string, if harbor gave one) decides the command's run.
pub open spec fn lookup_outcome(req: HarborRequest, reply: Result<HarborOutput, String>) -> Result<
    (Seq<Seq<char>>, Stage),
    Seq<char>,
> {
    match reply {
        Err(e) => Err(e@),
        Ok(out) => if !out.success {
            Err(failed_read_message(out.status@, out.stderr@))
        } else {
            match json_parse(out.stdout@) {
                Err(detail) => Err(invalid_json_message(detail, out.stdout@)),
                Ok(_) => final_run(room_plan(req, json_text_member(out.stdout@, "room"@))),
            }
        },
    }
}

/// The command's answer from the reply to its own run: a failed run's error;
/// for the read commands the JSON document the output holds, a failed exit or
/// output that is no JSON document being errors; for the others the output
/// as text.
pub open spec fn final_answer(req: HarborRequest, reply: Result<HarborOutput, String>) -> Result<
    Answer,
    Seq<char>,
> {
    match reply {
        Err(e) => Err(e@),
        Ok(out) => if answers_json(req) {
            if !out.success {
                Err(failed_read_message(out.status@, out.stderr@))
            } else {
                match json_parse(out.stdout@) {
                    Err(detail) => Err(invalid_json_message(detail, out.stdout@)),
                    Ok(v) => Ok(Answer::Json(v)),
                }
            }
        } else {
            match text_reply(out.success, out.stdout@, out.stderr@) {
                Ok(t) => Ok(Answer::Text(t)),
                Err(m) => Err(m),
            }
        },
    }
}

/// Takes the reply to the room lookup: a failed run, a failed exit or output
/// that is no JSON document ends the command; otherwise the JSON member
/// `room` (a string, if harbor gave one) decides the command's own run.
pub fn after_room_lookup(req: &HarborRequest, reply: Result<HarborOutput, String>) -> (r: Action)
    requires
        needs_room(*req),
    ensures
        plan_of(r) == Some(lookup_outcome(*req, reply)),
{
    match reply {
        Err(e) => Action::Finish(Err(e)),
        Ok(out) => {
            match json_output(out.success, out.status.as_str(), out.stdout.as_slice(), out.stderr.as_slice()) {
                Err(m) => Action::Finish(Err(m)),
                Ok(_) => {
                    let room = read_json_text_member(out.stdout.as_slice(), "room");
                    with_room(req, room)
                },
            }
        },
    }
}

/// Takes the reply to the command's own run: a failed run ends it with its
/// error; otherwise the read commands answer with the output read as JSON
/// and the others with the output read as text.
pub fn finish(req: &HarborRequest, reply: Result<HarborOutput, String>) -> (r: Action)
    ensures
        answer_of(r) == Some(final_answer(*req, reply)),
{
    match reply {
        Err(e) => Action::Finish(Err(e)),
        Ok(out) => {
            let json = match req {
                HarborRequest::Get { .. } => true,
                HarborRequest::PoolSkills => true,
                HarborRequest::GetPersona { .. } => true,
                HarborRequest::SyncPersona { .. } => true,
                _ => false,
            };
            if json {
                match json_output(out.success, out.status.as_str(), out.stdout.as_slice(), out.stderr.as_slice()) {
                    Ok(v) => Action::Finish(Ok(Reply::Json(v))),
                    Err(m) => Action::Finish(Err(m)),
                }
            } else {
                match text_output(out.success, out.stdout.as_slice(), out.stderr.as_slice()) {
                    Ok(t) => Action::Finish(Ok(Reply::Text(t))),
                    Err(m) => Action::Finish(Err(m)),
                }
            }
        },
    }
}

/// Hands the reply of a run to the stage the run was for.
pub fn step(req: &HarborRequest, stage: Stage, reply: Result<HarborOutput, String>) -> (r: Action)
    requires
        stage is RoomLookup ==> needs_room(*req),
    ensures
        match stage {
            Stage::RoomLookup => plan_of(r) == Some(lookup_outcome(*req, reply)),
            Stage::Final => answer_of(r) == Some(final_answer(*req, reply)),
        },
{
    match stage {
        Stage::RoomLookup => after_room_lookup(req, reply),
        Stage::Final => finish(req, reply),
    }
}

} // verus!
