use channel_tools::policy::{
    ChannelToolsEntry, ChannelToolsFile, EnvVar, LoadError, McpServer, McpToml, PersonaFile,
};
use channel_tools::tools::ChannelTools;

const MISSING: &str = "No such file or directory (os error 2)";

fn text(v: &toml::Value, key: &str) -> Option<String> {
    v.get(key).and_then(|x| x.as_str()).map(|s| s.to_string())
}

fn server(v: &toml::Value) -> McpToml {
    let args = match v.get("args").and_then(|a| a.as_array()) {
        Some(a) => a.iter().map(|x| x.as_str().unwrap().to_string()).collect(),
        None => Vec::new(),
    };
    let env = match v.get("env").and_then(|e| e.as_table()) {
        Some(t) => t
            .iter()
            .map(|(k, x)| EnvVar { name: k.clone(), value: x.as_str().unwrap().to_string() })
            .collect(),
        None => Vec::new(),
    };
    McpToml { name: text(v, "name").unwrap(), command: text(v, "command").unwrap(), args, env }
}

/// Builds the library's document from policy TOML; `files` gives the
/// contents of the persona files the document names.
fn document(source: &str, files: &[(&str, &str)]) -> ChannelToolsFile {
    let doc: toml::Value = source.parse().unwrap();
    let mut channels = Vec::new();
    if let Some(table) = doc.get("channels").and_then(|c| c.as_table()) {
        for (key, e) in table {
            let persona_file = text(e, "persona_file").map(|path| {
                let contents = match files.iter().find(|(p, _)| *p == path) {
                    Some((_, c)) => Ok(c.to_string()),
                    None => Err(MISSING.to_string()),
                };
                PersonaFile { path, contents }
            });
            let mcp = match e.get("mcp").and_then(|m| m.as_array()) {
                Some(list) => list.iter().map(server).collect(),
                None => Vec::new(),
            };
            channels.push((
                key.clone(),
                ChannelToolsEntry {
                    room: text(e, "room"),
                    harbor_command: text(e, "harbor_command"),
                    mcp,
                    persona: text(e, "persona"),
                    persona_file,
                },
            ));
        }
    }
    ChannelToolsFile { harbor_command: text(&doc, "harbor_command"), channels }
}

fn load_with(source: &str, files: &[(&str, &str)]) -> Result<ChannelTools, LoadError> {
    ChannelTools::load(&document(source, files))
}

fn load_str(source: &str) -> Result<ChannelTools, LoadError> {
    load_with(source, &[])
}

fn nil() -> u128 {
    uuid::Uuid::nil().as_u128()
}

fn uuid_of(text: &str) -> u128 {
    text.parse::<uuid::Uuid>().unwrap().as_u128()
}

fn first<'a>(servers: Option<&'a Vec<McpServer>>) -> &'a McpServer {
    &servers.unwrap()[0]
}

#[test]
fn room_entry_expands_to_harbor_server() {
    let t = load_str("[channels.bookkeeping]\nroom = \"bookkeeping\"\n").ok().unwrap();
    let id = nil();
    let servers = t.resolve(id, Some("bookkeeping")).unwrap();
    assert_eq!(servers.len(), 1);
    assert_eq!(servers[0].name, "harbor-bookkeeping");
    assert_eq!(servers[0].command, "harbor");
    assert_eq!(servers[0].args, vec!["mcp-server", "--room=bookkeeping"]);
}

#[test]
fn uuid_key_matches_by_uuid_and_wins_over_name() {
    let id = "6f8199d3-479f-4dce-8851-000a4b0a2586";
    let toml = format!(
        "[channels.\"{id}\"]\nroom = \"legal\"\n[channels.general]\nroom = \"devops\"\n"
    );
    let t = load_str(&toml).ok().unwrap();
    let uuid = uuid_of(id);
    let servers = t.resolve(uuid, Some("general")).unwrap();
    assert_eq!(servers[0].args[1], "--room=legal");
}

#[test]
fn name_match_is_case_insensitive_and_hash_insensitive() {
    let t = load_str("[channels.\"#BookKeeping\"]\nroom = \"bookkeeping\"\n").ok().unwrap();
    assert!(t.resolve(nil(), Some("bookkeeping")).is_some());
    assert!(t.resolve(nil(), Some("#Bookkeeping")).is_some());
    assert!(t.resolve(nil(), Some("other")).is_none());
}

#[test]
fn unmatched_channel_resolves_none() {
    let t = load_str("[channels.bookkeeping]\nroom = \"bookkeeping\"\n").ok().unwrap();
    assert!(t.resolve(nil(), Some("marketing")).is_none());
    assert!(t.resolve(nil(), None).is_none());
}

#[test]
fn explicit_mcp_servers_carry_args_and_env() {
    let t = load_str(
        "[channels.devops]\nroom = \"devops\"\n[[channels.devops.mcp]]\nname = \"sysmon\"\ncommand = \"/bin/sysmon\"\nargs = [\"--stdio\"]\nenv = { FOO = \"bar\" }\n",
    )
    .ok()
    .unwrap();
    let servers = t.resolve(nil(), Some("devops")).unwrap();
    assert_eq!(servers.len(), 2);
    assert_eq!(servers[1].name, "sysmon");
    assert_eq!(servers[1].env[0].name, "FOO");
    assert_eq!(servers[1].env[0].value, "bar");
}

#[test]
fn custom_harbor_command_overrides_default() {
    let t = load_str(
        "harbor_command = \"/opt/harbor\"\n[channels.a]\nroom = \"x\"\n[channels.b]\nroom = \"y\"\nharbor_command = \"/special/harbor\"\n",
    )
    .ok()
    .unwrap();
    assert_eq!(first(t.resolve(nil(), Some("a"))).command, "/opt/harbor");
    assert_eq!(first(t.resolve(nil(), Some("b"))).command, "/special/harbor");
}

#[test]
fn entry_without_room_or_mcp_is_rejected() {
    assert!(load_str("[channels.empty]\n").is_err());
}

#[test]
fn empty_room_is_rejected() {
    assert!(load_str("[channels.a]\nroom = \"  \"\n").is_err());
}

#[test]
fn inline_persona_resolves() {
    let t = load_str("[channels.support]\npersona = \"You are support.\"\n").ok().unwrap();
    assert_eq!(t.resolve_persona(nil(), Some("support")), Some("You are support."));
}

#[test]
fn persona_file_is_loaded_and_composes_with_tools() {
    let pf = "/tmp/chtools-persona/acct.md";
    let toml = format!(
        "[channels.bookkeeping]\nroom = \"bookkeeping\"\npersona_file = \"{}\"\n",
        pf
    );
    let t = load_with(&toml, &[(pf, "You are the accountant persona.\n")]).ok().unwrap();
    assert_eq!(
        t.resolve_persona(nil(), Some("bookkeeping")),
        Some("You are the accountant persona.\n")
    );
    // tools and persona compose on the one entry
    assert_eq!(first(t.resolve(nil(), Some("bookkeeping"))).name, "harbor-bookkeeping");
}

#[test]
fn persona_only_entry_scopes_no_tools() {
    let t = load_str("[channels.chat]\npersona = \"friendly greeter\"\n").ok().unwrap();
    assert_eq!(t.resolve_persona(nil(), Some("chat")), Some("friendly greeter"));
    // no room/mcp: tools stay at the default (resolve returns None)
    assert!(t.resolve(nil(), Some("chat")).is_none());
}

#[test]
fn persona_uuid_key_wins_over_name() {
    let id = "6f8199d3-479f-4dce-8851-000a4b0a2586";
    let toml = format!(
        "[channels.\"{id}\"]\npersona = \"by uuid\"\n[channels.general]\npersona = \"by name\"\n"
    );
    let t = load_str(&toml).ok().unwrap();
    let uuid = uuid_of(id);
    assert_eq!(t.resolve_persona(uuid, Some("general")), Some("by uuid"));
}

#[test]
fn unmatched_channel_has_no_persona() {
    let t = load_str("[channels.support]\npersona = \"x\"\n").ok().unwrap();
    assert!(t.resolve_persona(nil(), Some("other")).is_none());
    assert!(t.resolve_persona(nil(), None).is_none());
}

#[test]
fn persona_and_persona_file_both_set_is_fatal() {
    let pf = "/tmp/chtools-persona/both.md";
    let toml = format!("[channels.a]\npersona = \"inline\"\npersona_file = \"{}\"\n", pf);
    assert!(load_with(&toml, &[(pf, "x")]).is_err());
}

#[test]
fn missing_persona_file_is_fatal() {
    assert!(load_str("[channels.a]\npersona_file = \"/no/such/persona/file.md\"\n").is_err());
}

#[test]
fn empty_persona_is_rejected() {
    assert!(load_str("[channels.a]\npersona = \"   \"\n").is_err());
}

#[test]
fn empty_persona_file_is_rejected() {
    let pf = "/tmp/chtools-persona/empty.md";
    let toml = format!("[channels.a]\npersona_file = \"{}\"\n", pf);
    assert!(load_with(&toml, &[(pf, "\n  \n")]).is_err());
}

/// Resolution is a lookup over a policy that nothing changes: lookups for
/// different channels, interleaved, never give one channel's persona to the
/// other.
#[test]
fn interleaved_resolution_never_bleeds_across_channels() {
    let t = load_str(
        "[channels.alpha]\npersona = \"I am ALPHA and only ALPHA.\"\n\
         [channels.beta]\npersona = \"I am BETA and only BETA.\"\n",
    )
    .ok()
    .unwrap();
    for i in 0..64 {
        let (ch, want) = if i % 2 == 0 {
            ("alpha", "I am ALPHA and only ALPHA.")
        } else {
            ("beta", "I am BETA and only BETA.")
        };
        for _ in 0..2000 {
            assert_eq!(t.resolve_persona(nil(), Some(ch)), Some(want));
        }
    }
}
