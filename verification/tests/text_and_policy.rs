use channel_tools::paths::expand_tilde;
use channel_tools::harbor::safe_arg;
use channel_tools::policy::{
    ChannelToolsEntry, ChannelToolsFile, EnvVar, LoadError, McpToml, PersonaFile,
};
use channel_tools::text::{decimal_text, is_white_space_char, lowercase_without_hashes, trimmed};
use channel_tools::tools::ChannelTools;

fn entry(room: Option<&str>, persona: Option<&str>) -> ChannelToolsEntry {
    ChannelToolsEntry {
        room: room.map(|r| r.to_string()),
        harbor_command: None,
        mcp: Vec::new(),
        persona: persona.map(|p| p.to_string()),
        persona_file: None,
    }
}

fn file(channels: Vec<(&str, ChannelToolsEntry)>) -> ChannelToolsFile {
    ChannelToolsFile {
        harbor_command: None,
        channels: channels.into_iter().map(|(k, e)| (k.to_string(), e)).collect(),
    }
}

fn message(r: Result<ChannelTools, LoadError>) -> String {
    match r {
        Ok(_) => panic!("expected a refusal"),
        Err(e) => e.message(),
    }
}

#[test]
fn white_space_matches_std() {
    for c in (0u32..0x11000).filter_map(char::from_u32) {
        assert_eq!(is_white_space_char(c), c.is_whitespace(), "{:?}", c);
    }
}

#[test]
fn trimmed_matches_std_trim() {
    for s in ["", "   ", " a ", "\u{2028}x y\u{3000}", "\t\nword", "no-space", "\u{85}\u{a0}"] {
        assert_eq!(trimmed(s), s.trim());
    }
}

#[test]
fn lowercase_without_hashes_matches_std() {
    for s in ["#BookKeeping", "##A#B", "", "#", "Ünïcode-ÄB", "plain"] {
        assert_eq!(lowercase_without_hashes(s), s.trim_start_matches('#').to_ascii_lowercase());
    }
}

#[test]
fn decimal_text_matches_display() {
    for n in [0usize, 7, 10, 99, 100, 12345, usize::MAX] {
        assert_eq!(decimal_text(n), n.to_string());
    }
}

#[test]
fn load_errors_name_the_entry() {
    assert_eq!(
        message(ChannelTools::load(&file(vec![("empty", entry(None, None))]))),
        "channel-tools entry 'empty' declares none of `room`, `mcp`, `persona`, `persona_file`"
    );
    assert_eq!(
        message(ChannelTools::load(&file(vec![("a", entry(Some(" "), None))]))),
        "channel-tools entry 'a' has an empty `room`"
    );
    assert_eq!(
        message(ChannelTools::load(&file(vec![("a", entry(None, Some("\t")))]))),
        "channel-tools entry 'a' has an empty `persona`"
    );
    let mut both = entry(None, Some("inline"));
    both.persona_file = Some(PersonaFile { path: "/p".to_string(), contents: Ok("x".to_string()) });
    assert_eq!(
        message(ChannelTools::load(&file(vec![("a", both)]))),
        "channel-tools entry 'a' sets both `persona` and `persona_file` (mutually exclusive)"
    );
}

#[test]
fn persona_file_errors_name_the_path() {
    let mut missing = entry(None, None);
    missing.persona_file =
        Some(PersonaFile { path: "/p/x.md".to_string(), contents: Err("not found".to_string()) });
    assert_eq!(
        message(ChannelTools::load(&file(vec![("a", missing)]))),
        "channel-tools entry 'a': cannot read persona_file /p/x.md: not found"
    );
    let mut blank = entry(None, None);
    blank.persona_file =
        Some(PersonaFile { path: "/p/y.md".to_string(), contents: Ok(" \n".to_string()) });
    assert_eq!(
        message(ChannelTools::load(&file(vec![("a", blank)]))),
        "channel-tools entry 'a': persona_file /p/y.md is empty"
    );
}

#[test]
fn first_bad_entry_is_reported() {
    let r = ChannelTools::load(&file(vec![
        ("good", entry(Some("r"), None)),
        ("first", entry(Some(""), None)),
        ("second", entry(None, None)),
    ]));
    assert_eq!(message(r), "channel-tools entry 'first' has an empty `room`");
}

#[test]
fn entry_count_counts_every_entry() {
    let t = ChannelTools::load(&file(vec![
        ("a", entry(Some("r"), None)),
        ("b", entry(None, Some("p"))),
        ("#A", entry(Some("s"), None)),
    ]))
    .ok()
    .unwrap();
    assert_eq!(t.entry_count(), 3);
    assert_eq!(ChannelTools::default().entry_count(), 0);
}

#[test]
fn later_entry_with_the_same_key_wins() {
    let t = ChannelTools::load(&file(vec![
        ("Ops", entry(Some("first"), Some("one"))),
        ("#ops", entry(Some("second"), None)),
    ]))
    .ok()
    .unwrap();
    assert_eq!(t.resolve(0, Some("OPS")).unwrap()[0].name, "harbor-second");
    // the later entry selects no persona, so the earlier persona stays
    assert_eq!(t.resolve_persona(0, Some("ops")), Some("one"));
}

#[test]
fn uuid_keys_are_read_in_every_uuid_form() {
    let id = 0x6f8199d3_479f_4dce_8851_000a4b0a2586u128;
    for key in [
        "6F8199D3-479F-4DCE-8851-000A4B0A2586",
        "{6f8199d3-479f-4dce-8851-000a4b0a2586}",
        "urn:uuid:6f8199d3-479f-4dce-8851-000a4b0a2586",
        "6f8199d3479f4dce8851000a4b0a2586",
    ] {
        let t = ChannelTools::load(&file(vec![(key, entry(Some("legal"), None))])).ok().unwrap();
        assert_eq!(t.resolve(id, None).unwrap()[0].args[1], "--room=legal", "{}", key);
        // a UUID key is not also a name
        assert!(t.resolve(1, Some(key)).is_none());
    }
}

#[test]
fn explicit_servers_follow_the_room_server_in_order() {
    let mut e = entry(Some("ops"), None);
    e.harbor_command = Some("/bin/h".to_string());
    e.mcp = vec![
        McpToml {
            name: "one".to_string(),
            command: "/bin/one".to_string(),
            args: vec!["-a".to_string(), "-b".to_string()],
            env: vec![
                EnvVar { name: "K".to_string(), value: "V".to_string() },
                EnvVar { name: "L".to_string(), value: "W".to_string() },
            ],
        },
        McpToml { name: "two".to_string(), command: "/bin/two".to_string(), args: vec![], env: vec![] },
    ];
    let servers = e.to_servers("harbor");
    let names: Vec<&str> = servers.iter().map(|s| s.name.as_str()).collect();
    assert_eq!(names, vec!["harbor-ops", "one", "two"]);
    assert_eq!(servers[0].command, "/bin/h");
    assert_eq!(servers[1].args, vec!["-a", "-b"]);
    assert_eq!(servers[1].env[1].name, "L");
    assert_eq!(servers[1].env[1].value, "W");
    assert!(servers[0].env.is_empty());
}

#[test]
fn validate_accepts_persona_file_alone() {
    let mut e = entry(None, None);
    e.persona_file = Some(PersonaFile { path: "/p".to_string(), contents: Ok("x".to_string()) });
    assert!(e.validate("k").is_ok());
    assert_eq!(e.read_persona("k").ok().unwrap().unwrap(), "x");
    assert!(entry(Some("r"), None).read_persona("k").ok().unwrap().is_none());
}

#[test]
fn tools_do_not_depend_on_personas() {
    let with = ChannelTools::load(&file(vec![
        ("a", entry(Some("r"), Some("p"))),
        ("b", entry(Some("s"), None)),
    ]))
    .ok()
    .unwrap();
    let without = ChannelTools::load(&file(vec![
        ("a", entry(Some("r"), None)),
        ("b", entry(Some("s"), None)),
    ]))
    .ok()
    .unwrap();
    for name in ["a", "b", "c"] {
        let x = with.resolve(0, Some(name)).map(|v| v.iter().map(|s| s.name.clone()).collect::<Vec<_>>());
        let y = without.resolve(0, Some(name)).map(|v| v.iter().map(|s| s.name.clone()).collect::<Vec<_>>());
        assert_eq!(x, y);
    }
}

#[test]
fn name_keys_are_stable() {
    for s in ["#Ops", "##", "A#b", "ÄÖ"] {
        let k = lowercase_without_hashes(s);
        assert_eq!(lowercase_without_hashes(&k), k);
    }
}

#[test]
fn accepted_arguments_are_accepted_unchanged() {
    for v in [" a ", "x", "\u{3000}room\t"] {
        let once = safe_arg("v", v).unwrap();
        assert_eq!(safe_arg("v", &once).unwrap(), once);
    }
}

#[test]
fn tilde_expands_to_home() {
    assert_eq!(expand_tilde("~/.buzz/personas/a.md", Some("/home/u")), "/home/u/.buzz/personas/a.md");
    assert_eq!(expand_tilde("/etc/a.md", Some("/home/u")), "/etc/a.md");
    assert_eq!(expand_tilde("~user/a.md", Some("/home/u")), "~user/a.md");
    assert_eq!(expand_tilde("~/a.md", None), "~/a.md");
}
