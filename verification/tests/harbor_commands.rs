use channel_tools::commands::{begin, step, Action, HarborOutput, HarborRequest, Reply, Stage};
use channel_tools::harbor::{
    choose_harbor_binary, harbor_binary, json_output, policy_path_override, safe_arg,
    text_output,
};

fn out(success: bool, stdout: &str, stderr: &str) -> HarborOutput {
    HarborOutput {
        success,
        status: if success { "exit status: 0".to_string() } else { "exit status: 1".to_string() },
        stdout: stdout.as_bytes().to_vec(),
        stderr: stderr.as_bytes().to_vec(),
    }
}

fn run_of(a: Action) -> (Vec<String>, Stage) {
    match a {
        Action::Run { argv, next } => (argv, next),
        Action::Finish(_) => panic!("expected a run"),
    }
}

fn error_of(a: Action) -> String {
    match a {
        Action::Finish(Err(m)) => m,
        _ => panic!("expected an error"),
    }
}

fn text_of(a: Action) -> String {
    match a {
        Action::Finish(Ok(Reply::Text(t))) => t,
        _ => panic!("expected a text answer"),
    }
}

#[test]
fn safe_arg_trims_and_accepts() {
    assert_eq!(safe_arg("channel", "  general \n").unwrap(), "general");
}

#[test]
fn safe_arg_refuses_empty_values() {
    assert_eq!(safe_arg("channel", " \t ").unwrap_err(), "channel must not be empty");
}

#[test]
fn safe_arg_refuses_flag_like_values() {
    assert_eq!(safe_arg("skill", "  --yes").unwrap_err(), "skill must not start with '-'");
}

#[test]
fn safe_arg_treats_unicode_spaces_as_blank() {
    assert!(safe_arg("name", "\u{3000}\u{00A0}").is_err());
    assert_eq!(safe_arg("name", "\u{2003}x\u{2003}").unwrap(), "x");
}

#[test]
fn text_output_trims_success() {
    assert_eq!(text_output(true, b"  done\n", b"ignored").unwrap(), "done");
}

#[test]
fn text_output_combines_failure_streams() {
    assert_eq!(text_output(false, b" partial \n", b"  boom \n").unwrap_err(), "partial\nboom");
    assert_eq!(text_output(false, b"", b" boom ").unwrap_err(), "boom");
}

#[test]
fn text_output_replaces_invalid_utf8() {
    assert_eq!(text_output(true, &[0x61, 0xff, 0x62], b"").unwrap(), "a\u{FFFD}b");
}

#[test]
fn json_output_reports_failed_exit() {
    let e = json_output(false, "exit status: 2", b"{}", b"  no such channel \n").unwrap_err();
    assert_eq!(e, "harbor exit status: 2: no such channel");
}

#[test]
fn json_output_parses_documents() {
    let v = json_output(true, "exit status: 0", br#"{"room": "legal"}"#, br#"{"room": "other"}"#).unwrap();
    assert_eq!(v["room"], "legal");
}

#[test]
fn json_output_reports_invalid_json() {
    let e = json_output(true, "exit status: 0", b"not json", b"").unwrap_err();
    assert!(e.starts_with("harbor returned invalid JSON: "));
    assert!(e.ends_with(" (got 8 bytes)"));
}

#[test]
fn policy_path_override_needs_a_non_blank_value() {
    assert_eq!(policy_path_override(Some("/etc/tools.toml")).unwrap(), "/etc/tools.toml");
    assert!(policy_path_override(Some("   ")).is_none());
    assert!(policy_path_override(None).is_none());
}

#[test]
fn harbor_binary_comes_from_the_policy() {
    assert_eq!(harbor_binary(Some("harbor_command = \"/opt/harbor\"\n")), "/opt/harbor");
    assert_eq!(harbor_binary(Some("harbor_command = \"  \"\n")), "harbor");
    assert_eq!(harbor_binary(Some("harbor_command = 3\n")), "harbor");
    assert_eq!(harbor_binary(Some("not toml [")), "harbor");
    assert_eq!(harbor_binary(None), "harbor");
    assert_eq!(choose_harbor_binary(Some(" h ".to_string())), " h ");
}

#[test]
fn get_runs_channel_tools_json() {
    let (argv, next) = run_of(begin(&HarborRequest::Get { channel: " legal ".to_string() }));
    assert_eq!(argv, vec!["channel-tools", "legal", "--json"]);
    assert!(matches!(next, Stage::Final));
    match step(&HarborRequest::Get { channel: "legal".to_string() }, next, Ok(out(true, "{\"skills\": []}", ""))) {
        Action::Finish(Ok(Reply::Json(v))) => assert!(v["skills"].is_array()),
        _ => panic!("expected a JSON answer"),
    }
}

#[test]
fn pool_skills_runs_skills_list() {
    let (argv, _) = run_of(begin(&HarborRequest::PoolSkills));
    assert_eq!(argv, vec!["skills-list", "--json"]);
}

#[test]
fn remove_skill_looks_up_the_room_without_scoping() {
    let req = HarborRequest::RemoveSkill { channel: "legal".to_string(), skill: " notes ".to_string() };
    let (argv, next) = run_of(begin(&req));
    assert_eq!(argv, vec!["channel-tools", "legal", "--json"]);
    assert!(matches!(next, Stage::RoomLookup));
    let (argv, next) = run_of(step(&req, next, Ok(out(true, "{\"room\": \"law\"}", ""))));
    assert_eq!(argv, vec!["skill-remove", "--name", "notes", "--room", "law", "--yes"]);
    assert_eq!(text_of(step(&req, next, Ok(out(true, " removed \n", "")))), "removed");
}

#[test]
fn remove_on_unscoped_channel_is_refused() {
    let req = HarborRequest::RemoveMcp { channel: "legal".to_string(), name: "sysmon".to_string() };
    let (_, next) = run_of(begin(&req));
    let e = error_of(step(&req, next, Ok(out(true, "{\"room\": null}", ""))));
    assert_eq!(e, "this channel has no tools to remove");
}

#[test]
fn remove_mcp_names_room_then_server() {
    let req = HarborRequest::RemoveMcp { channel: "legal".to_string(), name: "sysmon".to_string() };
    let (_, next) = run_of(begin(&req));
    let (argv, _) = run_of(step(&req, next, Ok(out(true, "{\"room\": \"law\"}", ""))));
    assert_eq!(argv, vec!["mcp-remove", "--room", "law", "--name", "sysmon"]);
}

#[test]
fn add_existing_skill_scopes_the_channel() {
    let req = HarborRequest::AddExistingSkill { channel: "legal".to_string(), skill: "notes".to_string() };
    let (argv, next) = run_of(begin(&req));
    assert_eq!(argv, vec!["channel-tools", "legal", "--map", "--json"]);
    let (argv, _) = run_of(step(&req, next, Ok(out(true, "{\"room\": \"law\"}", ""))));
    assert_eq!(argv, vec!["skill-room-add", "--skill", "notes", "--room", "law"]);
}

#[test]
fn add_existing_skill_without_room_cannot_scope() {
    let req = HarborRequest::AddExistingSkill { channel: "legal".to_string(), skill: "notes".to_string() };
    let (_, next) = run_of(begin(&req));
    assert_eq!(error_of(step(&req, next, Ok(out(true, "{}", "")))), "could not scope this channel");
}

#[test]
fn add_new_skill_adds_a_name_only_when_given() {
    let with_name = HarborRequest::AddNewSkill {
        channel: "legal".to_string(),
        source: "/skills/notes".to_string(),
        name: Some(" notes ".to_string()),
    };
    let (_, next) = run_of(begin(&with_name));
    let (argv, _) = run_of(step(&with_name, next, Ok(out(true, "{\"room\": \"law\"}", ""))));
    assert_eq!(
        argv,
        vec!["skill-install", "--source", "/skills/notes", "--room", "law", "--name", "notes"]
    );
    let blank_name = HarborRequest::AddNewSkill {
        channel: "legal".to_string(),
        source: "/skills/notes".to_string(),
        name: Some("  ".to_string()),
    };
    let (argv, _) = run_of(step(&blank_name, Stage::RoomLookup, Ok(out(true, "{\"room\": \"law\"}", ""))));
    assert_eq!(argv, vec!["skill-install", "--source", "/skills/notes", "--room", "law"]);
}

#[test]
fn add_new_skill_refuses_a_flag_like_name_before_any_run() {
    let req = HarborRequest::AddNewSkill {
        channel: "general".to_string(),
        source: "/skills/foo".to_string(),
        name: Some("-x".to_string()),
    };
    assert_eq!(error_of(begin(&req)), "name must not start with '-'");
}

#[test]
fn add_mcp_passes_trimmed_args() {
    let req = HarborRequest::AddMcp {
        channel: "ops".to_string(),
        name: "sysmon".to_string(),
        command: "/bin/sysmon".to_string(),
        args: Some(" stdio ".to_string()),
    };
    let (_, next) = run_of(begin(&req));
    let (argv, _) = run_of(step(&req, next, Ok(out(true, "{\"room\": \"ops\"}", ""))));
    assert_eq!(
        argv,
        vec!["mcp-add", "--room", "ops", "--name", "sysmon", "--command", "/bin/sysmon", "--args", "stdio"]
    );
}

#[test]
fn add_mcp_refuses_flag_like_args_before_any_run() {
    let req = HarborRequest::AddMcp {
        channel: "general".to_string(),
        name: "sysmon".to_string(),
        command: "/bin/sysmon".to_string(),
        args: Some("-v".to_string()),
    };
    assert_eq!(error_of(begin(&req)), "args must not start with '-'");
}

#[test]
fn add_mcp_leaves_out_blank_args() {
    let req = HarborRequest::AddMcp {
        channel: "ops".to_string(),
        name: "sysmon".to_string(),
        command: "/bin/sysmon".to_string(),
        args: Some("  ".to_string()),
    };
    let (_, next) = run_of(begin(&req));
    let (argv, _) = run_of(step(&req, next, Ok(out(true, "{\"room\": \"ops\"}", ""))));
    assert_eq!(argv, vec!["mcp-add", "--room", "ops", "--name", "sysmon", "--command", "/bin/sysmon"]);
}

#[test]
fn add_mcp_checks_command() {
    let req = HarborRequest::AddMcp {
        channel: "ops".to_string(),
        name: "sysmon".to_string(),
        command: " ".to_string(),
        args: None,
    };
    assert_eq!(error_of(begin(&req)), "command must not be empty");
}

#[test]
fn persona_commands_build_single_arguments() {
    let (argv, _) = run_of(begin(&HarborRequest::GetPersona { channel: "c".to_string() }));
    assert_eq!(argv, vec!["channel-persona", "c", "--json"]);
    let (argv, _) = run_of(begin(&HarborRequest::SyncPersona { channel: "c".to_string() }));
    assert_eq!(argv, vec!["channel-persona", "c", "--sync", "--json"]);
    let (argv, _) = run_of(begin(&HarborRequest::SetPersonaFile {
        channel: "c".to_string(),
        file: " /p/a.md ".to_string(),
    }));
    assert_eq!(argv, vec!["channel-persona", "c", "--set-file=/p/a.md"]);
    let (argv, _) = run_of(begin(&HarborRequest::SetPersonaInline {
        channel: "c".to_string(),
        text: " Be kind. ".to_string(),
    }));
    assert_eq!(argv, vec!["channel-persona", "c", "--set-inline= Be kind. "]);
    let (argv, _) = run_of(begin(&HarborRequest::EditRoomPersona {
        room: "r".to_string(),
        name: "n".to_string(),
        text: "Body".to_string(),
    }));
    assert_eq!(argv, vec!["room-persona", "r", "n", "--set-body=Body"]);
    let (argv, _) = run_of(begin(&HarborRequest::RemovePersona { channel: "c".to_string() }));
    assert_eq!(argv, vec!["channel-persona", "c", "--remove"]);
}

#[test]
fn persona_commands_refuse_blank_text() {
    let e = error_of(begin(&HarborRequest::SetPersonaFile { channel: "c".to_string(), file: " ".to_string() }));
    assert_eq!(e, "file must not be empty");
    let e = error_of(begin(&HarborRequest::SetPersonaInline { channel: "c".to_string(), text: "\n".to_string() }));
    assert_eq!(e, "persona text must not be empty");
    let e = error_of(begin(&HarborRequest::EditRoomPersona {
        room: "r".to_string(),
        name: "n".to_string(),
        text: "".to_string(),
    }));
    assert_eq!(e, "persona text must not be empty");
}

#[test]
fn failed_runs_end_the_command() {
    let req = HarborRequest::RemovePersona { channel: "c".to_string() };
    let e = error_of(step(&req, Stage::Final, Err("failed to run 'harbor': not found".to_string())));
    assert_eq!(e, "failed to run 'harbor': not found");
    let e = error_of(step(&req, Stage::Final, Ok(out(false, "out", "err"))));
    assert_eq!(e, "out\nerr");
}

#[test]
fn room_lookup_failures_end_the_command() {
    let req = HarborRequest::RemoveSkill { channel: "c".to_string(), skill: "s".to_string() };
    let e = error_of(step(&req, Stage::RoomLookup, Ok(out(false, "", " denied "))));
    assert_eq!(e, "harbor exit status: 1: denied");
    let e = error_of(step(&req, Stage::RoomLookup, Ok(out(true, "oops", ""))));
    assert!(e.starts_with("harbor returned invalid JSON: "));
}
