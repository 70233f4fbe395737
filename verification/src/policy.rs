//! The channel policy: which MCP servers, and which persona, the sessions of
//! a channel run with. A policy is built from the entries of a policy
//! document, keyed by channel UUID or by channel name.
use vstd::prelude::*;

use crate::text::{trim, trimmed};

verus! {

/// One environment variable handed to an MCP server.
pub struct EnvVar {
    pub name: String,
    pub value: String,
}

/// An MCP server a session is started with.
pub struct McpServer {
    pub name: String,
    pub command: String,
    pub args: Vec<String>,
    pub env: Vec<EnvVar>,
}

/// An explicit MCP server as a policy entry declares it; `env` keeps the
/// order in which the document's variables were read.
pub struct McpToml {
    pub name: String,
    pub command: String,
    pub args: Vec<String>,
    pub env: Vec<EnvVar>,
}

/// The abstract value of an MCP server: name, command, arguments and
/// environment as texts.
pub struct ServerSpec {
    pub name: Seq<char>,
    pub command: Seq<char>,
    pub args: Seq<Seq<char>>,
    pub env: Seq<(Seq<char>, Seq<char>)>,
}

impl View for EnvVar {
    type V = (Seq<char>, Seq<char>);

    open spec fn view(&self) -> (Seq<char>, Seq<char>) {
        (self.name@, self.value@)
    }
}

/// The abstract values of a list of environment variables.
pub open spec fn env_view(env: Seq<EnvVar>) -> Seq<(Seq<char>, Seq<char>)> {
    env.map_values(|e: EnvVar| e@)
}

impl View for McpServer {
    type V = ServerSpec;

    open spec fn view(&self) -> ServerSpec {
        ServerSpec {
            name: self.name@,
            command: self.command@,
            args: self.args.deep_view(),
            env: env_view(self.env@),
        }
    }
}

impl View for McpToml {
    type V = ServerSpec;

    open spec fn view(&self) -> ServerSpec {
        ServerSpec {
            name: self.name@,
            command: self.command@,
            args: self.args.deep_view(),
            env: env_view(self.env@),
        }
    }
}

/// The abstract values of a list of servers.
pub open spec fn servers_view(servers: Seq<McpServer>) -> Seq<ServerSpec> {
    servers.map_values(|s: McpServer| s@)
}

/// A persona file named by an entry, with the outcome of reading it: its
/// contents, or the reason it could not be read.
pub struct PersonaFile {
    pub path: String,
    pub contents: Result<String, String>,
}

/// One channel's policy as the document writes it.
pub struct ChannelToolsEntry {
    /// Harbor room shorthand: stands for `<harbor_command> mcp-server --room=<room>`.
    pub room: Option<String>,
    /// Per-entry harbor binary override.
    pub harbor_command: Option<String>,
    /// Explicit MCP servers, after the room's server.
    pub mcp: Vec<McpToml>,
    /// Inline persona (system prompt replacement).
    pub persona: Option<String>,
    /// Persona kept in a file.
    pub persona_file: Option<PersonaFile>,
}

/// A policy document: the default harbor binary and the channel entries,
/// each under its key, in the order they were read.
pub struct ChannelToolsFile {
    pub harbor_command: Option<String>,
    pub channels: Vec<(String, ChannelToolsEntry)>,
}

/// Why a policy document is refused; each names the entry's key.
pub enum LoadError {
    BothPersonaSources { key: String },
    NothingDeclared { key: String },
    EmptyRoom { key: String },
    EmptyPersona { key: String },
    PersonaFileUnreadable { key: String, path: String, reason: String },
    PersonaFileEmpty { key: String, path: String },
}

/// The abstract value of a [`LoadError`].
pub enum LoadErrorView {
    BothPersonaSources { key: Seq<char> },
    NothingDeclared { key: Seq<char> },
    EmptyRoom { key: Seq<char> },
    EmptyPersona { key: Seq<char> },
    PersonaFileUnreadable { key: Seq<char>, path: Seq<char>, reason: Seq<char> },
    PersonaFileEmpty { key: Seq<char>, path: Seq<char> },
}

impl View for LoadError {
    type V = LoadErrorView;

    open spec fn view(&self) -> LoadErrorView {
        match self {
            LoadError::BothPersonaSources { key } => LoadErrorView::BothPersonaSources { key: key@ },
            LoadError::NothingDeclared { key } => LoadErrorView::NothingDeclared { key: key@ },
            LoadError::EmptyRoom { key } => LoadErrorView::EmptyRoom { key: key@ },
            LoadError::EmptyPersona { key } => LoadErrorView::EmptyPersona { key: key@ },
            LoadError::PersonaFileUnreadable { key, path, reason } => {
                LoadErrorView::PersonaFileUnreadable { key: key@, path: path@, reason: reason@ }
            },
            LoadError::PersonaFileEmpty { key, path } => LoadErrorView::PersonaFileEmpty {
                key: key@,
                path: path@,
            },
        }
    }
}

/// The first rule an entry breaks, in the order they are checked: both
/// persona sources; nothing declared; a blank room; a blank inline persona.
pub open spec fn shape_problem(key: Seq<char>, e: ChannelToolsEntry) -> Option<LoadErrorView> {
    if e.persona is Some && e.persona_file is Some {
        Some(LoadErrorView::BothPersonaSources { key })
    } else if e.room is None && e.mcp@.len() == 0 && e.persona is None && e.persona_file is None {
        Some(LoadErrorView::NothingDeclared { key })
    } else if e.room is Some && trim(e.room->0@).len() == 0 {
        Some(LoadErrorView::EmptyRoom { key })
    } else if e.persona is Some && trim(e.persona->0@).len() == 0 {
        Some(LoadErrorView::EmptyPersona { key })
    } else {
        None
    }
}

/// The persona an entry selects: the inline one, else the persona file's
/// contents (an unreadable or blank file is an error), else none.
pub open spec fn persona_outcome(key: Seq<char>, e: ChannelToolsEntry) -> Result<
    Option<Seq<char>>,
    LoadErrorView,
> {
    match e.persona {
        Some(p) => Ok(Some(p@)),
        None => match e.persona_file {
            Some(pf) => match pf.contents {
                Err(reason) => Err(
                    LoadErrorView::PersonaFileUnreadable { key, path: pf.path@, reason: reason@ },
                ),
                Ok(c) => if trim(c@).len() == 0 {
                    Err(LoadErrorView::PersonaFileEmpty { key, path: pf.path@ })
                } else {
                    Ok(Some(c@))
                },
            },
            None => Ok(None),
        },
    }
}

/// The server a room entry stands for.
pub open spec fn room_server(room: Seq<char>, command: Seq<char>) -> ServerSpec {
    ServerSpec {
        name: "harbor-"@ + room,
        command,
        args: seq!["mcp-server"@, "--room="@ + room],
        env: seq![],
    }
}

/// The servers an entry scopes: its room's server, if it names a room,
/// followed by its explicit servers in order.
pub open spec fn entry_servers(e: ChannelToolsEntry, default_harbor: Seq<char>) -> Seq<ServerSpec> {
    let declared = e.mcp@.map_values(|m: McpToml| m@);
    match e.room {
        Some(room) => {
            let command = match e.harbor_command {
                Some(h) => h@,
                None => default_harbor,
            };
            seq![room_server(room@, command)] + declared
        },
        None => declared,
    }
}

fn copy_env(env: &Vec<EnvVar>) -> (r: Vec<EnvVar>)
    ensures
        env_view(r@) == env_view(env@),
{
    let mut r: Vec<EnvVar> = Vec::new();
    let mut i: usize = 0;
    while i < env.len()
        invariant
            i <= env@.len(),
            r@.len() == i,
            forall|j: int| 0 <= j < i ==> (#[trigger] r@[j])@ == env@[j]@,
        decreases env@.len() - i,
    {
        let e = EnvVar { name: env[i].name.clone(), value: env[i].value.clone() };
        r.push(e);
        i = i + 1;
    }
    assert(env_view(r@) =~= env_view(env@));
    r
}

fn copy_texts(v: &Vec<String>) -> (r: Vec<String>)
    ensures
        r.deep_view() == v.deep_view(),
{
    let mut r: Vec<String> = Vec::new();
    let mut i: usize = 0;
    while i < v.len()
        invariant
            i <= v@.len(),
            r@.len() == i,
            forall|j: int| 0 <= j < i ==> (#[trigger] r@[j])@ == v@[j]@,
        decreases v@.len() - i,
    {
        r.push(v[i].clone());
        i = i + 1;
    }
    assert(r.deep_view() =~= v.deep_view());
    r
}

impl ChannelToolsEntry {
    /// Checks the entry's shape before it is split into tool and persona
    /// policy: both persona sources set, nothing declared, a blank room and a
    /// blank inline persona are refused, in that order.
    pub fn validate(&self, key: &str) -> (r: Result<(), LoadError>)
        ensures
            match r {
                Ok(()) => shape_problem(key@, *self) is None,
                Err(err) => shape_problem(key@, *self) == Some(err@),
            },
    {
        if self.persona.is_some() && self.persona_file.is_some() {
            return Err(LoadError::BothPersonaSources { key: String::from_str(key) });
        }
        if self.room.is_none() && self.mcp.len() == 0 && self.persona.is_none()
            && self.persona_file.is_none() {
            return Err(LoadError::NothingDeclared { key: String::from_str(key) });
        }
        if let Some(room) = &self.room {
            if trimmed(room.as_str()).as_str().is_empty() {
                return Err(LoadError::EmptyRoom { key: String::from_str(key) });
            }
        }
        if let Some(p) = &self.persona {
            if trimmed(p.as_str()).as_str().is_empty() {
                return Err(LoadError::EmptyPersona { key: String::from_str(key) });
            }
        }
        Ok(())
    }

    /// The MCP servers the entry scopes: `harbor-<room>` running
    /// `<harbor> mcp-server --room=<room>` when it names a room, then its
    /// explicit servers. Empty for an entry that scopes no tools.
    pub fn to_servers(&self, default_harbor: &str) -> (r: Vec<McpServer>)
        ensures
            servers_view(r@) == entry_servers(*self, default_harbor@),
    {
        let mut servers: Vec<McpServer> = Vec::new();
        if let Some(room) = &self.room {
            let command = match &self.harbor_command {
                Some(h) => h.clone(),
                None => String::from_str(default_harbor),
            };
            let mut args: Vec<String> = Vec::new();
            args.push(String::from_str("mcp-server"));
            args.push(String::from_str("--room=").concat(room.as_str()));
            let server = McpServer {
                name: String::from_str("harbor-").concat(room.as_str()),
                command,
                args,
                env: Vec::new(),
            };
            assert(server.args.deep_view() =~= seq!["mcp-server"@, "--room="@ + room@]);
            assert(env_view(server.env@) =~= seq![]);
            servers.push(server);
            assert(servers_view(servers@) =~= seq![room_server(room@, server.command@)]);
        }
        let ghost lead = servers_view(servers@);
        let ghost k = servers@.len();
        let mut i: usize = 0;
        while i < self.mcp.len()
            invariant
                i <= self.mcp@.len(),
                servers@.len() == k + i,
                forall|j: int| 0 <= j < k ==> (#[trigger] servers@[j])@ == lead[j],
                forall|j: int| 0 <= j < i ==> (#[trigger] servers@[k + j])@ == self.mcp@[j]@,
            decreases self.mcp@.len() - i,
        {
            let m = &self.mcp[i];
            let server = McpServer {
                name: m.name.clone(),
                command: m.command.clone(),
                args: copy_texts(&m.args),
                env: copy_env(&m.env),
            };
            servers.push(server);
            assert(servers@[k + i]@ == self.mcp@[i as int]@);
            i = i + 1;
        }
        assert(servers_view(servers@) =~= lead + self.mcp@.map_values(|m: McpToml| m@)) by {
            assert forall|j: int| 0 <= j < servers@.len() implies servers_view(servers@)[j] == (lead
                + self.mcp@.map_values(|m: McpToml| m@))[j] by {
                if j < k {
                } else {
                    assert(servers@[k + (j - k)]@ == self.mcp@[j - k]@);
                }
            }
        }
        servers
    }

    /// The entry's persona: the inline text, else the persona file's
    /// contents, which must have been read and must not be blank, else none.
    pub fn read_persona(&self, key: &str) -> (r: Result<Option<String>, LoadError>)
        ensures
            match r {
                Ok(Some(p)) => persona_outcome(key@, *self) == Ok::<Option<Seq<char>>, LoadErrorView>(Some(p@)),
                Ok(None) => persona_outcome(key@, *self) == Ok::<Option<Seq<char>>, LoadErrorView>(None),
                Err(err) => persona_outcome(key@, *self) == Err::<Option<Seq<char>>, LoadErrorView>(err@),
            },
    {
        if let Some(p) = &self.persona {
            return Ok(Some(p.clone()));
        }
        if let Some(pf) = &self.persona_file {
            match &pf.contents {
                Err(reason) => {
                    return Err(
                        LoadError::PersonaFileUnreadable {
                            key: String::from_str(key),
                            path: pf.path.clone(),
                            reason: reason.clone(),
                        },
                    );
                },
                Ok(content) => {
                    if trimmed(content.as_str()).as_str().is_empty() {
                        return Err(
                            LoadError::PersonaFileEmpty {
                                key: String::from_str(key),
                                path: pf.path.clone(),
                            },
                        );
                    }
                    return Ok(Some(content.clone()));
                },
            }
        }
        Ok(None)
    }
}

/// The text a refused document is reported with.
pub open spec fn error_message(e: LoadErrorView) -> Seq<char> {
    match e {
        LoadErrorView::BothPersonaSources { key } => "channel-tools entry '"@ + key
            + "' sets both `persona` and `persona_file` (mutually exclusive)"@,
        LoadErrorView::NothingDeclared { key } => "channel-tools entry '"@ + key
            + "' declares none of `room`, `mcp`, `persona`, `persona_file`"@,
        LoadErrorView::EmptyRoom { key } => "channel-tools entry '"@ + key
            + "' has an empty `room`"@,
        LoadErrorView::EmptyPersona { key } => "channel-tools entry '"@ + key
            + "' has an empty `persona`"@,
        LoadErrorView::PersonaFileUnreadable { key, path, reason } => "channel-tools entry '"@
            + key + "': cannot read persona_file "@ + path + ": "@ + reason,
        LoadErrorView::PersonaFileEmpty { key, path } => "channel-tools entry '"@ + key
            + "': persona_file "@ + path + " is empty"@,
    }
}

impl LoadError {
    /// The error's text.
    pub fn message(&self) -> (r: String)
        ensures
            r@ == error_message(self@),
    {
        let head = String::from_str("channel-tools entry '");
        match self {
            LoadError::BothPersonaSources { key } => head.concat(key.as_str()).concat(
                "' sets both `persona` and `persona_file` (mutually exclusive)",
            ),
            LoadError::NothingDeclared { key } => head.concat(key.as_str()).concat(
                "' declares none of `room`, `mcp`, `persona`, `persona_file`",
            ),
            LoadError::EmptyRoom { key } => head.concat(key.as_str()).concat(
                "' has an empty `room`",
            ),
            LoadError::EmptyPersona { key } => head.concat(key.as_str()).concat(
                "' has an empty `persona`",
            ),
            LoadError::PersonaFileUnreadable { key, path, reason } => head.concat(
                key.as_str(),
            ).concat("': cannot read persona_file ").concat(path.as_str()).concat(": ").concat(
                reason.as_str(),
            ),
            LoadError::PersonaFileEmpty { key, path } => head.concat(key.as_str()).concat(
                "': persona_file ",
            ).concat(path.as_str()).concat(" is empty"),
        }
    }
}

} // verus!
