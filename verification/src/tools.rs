//! The resolved channel policy: tools and personas keyed by channel UUID and
//! by normalised channel name, and its construction from a policy document.
use std::collections::HashMap;
use vstd::prelude::*;

use crate::policy::{
    entry_servers, persona_outcome, servers_view, shape_problem, ChannelToolsEntry,
    ChannelToolsFile, LoadError, LoadErrorView, McpServer, ServerSpec,
};
use crate::table::NameTable;
use crate::text::{ascii_lower, lowercase_without_hashes, strip_leading_hashes};
use crate::uuid_key::{parse_uuid, uuid_text_value};

verus! {

broadcast use vstd::std_specs::hash::group_hash_axioms;

/// The key a channel name is matched under: leading `'#'` characters dropped,
/// ASCII letters lower-cased.
pub open spec fn name_key(name: Seq<char>) -> Seq<char> {
    ascii_lower(strip_leading_hashes(name))
}

/// The texts of an optional string.
pub open spec fn text_opt(name: Option<&str>) -> Option<Seq<char>> {
    match name {
        Some(n) => Some(n@),
        None => None,
    }
}

/// Channel resolution: the UUID's entry first; failing that, the entry under
/// the name's key, when a name is given.
pub open spec fn channel_lookup<V>(
    by_uuid: Map<u128, V>,
    by_name: Map<Seq<char>, V>,
    id: u128,
    name: Option<Seq<char>>,
) -> Option<V> {
    if by_uuid.contains_key(id) {
        Some(by_uuid[id])
    } else {
        match name {
            Some(n) => if by_name.contains_key(name_key(n)) {
                Some(by_name[name_key(n)])
            } else {
                None
            },
            None => None,
        }
    }
}

/// The abstract value of a policy: tools and personas by UUID and by name
/// key, and the number of entries the policy was built from.
pub struct PolicyView {
    pub tools_by_uuid: Map<u128, Seq<ServerSpec>>,
    pub tools_by_name: Map<Seq<char>, Seq<ServerSpec>>,
    pub persona_by_uuid: Map<u128, Seq<char>>,
    pub persona_by_name: Map<Seq<char>, Seq<char>>,
    pub entry_count: nat,
}

/// The policy with no entries.
pub open spec fn empty_policy() -> PolicyView {
    PolicyView {
        tools_by_uuid: Map::empty(),
        tools_by_name: Map::empty(),
        persona_by_uuid: Map::empty(),
        persona_by_name: Map::empty(),
        entry_count: 0,
    }
}

/// What an entry breaks: its shape first, then its persona.
pub open spec fn entry_problem(key: Seq<char>, e: ChannelToolsEntry) -> Option<LoadErrorView> {
    match shape_problem(key, e) {
        Some(p) => Some(p),
        None => match persona_outcome(key, e) {
            Err(p) => Some(p),
            Ok(_) => None,
        },
    }
}

/// The problem of the first entry, in document order, that has one.
pub open spec fn first_problem(chs: Seq<(String, ChannelToolsEntry)>) -> Option<LoadErrorView>
    decreases chs.len(),
{
    if chs.len() == 0 {
        None
    } else {
        match first_problem(chs.drop_last()) {
            Some(p) => Some(p),
            None => entry_problem(chs.last().0@, chs.last().1),
        }
    }
}

/// The persona an entry selects, when it has one.
pub open spec fn entry_persona(key: Seq<char>, e: ChannelToolsEntry) -> Option<Seq<char>> {
    match persona_outcome(key, e) {
        Ok(p) => p,
        Err(_) => None,
    }
}

/// The tools of the last of the first `n` entries whose key reads as UUID
/// `u` and which scopes tools.
pub open spec fn uuid_tools(
    chs: Seq<(String, ChannelToolsEntry)>,
    ids: Seq<Option<u128>>,
    d: Seq<char>,
    u: u128,
    n: int,
) -> Option<Seq<ServerSpec>>
    decreases n,
{
    if n <= 0 {
        None
    } else {
        let s = entry_servers(chs[n - 1].1, d);
        if ids[n - 1] == Some(u) && s.len() > 0 {
            Some(s)
        } else {
            uuid_tools(chs, ids, d, u, n - 1)
        }
    }
}

/// The tools of the last of the first `n` entries whose key is no UUID, has
/// name key `k`, and which scopes tools.
pub open spec fn name_tools(
    chs: Seq<(String, ChannelToolsEntry)>,
    ids: Seq<Option<u128>>,
    d: Seq<char>,
    k: Seq<char>,
    n: int,
) -> Option<Seq<ServerSpec>>
    decreases n,
{
    if n <= 0 {
        None
    } else {
        let s = entry_servers(chs[n - 1].1, d);
        if ids[n - 1] is None && name_key(chs[n - 1].0@) == k && s.len() > 0 {
            Some(s)
        } else {
            name_tools(chs, ids, d, k, n - 1)
        }
    }
}

/// The persona of the last of the first `n` entries whose key reads as UUID
/// `u` and which selects a persona.
pub open spec fn uuid_persona(
    chs: Seq<(String, ChannelToolsEntry)>,
    ids: Seq<Option<u128>>,
    u: u128,
    n: int,
) -> Option<Seq<char>>
    decreases n,
{
    if n <= 0 {
        None
    } else {
        let p = entry_persona(chs[n - 1].0@, chs[n - 1].1);
        if ids[n - 1] == Some(u) && p is Some {
            p
        } else {
            uuid_persona(chs, ids, u, n - 1)
        }
    }
}

/// The persona of the last of the first `n` entries whose key is no UUID,
/// has name key `k`, and which selects a persona.
pub open spec fn name_persona(
    chs: Seq<(String, ChannelToolsEntry)>,
    ids: Seq<Option<u128>>,
    k: Seq<char>,
    n: int,
) -> Option<Seq<char>>
    decreases n,
{
    if n <= 0 {
        None
    } else {
        let p = entry_persona(chs[n - 1].0@, chs[n - 1].1);
        if ids[n - 1] is None && name_key(chs[n - 1].0@) == k && p is Some {
            p
        } else {
            name_persona(chs, ids, k, n - 1)
        }
    }
}

/// The policy the first `n` entries give, where `ids` holds what each key
/// reads as a UUID and `d` is the default harbor binary: under each UUID and
/// each name key, the last entry that scopes tools (resp. selects a persona)
/// decides.
pub open spec fn policy_of(
    chs: Seq<(String, ChannelToolsEntry)>,
    ids: Seq<Option<u128>>,
    d: Seq<char>,
    n: int,
) -> PolicyView {
    PolicyView {
        tools_by_uuid: Map::new(
            |u: u128| uuid_tools(chs, ids, d, u, n) is Some,
            |u: u128| uuid_tools(chs, ids, d, u, n)->0,
        ),
        tools_by_name: Map::new(
            |k: Seq<char>| name_tools(chs, ids, d, k, n) is Some,
            |k: Seq<char>| name_tools(chs, ids, d, k, n)->0,
        ),
        persona_by_uuid: Map::new(
            |u: u128| uuid_persona(chs, ids, u, n) is Some,
            |u: u128| uuid_persona(chs, ids, u, n)->0,
        ),
        persona_by_name: Map::new(
            |k: Seq<char>| name_persona(chs, ids, k, n) is Some,
            |k: Seq<char>| name_persona(chs, ids, k, n)->0,
        ),
        entry_count: n as nat,
    }
}

/// The default harbor binary of a document: its own, else `harbor`.
pub open spec fn default_harbor(file: ChannelToolsFile) -> Seq<char> {
    match file.harbor_command {
        Some(h) => h@,
        None => "harbor"@,
    }
}

/// What each key of a document reads as, as a UUID.
pub open spec fn key_uuids(chs: Seq<(String, ChannelToolsEntry)>) -> Seq<Option<u128>> {
    Seq::new(chs.len(), |i: int| uuid_text_value(chs[i].0@))
}

/// Resolved channel policy, keyed by UUID and by name key. Tools and personas
/// are kept apart: a channel may scope tools, a persona, or both.
pub struct ChannelTools {
    by_uuid: HashMap<u128, Vec<McpServer>>,
    by_name: NameTable<Vec<McpServer>>,
    persona_by_uuid: HashMap<u128, String>,
    persona_by_name: NameTable<String>,
    entry_count: usize,
}

impl View for ChannelTools {
    type V = PolicyView;

    closed spec fn view(&self) -> PolicyView {
        PolicyView {
            tools_by_uuid: self.by_uuid@.map_values(|v: Vec<McpServer>| servers_view(v@)),
            tools_by_name: self.by_name@.map_values(|v: Vec<McpServer>| servers_view(v@)),
            persona_by_uuid: self.persona_by_uuid@.map_values(|p: String| p@),
            persona_by_name: self.persona_by_name@.map_values(|p: String| p@),
            entry_count: self.entry_count as nat,
        }
    }
}

pub(crate) proof fn lemma_policy_step(
    chs: Seq<(String, ChannelToolsEntry)>,
    ids: Seq<Option<u128>>,
    d: Seq<char>,
    n: int,
)
    requires
        0 <= n < chs.len(),
        ids.len() == chs.len(),
    ensures
        ({
            let before = policy_of(chs, ids, d, n);
            let after = policy_of(chs, ids, d, n + 1);
            let s = entry_servers(chs[n].1, d);
            let p = entry_persona(chs[n].0@, chs[n].1);
            let k = name_key(chs[n].0@);
            &&& after.entry_count == before.entry_count + 1
            &&& after.tools_by_uuid == (if ids[n] is Some && s.len() > 0 {
                before.tools_by_uuid.insert(ids[n]->0, s)
            } else {
                before.tools_by_uuid
            })
            &&& after.tools_by_name == (if ids[n] is None && s.len() > 0 {
                before.tools_by_name.insert(k, s)
            } else {
                before.tools_by_name
            })
            &&& after.persona_by_uuid == (if ids[n] is Some && p is Some {
                before.persona_by_uuid.insert(ids[n]->0, p->0)
            } else {
                before.persona_by_uuid
            })
            &&& after.persona_by_name == (if ids[n] is None && p is Some {
                before.persona_by_name.insert(k, p->0)
            } else {
                before.persona_by_name
            })
        }),
{
    let before = policy_of(chs, ids, d, n);
    let after = policy_of(chs, ids, d, n + 1);
    let s = entry_servers(chs[n].1, d);
    let p = entry_persona(chs[n].0@, chs[n].1);
    let k = name_key(chs[n].0@);
    if ids[n] is Some && s.len() > 0 {
        assert(after.tools_by_uuid =~= before.tools_by_uuid.insert(ids[n]->0, s));
    } else {
        assert(after.tools_by_uuid =~= before.tools_by_uuid);
    }
    if ids[n] is None && s.len() > 0 {
        assert(after.tools_by_name =~= before.tools_by_name.insert(k, s));
    } else {
        assert(after.tools_by_name =~= before.tools_by_name);
    }
    if ids[n] is Some && p is Some {
        assert(after.persona_by_uuid =~= before.persona_by_uuid.insert(ids[n]->0, p->0));
    } else {
        assert(after.persona_by_uuid =~= before.persona_by_uuid);
    }
    if ids[n] is None && p is Some {
        assert(after.persona_by_name =~= before.persona_by_name.insert(k, p->0));
    } else {
        assert(after.persona_by_name =~= before.persona_by_name);
    }
}

proof fn lemma_map_values_insert<K, V, W>(m: Map<K, V>, k: K, v: V, f: spec_fn(V) -> W)
    ensures
        m.insert(k, v).map_values(f) == m.map_values(f).insert(k, f(v)),
{
    assert(m.insert(k, v).map_values(f) =~= m.map_values(f).insert(k, f(v)));
}

proof fn lemma_first_problem_prefix(chs: Seq<(String, ChannelToolsEntry)>, n: int)
    requires
        0 <= n <= chs.len(),
        first_problem(chs.take(n)) is Some,
    ensures
        first_problem(chs) == first_problem(chs.take(n)),
    decreases chs.len() - n,
{
    if n < chs.len() {
        assert(chs.take(n + 1).drop_last() =~= chs.take(n));
        lemma_first_problem_prefix(chs, n + 1);
        assert(chs.take(chs.len() as int) =~= chs);
    } else {
        assert(chs.take(n) =~= chs);
    }
}

impl ChannelTools {
    #[verifier::type_invariant]
    closed spec fn tables_well_formed(self) -> bool {
        self.by_name.wf() && self.persona_by_name.wf()
    }

    /// A policy with no entries.
    pub fn new() -> (t: Self)
        ensures
            t@ == empty_policy(),
    {
        let t = ChannelTools {
            by_uuid: HashMap::new(),
            by_name: NameTable::new(),
            persona_by_uuid: HashMap::new(),
            persona_by_name: NameTable::new(),
            entry_count: 0,
        };
        assert(t@.tools_by_uuid =~= Map::empty());
        assert(t@.tools_by_name =~= Map::empty());
        assert(t@.persona_by_uuid =~= Map::empty());
        assert(t@.persona_by_name =~= Map::empty());
        t
    }

    /// Builds the policy of a document whose keys read, as UUIDs, as `ids`
    /// says. Entries are taken in order; the first entry that breaks a rule
    /// refuses the whole document. An entry whose key is a UUID is filed
    /// under it, any other under its name key; an entry is filed among the
    /// tools only when it scopes some, among the personas only when it
    /// selects one, and a later entry replaces an earlier one under the same
    /// key.
    pub fn load_keyed(file: &ChannelToolsFile, ids: &Vec<Option<u128>>) -> (r: Result<
        ChannelTools,
        LoadError,
    >)
        requires
            ids@.len() == file.channels@.len(),
        ensures
            match r {
                Ok(t) => first_problem(file.channels@) is None && t@ == policy_of(
                    file.channels@,
                    ids@,
                    default_harbor(*file),
                    file.channels@.len() as int,
                ),
                Err(e) => first_problem(file.channels@) == Some(e@),
            },
    {
        let ghost chs = file.channels@;
        let ghost d = default_harbor(*file);
        let default_cmd: String = match &file.harbor_command {
            Some(h) => h.clone(),
            None => String::from_str("harbor"),
        };
        let mut by_uuid: HashMap<u128, Vec<McpServer>> = HashMap::new();
        let mut by_name: NameTable<Vec<McpServer>> = NameTable::new();
        let mut persona_by_uuid: HashMap<u128, String> = HashMap::new();
        let mut persona_by_name: NameTable<String> = NameTable::new();
        assert(policy_of(chs, ids@, d, 0) == empty_policy()) by {
            assert(policy_of(chs, ids@, d, 0).tools_by_uuid =~= Map::empty());
            assert(policy_of(chs, ids@, d, 0).tools_by_name =~= Map::empty());
            assert(policy_of(chs, ids@, d, 0).persona_by_uuid =~= Map::empty());
            assert(policy_of(chs, ids@, d, 0).persona_by_name =~= Map::empty());
        }
        assert(by_uuid@.map_values(|v: Vec<McpServer>| servers_view(v@)) =~= Map::empty());
        assert(by_name@.map_values(|v: Vec<McpServer>| servers_view(v@)) =~= Map::empty());
        assert(persona_by_uuid@.map_values(|p: String| p@) =~= Map::empty());
        assert(persona_by_name@.map_values(|p: String| p@) =~= Map::empty());
        assert(chs.take(0) =~= Seq::<(String, ChannelToolsEntry)>::empty());
        let n = file.channels.len();
        let mut i: usize = 0;
        while i < n
            invariant
                n == chs.len(),
                chs == file.channels@,
                ids@.len() == n,
                d == default_harbor(*file),
                default_cmd@ == d,
                i <= n,
                first_problem(chs.take(i as int)) is None,
                by_name.wf(),
                persona_by_name.wf(),
                by_uuid@.map_values(|v: Vec<McpServer>| servers_view(v@)) == policy_of(
                    chs,
                    ids@,
                    d,
                    i as int,
                ).tools_by_uuid,
                by_name@.map_values(|v: Vec<McpServer>| servers_view(v@)) == policy_of(
                    chs,
                    ids@,
                    d,
                    i as int,
                ).tools_by_name,
                persona_by_uuid@.map_values(|p: String| p@) == policy_of(
                    chs,
                    ids@,
                    d,
                    i as int,
                ).persona_by_uuid,
                persona_by_name@.map_values(|p: String| p@) == policy_of(
                    chs,
                    ids@,
                    d,
                    i as int,
                ).persona_by_name,
            decreases n - i,
        {
            let key = &file.channels[i].0;
            let entry = &file.channels[i].1;
            assert(chs.take(i + 1).drop_last() =~= chs.take(i as int));
            assert(chs.take(i + 1).last() == chs[i as int]);
            match entry.validate(key.as_str()) {
                Err(e) => {
                    assert(first_problem(chs.take(i + 1)) == Some(e@));
                    proof {
                        lemma_first_problem_prefix(chs, i as int + 1);
                    }
                    return Err(e);
                },
                Ok(()) => {},
            }
            let servers = entry.to_servers(default_cmd.as_str());
            let persona = match entry.read_persona(key.as_str()) {
                Err(e) => {
                    assert(first_problem(chs.take(i + 1)) == Some(e@));
                    proof {
                        lemma_first_problem_prefix(chs, i as int + 1);
                    }
                    return Err(e);
                },
                Ok(p) => p,
            };
            assert(first_problem(chs.take(i + 1)) is None);
            proof {
                lemma_policy_step(chs, ids@, d, i as int);
            }
            match ids[i] {
                Some(u) => {
                    if servers.len() > 0 {
                        proof {
                            lemma_map_values_insert(
                                by_uuid@,
                                u,
                                servers,
                                |v: Vec<McpServer>| servers_view(v@),
                            );
                        }
                        let _ = by_uuid.insert(u, servers);
                    }
                    if let Some(p) = persona {
                        proof {
                            lemma_map_values_insert(persona_by_uuid@, u, p, |p: String| p@);
                        }
                        let _ = persona_by_uuid.insert(u, p);
                    }
                },
                None => {
                    let name_key = lowercase_without_hashes(key.as_str());
                    if servers.len() > 0 {
                        proof {
                            lemma_map_values_insert(
                                by_name@,
                                name_key@,
                                servers,
                                |v: Vec<McpServer>| servers_view(v@),
                            );
                        }
                        by_name.insert(name_key.clone(), servers);
                    }
                    if let Some(p) = persona {
                        proof {
                            lemma_map_values_insert(persona_by_name@, name_key@, p, |p: String| p@);
                        }
                        persona_by_name.insert(name_key, p);
                    }
                },
            }
            i = i + 1;
        }
        assert(chs.take(n as int) =~= chs);
        let tools = ChannelTools { by_uuid, by_name, persona_by_uuid, persona_by_name, entry_count: n };
        Ok(tools)
    }

    /// Loads a policy document. Each key is read as a UUID by the `uuid`
    /// crate; the policy is then the one [`ChannelTools::load_keyed`] builds.
    /// A document with a rule-breaking entry is refused, never read as an
    /// empty policy.
    pub fn load(file: &ChannelToolsFile) -> (r: Result<ChannelTools, LoadError>)
        ensures
            match r {
                Ok(t) => first_problem(file.channels@) is None && t@ == policy_of(
                    file.channels@,
                    key_uuids(file.channels@),
                    default_harbor(*file),
                    file.channels@.len() as int,
                ),
                Err(e) => first_problem(file.channels@) == Some(e@),
            },
    {
        let mut ids: Vec<Option<u128>> = Vec::new();
        let n = file.channels.len();
        let mut i: usize = 0;
        while i < n
            invariant
                n == file.channels@.len(),
                i <= n,
                ids@ == key_uuids(file.channels@).take(i as int),
            decreases n - i,
        {
            let id = parse_uuid(file.channels[i].0.as_str());
            ids.push(id);
            assert(ids@ =~= key_uuids(file.channels@).take(i + 1));
            i = i + 1;
        }
        assert(ids@ =~= key_uuids(file.channels@));
        Self::load_keyed(file, &ids)
    }

    /// The tool policy of a channel: the UUID's entry first, then the name's.
    /// `None` means no tool entry: the caller keeps its default servers.
    pub fn resolve(&self, id: u128, name: Option<&str>) -> (r: Option<&Vec<McpServer>>)
        ensures
            match r {
                Some(v) => channel_lookup(self@.tools_by_uuid, self@.tools_by_name, id, text_opt(name))
                    == Some(servers_view(v@)),
                None => channel_lookup(self@.tools_by_uuid, self@.tools_by_name, id, text_opt(name))
                    is None,
            },
    {
        proof {
            use_type_invariant(self);
        }
        match self.by_uuid.get(&id) {
            Some(v) => Some(v),
            None => match name {
                Some(n) => {
                    let k = lowercase_without_hashes(n);
                    self.by_name.get(&k)
                },
                None => None,
            },
        }
    }

    /// The persona (system prompt replacement) of a channel: the UUID's entry
    /// first, then the name's. Independent of tool resolution; `None` means
    /// the caller keeps the agent's own prompt.
    pub fn resolve_persona(&self, id: u128, name: Option<&str>) -> (r: Option<&str>)
        ensures
            match r {
                Some(p) => channel_lookup(self@.persona_by_uuid, self@.persona_by_name, id, text_opt(name))
                    == Some(p@),
                None => channel_lookup(self@.persona_by_uuid, self@.persona_by_name, id, text_opt(name))
                    is None,
            },
    {
        proof {
            use_type_invariant(self);
        }
        match self.persona_by_uuid.get(&id) {
            Some(p) => Some(p.as_str()),
            None => match name {
                Some(n) => {
                    let k = lowercase_without_hashes(n);
                    match self.persona_by_name.get(&k) {
                        Some(p) => Some(p.as_str()),
                        None => None,
                    }
                },
                None => None,
            },
        }
    }

    /// The number of entries the policy was built from.
    pub fn entry_count(&self) -> (r: usize)
        ensures
            r == self@.entry_count,
    {
        self.entry_count
    }
}

impl Default for ChannelTools {
    fn default() -> (t: Self)
        ensures
            t@ == empty_policy(),
    {
        ChannelTools::new()
    }
}

} // verus!
