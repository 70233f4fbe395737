//! Properties of the channel policy that span its functions.
use vstd::prelude::*;

use crate::commands::{begin_plan, needs_room, room_plan, HarborRequest};
use crate::harbor::checked_arg;
use crate::policy::{
    entry_servers, persona_outcome, shape_problem, ChannelToolsEntry, LoadErrorView, ServerSpec,
};
use crate::text::{
    ascii_lower, ascii_lower_char, lemma_trim_idempotent, lemma_trim_shape, strip_leading_hashes,
    trim,
};
use crate::tools::{
    channel_lookup, entry_persona, entry_problem, first_problem, lemma_policy_step, name_key,
    name_persona, name_tools, policy_of, uuid_persona, uuid_tools, ChannelTools,
};

verus! {

/// A channel with an entry under its UUID resolves to that entry, whatever
/// name comes with it: for tools and for personas alike.
pub proof fn law_uuid_entry_wins(
    t: ChannelTools,
    id: u128,
    name: Option<Seq<char>>,
    other: Option<Seq<char>>,
)
    ensures
        t@.tools_by_uuid.contains_key(id) ==> channel_lookup(
            t@.tools_by_uuid,
            t@.tools_by_name,
            id,
            name,
        ) == Some(t@.tools_by_uuid[id]) && channel_lookup(
            t@.tools_by_uuid,
            t@.tools_by_name,
            id,
            other,
        ) == Some(t@.tools_by_uuid[id]),
        t@.persona_by_uuid.contains_key(id) ==> channel_lookup(
            t@.persona_by_uuid,
            t@.persona_by_name,
            id,
            name,
        ) == Some(t@.persona_by_uuid[id]) && channel_lookup(
            t@.persona_by_uuid,
            t@.persona_by_name,
            id,
            other,
        ) == Some(t@.persona_by_uuid[id]),
{
}

/// A channel with no entry under its UUID and no name resolves to nothing.
pub proof fn law_no_entry_no_policy(t: ChannelTools, id: u128)
    ensures
        !t@.tools_by_uuid.contains_key(id) ==> channel_lookup(
            t@.tools_by_uuid,
            t@.tools_by_name,
            id,
            None,
        ) is None,
        !t@.persona_by_uuid.contains_key(id) ==> channel_lookup(
            t@.persona_by_uuid,
            t@.persona_by_name,
            id,
            None,
        ) is None,
{
}

proof fn lemma_strip_hashes_lower(s: Seq<char>)
    ensures
        strip_leading_hashes(ascii_lower(s)) == ascii_lower(strip_leading_hashes(s)),
    decreases s.len(),
{
    if s.len() > 0 {
        assert(ascii_lower(s)[0] == ascii_lower_char(s[0]));
        assert(ascii_lower(s).drop_first() =~= ascii_lower(s.drop_first()));
        lemma_strip_hashes_lower(s.drop_first());
    } else {
        assert(ascii_lower(s) =~= s);
    }
}

proof fn lemma_strip_hashes_shape(s: Seq<char>)
    ensures
        strip_leading_hashes(s).len() == 0 || strip_leading_hashes(s)[0] != '#',
    decreases s.len(),
{
    if s.len() > 0 && s[0] == '#' {
        lemma_strip_hashes_shape(s.drop_first());
    }
}

/// Leading `'#'` characters do not change which entry a name matches.
pub proof fn law_name_match_ignores_leading_hashes(name: Seq<char>)
    ensures
        name_key(seq!['#'] + name) == name_key(name),
{
    assert((seq!['#'] + name).drop_first() =~= name);
}

/// Names that agree up to ASCII case match the same entry.
pub proof fn law_name_match_ignores_ascii_case(a: Seq<char>, b: Seq<char>)
    requires
        ascii_lower(a) == ascii_lower(b),
    ensures
        name_key(a) == name_key(b),
{
    lemma_strip_hashes_lower(a);
    lemma_strip_hashes_lower(b);
}

/// A name key is its own key.
pub proof fn law_name_key_idempotent(name: Seq<char>)
    ensures
        name_key(name_key(name)) == name_key(name),
{
    let s = strip_leading_hashes(name);
    lemma_strip_hashes_lower(s);
    lemma_strip_hashes_shape(name);
    assert(strip_leading_hashes(s) == s);
    assert(ascii_lower(ascii_lower(s)) =~= ascii_lower(s));
}

/// Names with the same key resolve alike, for tools and for personas.
pub proof fn law_same_key_same_policy(t: ChannelTools, id: u128, a: Seq<char>, b: Seq<char>)
    requires
        name_key(a) == name_key(b),
    ensures
        channel_lookup(t@.tools_by_uuid, t@.tools_by_name, id, Some(a)) == channel_lookup(
            t@.tools_by_uuid,
            t@.tools_by_name,
            id,
            Some(b),
        ),
        channel_lookup(t@.persona_by_uuid, t@.persona_by_name, id, Some(a)) == channel_lookup(
            t@.persona_by_uuid,
            t@.persona_by_name,
            id,
            Some(b),
        ),
{
}

/// A document is refused exactly when one of its entries breaks a rule, and
/// then with the problem of the first such entry: a policy that breaks a rule
/// never loads as a smaller policy.
pub proof fn law_refused_exactly_when_an_entry_breaks_a_rule(chs: Seq<(String, ChannelToolsEntry)>)
    ensures
        first_problem(chs) is None <==> forall|i: int|
            0 <= i < chs.len() ==> entry_problem(chs[i].0@, chs[i].1) is None,
        first_problem(chs) is Some ==> exists|i: int|
            0 <= i < chs.len() && first_problem(chs) == entry_problem(chs[i].0@, chs[i].1)
                && forall|j: int| 0 <= j < i ==> entry_problem(chs[j].0@, chs[j].1) is None,
    decreases chs.len(),
{
    if chs.len() > 0 {
        let p = chs.drop_last();
        law_refused_exactly_when_an_entry_breaks_a_rule(p);
        assert forall|i: int| 0 <= i < p.len() implies p[i] == chs[i] by {}
        if first_problem(p) is Some {
            let i = choose|i: int|
                0 <= i < p.len() && first_problem(p) == entry_problem(p[i].0@, p[i].1) && forall|
                    j: int,
                | 0 <= j < i ==> entry_problem(p[j].0@, p[j].1) is None;
            assert(p[i] == chs[i]);
            assert forall|j: int| 0 <= j < i implies entry_problem(chs[j].0@, chs[j].1) is None by {
                assert(p[j] == chs[j]);
            }
        } else {
            let last = chs.len() - 1;
            assert(chs.last() == chs[last]);
            if first_problem(chs) is Some {
                assert forall|j: int| 0 <= j < last implies entry_problem(chs[j].0@, chs[j].1) is None by {
                    assert(p[j] == chs[j]);
                }
            }
        }
    }
}

/// An entry that names no room and no explicit server scopes no tools: the
/// tools of every channel stay as the earlier entries left them.
pub proof fn law_persona_only_entry_scopes_no_tools(
    chs: Seq<(String, ChannelToolsEntry)>,
    ids: Seq<Option<u128>>,
    d: Seq<char>,
    n: int,
)
    requires
        0 <= n < chs.len(),
        ids.len() == chs.len(),
        chs[n].1.room is None,
        chs[n].1.mcp@.len() == 0,
    ensures
        policy_of(chs, ids, d, n + 1).tools_by_uuid == policy_of(chs, ids, d, n).tools_by_uuid,
        policy_of(chs, ids, d, n + 1).tools_by_name == policy_of(chs, ids, d, n).tools_by_name,
{
    lemma_policy_step(chs, ids, d, n);
    assert(entry_servers(chs[n].1, d).len() == 0);
}

/// Tools do not depend on personas: two documents whose entries agree in
/// keys and in what tools they scope give the same tools to every channel.
pub proof fn law_tools_ignore_personas(
    a: Seq<(String, ChannelToolsEntry)>,
    b: Seq<(String, ChannelToolsEntry)>,
    ids: Seq<Option<u128>>,
    d: Seq<char>,
)
    requires
        a.len() == b.len(),
        ids.len() == a.len(),
        forall|i: int|
            0 <= i < a.len() ==> (#[trigger] a[i]).0@ == b[i].0@ && entry_servers(a[i].1, d)
                == entry_servers(b[i].1, d),
    ensures
        policy_of(a, ids, d, a.len() as int).tools_by_uuid == policy_of(
            b,
            ids,
            d,
            a.len() as int,
        ).tools_by_uuid,
        policy_of(a, ids, d, a.len() as int).tools_by_name == policy_of(
            b,
            ids,
            d,
            a.len() as int,
        ).tools_by_name,
{
    assert forall|u: u128| uuid_tools(a, ids, d, u, a.len() as int) == uuid_tools(
        b,
        ids,
        d,
        u,
        a.len() as int,
    ) by {
        lemma_uuid_tools_agree(a, b, ids, d, u, a.len() as int);
    }
    assert forall|k: Seq<char>| name_tools(a, ids, d, k, a.len() as int) == name_tools(
        b,
        ids,
        d,
        k,
        a.len() as int,
    ) by {
        lemma_name_tools_agree(a, b, ids, d, k, a.len() as int);
    }
    assert(policy_of(a, ids, d, a.len() as int).tools_by_uuid =~= policy_of(
        b,
        ids,
        d,
        a.len() as int,
    ).tools_by_uuid);
    assert(policy_of(a, ids, d, a.len() as int).tools_by_name =~= policy_of(
        b,
        ids,
        d,
        a.len() as int,
    ).tools_by_name);
}

proof fn lemma_uuid_tools_agree(
    a: Seq<(String, ChannelToolsEntry)>,
    b: Seq<(String, ChannelToolsEntry)>,
    ids: Seq<Option<u128>>,
    d: Seq<char>,
    u: u128,
    n: int,
)
    requires
        0 <= n <= a.len(),
        a.len() == b.len(),
        forall|i: int|
            0 <= i < a.len() ==> (#[trigger] a[i]).0@ == b[i].0@ && entry_servers(a[i].1, d)
                == entry_servers(b[i].1, d),
    ensures
        uuid_tools(a, ids, d, u, n) == uuid_tools(b, ids, d, u, n),
    decreases n,
{
    if n > 0 {
        assert(a[n - 1].0@ == b[n - 1].0@);
        lemma_uuid_tools_agree(a, b, ids, d, u, n - 1);
    }
}

proof fn lemma_name_tools_agree(
    a: Seq<(String, ChannelToolsEntry)>,
    b: Seq<(String, ChannelToolsEntry)>,
    ids: Seq<Option<u128>>,
    d: Seq<char>,
    k: Seq<char>,
    n: int,
)
    requires
        0 <= n <= a.len(),
        a.len() == b.len(),
        forall|i: int|
            0 <= i < a.len() ==> (#[trigger] a[i]).0@ == b[i].0@ && entry_servers(a[i].1, d)
                == entry_servers(b[i].1, d),
    ensures
        name_tools(a, ids, d, k, n) == name_tools(b, ids, d, k, n),
    decreases n,
{
    if n > 0 {
        assert(a[n - 1].0@ == b[n - 1].0@);
        lemma_name_tools_agree(a, b, ids, d, k, n - 1);
    }
}

/// A value harbor accepted as an argument is accepted again unchanged: it is
/// non-empty, trimmed, and does not begin with `-`.
pub proof fn law_accepted_argument_is_stable(label: Seq<char>, value: Seq<char>)
    ensures
        checked_arg(label, value) matches Ok(v) ==> {
            &&& checked_arg(label, v) == Ok::<Seq<char>, Seq<char>>(v)
            &&& v.len() > 0
            &&& v[0] != '-'
            &&& trim(v) == v
        },
{
    lemma_trim_idempotent(value);
    lemma_trim_shape(value);
}

proof fn lemma_name_tools_finds(
    chs: Seq<(String, ChannelToolsEntry)>,
    ids: Seq<Option<u128>>,
    d: Seq<char>,
    i: int,
    n: int,
)
    requires
        0 <= i < n <= chs.len(),
        ids.len() == chs.len(),
        ids[i] is None,
        entry_servers(chs[i].1, d).len() > 0,
        forall|j: int|
            i < j < n ==> !(ids[j] is None && name_key(#[trigger] chs[j].0@) == name_key(chs[i].0@)
                && entry_servers(chs[j].1, d).len() > 0),
    ensures
        name_tools(chs, ids, d, name_key(chs[i].0@), n) == Some(entry_servers(chs[i].1, d)),
    decreases n,
{
    if n - 1 > i {
        assert(!(ids[n - 1] is None && name_key(chs[n - 1].0@) == name_key(chs[i].0@)
            && entry_servers(chs[n - 1].1, d).len() > 0));
        lemma_name_tools_finds(chs, ids, d, i, n - 1);
    }
}

proof fn lemma_uuid_tools_finds(
    chs: Seq<(String, ChannelToolsEntry)>,
    ids: Seq<Option<u128>>,
    d: Seq<char>,
    i: int,
    n: int,
)
    requires
        0 <= i < n <= chs.len(),
        ids.len() == chs.len(),
        ids[i] is Some,
        entry_servers(chs[i].1, d).len() > 0,
        forall|j: int|
            i < j < n ==> !(#[trigger] ids[j] == ids[i] && entry_servers(chs[j].1, d).len() > 0),
    ensures
        uuid_tools(chs, ids, d, ids[i]->0, n) == Some(entry_servers(chs[i].1, d)),
    decreases n,
{
    if n - 1 > i {
        assert(!(ids[n - 1] == ids[i] && entry_servers(chs[n - 1].1, d).len() > 0));
        lemma_uuid_tools_finds(chs, ids, d, i, n - 1);
    }
}

proof fn lemma_name_persona_finds(
    chs: Seq<(String, ChannelToolsEntry)>,
    ids: Seq<Option<u128>>,
    i: int,
    n: int,
)
    requires
        0 <= i < n <= chs.len(),
        ids.len() == chs.len(),
        ids[i] is None,
        entry_persona(chs[i].0@, chs[i].1) is Some,
        forall|j: int|
            i < j < n ==> !(ids[j] is None && name_key(#[trigger] chs[j].0@) == name_key(chs[i].0@)
                && entry_persona(chs[j].0@, chs[j].1) is Some),
    ensures
        name_persona(chs, ids, name_key(chs[i].0@), n) == entry_persona(chs[i].0@, chs[i].1),
    decreases n,
{
    if n - 1 > i {
        assert(!(ids[n - 1] is None && name_key(chs[n - 1].0@) == name_key(chs[i].0@)
            && entry_persona(chs[n - 1].0@, chs[n - 1].1) is Some));
        lemma_name_persona_finds(chs, ids, i, n - 1);
    }
}

proof fn lemma_uuid_persona_finds(
    chs: Seq<(String, ChannelToolsEntry)>,
    ids: Seq<Option<u128>>,
    i: int,
    n: int,
)
    requires
        0 <= i < n <= chs.len(),
        ids.len() == chs.len(),
        ids[i] is Some,
        entry_persona(chs[i].0@, chs[i].1) is Some,
        forall|j: int|
            i < j < n ==> !(#[trigger] ids[j] == ids[i] && entry_persona(chs[j].0@, chs[j].1) is Some),
    ensures
        uuid_persona(chs, ids, ids[i]->0, n) == entry_persona(chs[i].0@, chs[i].1),
    decreases n,
{
    if n - 1 > i {
        assert(!(ids[n - 1] == ids[i] && entry_persona(chs[n - 1].0@, chs[n - 1].1) is Some));
        lemma_uuid_persona_finds(chs, ids, i, n - 1);
    }
}

/// Entry `i` is filed under UUID `id` and scopes tools.
pub open spec fn scopes_tools_under_uuid(
    chs: Seq<(String, ChannelToolsEntry)>,
    ids: Seq<Option<u128>>,
    d: Seq<char>,
    id: u128,
    i: int,
) -> bool {
    ids[i] == Some(id) && entry_servers(chs[i].1, d).len() > 0
}

/// Entry `i` is filed under name key `k` and scopes tools.
pub open spec fn scopes_tools_under_name(
    chs: Seq<(String, ChannelToolsEntry)>,
    ids: Seq<Option<u128>>,
    d: Seq<char>,
    k: Seq<char>,
    i: int,
) -> bool {
    ids[i] is None && name_key(chs[i].0@) == k && entry_servers(chs[i].1, d).len() > 0
}

/// Entry `i` is filed under UUID `id` and selects a persona.
pub open spec fn selects_persona_under_uuid(
    chs: Seq<(String, ChannelToolsEntry)>,
    ids: Seq<Option<u128>>,
    id: u128,
    i: int,
) -> bool {
    ids[i] == Some(id) && entry_persona(chs[i].0@, chs[i].1) is Some
}

/// Entry `i` is filed under name key `k` and selects a persona.
pub open spec fn selects_persona_under_name(
    chs: Seq<(String, ChannelToolsEntry)>,
    ids: Seq<Option<u128>>,
    k: Seq<char>,
    i: int,
) -> bool {
    ids[i] is None && name_key(chs[i].0@) == k && entry_persona(chs[i].0@, chs[i].1) is Some
}

proof fn lemma_uuid_tools_none(
    chs: Seq<(String, ChannelToolsEntry)>,
    ids: Seq<Option<u128>>,
    d: Seq<char>,
    u: u128,
    n: int,
)
    requires
        0 <= n <= chs.len(),
        ids.len() == chs.len(),
        forall|i: int| 0 <= i < n ==> !#[trigger] scopes_tools_under_uuid(chs, ids, d, u, i),
    ensures
        uuid_tools(chs, ids, d, u, n) is None,
    decreases n,
{
    if n > 0 {
        assert(!scopes_tools_under_uuid(chs, ids, d, u, n - 1));
        lemma_uuid_tools_none(chs, ids, d, u, n - 1);
    }
}

proof fn lemma_name_tools_none(
    chs: Seq<(String, ChannelToolsEntry)>,
    ids: Seq<Option<u128>>,
    d: Seq<char>,
    k: Seq<char>,
    n: int,
)
    requires
        0 <= n <= chs.len(),
        ids.len() == chs.len(),
        forall|i: int| 0 <= i < n ==> !#[trigger] scopes_tools_under_name(chs, ids, d, k, i),
    ensures
        name_tools(chs, ids, d, k, n) is None,
    decreases n,
{
    if n > 0 {
        assert(!scopes_tools_under_name(chs, ids, d, k, n - 1));
        lemma_name_tools_none(chs, ids, d, k, n - 1);
    }
}

proof fn lemma_uuid_persona_none(
    chs: Seq<(String, ChannelToolsEntry)>,
    ids: Seq<Option<u128>>,
    u: u128,
    n: int,
)
    requires
        0 <= n <= chs.len(),
        ids.len() == chs.len(),
        forall|i: int| 0 <= i < n ==> !#[trigger] selects_persona_under_uuid(chs, ids, u, i),
    ensures
        uuid_persona(chs, ids, u, n) is None,
    decreases n,
{
    if n > 0 {
        assert(!selects_persona_under_uuid(chs, ids, u, n - 1));
        lemma_uuid_persona_none(chs, ids, u, n - 1);
    }
}

proof fn lemma_name_persona_none(
    chs: Seq<(String, ChannelToolsEntry)>,
    ids: Seq<Option<u128>>,
    k: Seq<char>,
    n: int,
)
    requires
        0 <= n <= chs.len(),
        ids.len() == chs.len(),
        forall|i: int| 0 <= i < n ==> !#[trigger] selects_persona_under_name(chs, ids, k, i),
    ensures
        name_persona(chs, ids, k, n) is None,
    decreases n,
{
    if n > 0 {
        assert(!selects_persona_under_name(chs, ids, k, n - 1));
        lemma_name_persona_none(chs, ids, k, n - 1);
    }
}

/// Tool resolution, whole: a channel gets the servers of the last entry
/// filed under its UUID that scopes tools; failing any such entry, those of
/// the last entry filed under its name's key that scopes tools; failing both,
/// or with no name, nothing (the caller keeps its default servers).
pub proof fn law_tool_resolution(
    chs: Seq<(String, ChannelToolsEntry)>,
    ids: Seq<Option<u128>>,
    d: Seq<char>,
    id: u128,
    name: Option<Seq<char>>,
)
    requires
        ids.len() == chs.len(),
    ensures
        ({
            let p = policy_of(chs, ids, d, chs.len() as int);
            let r = channel_lookup(p.tools_by_uuid, p.tools_by_name, id, name);
            &&& forall|i: int|
                0 <= i < chs.len() && #[trigger] scopes_tools_under_uuid(chs, ids, d, id, i)
                    && (forall|j: int|
                    i < j < chs.len() ==> !scopes_tools_under_uuid(chs, ids, d, id, j)) ==> r
                    == Some(entry_servers(chs[i].1, d))
            &&& (forall|i: int|
                0 <= i < chs.len() ==> !scopes_tools_under_uuid(chs, ids, d, id, i)) ==> match name {
                None => r is None,
                Some(n) => {
                    &&& (forall|i: int|
                        0 <= i < chs.len() ==> !scopes_tools_under_name(
                            chs,
                            ids,
                            d,
                            name_key(n),
                            i,
                        )) ==> r is None
                    &&& forall|i: int|
                        0 <= i < chs.len() && #[trigger] scopes_tools_under_name(
                            chs,
                            ids,
                            d,
                            name_key(n),
                            i,
                        ) && (forall|j: int|
                            i < j < chs.len() ==> !scopes_tools_under_name(
                                chs,
                                ids,
                                d,
                                name_key(n),
                                j,
                            )) ==> r == Some(entry_servers(chs[i].1, d))
                },
            }
        }),
{
    let len = chs.len() as int;
    assert forall|i: int|
        0 <= i < len && #[trigger] scopes_tools_under_uuid(chs, ids, d, id, i) && (forall|j: int|
            i < j < len ==> !scopes_tools_under_uuid(chs, ids, d, id, j)) implies channel_lookup(
        policy_of(chs, ids, d, len).tools_by_uuid,
        policy_of(chs, ids, d, len).tools_by_name,
        id,
        name,
    ) == Some(entry_servers(chs[i].1, d)) by {
        assert forall|j: int| i < j < len implies !(#[trigger] ids[j] == ids[i] && entry_servers(
            chs[j].1,
            d,
        ).len() > 0) by {
            assert(!scopes_tools_under_uuid(chs, ids, d, id, j));
        }
        lemma_uuid_tools_finds(chs, ids, d, i, len);
    }
    if forall|i: int| 0 <= i < len ==> !scopes_tools_under_uuid(chs, ids, d, id, i) {
        lemma_uuid_tools_none(chs, ids, d, id, len);
        if let Some(n) = name {
            let k = name_key(n);
            if forall|i: int| 0 <= i < len ==> !scopes_tools_under_name(chs, ids, d, k, i) {
                lemma_name_tools_none(chs, ids, d, k, len);
            }
            assert forall|i: int|
                0 <= i < len && #[trigger] scopes_tools_under_name(chs, ids, d, k, i) && (forall|
                    j: int,
                | i < j < len ==> !scopes_tools_under_name(chs, ids, d, k, j)) implies channel_lookup(
                policy_of(chs, ids, d, len).tools_by_uuid,
                policy_of(chs, ids, d, len).tools_by_name,
                id,
                name,
            ) == Some(entry_servers(chs[i].1, d)) by {
                assert forall|j: int| i < j < len implies !(ids[j] is None && name_key(
                    #[trigger] chs[j].0@,
                ) == name_key(chs[i].0@) && entry_servers(chs[j].1, d).len() > 0) by {
                    assert(!scopes_tools_under_name(chs, ids, d, k, j));
                }
                lemma_name_tools_finds(chs, ids, d, i, len);
            }
        }
    }
}

/// Persona resolution, whole: a channel gets the persona of the last entry
/// filed under its UUID that selects one; failing any such entry, that of the
/// last entry filed under its name's key that selects one; failing both, or
/// with no name, none (the agent keeps its own prompt). Tools play no part: an
/// entry under the UUID that scopes tools but selects no persona leaves the
/// name's persona in force.
pub proof fn law_persona_resolution(
    chs: Seq<(String, ChannelToolsEntry)>,
    ids: Seq<Option<u128>>,
    d: Seq<char>,
    id: u128,
    name: Option<Seq<char>>,
)
    requires
        ids.len() == chs.len(),
    ensures
        ({
            let p = policy_of(chs, ids, d, chs.len() as int);
            let r = channel_lookup(p.persona_by_uuid, p.persona_by_name, id, name);
            &&& forall|i: int|
                0 <= i < chs.len() && #[trigger] selects_persona_under_uuid(chs, ids, id, i)
                    && (forall|j: int|
                    i < j < chs.len() ==> !selects_persona_under_uuid(chs, ids, id, j)) ==> r
                    == entry_persona(chs[i].0@, chs[i].1)
            &&& (forall|i: int|
                0 <= i < chs.len() ==> !selects_persona_under_uuid(chs, ids, id, i)) ==> match name {
                None => r is None,
                Some(n) => {
                    &&& (forall|i: int|
                        0 <= i < chs.len() ==> !selects_persona_under_name(
                            chs,
                            ids,
                            name_key(n),
                            i,
                        )) ==> r is None
                    &&& forall|i: int|
                        0 <= i < chs.len() && #[trigger] selects_persona_under_name(
                            chs,
                            ids,
                            name_key(n),
                            i,
                        ) && (forall|j: int|
                            i < j < chs.len() ==> !selects_persona_under_name(
                                chs,
                                ids,
                                name_key(n),
                                j,
                            )) ==> r == entry_persona(chs[i].0@, chs[i].1)
                },
            }
        }),
{
    let len = chs.len() as int;
    assert forall|i: int|
        0 <= i < len && #[trigger] selects_persona_under_uuid(chs, ids, id, i) && (forall|j: int|
            i < j < len ==> !selects_persona_under_uuid(chs, ids, id, j)) implies channel_lookup(
        policy_of(chs, ids, d, len).persona_by_uuid,
        policy_of(chs, ids, d, len).persona_by_name,
        id,
        name,
    ) == entry_persona(chs[i].0@, chs[i].1) by {
        assert forall|j: int| i < j < len implies !(#[trigger] ids[j] == ids[i] && entry_persona(
            chs[j].0@,
            chs[j].1,
        ) is Some) by {
            assert(!selects_persona_under_uuid(chs, ids, id, j));
        }
        lemma_uuid_persona_finds(chs, ids, i, len);
    }
    if forall|i: int| 0 <= i < len ==> !selects_persona_under_uuid(chs, ids, id, i) {
        lemma_uuid_persona_none(chs, ids, id, len);
        if let Some(n) = name {
            let k = name_key(n);
            if forall|i: int| 0 <= i < len ==> !selects_persona_under_name(chs, ids, k, i) {
                lemma_name_persona_none(chs, ids, k, len);
            }
            assert forall|i: int|
                0 <= i < len && #[trigger] selects_persona_under_name(chs, ids, k, i) && (forall|
                    j: int,
                | i < j < len ==> !selects_persona_under_name(chs, ids, k, j)) implies channel_lookup(
                policy_of(chs, ids, d, len).persona_by_uuid,
                policy_of(chs, ids, d, len).persona_by_name,
                id,
                name,
            ) == entry_persona(chs[i].0@, chs[i].1) by {
                assert forall|j: int| i < j < len implies !(ids[j] is None && name_key(
                    #[trigger] chs[j].0@,
                ) == name_key(chs[i].0@) && entry_persona(chs[j].0@, chs[j].1) is Some) by {
                    assert(!selects_persona_under_name(chs, ids, k, j));
                }
                lemma_name_persona_finds(chs, ids, i, len);
            }
        }
    }
}

/// Values that could be read as flags are refused before harbor runs: once
/// a command that needs the channel's room has passed its first check, no
/// argument of it is refused after the room lookup, whichever room it names.
pub proof fn law_arguments_refused_before_any_run(req: HarborRequest, room: Seq<char>)
    requires
        needs_room(req),
        begin_plan(req) is Ok,
    ensures
        room_plan(req, Some(room)) is Ok,
{
}

/// What an entry scopes: the room's server first when it names a room
/// (`harbor-<room>` running `<harbor> mcp-server --room=<room>`, with the
/// entry's own harbor binary or else the default), then every explicit server
/// of the entry, in the entry's order, with or without a room. An entry
/// scopes tools exactly when it names a room or an explicit server.
pub proof fn law_entry_servers(e: ChannelToolsEntry, d: Seq<char>)
    ensures
        entry_servers(e, d).len() == (if e.room is Some {
            1int
        } else {
            0int
        }) + e.mcp@.len(),
        forall|i: int|
            0 <= i < e.mcp@.len() ==> entry_servers(e, d)[(if e.room is Some {
                1int
            } else {
                0int
            }) + i] == (#[trigger] e.mcp@[i])@,
        e.room is Some ==> entry_servers(e, d)[0] == (ServerSpec {
            name: "harbor-"@ + e.room->0@,
            command: match e.harbor_command {
                Some(h) => h@,
                None => d,
            },
            args: seq!["mcp-server"@, "--room="@ + e.room->0@],
            env: seq![],
        }),
        (e.room is Some || e.mcp@.len() > 0) <==> entry_servers(e, d).len() > 0,
{
}

/// The rules an entry's shape must keep, each as the entry's fields say:
/// the entry is refused exactly when it sets both persona sources, declares
/// none of room, explicit servers, persona and persona file, names a blank
/// room, or sets a blank inline persona; both persona sources come first, and
/// "nothing declared" only when all four are absent.
pub proof fn law_entry_shape(key: Seq<char>, e: ChannelToolsEntry)
    ensures
        (shape_problem(key, e) is None) == (!(e.persona is Some && e.persona_file is Some) && (
        e.room is Some || e.mcp@.len() > 0 || e.persona is Some || e.persona_file is Some) && (
        e.room is Some ==> trim(e.room->0@).len() > 0) && (e.persona is Some ==> trim(
            e.persona->0@,
        ).len() > 0)),
        e.persona is Some && e.persona_file is Some ==> shape_problem(key, e) == Some(
            LoadErrorView::BothPersonaSources { key },
        ),
        shape_problem(key, e) == Some(LoadErrorView::NothingDeclared { key }) <==> (e.room is None
            && e.mcp@.len() == 0 && e.persona is None && e.persona_file is None),
        e.mcp@.len() > 0 ==> shape_problem(key, e) != Some(LoadErrorView::NothingDeclared { key }),
{
}

/// An entry's persona: its inline text when set; otherwise the persona
/// file's contents when the file was read and is not blank; an unreadable
/// file and a blank one are errors naming the key and the path; no persona
/// source gives no persona.
pub proof fn law_entry_persona(key: Seq<char>, e: ChannelToolsEntry)
    ensures
        e.persona is Some ==> persona_outcome(key, e) == Ok::<Option<Seq<char>>, LoadErrorView>(
            Some(e.persona->0@),
        ),
        e.persona is None && e.persona_file is None ==> persona_outcome(key, e) == Ok::<
            Option<Seq<char>>,
            LoadErrorView,
        >(None),
        e.persona is None && e.persona_file is Some && e.persona_file->0.contents is Ok && trim(
            e.persona_file->0.contents->Ok_0@,
        ).len() > 0 ==> persona_outcome(key, e) == Ok::<Option<Seq<char>>, LoadErrorView>(
            Some(e.persona_file->0.contents->Ok_0@),
        ),
        e.persona is None && e.persona_file is Some && e.persona_file->0.contents is Ok && trim(
            e.persona_file->0.contents->Ok_0@,
        ).len() == 0 ==> persona_outcome(key, e) == Err::<Option<Seq<char>>, LoadErrorView>(
            LoadErrorView::PersonaFileEmpty { key, path: e.persona_file->0.path@ },
        ),
        e.persona is None && e.persona_file is Some && e.persona_file->0.contents is Err
            ==> persona_outcome(key, e) == Err::<Option<Seq<char>>, LoadErrorView>(
            LoadErrorView::PersonaFileUnreadable {
                key,
                path: e.persona_file->0.path@,
                reason: e.persona_file->0.contents->Err_0@,
            },
        ),
{
}

/// A loaded policy counts every entry of its document.
pub proof fn law_entry_count(
    chs: Seq<(String, ChannelToolsEntry)>,
    ids: Seq<Option<u128>>,
    d: Seq<char>,
)
    ensures
        policy_of(chs, ids, d, chs.len() as int).entry_count == chs.len(),
{
}

/// A name without leading `'#'` and without ASCII capitals is matched as it
/// is written: distinct such names never share an entry.
pub proof fn law_plain_name_is_its_own_key(name: Seq<char>)
    requires
        name.len() == 0 || name[0] != '#',
        forall|i: int| 0 <= i < name.len() ==> !(65 <= (#[trigger] name[i]) as u32 <= 90),
    ensures
        name_key(name) == name,
{
    assert(strip_leading_hashes(name) == name);
    assert(ascii_lower(name) =~= name);
}

/// A name's key lower-cases exactly the ASCII capitals and keeps its length.
pub proof fn law_name_key_lowercases_ascii(name: Seq<char>)
    requires
        name.len() == 0 || name[0] != '#',
    ensures
        name_key(name).len() == name.len(),
        forall|i: int|
            0 <= i < name.len() ==> (65 <= (#[trigger] name[i]) as u32 <= 90 ==> name_key(name)[i]
                as u32 == name[i] as u32 + 32) && (!(65 <= name[i] as u32 <= 90) ==> name_key(
                name,
            )[i] == name[i]),
{
    assert(strip_leading_hashes(name) == name);
}

} // verus!
