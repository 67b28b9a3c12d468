//! Merging built-in and user tooling entries by key, and ordering them by name.
use vstd::prelude::*;
use vstd::seq_lib::{to_multiset_build, to_multiset_insert};
use crate::runtime::{lowercase_of, to_lowercase};
use crate::text::{chars_of, chars_equal};
use crate::tooling::{McpServerConfig, SkillConfig, AgentCommandConfig, AgentToolingConfig};

verus! {

/// An entry of a tooling list: a key under which a later entry replaces an
/// earlier one, and a name by which the list is ordered.
pub trait ToolEntry: Sized {
    spec fn key_view(&self) -> Seq<char>;

    spec fn order_view(&self) -> Seq<char>;

    fn key(&self) -> (r: String)
        ensures
            r@ == self.key_view(),
    ;

    fn order_name(&self) -> (r: &String)
        ensures
            r@ == self.order_view(),
    ;
}

impl ToolEntry for McpServerConfig {
    open spec fn key_view(&self) -> Seq<char> {
        lowercase_of(self.name@)
    }

    open spec fn order_view(&self) -> Seq<char> {
        self.name@
    }

    fn key(&self) -> (r: String) {
        to_lowercase(self.name.as_str())
    }

    fn order_name(&self) -> (r: &String) {
        &self.name
    }
}

impl ToolEntry for SkillConfig {
    open spec fn key_view(&self) -> Seq<char> {
        self.id@
    }

    open spec fn order_view(&self) -> Seq<char> {
        self.id@
    }

    fn key(&self) -> (r: String) {
        self.id.clone()
    }

    fn order_name(&self) -> (r: &String) {
        &self.id
    }
}

impl ToolEntry for AgentCommandConfig {
    open spec fn key_view(&self) -> Seq<char> {
        self.slug@
    }

    open spec fn order_view(&self) -> Seq<char> {
        self.slug@
    }

    fn key(&self) -> (r: String) {
        self.slug.clone()
    }

    fn order_name(&self) -> (r: &String) {
        &self.slug
    }
}

/// No two entries share a key.
pub open spec fn keys_distinct<T: ToolEntry>(s: Seq<T>) -> bool {
    forall|i: int, j: int| 0 <= i < s.len() && 0 <= j < s.len() && i != j ==> s[i].key_view() != s[j].key_view()
}

/// Some entry has the key `k`.
pub open spec fn has_key<T: ToolEntry>(s: Seq<T>, k: Seq<char>) -> bool {
    exists|i: int| 0 <= i < s.len() && s[i].key_view() == k
}

/// The entries in order, each one replacing an earlier entry with its key.
pub open spec fn merged<T: ToolEntry>(items: Seq<T>) -> Seq<T>
    decreases items.len(),
{
    if items.len() == 0 {
        Seq::empty()
    } else {
        let acc = merged(items.drop_last());
        let x = items.last();
        if has_key(acc, x.key_view()) {
            acc.update(choose|i: int| 0 <= i < acc.len() && acc[i].key_view() == x.key_view(), x)
        } else {
            acc.push(x)
        }
    }
}

/// `a` comes before `b` in lexicographic order of characters, which is the
/// order of their UTF-8 bytes.
pub open spec fn lex_lt(a: Seq<char>, b: Seq<char>) -> bool
    decreases a.len(),
{
    if a.len() == 0 {
        b.len() > 0
    } else if b.len() == 0 {
        false
    } else if a[0] != b[0] {
        (a[0] as u32) < (b[0] as u32)
    } else {
        lex_lt(a.drop_first(), b.drop_first())
    }
}

proof fn lemma_lex_transitive(a: Seq<char>, b: Seq<char>, c: Seq<char>)
    requires
        lex_lt(a, b),
        lex_lt(b, c),
    ensures
        lex_lt(a, c),
    decreases a.len(),
{
    if a.len() > 0 && b.len() > 0 && c.len() > 0 && a[0] == b[0] && b[0] == c[0] {
        lemma_lex_transitive(a.drop_first(), b.drop_first(), c.drop_first());
    }
}

proof fn lemma_lex_irreflexive(a: Seq<char>)
    ensures
        !lex_lt(a, a),
    decreases a.len(),
{
    if a.len() > 0 {
        lemma_lex_irreflexive(a.drop_first());
    }
}

/// No entry comes before one ahead of it.
pub open spec fn ordered<T: ToolEntry>(s: Seq<T>) -> bool {
    forall|i: int, j: int| 0 <= i < j < s.len() ==> !lex_lt(s[j].order_view(), s[i].order_view())
}

/// Whether `a` comes before `b`.
fn lex_less(a: &Vec<char>, b: &Vec<char>) -> (r: bool)
    ensures
        r == lex_lt(a@, b@),
{
    let mut i: usize = 0;
    assert(a@.subrange(0, a@.len() as int) =~= a@);
    assert(b@.subrange(0, b@.len() as int) =~= b@);
    assert(a@.take(0) =~= b@.take(0));
    while i < a.len() && i < b.len() && a[i] == b[i]
        invariant
            i <= a@.len(),
            i <= b@.len(),
            a@.take(i as int) == b@.take(i as int),
            lex_lt(a@, b@) == lex_lt(a@.subrange(i as int, a@.len() as int), b@.subrange(i as int, b@.len() as int)),
        decreases a.len() - i,
    {
        let ghost sa = a@.subrange(i as int, a@.len() as int);
        let ghost sb = b@.subrange(i as int, b@.len() as int);
        assert(sa.drop_first() =~= a@.subrange(i + 1, a@.len() as int));
        assert(sb.drop_first() =~= b@.subrange(i + 1, b@.len() as int));
        assert(a@.take(i + 1) =~= a@.take(i as int).push(a@[i as int]));
        assert(b@.take(i + 1) =~= b@.take(i as int).push(b@[i as int]));
        i += 1;
    }
    if i == a.len() {
        i < b.len()
    } else if i == b.len() {
        false
    } else {
        (a[i] as u32) < (b[i] as u32)
    }
}

/// Merges `items` by key, later entries replacing earlier ones.
pub fn merge_entries<T: ToolEntry>(items: Vec<T>) -> (r: Vec<T>)
    ensures
        r@ == merged(items@),
        keys_distinct(r@),
{
    let ghost all = items@;
    let mut out: Vec<T> = Vec::new();
    assert(all.take(0) =~= Seq::<T>::empty());
    for x in it: items.into_iter()
        invariant
            it.seq() == all,
            out@ == merged(all.take(it.index() as int)),
            keys_distinct(out@),
    {
        let ghost n = it.index();
        assert(all.take(n + 1).drop_last() =~= all.take(n as int));
        assert(all.take(n + 1).last() == x);
        let k = chars_of(x.key().as_str());
        let mut j: usize = 0;
        let mut found: Option<usize> = None;
        while j < out.len()
            invariant
                j <= out@.len(),
                k@ == x.key_view(),
                found is None ==> forall|m: int| 0 <= m < j ==> (#[trigger] out@[m]).key_view() != k@,
                found matches Some(f) ==> f < out@.len() && out@[f as int].key_view() == k@,
            decreases out.len() - j,
        {
            if found.is_none() && chars_equal(&chars_of(out[j].key().as_str()), &k) {
                found = Some(j);
            }
            j += 1;
        }
        let ghost acc = out@;
        match found {
            Some(f) => {
                proof {
                    let c = choose|i: int| 0 <= i < acc.len() && acc[i].key_view() == x.key_view();
                    assert(0 <= f < acc.len() && acc[f as int].key_view() == x.key_view());
                    assert(c == f);
                }
                out.set(f, x);
                assert forall|a: int, b: int| 0 <= a < out@.len() && 0 <= b < out@.len() && a != b implies out@[a].key_view() != out@[b].key_view() by {
                    if a != f && b != f {
                        assert(acc[a].key_view() != acc[b].key_view());
                    } else if a == f {
                        assert(acc[b].key_view() != acc[f as int].key_view());
                    } else {
                        assert(acc[a].key_view() != acc[f as int].key_view());
                    }
                }
            },
            None => {
                out.push(x);
            },
        }
    }
    assert(all.take(all.len() as int) =~= all);
    out
}

/// Orders `items` by name.
pub fn sort_entries<T: ToolEntry>(items: Vec<T>) -> (r: Vec<T>)
    ensures
        r@.to_multiset() == items@.to_multiset(),
        ordered(r@),
{
    let ghost all = items@;
    let mut out: Vec<T> = Vec::new();
    assert(all.take(0) =~= Seq::<T>::empty());
    for x in it: items.into_iter()
        invariant
            it.seq() == all,
            out@.to_multiset() == all.take(it.index() as int).to_multiset(),
            ordered(out@),
    {
        let ghost n = it.index();
        assert(all.take(n + 1) =~= all.take(n as int).push(x));
        let name = chars_of(x.order_name().as_str());
        let mut p: usize = 0;
        while p < out.len() && !lex_less(&name, &chars_of(out[p].order_name().as_str()))
            invariant
                p <= out@.len(),
                name@ == x.order_view(),
                ordered(out@),
                forall|m: int| 0 <= m < p ==> !lex_lt(x.order_view(), (#[trigger] out@[m]).order_view()),
            decreases out.len() - p,
        {
            p += 1;
        }
        let ghost before = out@;
        assert(p == before.len() || lex_lt(x.order_view(), before[p as int].order_view()));
        out.insert(p, x);
        assert(out@ == before.insert(p as int, x));
        assert(out@[p as int] == x);
        proof {
            to_multiset_insert(before, p as int, x);
            to_multiset_build(all.take(n as int), x);
        }
        assert(out@.to_multiset() =~= before.to_multiset().insert(x));
        assert(all.take(n + 1).to_multiset() =~= all.take(n as int).to_multiset().insert(x));
        assert forall|a: int, b: int| 0 <= a < b < out@.len() implies !lex_lt(out@[b].order_view(), out@[a].order_view()) by {
            if b < p {
                assert(out@[a] == before[a] && out@[b] == before[b]);
            } else if b == p {
                assert(out@[a] == before[a]);
            } else if a > p {
                assert(out@[a] == before[a - 1] && out@[b] == before[b - 1]);
            } else if a == p {
                assert(out@[b] == before[b - 1]);
                assert(p < before.len());
                assert(ordered(before));
                if b - 1 == p {
                    lemma_lex_irreflexive(before[p as int].order_view());
                } else {
                    assert(!lex_lt(before[b - 1].order_view(), before[p as int].order_view()));
                }
                assert(lex_lt(x.order_view(), before[p as int].order_view()));
                if lex_lt(before[b - 1].order_view(), x.order_view()) {
                    lemma_lex_transitive(before[b - 1].order_view(), x.order_view(), before[p as int].order_view());
                }
            } else {
                assert(out@[a] == before[a] && out@[b] == before[b - 1]);
            }
        }
    }
    assert(all.take(all.len() as int) =~= all);
    out
}

/// The tooling that built-in and user entries add up to: servers keyed by
/// their lower-cased name, skills by id, commands by slug, user entries
/// replacing built-in ones, each list ordered by name.
pub fn load_tooling_config(
    builtin_servers: Vec<McpServerConfig>,
    user_servers: Vec<McpServerConfig>,
    builtin_skills: Vec<SkillConfig>,
    user_skills: Vec<SkillConfig>,
    builtin_commands: Vec<AgentCommandConfig>,
    user_commands: Vec<AgentCommandConfig>,
) -> (r: AgentToolingConfig)
    ensures
        r.mcp_servers@.to_multiset() == merged(builtin_servers@ + user_servers@).to_multiset(),
        ordered(r.mcp_servers@),
        r.skills@.to_multiset() == merged(builtin_skills@ + user_skills@).to_multiset(),
        ordered(r.skills@),
        r.commands@.to_multiset() == merged(builtin_commands@ + user_commands@).to_multiset(),
        ordered(r.commands@),
{
    let mut servers = builtin_servers;
    let mut more = user_servers;
    servers.append(&mut more);
    let mut skills = builtin_skills;
    let mut more_skills = user_skills;
    skills.append(&mut more_skills);
    let mut commands = builtin_commands;
    let mut more_commands = user_commands;
    commands.append(&mut more_commands);
    AgentToolingConfig {
        mcp_servers: sort_entries(merge_entries(servers)),
        skills: sort_entries(merge_entries(skills)),
        commands: sort_entries(merge_entries(commands)),
    }
}

} // verus!
