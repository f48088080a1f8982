//! The group registry: named version policies shared by several projects.
use vstd::prelude::*;

use crate::draft::Snapshot;

verus! {

/// One named group.
#[derive(Clone, Debug, PartialEq, Eq)]
pub struct Group {
    pub name: String,
    /// The version every member runs.
    pub version: String,
    /// Paths of the member projects.
    pub projects: Vec<String>,
}

/// What a group is, as plain text values.
pub struct GroupView {
    pub name: Seq<char>,
    pub version: Seq<char>,
    pub members: Seq<Seq<char>>,
}

/// The texts of a list of strings.
pub open spec fn texts(v: Seq<String>) -> Seq<Seq<char>> {
    v.map_values(|s: String| s@)
}

impl View for Group {
    type V = GroupView;

    open spec fn view(&self) -> GroupView {
        GroupView { name: self.name@, version: self.version@, members: texts(self.projects@) }
    }
}

/// The group registry document.
#[derive(Clone, Debug, PartialEq, Eq)]
pub struct IGroups {
    pub list: Vec<Group>,
}

impl View for IGroups {
    type V = Seq<GroupView>;

    open spec fn view(&self) -> Seq<GroupView> {
        self.list@.map_values(|g: Group| g@)
    }
}

/// `s` with every occurrence of `x` taken out, the rest in order.
pub open spec fn without(s: Seq<Seq<char>>, x: Seq<char>) -> Seq<Seq<char>>
    decreases s.len(),
{
    if s.len() == 0 {
        s
    } else {
        let w = without(s.drop_last(), x);
        if s.last() == x {
            w
        } else {
            w.push(s.last())
        }
    }
}

/// `g` with `path` no longer among its members.
pub open spec fn leave(g: GroupView, path: Seq<char>) -> GroupView {
    GroupView { name: g.name, version: g.version, members: without(g.members, path) }
}

/// `g` with `path` among its members, added last if it was not there.
pub open spec fn enter(g: GroupView, path: Seq<char>) -> GroupView {
    GroupView {
        name: g.name,
        version: g.version,
        members: if g.members.contains(path) {
            g.members
        } else {
            g.members.push(path)
        },
    }
}

/// The groups after `path` has left every one of them.
pub open spec fn detach(gs: Seq<GroupView>, path: Seq<char>) -> Seq<GroupView> {
    gs.map_values(|g: GroupView| leave(g, path))
}

/// The groups after `path` has joined every group named `name` and left all others.
pub open spec fn attach(gs: Seq<GroupView>, path: Seq<char>, name: Seq<char>) -> Seq<GroupView> {
    gs.map_values(|g: GroupView| if g.name == name { enter(g, path) } else { leave(g, path) })
}

/// Some group lists `path` among its members.
pub open spec fn has_member(gs: Seq<GroupView>, path: Seq<char>) -> bool {
    exists|i: int| 0 <= i < gs.len() && #[trigger] gs[i].members.contains(path)
}

/// Some group is named `name`.
pub open spec fn has_group(gs: Seq<GroupView>, name: Seq<char>) -> bool {
    exists|i: int| 0 <= i < gs.len() && #[trigger] gs[i].name == name
}

/// `i` is the first position of a group named `name`.
pub open spec fn is_first_named(gs: Seq<GroupView>, name: Seq<char>, i: int) -> bool {
    &&& 0 <= i < gs.len()
    &&& gs[i].name == name
    &&& forall|j: int| 0 <= j < i ==> gs[j].name != name
}

/// The position of the first group named `name`.
pub open spec fn group_index(gs: Seq<GroupView>, name: Seq<char>) -> int {
    choose|i: int| is_first_named(gs, name, i)
}

/// The first position named `name` is the one `group_index` gives.
pub proof fn lemma_group_index(gs: Seq<GroupView>, name: Seq<char>, i: int)
    requires
        is_first_named(gs, name, i),
    ensures
        group_index(gs, name) == i,
{
    let k = group_index(gs, name);
    assert(is_first_named(gs, name, k));
    if k < i {
        assert(gs[k].name != name);
    } else if i < k {
        assert(gs[i].name != name);
    }
}

/// A copy of a list of strings.
pub fn copy_texts(v: &Vec<String>) -> (r: Vec<String>)
    ensures
        r@ == v@,
{
    let mut out: Vec<String> = Vec::new();
    let mut i: usize = 0;
    while i < v.len()
        invariant
            i <= v.len(),
            out@ == v@.subrange(0, i as int),
        decreases v.len() - i,
    {
        out.push(v[i].clone());
        i = i + 1;
    }
    assert(out@ =~= v@);
    out
}

/// The members other than `path`, and whether `path` was among them.
fn remove_member(members: &Vec<String>, path: &String) -> (r: (Vec<String>, bool))
    ensures
        texts(r.0@) == without(texts(members@), path@),
        r.1 == texts(members@).contains(path@),
{
    let ghost all = texts(members@);
    let mut out: Vec<String> = Vec::new();
    let mut found = false;
    let mut i: usize = 0;
    while i < members.len()
        invariant
            i <= members.len(),
            all == texts(members@),
            texts(out@) == without(all.subrange(0, i as int), path@),
            found == all.subrange(0, i as int).contains(path@),
        decreases members.len() - i,
    {
        let ghost before = all.subrange(0, i as int);
        let ghost after = all.subrange(0, i + 1);
        assert(after.drop_last() =~= before);
        assert(after.last() == members@[i as int]@);
        if members[i] == *path {
            found = true;
            assert(after[i as int] == path@);
        } else {
            let ghost prev = out@;
            out.push(members[i].clone());
            assert(texts(out@) =~= texts(prev).push(members@[i as int]@));
            proof {
                if before.contains(path@) {
                    let k = choose|k: int| 0 <= k < before.len() && before[k] == path@;
                    assert(after[k] == path@);
                }
                if after.contains(path@) {
                    let k = choose|k: int| 0 <= k < after.len() && after[k] == path@;
                    assert(before[k] == path@);
                }
            }
        }
        i = i + 1;
    }
    assert(all.subrange(0, members.len() as int) =~= all);
    (out, found)
}

/// The members with `path` added last, unless it is there already.
fn add_member(members: &Vec<String>, path: &String) -> (r: Vec<String>)
    ensures
        texts(r@) == if texts(members@).contains(path@) {
            texts(members@)
        } else {
            texts(members@).push(path@)
        },
{
    let mut out = copy_texts(members);
    let mut i: usize = 0;
    while i < members.len()
        invariant
            i <= members.len(),
            out@ == members@,
            forall|j: int| 0 <= j < i ==> texts(members@)[j] != path@,
        decreases members.len() - i,
    {
        if members[i] == *path {
            assert(texts(members@)[i as int] == path@);
            return out;
        }
        i = i + 1;
    }
    let ghost prev = out@;
    out.push(path.clone());
    assert(texts(out@) =~= texts(prev).push(path@));
    out
}

impl Snapshot for IGroups {
    fn snapshot(&self) -> (r: Self) {
        let mut out: Vec<Group> = Vec::new();
        let mut i: usize = 0;
        while i < self.list.len()
            invariant
                i <= self.list.len(),
                out.len() == i,
                forall|k: int| 0 <= k < i ==> #[trigger] out@[k]@ == self.list@[k]@,
            decreases self.list.len() - i,
        {
            let g = &self.list[i];
            out.push(
                Group {
                    name: g.name.clone(),
                    version: g.version.clone(),
                    projects: copy_texts(&g.projects),
                },
            );
            i = i + 1;
        }
        let r = IGroups { list: out };
        assert(r@ =~= self@);
        r
    }
}

impl IGroups {
    /// Takes `path` out of every group's members; returns whether any group
    /// listed it.
    pub fn update_projects(&mut self, path: &String) -> (changed: bool)
        ensures
            final(self)@ == detach(old(self)@, path@),
            changed == has_member(old(self)@, path@),
    {
        let mut out: Vec<Group> = Vec::new();
        let mut changed = false;
        let mut i: usize = 0;
        while i < self.list.len()
            invariant
                i <= self.list.len(),
                self@ == old(self)@,
                out.len() == i,
                forall|k: int| 0 <= k < i ==> #[trigger] out@[k]@ == leave(self@[k], path@),
                changed == exists|k: int| 0 <= k < i && #[trigger] self@[k].members.contains(path@),
            decreases self.list.len() - i,
        {
            let g = &self.list[i];
            let (kept, found) = remove_member(&g.projects, path);
            out.push(Group { name: g.name.clone(), version: g.version.clone(), projects: kept });
            assert(self@[i as int] == g@);
            let ghost was = changed;
            changed = changed || found;
            proof {
                if found {
                    assert(self@[i as int].members.contains(path@));
                }
                if exists|k: int| 0 <= k < i + 1 && #[trigger] self@[k].members.contains(path@) {
                    let k = choose|k: int|
                        0 <= k < i + 1 && #[trigger] self@[k].members.contains(path@);
                    if k < i {
                        assert(was);
                    }
                }
            }
            i = i + 1;
        }
        let ghost start = self@;
        self.list = out;
        assert(self@ =~= detach(start, path@));
        changed
    }

    /// Makes `path` a member of the group named `name` and of no other group,
    /// and returns that group's version; `None` when no group has that name.
    pub fn update_projects_version(&mut self, path: &String, name: &String) -> (r: Option<String>)
        ensures
            final(self)@ == attach(old(self)@, path@, name@),
            r is Some <==> has_group(old(self)@, name@),
            match r {
                Some(v) => v@ == old(self)@[group_index(old(self)@, name@)].version,
                None => true,
            },
    {
        let mut out: Vec<Group> = Vec::new();
        let mut version: Option<String> = None;
        let ghost mut first: int = -1;
        let ghost gs = self@;
        let mut i: usize = 0;
        while i < self.list.len()
            invariant
                i <= self.list.len(),
                self@ == old(self)@,
                gs == self@,
                out.len() == i,
                forall|k: int|
                    0 <= k < i ==> #[trigger] out@[k]@ == (if gs[k].name == name@ {
                        enter(gs[k], path@)
                    } else {
                        leave(gs[k], path@)
                    }),
                match version {
                    None => forall|k: int| 0 <= k < i ==> #[trigger] gs[k].name != name@,
                    Some(v) => first < i && is_first_named(gs, name@, first) && v@
                        == gs[first].version,
                },
            decreases self.list.len() - i,
        {
            let g = &self.list[i];
            assert(gs[i as int] == g@);
            if g.name == *name {
                let members = add_member(&g.projects, path);
                out.push(Group { name: g.name.clone(), version: g.version.clone(), projects: members });
                if version.is_none() {
                    version = Some(g.version.clone());
                    proof {
                        first = i as int;
                    }
                }
            } else {
                let (kept, _) = remove_member(&g.projects, path);
                out.push(Group { name: g.name.clone(), version: g.version.clone(), projects: kept });
            }
            i = i + 1;
        }
        self.list = out;
        assert(self@ =~= attach(gs, path@, name@));
        match &version {
            Some(_) => {
                proof {
                    lemma_group_index(gs, name@, first);
                }
            },
            None => {
                assert(!has_group(gs, name@));
            },
        }
        version
    }
}

/// What `without` keeps: every member but `x`.
pub proof fn lemma_without_contains(s: Seq<Seq<char>>, x: Seq<char>, m: Seq<char>)
    ensures
        without(s, x).contains(m) <==> s.contains(m) && m != x,
    decreases s.len(),
{
    if s.len() > 0 {
        let rest = s.drop_last();
        lemma_without_contains(rest, x, m);
        if rest.contains(m) {
            let k = choose|k: int| 0 <= k < rest.len() && rest[k] == m;
            assert(s[k] == m);
        }
        if s.contains(m) && s.last() != m {
            let k = choose|k: int| 0 <= k < s.len() && s[k] == m;
            assert(rest[k] == m);
        }
        let w = without(rest, x);
        if s.last() != x {
            assert(w.push(s.last())[w.len() as int] == s.last());
            if w.contains(m) {
                let k = choose|k: int| 0 <= k < w.len() && w[k] == m;
                assert(w.push(s.last())[k] == m);
            }
            if w.push(s.last()).contains(m) && m != s.last() {
                let k = choose|k: int| 0 <= k < w.len() + 1 && w.push(s.last())[k] == m;
                assert(w[k] == m);
            }
        }
    }
}

/// `without` leaves a list that does not hold `x` as it is.
pub proof fn lemma_without_absent(s: Seq<Seq<char>>, x: Seq<char>)
    requires
        !s.contains(x),
    ensures
        without(s, x) == s,
    decreases s.len(),
{
    if s.len() > 0 {
        let rest = s.drop_last();
        if rest.contains(x) {
            let k = choose|k: int| 0 <= k < rest.len() && rest[k] == x;
            assert(s[k] == x);
        }
        assert(s[s.len() - 1] != x);
        lemma_without_absent(rest, x);
        assert(rest.push(s.last()) =~= s);
    }
}

/// Moving a project that no group lists to an explicit version leaves every
/// group as it was, members included.
pub proof fn lemma_explicit_version_keeps_groups(gs: Seq<GroupView>, path: Seq<char>)
    requires
        !has_member(gs, path),
    ensures
        detach(gs, path) == gs,
{
    assert forall|i: int| 0 <= i < gs.len() implies #[trigger] detach(gs, path)[i] == gs[i] by {
        assert(!gs[i].members.contains(path));
        lemma_without_absent(gs[i].members, path);
    }
    assert(detach(gs, path) =~= gs);
}

/// Moving a project to an explicit version takes it out of every group and
/// keeps every other member where it was.
pub proof fn lemma_explicit_version_leaves_groups(
    gs: Seq<GroupView>,
    path: Seq<char>,
    i: int,
    m: Seq<char>,
)
    requires
        0 <= i < gs.len(),
    ensures
        detach(gs, path).len() == gs.len(),
        !detach(gs, path)[i].members.contains(path),
        m != path ==> (detach(gs, path)[i].members.contains(m) <==> gs[i].members.contains(m)),
{
    lemma_without_contains(gs[i].members, path, path);
    lemma_without_contains(gs[i].members, path, m);
}

/// Moving a project into a group makes it a member of the groups with that
/// name and of no other group, and keeps every other member where it was.
pub proof fn lemma_group_change_moves_membership(
    gs: Seq<GroupView>,
    path: Seq<char>,
    name: Seq<char>,
    i: int,
    m: Seq<char>,
)
    requires
        0 <= i < gs.len(),
    ensures
        attach(gs, path, name).len() == gs.len(),
        attach(gs, path, name)[i].members.contains(path) <==> gs[i].name == name,
        m != path ==> (attach(gs, path, name)[i].members.contains(m) <==> gs[i].members.contains(
            m,
        )),
{
    let g = gs[i];
    if g.name == name {
        if !g.members.contains(path) {
            let p = g.members.push(path);
            assert(p[g.members.len() as int] == path);
            if g.members.contains(m) {
                let k = choose|k: int| 0 <= k < g.members.len() && g.members[k] == m;
                assert(p[k] == m);
            }
            if p.contains(m) && m != path {
                let k = choose|k: int| 0 <= k < p.len() && p[k] == m;
                assert(g.members[k] == m);
            }
        }
    } else {
        lemma_without_contains(g.members, path, path);
        lemma_without_contains(g.members, path, m);
    }
}

} // verus!
