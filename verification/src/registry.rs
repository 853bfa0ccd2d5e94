//! The tool registry: built once at server construction from the fixed
//! tool list, keyed by each tool's definition name, and never mutated
//! afterwards. On a name collision the last registration wins, as the
//! construction loop's insert semantics dictate; the fixed list holds no
//! collision.

use vstd::prelude::*;
use crate::proto::{Tool, ToolV};
use crate::text::str_is;
use crate::tools::{
    ToolKind, all_tool_defs, all_tool_kinds, definition_of, get_all_tools, kind_def, kind_name,
    lemma_all_tools_indexed, lemma_kind_def_injective, lemma_kind_names_distinct,
};

verus! {

/// True when `s` holds an entry registered under `n`.
pub open spec fn reg_has(s: Seq<(String, ToolKind)>, n: Seq<char>) -> bool {
    exists|j: int| 0 <= j < s.len() && s[j].0@ == n
}

/// True when no two entries share a name.
pub open spec fn reg_distinct(s: Seq<(String, ToolKind)>) -> bool {
    forall|i: int, j: int| 0 <= i < j < s.len() ==> s[i].0@ != s[j].0@
}

/// The tool registered under `n`, if any. With distinct names the chosen
/// entry is the only one.
pub open spec fn reg_find(s: Seq<(String, ToolKind)>, n: Seq<char>) -> Option<ToolKind> {
    if reg_has(s, n) {
        let j = choose|j: int| 0 <= j < s.len() && s[j].0@ == n;
        Some(s[j].1)
    } else {
        None
    }
}

proof fn lemma_reg_find_at(s: Seq<(String, ToolKind)>, n: Seq<char>, i: int)
    requires
        reg_distinct(s),
        0 <= i < s.len(),
        s[i].0@ == n,
    ensures
        reg_find(s, n) == Some(s[i].1),
{
    assert(reg_has(s, n));
    let j = choose|j: int| 0 <= j < s.len() && s[j].0@ == n;
    if i < j {
        assert(s[i].0@ != s[j].0@);
    } else if j < i {
        assert(s[j].0@ != s[i].0@);
    }
}

proof fn lemma_reg_remove_preserves(prev: Seq<(String, ToolKind)>, i: int, n2: Seq<char>)
    requires
        reg_distinct(prev),
        0 <= i < prev.len(),
        prev[i].0@ != n2,
    ensures
        reg_find(prev.remove(i), n2) == reg_find(prev, n2),
{
    let cur = prev.remove(i);
    assert(forall|a: int| 0 <= a < cur.len() ==> cur[a] == if a < i {
        prev[a]
    } else {
        prev[a + 1]
    });
    assert forall|a: int, b: int| 0 <= a < b < cur.len() implies cur[a].0@ != cur[b].0@ by {}
    if reg_has(prev, n2) {
        let j = choose|j: int| 0 <= j < prev.len() && prev[j].0@ == n2;
        assert(j != i);
        if j < i {
            assert(cur[j].0@ == n2);
            lemma_reg_find_at(cur, n2, j);
        } else {
            assert(cur[j - 1].0@ == n2);
            lemma_reg_find_at(cur, n2, j - 1);
        }
        lemma_reg_find_at(prev, n2, j);
    } else {
        if reg_has(cur, n2) {
            let a = choose|a: int| 0 <= a < cur.len() && cur[a].0@ == n2;
            if a < i {
                assert(prev[a].0@ == n2);
            } else {
                assert(prev[a + 1].0@ == n2);
            }
        }
    }
}

/// The closed set of tools, keyed by name.
pub struct Registry {
    entries: Vec<(String, ToolKind)>,
}

impl Registry {
    /// Names are unique and each entry is registered under its own
    /// definition's name.
    pub closed spec fn wf(self) -> bool {
        &&& reg_distinct(self.entries@)
        &&& forall|i: int|
            0 <= i < self.entries@.len() ==> self.entries@[i].0@ == kind_name(
                #[trigger] self.entries@[i].1,
            )
    }

    /// The tool registered under `n`, if any.
    pub closed spec fn spec_lookup(self, n: Seq<char>) -> Option<ToolKind> {
        reg_find(self.entries@, n)
    }

    /// The registered definitions, in registry order.
    pub closed spec fn spec_defs(self) -> Seq<ToolV> {
        Seq::new(self.entries@.len(), |i: int| kind_def(self.entries@[i].1))
    }

    /// Builds the registry from the fixed tool list: for each tool, its
    /// definition name maps to its tag. A repeated name would replace the
    /// earlier entry.
    pub fn new() -> (r: Registry)
        ensures
            r.wf(),
            r.spec_defs() == all_tool_defs(),
            forall|k: ToolKind| r.spec_lookup(kind_name(k)) == Some(k),
    {
        let kinds = get_all_tools();
        let mut reg = Registry { entries: Vec::new() };
        let n = kinds.len();
        let mut i: usize = 0;
        proof {
            assert(reg.spec_defs() =~= all_tool_defs().take(0));
        }
        while i < n
            invariant
                n == kinds.len(),
                kinds@ == all_tool_kinds(),
                i <= n,
                reg.wf(),
                reg.spec_defs() == all_tool_defs().take(i as int),
            decreases n - i,
        {
            proof {
                lemma_all_tools_indexed();
                if reg.spec_lookup(kind_name(kinds@[i as int])) is Some {
                    let jj = choose|jj: int|
                        0 <= jj < reg.entries@.len() && reg.entries@[jj].0@ == kind_name(
                            kinds@[i as int],
                        );
                    assert(reg.spec_defs().len() == i as int);
                    assert(0 <= jj < i as int);
                    assert(all_tool_defs().take(i as int)[jj] == all_tool_defs()[jj]);
                    assert(reg.spec_defs()[jj] == kind_def(reg.entries@[jj].1));
                    assert(reg.spec_defs()[jj] == all_tool_defs()[jj]);
                    assert(all_tool_defs()[jj] == kind_def(kinds@[jj]));
                    lemma_kind_def_injective(reg.entries@[jj].1, kinds@[jj]);
                    assert(kind_name(kinds@[jj]) == kind_name(kinds@[i as int]));
                    assert(kinds@[jj] != kinds@[i as int]);
                    lemma_kind_names_distinct(kinds@[jj], kinds@[i as int]);
                }
            }
            let def = definition_of(kinds[i]);
            reg.insert(def.name, kinds[i]);
            proof {
                assert(reg.spec_defs() =~= all_tool_defs().take(i + 1 as int));
            }
            i = i + 1;
        }
        proof {
            lemma_all_tools_indexed();
            assert(reg.spec_defs() =~= all_tool_defs());
            assert forall|k: ToolKind| reg.spec_lookup(kind_name(k)) == Some(k) by {
                let j: int = match k {
                    ToolKind::Calculator => 0,
                    ToolKind::StorageSet => 1,
                    ToolKind::StorageGet => 2,
                    ToolKind::StorageDelete => 3,
                    ToolKind::StorageList => 4,
                    ToolKind::SystemInfo => 5,
                    ToolKind::Echo => 6,
                };
                assert(reg.spec_defs()[j] == all_tool_defs()[j]);
                assert(all_tool_defs()[j] == kind_def(k));
                assert(reg.spec_defs()[j] == kind_def(reg.entries@[j].1));
                lemma_kind_def_injective(reg.entries@[j].1, k);
                assert(reg.entries@[j].0@ == kind_name(k));
                lemma_reg_find_at(reg.entries@, kind_name(k), j);
            }
        }
        reg
    }

    fn insert(&mut self, name: String, k: ToolKind)
        requires
            old(self).wf(),
            name@ == kind_name(k),
        ensures
            final(self).wf(),
            final(self).spec_lookup(name@) == Some(k),
            forall|n2: Seq<char>|
                n2 != name@ ==> final(self).spec_lookup(n2) == old(self).spec_lookup(n2),
            old(self).spec_lookup(name@) is None ==> final(self).spec_defs() == old(
                self,
            ).spec_defs().push(kind_def(k)),
    {
        let n = self.entries.len();
        let mut i: usize = 0;
        let mut found: bool = false;
        while !found && i < n
            invariant
                n == self.entries.len(),
                i <= n,
                self.wf(),
                *self == *old(self),
                !found ==> forall|j: int| 0 <= j < i ==> self.entries@[j].0@ != name@,
                found ==> i < n && self.entries@[i as int].0@ == name@,
            decreases (if found {
                0int
            } else {
                1int
            }), n - i,
        {
            if str_is(self.entries[i].0.as_str(), name.as_str()) {
                found = true;
            } else {
                i = i + 1;
            }
        }
        if found {
            let ghost prev = self.entries@;
            self.entries.remove(i);
            proof {
                    assert forall|a: int, b: int|
                        0 <= a < b < self.entries@.len() implies self.entries@[a].0@
                        != self.entries@[b].0@ by {
                        assert(self.entries@[a] == if a < i as int {
                            prev[a]
                        } else {
                            prev[a + 1]
                        });
                        assert(self.entries@[b] == if b < i as int {
                            prev[b]
                        } else {
                            prev[b + 1]
                        });
                    }
                    assert forall|j: int| 0 <= j < self.entries@.len() implies self.entries@[j].0@
                        != name@ by {
                        assert(self.entries@[j] == if j < i as int {
                            prev[j]
                        } else {
                            prev[j + 1]
                        });
                        if j >= i as int {
                            if prev[j + 1].0@ == name@ {
                                assert(prev[i as int].0@ != prev[j + 1].0@);
                            }
                        }
                    }
                assert forall|j: int|
                    0 <= j < self.entries@.len() implies self.entries@[j].0@ == kind_name(
                    #[trigger] self.entries@[j].1,
                ) by {
                    assert(self.entries@[j] == if j < i as int {
                        prev[j]
                    } else {
                        prev[j + 1]
                    });
                }
                assert forall|n2: Seq<char>| n2 != name@ implies reg_find(self.entries@, n2)
                    == reg_find(prev, n2) by {
                    lemma_reg_remove_preserves(prev, i as int, n2);
                }
            }
        }
        let ghost mid = self.entries@;
        self.entries.push((name, k));
        proof {
            let m = mid.len() as int;
            assert(forall|j: int| 0 <= j < m ==> self.entries@[j] == mid[j]);
            assert(self.entries@[m].0@ == name@);
            assert(!reg_has(mid, name@));
            assert forall|a: int, b: int|
                0 <= a < b < self.entries@.len() implies self.entries@[a].0@
                != self.entries@[b].0@ by {
                if b == m {
                    if mid[a].0@ == name@ {
                        assert(reg_has(mid, name@));
                    }
                }
            }
            lemma_reg_find_at(self.entries@, name@, m);
            assert forall|n2: Seq<char>| n2 != name@ implies reg_find(self.entries@, n2)
                == reg_find(mid, n2) by {
                if reg_has(mid, n2) {
                    let j = choose|j: int| 0 <= j < mid.len() && mid[j].0@ == n2;
                    lemma_reg_find_at(self.entries@, n2, j);
                    lemma_reg_find_at(mid, n2, j);
                } else {
                    if reg_has(self.entries@, n2) {
                        let j = choose|j: int|
                            0 <= j < self.entries@.len() && self.entries@[j].0@ == n2;
                        assert(j != m);
                        assert(mid[j].0@ == n2);
                    }
                }
            }
            if old(self).spec_lookup(name@) is None {
                assert(!found);
                assert(mid == old(self).entries@);
                assert(self.spec_defs() =~= old(self).spec_defs().push(kind_def(k)));
            }
        }
    }

    /// Looks a tool up by name.
    pub fn lookup(&self, name: &str) -> (r: Option<ToolKind>)
        requires
            self.wf(),
        ensures
            r == self.spec_lookup(name@),
            r matches Some(k) ==> kind_def(k).name == name@,
    {
        let n = self.entries.len();
        let mut i: usize = 0;
        while i < n
            invariant
                n == self.entries.len(),
                i <= n,
                self.wf(),
                forall|j: int| 0 <= j < i ==> self.entries@[j].0@ != name@,
            decreases n - i,
        {
            if str_is(self.entries[i].0.as_str(), name) {
                let k = self.entries[i].1;
                proof {
                    lemma_reg_find_at(self.entries@, name@, i as int);
                    crate::tools::lemma_kind_def_name(k);
                }
                return Some(k);
            }
            i = i + 1;
        }
        proof {
            assert(!reg_has(self.entries@, name@));
        }
        None
    }

    /// All registered definitions, in registry order.
    pub fn list(&self) -> (r: Vec<Tool>)
        ensures
            r@.len() == self.spec_defs().len(),
            forall|i: int| 0 <= i < r@.len() ==> r@[i]@ == self.spec_defs()[i],
    {
        let n = self.entries.len();
        let mut out: Vec<Tool> = Vec::new();
        let mut i: usize = 0;
        while i < n
            invariant
                n == self.entries.len(),
                i <= n,
                out@.len() == i,
                forall|j: int| 0 <= j < i ==> out@[j]@ == self.spec_defs()[j],
            decreases n - i,
        {
            let t = definition_of(self.entries[i].1);
            out.push(t);
            i = i + 1;
        }
        out
    }

    /// Looking a registered name up yields a tool whose definition
    /// carries exactly that name.
    pub proof fn lemma_lookup_definition(self, n: Seq<char>)
        requires
            self.wf(),
            self.spec_lookup(n) is Some,
        ensures
            kind_def(self.spec_lookup(n)->0).name == n,
    {
        let j = choose|j: int| 0 <= j < self.entries@.len() && self.entries@[j].0@ == n;
        assert(self.entries@[j].0@ == kind_name(self.entries@[j].1));
        crate::tools::lemma_kind_def_name(self.entries@[j].1);
    }
}

} // verus!
