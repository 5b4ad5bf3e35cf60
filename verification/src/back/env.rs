use crate::ast::{node_eq, Node, Val};
use crate::back::runtime_error::RuntimeError;
use crate::loc::Loc;
use vstd::prelude::*;

verus! {

/// One lexical scope: a diagnostic name, its own bindings, and the index of
/// its parent scope, if any.
#[derive(Debug)]
pub struct Scope {
    pub name: String,
    pub entries: Vec<(String, Node)>,
    pub parent: Option<usize>,
}

/// All scopes of one evaluation, in an arena: a scope is referred to by its
/// index, so it can be shared by closures and child scopes alike, cycles
/// included.  Cells live here too, each one a slot that every holder of its
/// index sees.
#[derive(Debug)]
pub struct Env {
    pub scopes: Vec<Scope>,
    pub cells: Vec<Node>,
}

/// The first binding of `k` in one scope's entries.
pub open spec fn find_entry(s: Seq<(String, Node)>, k: Seq<char>) -> Option<Node>
    decreases s.len(),
{
    if s.len() == 0 {
        None
    } else if s[0].0@ == k {
        Some(s[0].1)
    } else {
        find_entry(s.drop_first(), k)
    }
}

impl Env {
    /// Every scope's parent comes earlier in the arena: chains are finite and
    /// end at a root.
    pub open spec fn wf(self) -> bool {
        forall|i: int|
            0 <= i < self.scopes@.len() ==> ((#[trigger] self.scopes@[i]).parent matches Some(p)
                ==> p < i)
    }

    /// The binding of `k` in scope `e` itself, parents not consulted.
    pub open spec fn binding(self, e: int, k: Seq<char>) -> Option<Node> {
        find_entry(self.scopes@[e].entries@, k)
    }

    /// Lexical lookup: the nearest enclosing binding, walking from scope `e`
    /// outward to the root.
    pub open spec fn lookup(self, e: int, k: Seq<char>) -> Option<Node>
        decreases e,
    {
        if !(0 <= e < self.scopes@.len()) {
            None
        } else if self.binding(e, k) is Some {
            self.binding(e, k)
        } else {
            match self.scopes@[e].parent {
                Some(p) => if p < e {
                    self.lookup(p as int, k)
                } else {
                    None
                },
                None => None,
            }
        }
    }

    /// The scope that owns the nearest enclosing binding of `k`, if any: the
    /// scope `update` writes to.
    pub open spec fn owner(self, e: int, k: Seq<char>) -> Option<int>
        decreases e,
    {
        if !(0 <= e < self.scopes@.len()) {
            None
        } else if self.binding(e, k) is Some {
            Some(e)
        } else {
            match self.scopes@[e].parent {
                Some(p) => if p < e {
                    self.owner(p as int, k)
                } else {
                    None
                },
                None => None,
            }
        }
    }

    /// Scope `e` is unchanged between the two arenas.
    pub open spec fn scope_same(pre: Env, post: Env, e: int) -> bool {
        post.scopes@[e] == pre.scopes@[e]
    }
}

/// `find_entry` answers `None` exactly when no entry has the key.
pub proof fn lemma_find_entry_absent(s: Seq<(String, Node)>, k: Seq<char>)
    requires
        forall|j: int| 0 <= j < s.len() ==> (#[trigger] s[j]).0@ != k,
    ensures
        find_entry(s, k) is None,
    decreases s.len(),
{
    if s.len() > 0 {
        lemma_find_entry_absent(s.drop_first(), k);
    }
}

/// `find_entry` answers the entry at the first index whose key matches.
pub proof fn lemma_find_entry_first(s: Seq<(String, Node)>, i: int, k: Seq<char>)
    requires
        0 <= i < s.len(),
        s[i].0@ == k,
        forall|j: int| 0 <= j < i ==> (#[trigger] s[j]).0@ != k,
    ensures
        find_entry(s, k) == Some(s[i].1),
    decreases s.len(),
{
    if i > 0 {
        lemma_find_entry_first(s.drop_first(), i - 1, k);
        assert(s.drop_first()[i - 1] == s[i]);
    }
}

/// How appending one entry changes what `find_entry` answers.
pub proof fn lemma_find_entry_push(s: Seq<(String, Node)>, x: (String, Node), k: Seq<char>)
    ensures
        find_entry(s.push(x), k) == (if find_entry(s, k) is Some {
            find_entry(s, k)
        } else if x.0@ == k {
            Some(x.1)
        } else {
            None
        }),
    decreases s.len(),
{
    if s.len() == 0 {
        assert(s.push(x).drop_first() =~= Seq::<(String, Node)>::empty());
    } else {
        assert(s.push(x).drop_first() =~= s.drop_first().push(x));
        assert(s.push(x)[0] == s[0]);
        lemma_find_entry_push(s.drop_first(), x, k);
    }
}

/// How overwriting the first entry of a key changes what `find_entry`
/// answers: that key reads the new node, every other key is untouched.
pub proof fn lemma_find_entry_update(s: Seq<(String, Node)>, i: int, x: (String, Node), k: Seq<char>)
    requires
        0 <= i < s.len(),
        x.0@ == s[i].0@,
        forall|j: int| 0 <= j < i ==> (#[trigger] s[j]).0@ != s[i].0@,
    ensures
        find_entry(s.update(i, x), k) == (if k == x.0@ {
            Some(x.1)
        } else {
            find_entry(s, k)
        }),
    decreases s.len(),
{
    if i == 0 {
        assert(s.update(i, x)[0] == x);
        assert(s.update(i, x).drop_first() =~= s.drop_first());
    } else {
        assert(s.update(i, x)[0] == s[0]);
        assert(s.update(i, x).drop_first() =~= s.drop_first().update(i - 1, x));
        assert(s.drop_first()[i - 1] == s[i]);
        lemma_find_entry_update(s.drop_first(), i - 1, x, k);
    }
}

impl Default for Env {
    /// A fresh arena with no scopes and no cells.
    fn default() -> (r: Env)
        ensures
            r.scopes@.len() == 0,
            r.cells@.len() == 0,
            r.wf(),
    {
        Env { scopes: Vec::new(), cells: Vec::new() }
    }
}

impl Env {
    /// Allocates a new scope under the given parent and answers its index.
    /// The root scope has no parent and is labelled accordingly.
    pub fn new(&mut self, parent: Option<usize>) -> (e: usize)
        requires
            old(self).wf(),
            parent matches Some(p) ==> p < old(self).scopes@.len(),
        ensures
            final(self).wf(),
            e == old(self).scopes@.len(),
            final(self).scopes@.len() == old(self).scopes@.len() + 1,
            forall|j: int| 0 <= j < e ==> Env::scope_same(*old(self), *final(self), j),
            final(self).cells@ == old(self).cells@,
            forall|j: int|
                0 <= j < old(self).scopes@.len() ==> (#[trigger] final(self).scopes@[j]).parent
                    == old(self).scopes@[j].parent,
            final(self).scopes@[e as int].parent == parent,
            final(self).scopes@[e as int].entries@.len() == 0,
            final(self).scopes@[e as int].name@ == (if parent is None {
                "TopLevel"@
            } else {
                "Local"@
            }),
    {
        let name = match parent {
            None => "TopLevel",
            Some(..) => "Local",
        };
        let e = self.scopes.len();
        self.scopes.push(Scope { name: String::from_str(name), entries: Vec::new(), parent });
        e
    }

    /// Inserts or overwrites the binding in this scope only; never touches a
    /// parent, so an identically named ancestor binding keeps its value.
    #[verifier::loop_isolation(false)]
    pub fn define(&mut self, e: usize, k: &str, v: Node) -> (r: Result<(), RuntimeError>)
        requires
            old(self).wf(),
            e < old(self).scopes@.len(),
        ensures
            r is Ok,
            final(self).wf(),
            final(self).scopes@.len() == old(self).scopes@.len(),
            final(self).cells@ == old(self).cells@,
            forall|j: int|
                0 <= j < old(self).scopes@.len() ==> (#[trigger] final(self).scopes@[j]).parent
                    == old(self).scopes@[j].parent,
            forall|j: int|
                0 <= j < final(self).scopes@.len() && j != e ==> Env::scope_same(*old(self), *final(self), j),
            final(self).scopes@[e as int].parent == old(self).scopes@[e as int].parent,
            final(self).scopes@[e as int].name == old(self).scopes@[e as int].name,
            final(self).binding(e as int, k@) == Some(v),
            forall|k2: Seq<char>|
                k2 != k@ ==> #[trigger] final(self).binding(e as int, k2) == old(self).binding(
                    e as int,
                    k2,
                ),
    {
        let n = self.scopes[e].entries.len();
        let mut i: usize = 0;
        while i < n
            invariant
                i <= n,
                *self == *old(self),
                forall|j: int|
                    0 <= j < i ==> (#[trigger] self.scopes@[e as int].entries@[j]).0@ != k@,
            decreases n - i,
        {
            if crate::str_eq(self.scopes[e].entries[i].0.as_str(), k) {
                let ghost pre = self.scopes@[e as int].entries@;
                self.scopes[e].entries[i] = (String::from_str(k), v);
                proof {
                    lemma_find_entry_update(
                        pre,
                        i as int,
                        (self.scopes@[e as int].entries@[i as int]),
                        k@,
                    );
                    assert forall|k2: Seq<char>| k2 != k@ implies #[trigger] self.binding(
                        e as int,
                        k2,
                    ) == old(self).binding(e as int, k2) by {
                        lemma_find_entry_update(
                            pre,
                            i as int,
                            (self.scopes@[e as int].entries@[i as int]),
                            k2,
                        );
                    }
                }
                return Ok(());
            }
            i += 1;
        }
        let ghost pre = self.scopes@[e as int].entries@;
        self.scopes[e].entries.push((String::from_str(k), v));
        proof {
            lemma_find_entry_absent(pre, k@);
            lemma_find_entry_push(pre, (self.scopes@[e as int].entries@.last()), k@);
            assert forall|k2: Seq<char>| k2 != k@ implies #[trigger] self.binding(e as int, k2)
                == old(self).binding(e as int, k2) by {
                lemma_find_entry_push(pre, (self.scopes@[e as int].entries@.last()), k2);
            }
        }
        Ok(())
    }

    /// Whether this scope itself binds the name.
    #[verifier::loop_isolation(false)]
    pub fn has_binding(&self, e: usize, k: &str) -> (r: bool)
        requires
            self.wf(),
            e < self.scopes@.len(),
        ensures
            r == (self.binding(e as int, k@) is Some),
    {
        let n = self.scopes[e].entries.len();
        let mut i: usize = 0;
        while i < n
            invariant
                i <= n,
                forall|j: int|
                    0 <= j < i ==> (#[trigger] self.scopes@[e as int].entries@[j]).0@ != k@,
            decreases n - i,
        {
            if crate::str_eq(self.scopes[e].entries[i].0.as_str(), k) {
                proof {
                    lemma_find_entry_first(self.scopes@[e as int].entries@, i as int, k@);
                }
                return true;
            }
            i += 1;
        }
        proof {
            lemma_find_entry_absent(self.scopes@[e as int].entries@, k@);
        }
        false
    }

    /// The nearest enclosing binding, walking from this scope to the root;
    /// absence is an answer, not a failure.
    #[verifier::loop_isolation(false)]
    pub fn get(&self, e: usize, k: &str) -> (r: Option<Node>)
        requires
            self.wf(),
            e < self.scopes@.len(),
        ensures
            match (r, self.lookup(e as int, k@)) {
                (Some(a), Some(b)) => node_eq(a, b) && a.loc == b.loc,
                (None, None) => true,
                _ => false,
            },
        decreases e,
    {
        let n = self.scopes[e].entries.len();
        let mut i: usize = 0;
        while i < n
            invariant
                i <= n,
                forall|j: int|
                    0 <= j < i ==> (#[trigger] self.scopes@[e as int].entries@[j]).0@ != k@,
            decreases n - i,
        {
            if crate::str_eq(self.scopes[e].entries[i].0.as_str(), k) {
                proof {
                    lemma_find_entry_first(self.scopes@[e as int].entries@, i as int, k@);
                }
                return Some(self.scopes[e].entries[i].1.clone());
            }
            i += 1;
        }
        proof {
            lemma_find_entry_absent(self.scopes@[e as int].entries@, k@);
        }
        match self.scopes[e].parent {
            Some(p) => self.get(p, k),
            None => None,
        }
    }

    /// Overwrites the nearest enclosing binding: this scope if it has the
    /// name, else an ancestor.  Never creates a binding: a name absent from
    /// the whole chain is the undefined-name-update error, carrying the
    /// attempted value's position.
    #[verifier::loop_isolation(false)]
    pub fn update(&mut self, e: usize, k: &str, v: Node) -> (r: Result<(), RuntimeError>)
        requires
            old(self).wf(),
            e < old(self).scopes@.len(),
        ensures
            final(self).wf(),
            final(self).scopes@.len() == old(self).scopes@.len(),
            final(self).cells@ == old(self).cells@,
            forall|j: int|
                0 <= j < old(self).scopes@.len() ==> (#[trigger] final(self).scopes@[j]).parent
                    == old(self).scopes@[j].parent,
            match old(self).owner(e as int, k@) {
                Some(o) => {
                    &&& r is Ok
                    &&& forall|j: int|
                        0 <= j < final(self).scopes@.len() && j != o ==> Env::scope_same(
                            *old(self),
                            *final(self),
                            j,
                        )
                    &&& final(self).scopes@[o].parent == old(self).scopes@[o].parent
                    &&& final(self).scopes@[o].name == old(self).scopes@[o].name
                    &&& final(self).binding(o, k@) == Some(v)
                    &&& forall|k2: Seq<char>|
                        k2 != k@ ==> #[trigger] final(self).binding(o, k2) == old(self).binding(o, k2)
                },
                None => {
                    &&& (r matches Err(RuntimeError::CannotUpdateUndefinedName(kk, l)) && kk@ == k@
                        && l == v.loc)
                    &&& *final(self) == *old(self)
                },
            },
        decreases e,
    {
        let n = self.scopes[e].entries.len();
        let mut i: usize = 0;
        while i < n
            invariant
                i <= n,
                *self == *old(self),
                forall|j: int|
                    0 <= j < i ==> (#[trigger] self.scopes@[e as int].entries@[j]).0@ != k@,
            decreases n - i,
        {
            if crate::str_eq(self.scopes[e].entries[i].0.as_str(), k) {
                let ghost pre = self.scopes@[e as int].entries@;
                proof {
                    lemma_find_entry_first(pre, i as int, k@);
                }
                self.scopes[e].entries[i] = (String::from_str(k), v);
                proof {
                    assert forall|k2: Seq<char>| true implies #[trigger] self.binding(e as int, k2)
                        == (if k2 == k@ {
                        Some(v)
                    } else {
                        old(self).binding(e as int, k2)
                    }) by {
                        lemma_find_entry_update(
                            pre,
                            i as int,
                            (self.scopes@[e as int].entries@[i as int]),
                            k2,
                        );
                    }
                }
                return Ok(());
            }
            i += 1;
        }
        proof {
            lemma_find_entry_absent(self.scopes@[e as int].entries@, k@);
        }
        match self.scopes[e].parent {
            Some(p) => self.update(p, k, v),
            None => Err(
                RuntimeError::CannotUpdateUndefinedName(String::from_str(k), v.loc),
            ),
        }
    }

    /// Deletes this scope's binding, leaving a placeholder in its place so a
    /// later `update` still writes to this scope, and answers the removed
    /// node.
    #[verifier::loop_isolation(false)]
    pub fn remove(&mut self, e: usize, k: &str) -> (r: Option<Node>)
        requires
            old(self).wf(),
            e < old(self).scopes@.len(),
        ensures
            final(self).wf(),
            final(self).scopes@.len() == old(self).scopes@.len(),
            final(self).cells@ == old(self).cells@,
            forall|j: int|
                0 <= j < old(self).scopes@.len() ==> (#[trigger] final(self).scopes@[j]).parent
                    == old(self).scopes@[j].parent,
            forall|j: int|
                0 <= j < final(self).scopes@.len() && j != e ==> Env::scope_same(*old(self), *final(self), j),
            final(self).scopes@[e as int].parent == old(self).scopes@[e as int].parent,
            final(self).scopes@[e as int].name == old(self).scopes@[e as int].name,
            final(self).binding(e as int, k@) == Some(
                Node { val: Val::Number(0), loc: Loc::Unknown },
            ),
            forall|k2: Seq<char>|
                k2 != k@ ==> #[trigger] final(self).binding(e as int, k2) == old(self).binding(
                    e as int,
                    k2,
                ),
            match (r, old(self).binding(e as int, k@)) {
                (Some(a), Some(b)) => node_eq(a, b) && a.loc == b.loc,
                (None, None) => true,
                _ => false,
            },
    {
        let n = self.scopes[e].entries.len();
        let mut i: usize = 0;
        while i < n
            invariant
                i <= n,
                *self == *old(self),
                forall|j: int|
                    0 <= j < i ==> (#[trigger] self.scopes@[e as int].entries@[j]).0@ != k@,
            decreases n - i,
        {
            if crate::str_eq(self.scopes[e].entries[i].0.as_str(), k) {
                let ghost pre = self.scopes@[e as int].entries@;
                proof {
                    lemma_find_entry_first(pre, i as int, k@);
                }
                let out = self.scopes[e].entries[i].1.clone();
                self.scopes[e].entries[i] = (
                    String::from_str(k),
                    Node { val: Val::Number(0), loc: Loc::Unknown },
                );
                proof {
                    assert forall|k2: Seq<char>| true implies #[trigger] self.binding(e as int, k2)
                        == (if k2 == k@ {
                        Some(Node { val: Val::Number(0), loc: Loc::Unknown })
                    } else {
                        old(self).binding(e as int, k2)
                    }) by {
                        lemma_find_entry_update(
                            pre,
                            i as int,
                            (self.scopes@[e as int].entries@[i as int]),
                            k2,
                        );
                    }
                }
                return Some(out);
            }
            i += 1;
        }
        let ghost pre = self.scopes@[e as int].entries@;
        proof {
            lemma_find_entry_absent(pre, k@);
        }
        self.scopes[e].entries.push((String::from_str(k), Node { val: Val::Number(0), loc: Loc::Unknown }));
        proof {
            lemma_find_entry_push(pre, (self.scopes@[e as int].entries@.last()), k@);
            assert forall|k2: Seq<char>| k2 != k@ implies #[trigger] self.binding(e as int, k2)
                == old(self).binding(e as int, k2) by {
                lemma_find_entry_push(pre, (self.scopes@[e as int].entries@.last()), k2);
            }
        }
        None
    }
}


/// `lookup` and `owner` agree: a name resolves somewhere on the chain
/// exactly when some scope on the chain owns it, and then `lookup` answers
/// that owner's own binding.
pub proof fn lemma_owner_lookup(env: Env, e: int, k: Seq<char>)
    requires
        env.wf(),
    ensures
        (env.owner(e, k) is None) == (env.lookup(e, k) is None),
        env.owner(e, k) matches Some(o) ==> 0 <= o < env.scopes@.len() && env.binding(o, k)
            is Some && env.lookup(e, k) == env.binding(o, k),
    decreases e,
{
    if 0 <= e < env.scopes@.len() && env.binding(e, k) is None {
        match env.scopes@[e].parent {
            Some(p) => {
                lemma_owner_lookup(env, p as int, k);
            },
            None => {},
        }
    }
}

/// Lexical lookup from scope `e` reads only scopes up to `e`: if none of
/// them changed, neither does what any name resolves to.
pub proof fn lemma_lookup_frame(pre: Env, post: Env, e: int, k: Seq<char>)
    requires
        pre.wf(),
        post.wf(),
        e < pre.scopes@.len(),
        e < post.scopes@.len(),
        forall|j: int| 0 <= j <= e ==> Env::scope_same(pre, post, j),
    ensures
        post.lookup(e, k) == pre.lookup(e, k),
        post.owner(e, k) == pre.owner(e, k),
    decreases e,
{
    if 0 <= e {
        assert(Env::scope_same(pre, post, e));
        if pre.binding(e, k) is None {
            match pre.scopes@[e].parent {
                Some(p) => {
                    lemma_lookup_frame(pre, post, p as int, k);
                },
                None => {},
            }
        }
    }
}

/// Shadowing: binding `k` in a scope makes lookup there answer the new
/// node, even when an ancestor binds the same name; and since no other
/// scope changed, lookup from the ancestor — the view that remains once
/// the inner scope is discarded — still answers what it did before.
pub proof fn lemma_shadowing(pre: Env, post: Env, child: int, k: Seq<char>, v: Node, anc: int)
    requires
        pre.wf(),
        post.wf(),
        post.scopes@.len() == pre.scopes@.len(),
        0 <= child < pre.scopes@.len(),
        post.binding(child, k) == Some(v),
        forall|j: int|
            0 <= j < post.scopes@.len() && j != child ==> Env::scope_same(pre, post, j),
        0 <= anc < child,
    ensures
        post.lookup(child, k) == Some(v),
        post.lookup(anc, k) == pre.lookup(anc, k),
{
    lemma_lookup_frame(pre, post, anc, k);
}

/// Chain-wide mutation: overwriting the nearest enclosing binding of `k`
/// - owned by scope `o`, reached from `child` - is what lookup from
/// `child` observes afterwards.  Together with `update`'s own contract
/// (a name no scope on the chain owns is the undefined-name-update error,
/// and nothing changes), this is the asymmetry with `define`.
pub proof fn lemma_update_seen_from_child(
    pre: Env,
    post: Env,
    child: int,
    k: Seq<char>,
    v: Node,
    o: int,
)
    requires
        pre.wf(),
        post.wf(),
        post.scopes@.len() == pre.scopes@.len(),
        0 <= child < pre.scopes@.len(),
        pre.owner(child, k) == Some(o),
        post.binding(o, k) == Some(v),
        forall|j: int| 0 <= j < post.scopes@.len() && j != o ==> Env::scope_same(pre, post, j),
    ensures
        post.lookup(child, k) == Some(v),
    decreases child,
{
    if pre.binding(child, k) is Some {
        assert(o == child);
    } else {
        lemma_owner_lookup(pre, child, k);
        assert(o != child);
        assert(Env::scope_same(pre, post, child));
        match pre.scopes@[child].parent {
            Some(p) => {
                lemma_update_seen_from_child(pre, post, p as int, k, v, o);
            },
            None => {},
        }
    }
}

} // verus!
