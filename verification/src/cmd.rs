//! The command tree and its dispatcher.
//!
//! A command is a named node with a handler and named children, built once at
//! startup. Attaching two children with the same name is rejected at build
//! time: the underlying map would silently keep the last insertion, which is
//! a configuration error, not an override mechanism. Dispatch resolves an
//! invocation path through the tree and returns, in execution order, the
//! opaque ids of the handlers to run; the driver that owns the process
//! context runs them. A path naming a child the node does not have is a
//! dispatch error, never a silent no-op.

use vstd::prelude::*;
use crate::errors::CliError;

verus! {

broadcast use vstd::std_specs::vec::axiom_vec_index_decreases;

/// How a node behaves when dispatch reaches it. The default recursion is an
/// explicit variant, so it is testable rather than implicit.
#[derive(Debug, Clone, Copy, PartialEq, Eq, Structural)]
pub enum HandlerKind {
    /// The built-in default: only recurse into the matched child.
    Delegate,
    /// Run the handler with this id and stop; the rest of the path belongs
    /// to the handler.
    Terminal(u64),
    /// Run the handler with this id (for example to override endpoints in
    /// the context), then fall through to the default recursion.
    PrefixThenDelegate(u64),
}

/// One named node of the command tree.
#[derive(Debug)]
pub struct Command {
    pub name: String,
    pub aliases: Vec<String>,
    pub about: String,
    pub handler: HandlerKind,
    pub subcmds: Vec<Command>,
}

/// No two nodes of this sibling row share a name.
pub open spec fn sibling_names_unique(s: Seq<Command>) -> bool {
    forall|i: int, j: int|
        0 <= i < j < s.len() ==> (#[trigger] s[i].name@) != (#[trigger] s[j].name@)
}

/// Prepend already-collected handler ids to a resolution outcome.
pub open spec fn combine(prefix: Seq<u64>, r: Result<Seq<u64>, Seq<char>>) -> Result<
    Seq<u64>,
    Seq<char>,
> {
    match r {
        Ok(t) => Ok(prefix + t),
        Err(e) => Err(e),
    }
}

impl Command {
    /// Some direct child carries this name.
    pub open spec fn has_child(self, name: Seq<char>) -> bool {
        exists|i: int| 0 <= i < self.subcmds@.len() && (#[trigger] self.subcmds@[i].name@) == name
    }

    /// The index of the child carrying this name (meaningful when the child
    /// exists and sibling names are unique).
    pub open spec fn child_index(self, name: Seq<char>) -> int {
        choose|i: int| 0 <= i < self.subcmds@.len() && (#[trigger] self.subcmds@[i].name@) == name
    }

    /// The child carrying this name, if any.
    pub open spec fn spec_child(self, name: Seq<char>) -> Option<Command> {
        if self.has_child(name) {
            Some(self.subcmds@[self.child_index(name)])
        } else {
            None
        }
    }

    /// The tree invariant: throughout the tree, no two children of one node
    /// share a name.
    pub open spec fn wf(self) -> bool
        decreases self,
    {
        &&& sibling_names_unique(self.subcmds@)
        &&& forall|i: int| 0 <= i < self.subcmds@.len() ==> (#[trigger] self.subcmds@[i]).wf()
    }

    /// What dispatch does at this node: a terminal handler takes the whole
    /// remaining path; otherwise the node delegates to the child named by the
    /// next path element, a prefix handler running first if the node has one.
    /// The result is the handler ids in execution order, or the name that had
    /// no matching child.
    pub open spec fn spec_resolve(self, path: Seq<Seq<char>>) -> Result<Seq<u64>, Seq<char>>
        decreases path.len(), 1int,
    {
        match self.handler {
            HandlerKind::Terminal(h) => Ok(seq![h]),
            HandlerKind::Delegate => self.spec_delegate(path),
            HandlerKind::PrefixThenDelegate(h) => combine(seq![h], self.spec_delegate(path)),
        }
    }

    /// The default recursion: an exhausted path is a no-op, a matched child
    /// resolves the rest of the path, a missing child is a dispatch error.
    pub open spec fn spec_delegate(self, path: Seq<Seq<char>>) -> Result<Seq<u64>, Seq<char>>
        decreases path.len(), 0int,
    {
        if path.len() == 0 {
            Ok(seq![])
        } else if self.has_child(path[0]) {
            self.spec_child(path[0]).unwrap().spec_resolve(path.skip(1))
        } else {
            Err(path[0])
        }
    }

    /// The node the path leads to, ignoring handlers.
    pub open spec fn spec_node_at(self, path: Seq<Seq<char>>) -> Option<Command>
        decreases path.len(),
    {
        if path.len() == 0 {
            Some(self)
        } else if self.has_child(path[0]) {
            self.spec_child(path[0]).unwrap().spec_node_at(path.skip(1))
        } else {
            None
        }
    }

    /// Every node strictly before the end of the path matches the next path
    /// element and is not terminal, so dispatch walks the whole path down to
    /// the node the path leads to.
    pub open spec fn delegates_along(self, path: Seq<Seq<char>>) -> bool
        decreases path.len(),
    {
        path.len() == 0 || {
            &&& !(self.handler is Terminal)
            &&& self.has_child(path[0])
            &&& self.spec_child(path[0]).unwrap().delegates_along(path.skip(1))
        }
    }

    /// Create a new command: a leaf with the default delegating handler.
    pub fn new(name: &str) -> (c: Command)
        ensures
            c.name@ == name@,
            c.aliases@.len() == 0,
            c.about@.len() == 0,
            c.handler == HandlerKind::Delegate,
            c.subcmds@.len() == 0,
            c.wf(),
    {
        Command {
            name: name.to_owned(),
            aliases: Vec::new(),
            about: String::new(),
            handler: HandlerKind::Delegate,
            subcmds: Vec::new(),
        }
    }

    /// (Re)set this command's name; everything else is kept.
    pub fn name(self, name: &str) -> (c: Command)
        ensures
            c.name@ == name@,
            c.aliases == self.aliases,
            c.about == self.about,
            c.handler == self.handler,
            c.subcmds == self.subcmds,
    {
        let mut c = self;
        c.name = name.to_owned();
        c
    }

    /// Add one alias; everything else is kept.
    pub fn alias(self, name: &str) -> (c: Command)
        ensures
            c.aliases@.len() == self.aliases@.len() + 1,
            forall|t: int| 0 <= t < self.aliases@.len() ==> (#[trigger] c.aliases@[t])
                == self.aliases@[t],
            c.aliases@.last()@ == name@,
            c.name == self.name,
            c.about == self.about,
            c.handler == self.handler,
            c.subcmds == self.subcmds,
    {
        let mut c = self;
        c.aliases.push(name.to_owned());
        c
    }

    /// Add several aliases; everything else is kept.
    pub fn aliases(self, names: &Vec<String>) -> (c: Command)
        ensures
            c.aliases@ =~= self.aliases@ + names@,
            c.name == self.name,
            c.about == self.about,
            c.handler == self.handler,
            c.subcmds == self.subcmds,
    {
        let mut c = self;
        let n = names.len();
        for i in 0..n
            invariant
                n == names@.len(),
                c.aliases@ =~= self.aliases@ + names@.take(i as int),
                c.name == self.name,
                c.about == self.about,
                c.handler == self.handler,
                c.subcmds == self.subcmds,
        {
            c.aliases.push(names[i].clone());
            assert(c.aliases@ =~= self.aliases@ + names@.take(i + 1));
        }
        assert(names@.take(n as int) =~= names@);
        c
    }

    /// Set the description; everything else is kept.
    pub fn about(self, about: &str) -> (c: Command)
        ensures
            c.about@ == about@,
            c.name == self.name,
            c.aliases == self.aliases,
            c.handler == self.handler,
            c.subcmds == self.subcmds,
    {
        let mut c = self;
        c.about = about.to_owned();
        c
    }

    /// Set the handler; everything else is kept.
    pub fn handler(self, handler: HandlerKind) -> (c: Command)
        ensures
            c.handler == handler,
            c.name == self.name,
            c.aliases == self.aliases,
            c.about == self.about,
            c.subcmds == self.subcmds,
    {
        let mut c = self;
        c.handler = handler;
        c
    }

    /// Attach a child. Two children of the same parent must not share a
    /// name: attaching a duplicate is rejected as a configuration error, and
    /// the rejection leaves nothing half-updated.
    pub fn subcommand(self, subcmd: Command) -> (r: Result<Command, CliError>)
        ensures
            self.has_child(subcmd.name@) ==> r is Err && (r.unwrap_err()
                matches CliError::DuplicateSubcommand(n) && n@ == subcmd.name@),
            !self.has_child(subcmd.name@) ==> r is Ok && ({
                let c = r.unwrap();
                &&& c.subcmds@ == self.subcmds@.push(subcmd)
                &&& c.name == self.name
                &&& c.aliases == self.aliases
                &&& c.about == self.about
                &&& c.handler == self.handler
            }),
            self.wf() && subcmd.wf() && !self.has_child(subcmd.name@) ==> r is Ok
                && r.unwrap().wf(),
    {
        let n = self.subcmds.len();
        for i in 0..n
            invariant
                n == self.subcmds@.len(),
                forall|j: int| 0 <= j < i ==> (#[trigger] self.subcmds@[j].name@) != subcmd.name@,
        {
            if self.subcmds[i].name == subcmd.name {
                return Err(CliError::DuplicateSubcommand(subcmd.name));
            }
        }
        let ghost pre = self;
        let mut c = self;
        c.subcmds.push(subcmd);
        proof {
            if pre.wf() && subcmd.wf() {
                assert forall|a: int, b: int|
                    0 <= a < b < c.subcmds@.len() implies (#[trigger] c.subcmds@[a].name@) != (
                #[trigger] c.subcmds@[b].name@) by {
                    if b < pre.subcmds@.len() {
                        assert(pre.subcmds@[a].name@ != pre.subcmds@[b].name@);
                    } else {
                        assert(c.subcmds@[b] == subcmd);
                        assert(pre.subcmds@[a].name@ != subcmd.name@);
                    }
                }
                assert(c.wf());
            }
        }
        Ok(c)
    }

    /// Attach several children in order, rejecting any duplicate name among
    /// the existing and the new children together.
    pub fn subcommands(self, subcmds: Vec<Command>) -> (r: Result<Command, CliError>)
        requires
            sibling_names_unique(self.subcmds@),
        ensures
            r is Ok <==> sibling_names_unique(self.subcmds@ + subcmds@),
            r is Ok ==> ({
                let c = r.unwrap();
                &&& c.subcmds@ == self.subcmds@ + subcmds@
                &&& c.name == self.name
                &&& c.aliases == self.aliases
                &&& c.about == self.about
                &&& c.handler == self.handler
            }),
            r is Err ==> r.unwrap_err() matches CliError::DuplicateSubcommand(_),
            self.wf() && (forall|i: int| 0 <= i < subcmds@.len() ==> (#[trigger] subcmds@[i]).wf())
                && r is Ok ==> r.unwrap().wf(),
    {
        let ghost orig = self;
        let ghost all = subcmds@;
        let mut c = self;
        let mut rest = subcmds;
        let ghost k: int = 0;
        while rest.len() > 0
            invariant
                orig == self,
                all == subcmds@,
                0 <= k <= all.len(),
                rest@ =~= all.skip(k),
                c.subcmds@ =~= orig.subcmds@ + all.take(k),
                c.name == orig.name,
                c.aliases == orig.aliases,
                c.about == orig.about,
                c.handler == orig.handler,
                sibling_names_unique(c.subcmds@),
                orig.wf() && (forall|i: int| 0 <= i < all.len() ==> (#[trigger] all[i]).wf())
                    ==> c.wf(),
            decreases rest@.len(),
        {
            let sub = rest.remove(0);
            proof {
                assert(sub == all[k]);
                assert(rest@ =~= all.skip(k + 1));
            }
            let ghost pre = c;
            match c.subcommand(sub) {
                Ok(next) => {
                    c = next;
                },
                Err(e) => {
                    proof {
                        let bad = all[k].name@;
                        let w = pre.child_index(bad);
                        assert(pre.subcmds@[w].name@ == bad);
                        let full = orig.subcmds@ + all;
                        if w < orig.subcmds@.len() {
                            assert(full[w].name@ == bad);
                            assert(full[orig.subcmds@.len() + k].name@ == bad);
                            assert(!sibling_names_unique(full));
                        } else {
                            let t = w - orig.subcmds@.len();
                            assert(pre.subcmds@[w] == all[t]);
                            assert(full[orig.subcmds@.len() + t].name@ == bad);
                            assert(full[orig.subcmds@.len() + k].name@ == bad);
                            assert(orig.subcmds@.len() + t != orig.subcmds@.len() + k);
                            assert(!sibling_names_unique(full));
                        }
                    }
                    return Err(e);
                },
            }
            proof {
                assert(c.subcmds@ =~= orig.subcmds@ + all.take(k + 1));
                k = k + 1;
            }
        }
        proof {
            assert(all.take(k) =~= all);
            assert(c.subcmds@ =~= orig.subcmds@ + all);
        }
        Ok(c)
    }

    /// The command's name.
    pub fn get_name(&self) -> (r: &str)
        ensures
            r@ == self.name@,
    {
        self.name.as_str()
    }

    /// All aliases of this command.
    pub fn get_all_aliases(&self) -> (r: &Vec<String>)
        ensures
            r == &self.aliases,
    {
        &self.aliases
    }

    /// Look a direct child up by name.
    pub fn get_subcommand(&self, subcmd: &str) -> (r: Option<&Command>)
        ensures
            r is Some <==> self.has_child(subcmd@),
            r matches Some(c) ==> c.name@ == subcmd@ && (sibling_names_unique(self.subcmds@)
                ==> *c == self.spec_child(subcmd@).unwrap()),
    {
        let key = subcmd.to_owned();
        let n = self.subcmds.len();
        for i in 0..n
            invariant
                key@ == subcmd@,
                n == self.subcmds@.len(),
                forall|j: int| 0 <= j < i ==> (#[trigger] self.subcmds@[j].name@) != subcmd@,
        {
            if self.subcmds[i].name == key {
                proof {
                    if sibling_names_unique(self.subcmds@) {
                        let w = self.child_index(subcmd@);
                        assert(self.subcmds@[w].name@ == subcmd@);
                        if w != i as int {
                            assert(self.subcmds@[w].name@ != self.subcmds@[i as int].name@);
                        }
                    }
                }
                return Some(&self.subcmds[i]);
            }
        }
        None
    }

    /// Rename the child `old_name` to `new_name`, atomically: on any failure
    /// (`old_name` absent, or `new_name` already taken by another child) the
    /// tree is left exactly as it was.
    pub fn rename_subcommand(&mut self, old_name: &str, new_name: &str) -> (r: Result<
        (),
        CliError,
    >)
        requires
            old(self).wf(),
        ensures
            !old(self).has_child(old_name@) ==> r is Err && *final(self) == *old(self) && (
            r.unwrap_err() matches CliError::SubcommandNotFound(n) && n@ == old_name@),
            old(self).has_child(old_name@) && old(self).has_child(new_name@) && new_name@
                != old_name@ ==> r is Err && *final(self) == *old(self) && (r.unwrap_err()
                matches CliError::DuplicateSubcommand(n) && n@ == new_name@),
            old(self).has_child(old_name@) && (new_name@ == old_name@ || !old(self).has_child(
                new_name@,
            )) ==> r is Ok && final(self).wf() && renamed_child(
                *old(self),
                *final(self),
                old(self).child_index(old_name@),
                new_name@,
            ),
    {
        let old_key = old_name.to_owned();
        let new_key = new_name.to_owned();
        let n = self.subcmds.len();
        let mut found: Option<usize> = None;
        for i in 0..n
            invariant
                old_key@ == old_name@,
                n == self.subcmds@.len(),
                *self == *old(self),
                sibling_names_unique(self.subcmds@),
                match found {
                    Some(j) => j < i && self.subcmds@[j as int].name@ == old_name@ && j as int
                        == old(self).child_index(old_name@),
                    None => forall|j: int|
                        0 <= j < i ==> (#[trigger] self.subcmds@[j].name@) != old_name@,
                },
        {
            if found.is_none() && self.subcmds[i].name == old_key {
                found = Some(i);
                proof {
                    assert(self.has_child(old_name@));
                    let w = old(self).child_index(old_name@);
                    assert(old(self).subcmds@[w].name@ == old_name@);
                    if w != i as int {
                        assert(self.subcmds@[w].name@ != self.subcmds@[i as int].name@);
                    }
                }
            }
        }
        let j = match found {
            Some(j) => j,
            None => {
                return Err(CliError::SubcommandNotFound(old_key));
            },
        };
        if !(old_key == new_key) {
            let m = self.subcmds.len();
            for i in 0..m
                invariant
                    new_key@ == new_name@,
                    new_name@ != old_name@,
                    m == self.subcmds@.len(),
                    *self == *old(self),
                    (j as int) < self.subcmds@.len(),
                    self.subcmds@[j as int].name@ == old_name@,
                    old(self).has_child(old_name@),
                    forall|t: int| 0 <= t < i ==> (#[trigger] self.subcmds@[t].name@) != new_name@,
            {
                if self.subcmds[i].name == new_key {
                    return Err(CliError::DuplicateSubcommand(new_key));
                }
            }
            assert(!old(self).has_child(new_name@));
        }
        let ghost pre = *self;
        let mut child = self.subcmds.remove(j);
        let ghost orig_child = child;
        child.name = new_key;
        self.subcmds.insert(j, child);
        proof {
            assert(child.wf()) by {
                assert(orig_child.wf());
                assert(child.subcmds == orig_child.subcmds);
            }
            assert(self.subcmds@ =~= pre.subcmds@.update(j as int, child));
            assert(renamed_child(pre, *self, j as int, new_name@));
            assert forall|a: int, b: int|
                0 <= a < b < self.subcmds@.len() implies (#[trigger] self.subcmds@[a].name@) != (
            #[trigger] self.subcmds@[b].name@) by {
                if a != j && b != j {
                    assert(pre.subcmds@[a].name@ != pre.subcmds@[b].name@);
                } else if a == j {
                    assert(pre.subcmds@[b].name@ != new_name@);
                } else {
                    assert(pre.subcmds@[a].name@ != new_name@);
                }
            }
            assert(self.wf());
        }
        Ok(())
    }

    /// Resolve an invocation path, returning the handler ids to run in
    /// order. The result is exactly [`Self::spec_resolve`]: a matched path
    /// yields its handlers, a name with no matching child at its depth yields
    /// a dispatch error naming it.
    pub fn dispatch_subcmd(&self, path: &Vec<String>) -> (r: Result<Vec<u64>, CliError>)
        requires
            self.wf(),
        ensures
            self.spec_resolve(path.deep_view()) matches Ok(hs) ==> r is Ok && r.unwrap()@ == hs,
            self.spec_resolve(path.deep_view()) matches Err(n) ==> r is Err && (r.unwrap_err()
                matches CliError::NoSubcommandHandler(m) && m@ == n),
    {
        let ghost pv = path.deep_view();
        let mut cur: &Command = self;
        let mut i: usize = 0;
        let mut out: Vec<u64> = Vec::new();
        proof {
            assert(pv.skip(0) =~= pv);
            assert(out@ + seq![] =~= out@);
            match cur.spec_resolve(pv) {
                Ok(t) => {
                    assert(out@ + t =~= t);
                },
                Err(_) => {},
            }
        }
        loop
            invariant
                self.wf(),
                cur.wf(),
                i <= pv.len(),
                pv == path.deep_view(),
                pv.len() == path@.len(),
                combine(out@, cur.spec_resolve(pv.skip(i as int))) == self.spec_resolve(pv),
            decreases pv.len() - i,
        {
            let ghost rest = pv.skip(i as int);
            let ghost pre_out = out@;
            match cur.handler {
                HandlerKind::Terminal(h) => {
                    out.push(h);
                    proof {
                        assert(cur.spec_resolve(rest) == Ok::<Seq<u64>, Seq<char>>(seq![h]));
                        assert(out@ =~= pre_out + seq![h]);
                    }
                    return Ok(out);
                },
                HandlerKind::PrefixThenDelegate(h) => {
                    out.push(h);
                    proof {
                        assert(out@ =~= pre_out + seq![h]);
                        let d = cur.spec_delegate(rest);
                        assert(cur.spec_resolve(rest) == combine(seq![h], d));
                        match d {
                            Ok(t) => {
                                assert(pre_out + (seq![h] + t) =~= out@ + t);
                            },
                            Err(_) => {},
                        }
                        assert(combine(out@, d) == self.spec_resolve(pv));
                    }
                },
                HandlerKind::Delegate => {
                    proof {
                        assert(cur.spec_resolve(rest) == cur.spec_delegate(rest));
                    }
                },
            }
            // At this point: combine(out@, cur.spec_delegate(rest)) == self.spec_resolve(pv).
            if i == path.len() {
                proof {
                    assert(rest.len() == 0);
                    assert(cur.spec_delegate(rest) == Ok::<Seq<u64>, Seq<char>>(seq![]));
                    assert(out@ + seq![] =~= out@);
                }
                return Ok(out);
            }
            let segment = &path[i];
            proof {
                assert(rest[0] == segment.deep_view());
                assert(rest.skip(1) =~= pv.skip(i as int + 1));
            }
            match cur.get_subcommand(segment.as_str()) {
                Some(child) => {
                    proof {
                        assert(*child == cur.spec_child(rest[0]).unwrap());
                        assert(cur.spec_delegate(rest) == child.spec_resolve(rest.skip(1)));
                    }
                    cur = child;
                    i = i + 1;
                },
                None => {
                    proof {
                        assert(!cur.has_child(rest[0]));
                        assert(cur.spec_delegate(rest) == Err::<Seq<u64>, Seq<char>>(segment@));
                    }
                    return Err(CliError::NoSubcommandHandler(segment.clone()));
                },
            }
        }
    }
}

/// `post` is `pre` with exactly the child at `j` renamed to `new_name` and
/// everything else, including that child's own subtree, untouched.
pub open spec fn renamed_child(pre: Command, post: Command, j: int, new_name: Seq<char>) -> bool {
    &&& 0 <= j < pre.subcmds@.len()
    &&& post.subcmds@.len() == pre.subcmds@.len()
    &&& post.name == pre.name
    &&& post.aliases == pre.aliases
    &&& post.about == pre.about
    &&& post.handler == pre.handler
    &&& forall|k: int|
        0 <= k < pre.subcmds@.len() && k != j ==> (#[trigger] post.subcmds@[k]) == pre.subcmds@[k]
    &&& post.subcmds@[j].name@ == new_name
    &&& post.subcmds@[j].aliases == pre.subcmds@[j].aliases
    &&& post.subcmds@[j].about == pre.subcmds@[j].about
    &&& post.subcmds@[j].handler == pre.subcmds@[j].handler
    &&& post.subcmds@[j].subcmds == pre.subcmds@[j].subcmds
}

/// Dispatching a path that matches the built subtree always reaches the
/// handler at its end: when every node before the end delegates and the node
/// at the end is terminal, resolution succeeds and that terminal handler is
/// the last one run.
pub proof fn lemma_dispatch_reaches_leaf(n: Command, path: Seq<Seq<char>>, h: u64)
    requires
        n.delegates_along(path),
        n.spec_node_at(path) is Some,
        n.spec_node_at(path).unwrap().handler == HandlerKind::Terminal(h),
    ensures
        n.spec_resolve(path) is Ok,
        n.spec_resolve(path)->Ok_0.len() >= 1,
        n.spec_resolve(path)->Ok_0.last() == h,
    decreases path.len(),
{
    if path.len() == 0 {
        assert(n.spec_resolve(path) == Ok::<Seq<u64>, Seq<char>>(seq![h]));
    } else {
        let child = n.spec_child(path[0]).unwrap();
        lemma_dispatch_reaches_leaf(child, path.skip(1), h);
        let t = child.spec_resolve(path.skip(1))->Ok_0;
        match n.handler {
            HandlerKind::Delegate => {
                assert(n.spec_resolve(path) == child.spec_resolve(path.skip(1)));
            },
            HandlerKind::PrefixThenDelegate(g) => {
                assert(n.spec_resolve(path) == Ok::<Seq<u64>, Seq<char>>(seq![g] + t));
                assert((seq![g] + t).last() == t.last());
            },
            HandlerKind::Terminal(_) => {
                assert(false);
            },
        }
    }
}

/// Dispatching a name with no matching child at its depth always yields a
/// dispatch error naming it, never a silent no-op: when every node along
/// `prefix` delegates and the node `prefix` leads to has no child named
/// `rest[0]`, resolution of `prefix + rest` fails with exactly that name.
pub proof fn lemma_dispatch_missing_child(n: Command, prefix: Seq<Seq<char>>, rest: Seq<Seq<char>>)
    requires
        n.delegates_along(prefix),
        n.spec_node_at(prefix) is Some,
        rest.len() > 0,
        !(n.spec_node_at(prefix).unwrap().handler is Terminal),
        !n.spec_node_at(prefix).unwrap().has_child(rest[0]),
    ensures
        n.spec_resolve(prefix + rest) == Err::<Seq<u64>, Seq<char>>(rest[0]),
    decreases prefix.len(),
{
    let path = prefix + rest;
    if prefix.len() == 0 {
        assert(path =~= rest);
        assert(n.spec_delegate(rest) == Err::<Seq<u64>, Seq<char>>(rest[0]));
        match n.handler {
            HandlerKind::Delegate => {},
            HandlerKind::PrefixThenDelegate(_) => {},
            HandlerKind::Terminal(_) => {
                assert(false);
            },
        }
    } else {
        let child = n.spec_child(prefix[0]).unwrap();
        assert(path[0] == prefix[0]);
        assert(path.skip(1) =~= prefix.skip(1) + rest);
        lemma_dispatch_missing_child(child, prefix.skip(1), rest);
        assert(n.spec_delegate(path) == child.spec_resolve(prefix.skip(1) + rest));
        match n.handler {
            HandlerKind::Delegate => {},
            HandlerKind::PrefixThenDelegate(_) => {},
            HandlerKind::Terminal(_) => {
                assert(false);
            },
        }
    }
}

} // verus!
