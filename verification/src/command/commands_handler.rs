//! The registry of slash commands: what is registered with Discord and
//! which response answers each command name.

use vstd::prelude::*;
use crate::config::Config;
use crate::command::command::{
    commands_alike, lemma_responders_alike_refl, options_alike, responders_alike, texts_alike, Command, CommandHolder,
    Permission, Responder, ResponseFnHolder,
};
use crate::command::template::Template;

verus! {

/// Registered commands, one per name.
pub struct CommandsHandler {
    config: Config,
    registry: Vec<CommandHolder>,
    responses: Vec<ResponseFnHolder>,
}

impl CommandsHandler {
    pub closed spec fn administrator_id(&self) -> u64 {
        self.config.administrator_id
    }

    /// The registered commands, in registration order.
    pub closed spec fn holders(&self) -> Seq<CommandHolder> {
        self.registry@
    }

    /// The responses, in the same order as `holders`.
    pub closed spec fn responders(&self) -> Seq<ResponseFnHolder> {
        self.responses@
    }

    /// Each name is registered once, with its response at the same place.
    pub open spec fn wf(&self) -> bool {
        &&& self.holders().len() == self.responders().len()
        &&& forall|i: int|
            0 <= i < self.holders().len() ==> #[trigger] self.holders()[i].name@
                == self.responders()[i].name@
        &&& forall|i: int, j: int|
            0 <= i < j < self.holders().len() ==> #[trigger] self.holders()[i].name@
                != #[trigger] self.holders()[j].name@
    }

    /// Where `name` is registered, if it is.
    pub open spec fn position(&self, name: Seq<char>) -> Option<int> {
        if exists|i: int| 0 <= i < self.holders().len() && #[trigger] self.holders()[i].name@ == name {
            Some(choose|i: int| 0 <= i < self.holders().len() && #[trigger] self.holders()[i].name@ == name)
        } else {
            None
        }
    }

    /// `after` is this handler with the command `d` registered under
    /// `name`: a command already registered under `name` is replaced, every
    /// other name keeps its command and response.
    pub open spec fn adds(&self, after: Self, name: Seq<char>, d: Command) -> bool {
        &&& after.wf()
        &&& after.administrator_id() == self.administrator_id()
        &&& after.position(name) is Some
        &&& d.response is Some
        &&& after.holders()[after.position(name)->0].matches_command(d)
        &&& after.responders()[after.position(name)->0].response == d.response->0
        &&& after.holders().len() == if self.position(name) is Some {
            self.holders().len()
        } else {
            self.holders().len() + 1
        }
        &&& forall|m: Seq<char>|
            m != name ==> (#[trigger] after.position(m) is Some <==> self.position(m) is Some)
        &&& forall|m: Seq<char>|
            m != name && #[trigger] self.position(m) is Some ==> after.holders()[after.position(m)->0]
                == self.holders()[self.position(m)->0] && after.responders()[after.position(m)->0]
                == self.responders()[self.position(m)->0]
    }

    /// `a` and `b` register the same names, each with the same command and
    /// the same response, texts compared by their characters.
    pub open spec fn same_commands(a: Self, b: Self) -> bool {
        &&& a.holders().len() == b.holders().len()
        &&& forall|m: Seq<char>| #[trigger] a.position(m) is Some <==> b.position(m) is Some
        &&& forall|m: Seq<char>|
            #[trigger] a.position(m) is Some ==> {
                let x = a.holders()[a.position(m)->0];
                let y = b.holders()[b.position(m)->0];
                &&& x.permission == y.permission
                &&& texts_alike(x.description, y.description)
                &&& x.default_permission == y.default_permission
                &&& options_alike(x.options@, y.options@)
                &&& responders_alike(
                    a.responders()[a.position(m)->0].response,
                    b.responders()[b.position(m)->0].response,
                )
            }
    }

    /// `after` is this handler with the command that `command_fn` builds
    /// from a blank command registered under `name`.
    pub open spec fn built_added<F: FnOnce(Command) -> Command>(&self, after: Self, name: Seq<char>, command_fn: F) -> bool {
        exists|c: Command, d: Command|
            {
                &&& c.is_blank()
                &&& c.administrator_id == self.administrator_id()
                &&& #[trigger] call_ensures(command_fn, (c,), d)
                &&& self.adds(after, name, d)
            }
    }

    /// `after` is this handler with the command registered under `name`
    /// that the template made by `template_fn` builds from a blank command.
    pub open spec fn template_added<R: Template, F: FnOnce() -> R>(&self, after: Self, name: Seq<char>, template_fn: F) -> bool {
        exists|t: R, c: Command, d: Command|
            {
                &&& #[trigger] call_ensures(template_fn, (), t)
                &&& c.is_blank()
                &&& c.administrator_id == self.administrator_id()
                &&& #[trigger] t.builds(c, d)
                &&& self.adds(after, name, d)
            }
    }

    pub fn new(config: Config) -> (h: Self)
        ensures
            h.wf(),
            h.holders().len() == 0,
            h.administrator_id() == config.administrator_id,
    {
        CommandsHandler { config, registry: Vec::new(), responses: Vec::new() }
    }

    fn find(&self, name: &String) -> (r: Option<usize>)
        requires
            self.wf(),
        ensures
            r is Some ==> r->0 < self.holders().len() && self.holders()[r->0 as int].name@ == name@,
            r is None ==> self.position(name@) is None,
    {
        let mut i: usize = 0;
        while i < self.registry.len()
            invariant
                self.wf(),
                i <= self.registry.len(),
                forall|j: int| 0 <= j < i ==> #[trigger] self.holders()[j].name@ != name@,
            decreases self.registry.len() - i,
        {
            if self.registry[i].name == *name {
                return Some(i);
            }
            i = i + 1;
        }
        None
    }

    /// Registers the command that `command_fn` builds from a blank command
    /// under `name`, replacing a command registered under the same name.
    pub fn add_command<F: FnOnce(Command) -> Command>(self, name: &str, command_fn: F) -> (r: Self)
        requires
            self.wf(),
            forall|c: Command| #[trigger] call_requires(command_fn, (c,)),
            forall|c: Command, d: Command| #[trigger] call_ensures(command_fn, (c,), d) ==> d.response is Some,
        ensures
            r.wf(),
            r.administrator_id() == self.administrator_id(),
            r.position(name@) is Some,
            self.built_added(r, name@, command_fn),
            r.holders().len() == if self.position(name@) is Some {
                self.holders().len()
            } else {
                self.holders().len() + 1
            },
            forall|m: Seq<char>|
                m != name@ ==> (#[trigger] r.position(m) is Some <==> self.position(m) is Some),
            forall|m: Seq<char>|
                m != name@ && #[trigger] self.position(m) is Some ==> r.holders()[r.position(m)->0]
                    == self.holders()[self.position(m)->0] && r.responders()[r.position(m)->0]
                    == self.responders()[self.position(m)->0],
    {
        let key = name.to_owned();
        let (command, response) = Command::fn_to_parts(key.clone(), command_fn, &self.config);
        let ghost old_self = self;
        let mut h = self;
        match h.find(&key) {
            Some(i) => {
                h.registry.set(i, command);
                h.responses.set(i, response);
                proof {
                    assert(h.holders() =~= old_self.holders().update(i as int, command));
                    assert forall|j: int| 0 <= j < h.holders().len() implies #[trigger] h.holders()[j].name@
                        == h.responders()[j].name@ by {}
                    assert forall|j: int, k: int| 0 <= j < k < h.holders().len() implies #[trigger] h.holders()[j].name@
                        != #[trigger] h.holders()[k].name@ by {
                        assert(old_self.holders()[j].name@ != old_self.holders()[k].name@);
                    }
                    Self::lemma_position(h, i as int);
                    assert forall|m: Seq<char>| m != name@ implies (#[trigger] h.position(m) is Some
                        <==> old_self.position(m) is Some) by {
                        Self::lemma_same_names_elsewhere(old_self, h, i as int, m);
                    }
                    assert forall|m: Seq<char>|
                        m != name@ && #[trigger] old_self.position(m) is Some implies h.holders()[h.position(m)->0]
                            == old_self.holders()[old_self.position(m)->0]
                            && h.responders()[h.position(m)->0]
                            == old_self.responders()[old_self.position(m)->0] by {
                        Self::lemma_same_names_elsewhere(old_self, h, i as int, m);
                    }
                }
            },
            None => {
                h.registry.push(command);
                h.responses.push(response);
                proof {
                    let n = old_self.holders().len() as int;
                    assert forall|j: int| 0 <= j < h.holders().len() implies #[trigger] h.holders()[j].name@
                        == h.responders()[j].name@ by {}
                    assert forall|j: int, k: int| 0 <= j < k < h.holders().len() implies #[trigger] h.holders()[j].name@
                        != #[trigger] h.holders()[k].name@ by {
                        if k == n {
                            assert(old_self.holders()[j].name@ != name@);
                        }
                    }
                    Self::lemma_position(h, n);
                    assert forall|m: Seq<char>| m != name@ implies (#[trigger] h.position(m) is Some
                        <==> old_self.position(m) is Some) by {
                        Self::lemma_same_names_elsewhere(old_self, h, n, m);
                    }
                    assert forall|m: Seq<char>|
                        m != name@ && #[trigger] old_self.position(m) is Some implies h.holders()[h.position(m)->0]
                            == old_self.holders()[old_self.position(m)->0]
                            && h.responders()[h.position(m)->0]
                            == old_self.responders()[old_self.position(m)->0] by {
                        Self::lemma_same_names_elsewhere(old_self, h, n, m);
                    }
                }
            },
        }
        h
    }

    /// Registers the command that the template made by `template_fn` builds,
    /// as `add_command` does.
    pub fn add_template_command<R: Template, F: FnOnce() -> R>(self, name: &str, template_fn: F) -> (r: Self)
        requires
            self.wf(),
            call_requires(template_fn, ()),
        ensures
            r.wf(),
            r.administrator_id() == self.administrator_id(),
            r.position(name@) is Some,
            self.template_added(r, name@, template_fn),
            r.holders().len() == if self.position(name@) is Some {
                self.holders().len()
            } else {
                self.holders().len() + 1
            },
            forall|m: Seq<char>|
                m != name@ ==> (#[trigger] r.position(m) is Some <==> self.position(m) is Some),
            forall|m: Seq<char>|
                m != name@ && #[trigger] self.position(m) is Some ==> r.holders()[r.position(m)->0]
                    == self.holders()[self.position(m)->0] && r.responders()[r.position(m)->0]
                    == self.responders()[self.position(m)->0],
    {
        let template = template_fn();
        let ghost t = template;
        let build = move |command: Command| -> (built: Command)
            ensures
                built.response is Some,
                built.administrator_id == command.administrator_id,
                t.builds(command, built),
            { template.run(command) };
        let r = self.add_command(name, build);
        proof {
            let (c, d) = choose|c: Command, d: Command|
                {
                    &&& c.is_blank()
                    &&& c.administrator_id == self.administrator_id()
                    &&& #[trigger] call_ensures(build, (c,), d)
                    &&& r.holders()[r.position(name@)->0].matches_command(d)
                    &&& r.responders()[r.position(name@)->0].response == d.response->0
                };
            assert(r.holders()[r.position(name@)->0].matches_command(d));
            assert(t.builds(c, d));
            assert(call_ensures(template_fn, (), t));
        }
        r
    }

    /// The commands to register with Discord, in registration order.
    pub fn register_commands(&self) -> (r: &Vec<CommandHolder>)
        ensures
            r@ == self.holders(),
    {
        &self.registry
    }

    /// Pairs the ids Discord gave the registered commands with the
    /// registered commands, in order, and keeps the pairs whose command has
    /// a permission override.
    pub fn register_permissions(&self, command_ids: &Vec<u64>) -> (r: Vec<(u64, Permission)>)
        requires
            self.wf(),
        ensures
            r@ == permission_targets(command_ids@, self.holders()),
            r@ == zip_overrides(command_ids@, self.holders()),
    {
        proof {
            lemma_permission_targets_zip_then_filter(command_ids@, self.holders());
        }
        let mut out: Vec<(u64, Permission)> = Vec::new();
        let n = if command_ids.len() < self.registry.len() {
            command_ids.len()
        } else {
            self.registry.len()
        };
        let mut i: usize = 0;
        assert(command_ids@.skip(0) =~= command_ids@);
        assert(self.holders().skip(0) =~= self.holders());
        while i < n
            invariant
                n <= command_ids.len(),
                n <= self.registry.len(),
                n == command_ids.len() || n == self.registry.len(),
                i <= n,
                out@ + permission_targets(command_ids@.skip(i as int), self.holders().skip(i as int))
                    == permission_targets(command_ids@, self.holders()),
            decreases n - i,
        {
            let ghost ids = command_ids@.skip(i as int);
            let ghost hs = self.holders().skip(i as int);
            assert(ids.drop_first() =~= command_ids@.skip(i + 1));
            assert(hs.drop_first() =~= self.holders().skip(i + 1));
            match self.registry[i].permission {
                Some(p) => {
                    out.push((command_ids[i], p));
                    assert(out@ + permission_targets(ids.drop_first(), hs.drop_first()) =~= out@.drop_last()
                        + permission_targets(ids, hs));
                },
                None => {},
            }
            i = i + 1;
        }
        assert(permission_targets(command_ids@.skip(n as int), self.holders().skip(n as int)).len() == 0);
        assert(out@ =~= out@ + permission_targets(command_ids@.skip(n as int), self.holders().skip(n as int)));
        out
    }

    /// The response registered under `name`, if any.
    pub fn response_for(&self, name: &str) -> (r: Option<&Responder>)
        requires
            self.wf(),
        ensures
            r is Some <==> self.position(name@) is Some,
            r is Some ==> *r->0 == self.responders()[self.position(name@)->0].response,
    {
        let key = name.to_owned();
        match self.find(&key) {
            Some(i) => {
                proof {
                    Self::lemma_position(*self, i as int);
                }
                Some(&self.responses[i].response)
            },
            None => None,
        }
    }

    /// Adding under a name is determined by the command added: two handlers
    /// that add alike commands under `name` to `h` register the same
    /// commands.
    pub proof fn law_add_determined_by_command(h: Self, a: Self, b: Self, name: Seq<char>, d1: Command, d2: Command)
        requires
            h.wf(),
            h.adds(a, name, d1),
            h.adds(b, name, d2),
            commands_alike(d1, d2),
        ensures
            Self::same_commands(a, b),
    {
        assert forall|m: Seq<char>| #[trigger] a.position(m) is Some <==> b.position(m) is Some by {
            if m != name {
                assert(a.position(m) is Some <==> h.position(m) is Some);
                assert(b.position(m) is Some <==> h.position(m) is Some);
            }
        }
        assert forall|m: Seq<char>|
            #[trigger] a.position(m) is Some implies {
                let x = a.holders()[a.position(m)->0];
                let y = b.holders()[b.position(m)->0];
                &&& x.permission == y.permission
                &&& texts_alike(x.description, y.description)
                &&& x.default_permission == y.default_permission
                &&& options_alike(x.options@, y.options@)
                &&& responders_alike(
                    a.responders()[a.position(m)->0].response,
                    b.responders()[b.position(m)->0].response,
                )
            } by {
            if m != name {
                assert(a.position(m) is Some <==> h.position(m) is Some);
                assert(h.position(m) is Some);
                lemma_responders_alike_refl(h.responders()[h.position(m)->0].response);
            }
        }
    }

    /// Adding a template's command is adding with the template's builder:
    /// `add_template_command(name, template_fn)` registers the same commands
    /// as `add_command(name, builder)` where `builder` runs the template
    /// that `template_fn` makes.
    pub proof fn law_template_add_is_builder_add<R: Template, T: FnOnce() -> R, F: FnOnce(Command) -> Command>(
        h: Self,
        name: Seq<char>,
        template_fn: T,
        template: R,
        builder: F,
        a: Self,
        b: Self,
    )
        requires
            h.wf(),
            forall|t: R| #[trigger] call_ensures(template_fn, (), t) ==> t == template,
            forall|c: Command, d: Command| #[trigger] call_ensures(builder, (c,), d) ==> template.builds(c, d),
            h.template_added(a, name, template_fn),
            h.built_added(b, name, builder),
        ensures
            Self::same_commands(a, b),
    {
        let (t, c1, d1) = choose|t: R, c: Command, d: Command|
            {
                &&& #[trigger] call_ensures(template_fn, (), t)
                &&& c.is_blank()
                &&& c.administrator_id == h.administrator_id()
                &&& #[trigger] t.builds(c, d)
                &&& h.adds(a, name, d)
            };
        let (c2, d2) = choose|c: Command, d: Command|
            {
                &&& c.is_blank()
                &&& c.administrator_id == h.administrator_id()
                &&& #[trigger] call_ensures(builder, (c,), d)
                &&& h.adds(b, name, d)
            };
        assert(t == template);
        assert(template.builds(c2, d2));
        template.lemma_builds_alike(c1, c2, d1, d2);
        Self::law_add_determined_by_command(h, a, b, name, d1, d2);
    }

    /// In a well-formed registry, `position` finds the one index holding
    /// a name.
    proof fn lemma_position(h: Self, i: int)
        requires
            h.wf(),
            0 <= i < h.holders().len(),
        ensures
            h.position(h.holders()[i].name@) == Some(i),
    {
        let name = h.holders()[i].name@;
        assert(h.holders()[i].name@ == name);
        let j = choose|j: int| 0 <= j < h.holders().len() && #[trigger] h.holders()[j].name@ == name;
        if j != i {
            if j < i {
                assert(h.holders()[j].name@ != h.holders()[i].name@);
            } else {
                assert(h.holders()[i].name@ != h.holders()[j].name@);
            }
        }
    }

    /// `b` is `a` with index `i` replaced or, when `i` is `a`'s length,
    /// added; names other than the one at `i` keep their entries.
    proof fn lemma_same_names_elsewhere(a: Self, b: Self, i: int, m: Seq<char>)
        requires
            a.wf(),
            b.wf(),
            0 <= i <= a.holders().len(),
            i < b.holders().len(),
            b.holders().len() == if i < a.holders().len() {
                a.holders().len()
            } else {
                a.holders().len() + 1
            },
            i < a.holders().len() ==> a.holders()[i].name@ == b.holders()[i].name@,
            forall|j: int| 0 <= j < a.holders().len() && j != i ==> b.holders()[j] == a.holders()[j],
            forall|j: int| 0 <= j < a.holders().len() && j != i ==> b.responders()[j] == a.responders()[j],
            m != b.holders()[i].name@,
        ensures
            b.position(m) is Some <==> a.position(m) is Some,
            a.position(m) is Some ==> b.position(m) == a.position(m),
    {
        if a.position(m) is Some {
            let j = a.position(m)->0;
            assert(a.holders()[j].name@ == m);
            assert(j != i);
            assert(b.holders()[j].name@ == m);
            Self::lemma_position(a, j);
            Self::lemma_position(b, j);
        }
        if b.position(m) is Some {
            let j = b.position(m)->0;
            assert(b.holders()[j].name@ == m);
            assert(j != i);
            assert(a.holders()[j].name@ == m);
        }
    }
}

/// The `(command id, permission)` pairs `register_permissions` yields: ids
/// and commands paired in order, up to the shorter list, keeping the
/// commands that carry a permission override.
pub open spec fn permission_targets(ids: Seq<u64>, holders: Seq<CommandHolder>) -> Seq<(u64, Permission)>
    decreases ids.len(),
{
    if ids.len() == 0 || holders.len() == 0 {
        Seq::empty()
    } else {
        let rest = permission_targets(ids.drop_first(), holders.drop_first());
        match holders[0].permission {
            Some(p) => seq![(ids[0], p)] + rest,
            None => rest,
        }
    }
}

/// Each command id paired with the registered command at the same index,
/// up to the shorter list, as `(id, override)`.
pub open spec fn zip_ids(ids: Seq<u64>, holders: Seq<CommandHolder>) -> Seq<(u64, Option<Permission>)> {
    Seq::new(
        if ids.len() < holders.len() {
            ids.len()
        } else {
            holders.len()
        },
        |i: int| (ids[i], holders[i].permission),
    )
}

/// Zip the ids with the commands first, then keep the pairs whose command
/// carries an override.
pub open spec fn zip_overrides(ids: Seq<u64>, holders: Seq<CommandHolder>) -> Seq<(u64, Permission)> {
    zip_ids(ids, holders).filter(|x: (u64, Option<Permission>)| x.1 is Some).map_values(
        |x: (u64, Option<Permission>)| (x.0, x.1->0),
    )
}

/// The permission overrides go, in order, to the ids at the index of the
/// command that carries them: the ids are zipped with all the registered
/// commands first and only then are the commands without an override left
/// out, so an id is never given the override of a command at another index.
pub proof fn lemma_permission_targets_zip_then_filter(ids: Seq<u64>, holders: Seq<CommandHolder>)
    ensures
        permission_targets(ids, holders) == zip_overrides(ids, holders),
    decreases ids.len(),
{
    let pred = |x: (u64, Option<Permission>)| x.1 is Some;
    let f = |x: (u64, Option<Permission>)| (x.0, x.1->0);
    let z = zip_ids(ids, holders);
    if ids.len() == 0 || holders.len() == 0 {
        assert(z.len() == 0);
        assert(z.filter(pred) =~= z);
        assert(zip_overrides(ids, holders) =~= Seq::<(u64, Permission)>::empty());
    } else {
        let rest = zip_ids(ids.drop_first(), holders.drop_first());
        let head = seq![(ids[0], holders[0].permission)];
        assert(z =~= head + rest);
        lemma_permission_targets_zip_then_filter(ids.drop_first(), holders.drop_first());
        Seq::filter_distributes_over_add(head, rest, pred);
        reveal_with_fuel(Seq::filter, 2);
        assert(head.drop_last() =~= Seq::<(u64, Option<Permission>)>::empty());
        assert((head.filter(pred) + rest.filter(pred)).map_values(f) =~= head.filter(pred).map_values(f)
            + rest.filter(pred).map_values(f));
        match holders[0].permission {
            Some(p) => {
                assert(head.filter(pred) =~= head);
                assert(head.filter(pred).map_values(f) =~= seq![(ids[0], p)]);
            },
            None => {
                assert(head.filter(pred) =~= Seq::<(u64, Option<Permission>)>::empty());
                assert(head.filter(pred).map_values(f) =~= Seq::<(u64, Permission)>::empty());
            },
        }
    }
}

} // verus!
