//! The options a user filled in when invoking a slash command.

use vstd::prelude::*;
use crate::command::command::OptionKind;

verus! {

#[derive(Clone, Copy, Debug, PartialEq, Eq, Structural)]
pub enum ChannelKind {
    Text,
    Private,
    Voice,
    Category,
    News,
    Store,
    NewsThread,
    PublicThread,
    PrivateThread,
    Stage,
    Unknown,
}

#[derive(Clone, Debug)]
/// A channel given as an option value.
pub struct PartialChannel {
    pub id: u64,
    pub name: String,
    pub kind: ChannelKind,
}

/// A resolved option value.
#[derive(Clone, Debug)]
pub enum OptionValue {
    String(String),
    Integer(i64),
    Boolean(bool),
    /// The user's id, and whether their guild member data came along.
    User(u64, bool),
    Channel(PartialChannel),
    /// The role's id.
    Role(u64),
    /// The bits of the `f64` the user entered.
    Number(u64),
}

/// The option type a value belongs to.
pub open spec fn kind_of(v: OptionValue) -> OptionKind {
    match v {
        OptionValue::String(_) => OptionKind::String,
        OptionValue::Integer(_) => OptionKind::Integer,
        OptionValue::Boolean(_) => OptionKind::Boolean,
        OptionValue::User(_, _) => OptionKind::User,
        OptionValue::Channel(_) => OptionKind::Channel,
        OptionValue::Role(_) => OptionKind::Role,
        OptionValue::Number(_) => OptionKind::Number,
    }
}

/// One option as received, with its value if Discord resolved one.
#[derive(Clone, Debug)]
pub struct RawOption {
    pub name: String,
    pub resolved: Option<OptionValue>,
}

/// No two options share a name.
pub open spec fn names_distinct(v: Seq<RawOption>) -> bool {
    forall|i: int, j: int| 0 <= i < j < v.len() ==> #[trigger] v[i].name@ != #[trigger] v[j].name@
}

/// The first option whose name an earlier option already has, if any.
pub fn first_duplicate_name(options: &Vec<RawOption>) -> (r: Option<usize>)
    ensures
        r is None <==> names_distinct(options@),
        r matches Some(j) ==> j < options.len() && names_distinct(options@.take(j as int))
            && exists|i: int| 0 <= i < j && #[trigger] options@[i].name@ == options@[j as int].name@,
{
    let mut j: usize = 0;
    while j < options.len()
        invariant
            j <= options.len(),
            names_distinct(options@.take(j as int)),
        decreases options.len() - j,
    {
        let mut i: usize = 0;
        while i < j
            invariant
                i <= j < options.len(),
                names_distinct(options@.take(j as int)),
                forall|k: int| 0 <= k < i ==> #[trigger] options@[k].name@ != options@[j as int].name@,
            decreases j - i,
        {
            if options[i].name == options[j].name {
                assert(options@[i as int].name@ == options@[j as int].name@);
                return Some(j);
            }
            i = i + 1;
        }
        assert forall|a: int, b: int| 0 <= a < b < j + 1 implies #[trigger] options@.take(j + 1)[a].name@
            != #[trigger] options@.take(j + 1)[b].name@ by {
            if b < j {
                assert(options@.take(j as int)[a] == options@[a] && options@.take(j as int)[b] == options@[b]);
            }
        }
        j = j + 1;
    }
    assert(options@.take(options.len() as int) =~= options@);
    None
}

/// The options of one invocation, by name.
#[derive(Clone, Debug)]
pub struct Options {
    options: Vec<RawOption>,
}

impl Options {
    pub closed spec fn entries(&self) -> Seq<RawOption> {
        self.options@
    }

    pub open spec fn wf(&self) -> bool {
        names_distinct(self.entries())
    }

    /// Where the option called `name` is, if there is one.
    pub open spec fn position(&self, name: Seq<char>) -> Option<int> {
        if exists|i: int| 0 <= i < self.entries().len() && #[trigger] self.entries()[i].name@ == name {
            Some(choose|i: int| 0 <= i < self.entries().len() && #[trigger] self.entries()[i].name@ == name)
        } else {
            None
        }
    }

    /// The value of the option called `name` (which must be present).
    pub open spec fn value_of(&self, name: Seq<char>) -> Option<OptionValue> {
        self.entries()[self.position(name)->0].resolved
    }

    /// Collects the options; two options may not share a name.
    pub fn new(options_vec: Vec<RawOption>) -> (o: Self)
        requires
            names_distinct(options_vec@),
        ensures
            o.wf(),
            o.entries() == options_vec@,
    {
        Options { options: options_vec }
    }

    proof fn lemma_position(&self, i: int)
        requires
            self.wf(),
            0 <= i < self.entries().len(),
        ensures
            self.position(self.entries()[i].name@) == Some(i),
    {
        let name = self.entries()[i].name@;
        assert(self.entries()[i].name@ == name);
        let j = choose|j: int| 0 <= j < self.entries().len() && #[trigger] self.entries()[j].name@ == name;
        if j != i {
            if j < i {
                assert(self.entries()[j].name@ != self.entries()[i].name@);
            } else {
                assert(self.entries()[i].name@ != self.entries()[j].name@);
            }
        }
    }

    fn index_of(&self, key: &String) -> (r: Option<usize>)
        ensures
            r matches Some(i) ==> i < self.entries().len() && self.entries()[i as int].name@ == key@,
            r is None ==> forall|k: int| 0 <= k < self.entries().len() ==> #[trigger] self.entries()[k].name@ != key@,
    {
        let mut i: usize = 0;
        while i < self.options.len()
            invariant
                i <= self.options.len(),
                forall|k: int| 0 <= k < i ==> #[trigger] self.entries()[k].name@ != key@,
            decreases self.options.len() - i,
        {
            if self.options[i].name == *key {
                return Some(i);
            }
            i = i + 1;
        }
        None
    }

    /// Whether an option called `name` is present.
    pub fn contains(&self, name: &str) -> (r: bool)
        ensures
            r == self.position(name@) is Some,
    {
        let key = name.to_owned();
        match self.index_of(&key) {
            Some(i) => {
                assert(self.entries()[i as int].name@ == name@);
                true
            },
            None => false,
        }
    }

    /// Whether the option called `name` (which must be present) has no
    /// value or a value of type `kind`.
    pub fn value_matches(&self, name: &str, kind: OptionKind) -> (r: bool)
        requires
            self.wf(),
            self.position(name@) is Some,
        ensures
            r == (self.value_of(name@) matches Some(v) ==> kind_of(v) == kind),
    {
        let key = name.to_owned();
        let i = match self.index_of(&key) {
            Some(i) => i,
            None => {
                proof {
                    let p = self.position(name@)->0;
                    assert(self.entries()[p].name@ == name@);
                }
                0
            },
        };
        proof {
            self.lemma_position(i as int);
        }
        match &self.options[i].resolved {
            None => true,
            Some(v) => {
                let k = match v {
                    OptionValue::String(_) => OptionKind::String,
                    OptionValue::Integer(_) => OptionKind::Integer,
                    OptionValue::Boolean(_) => OptionKind::Boolean,
                    OptionValue::User(_, _) => OptionKind::User,
                    OptionValue::Channel(_) => OptionKind::Channel,
                    OptionValue::Role(_) => OptionKind::Role,
                    OptionValue::Number(_) => OptionKind::Number,
                };
                k == kind
            },
        }
    }

    /// Takes out the option called `name`, which must be present.
    pub fn read(&mut self, name: &str) -> (r: Option<OptionValue>)
        requires
            old(self).wf(),
            old(self).position(name@) is Some,
        ensures
            final(self).wf(),
            r == old(self).value_of(name@),
            final(self).entries() == old(self).entries().remove(old(self).position(name@)->0),
            final(self).position(name@) is None,
    {
        let key = name.to_owned();
        let i = match self.index_of(&key) {
            Some(i) => i,
            None => {
                proof {
                    let p = self.position(name@)->0;
                    assert(self.entries()[p].name@ == name@);
                }
                0
            },
        };
        let ghost p = old(self).position(name@)->0;
        proof {
            assert(old(self).entries()[p].name@ == name@);
            self.lemma_position(i as int);
        }
        let entry = self.options.remove(i);
        proof {
            let e = self.entries();
            let o = old(self).entries();
            assert(e =~= o.remove(p));
            assert forall|a: int, b: int| 0 <= a < b < e.len() implies #[trigger] e[a].name@ != #[trigger] e[b].name@ by {
                let a2 = if a < p { a } else { a + 1 };
                let b2 = if b < p { b } else { b + 1 };
                assert(e[a] == o[a2] && e[b] == o[b2]);
            }
            if self.position(name@) is Some {
                let q = choose|q: int| 0 <= q < e.len() && #[trigger] e[q].name@ == name@;
                let q2 = if q < p { q } else { q + 1 };
                assert(e[q] == o[q2]);
                if q2 < p {
                    assert(o[q2].name@ != o[p].name@);
                } else {
                    assert(o[p].name@ != o[q2].name@);
                }
            }
        }
        entry.resolved
    }

    /// Takes out a string option; it must be present and, when it has a
    /// value, hold a string.
    pub fn read_string(&mut self, name: &str) -> (r: Option<String>)
        requires
            old(self).wf(),
            old(self).position(name@) is Some,
            old(self).value_of(name@) matches Some(v) ==> v is String,
        ensures
            final(self).wf(),
            r == (match old(self).value_of(name@) {
                Some(OptionValue::String(s)) => Some(s),
                _ => None,
            }),
            final(self).entries() == old(self).entries().remove(old(self).position(name@)->0),
    {
        match self.read(name) {
            Some(OptionValue::String(s)) => Some(s),
            _ => None,
        }
    }

    /// Takes out an integer option; it must be present and, when it has a
    /// value, hold an integer.
    pub fn read_integer(&mut self, name: &str) -> (r: Option<i64>)
        requires
            old(self).wf(),
            old(self).position(name@) is Some,
            old(self).value_of(name@) matches Some(v) ==> v is Integer,
        ensures
            final(self).wf(),
            r == (match old(self).value_of(name@) {
                Some(OptionValue::Integer(x)) => Some(x),
                _ => None,
            }),
            final(self).entries() == old(self).entries().remove(old(self).position(name@)->0),
    {
        match self.read(name) {
            Some(OptionValue::Integer(x)) => Some(x),
            _ => None,
        }
    }

    /// Takes out a boolean option; it must be present and, when it has a
    /// value, hold a boolean.
    pub fn read_boolean(&mut self, name: &str) -> (r: Option<bool>)
        requires
            old(self).wf(),
            old(self).position(name@) is Some,
            old(self).value_of(name@) matches Some(v) ==> v is Boolean,
        ensures
            final(self).wf(),
            r == (match old(self).value_of(name@) {
                Some(OptionValue::Boolean(b)) => Some(b),
                _ => None,
            }),
            final(self).entries() == old(self).entries().remove(old(self).position(name@)->0),
    {
        match self.read(name) {
            Some(OptionValue::Boolean(b)) => Some(b),
            _ => None,
        }
    }

    /// Takes out a user option as `(user id, member data present)`; it must
    /// be present and, when it has a value, hold a user.
    pub fn read_user(&mut self, name: &str) -> (r: Option<(u64, bool)>)
        requires
            old(self).wf(),
            old(self).position(name@) is Some,
            old(self).value_of(name@) matches Some(v) ==> v is User,
        ensures
            final(self).wf(),
            r == (match old(self).value_of(name@) {
                Some(OptionValue::User(u, m)) => Some((u, m)),
                _ => None,
            }),
            final(self).entries() == old(self).entries().remove(old(self).position(name@)->0),
    {
        match self.read(name) {
            Some(OptionValue::User(u, m)) => Some((u, m)),
            _ => None,
        }
    }

    /// Takes out a channel option; it must be present and, when it has a
    /// value, hold a channel.
    pub fn read_channel(&mut self, name: &str) -> (r: Option<PartialChannel>)
        requires
            old(self).wf(),
            old(self).position(name@) is Some,
            old(self).value_of(name@) matches Some(v) ==> v is Channel,
        ensures
            final(self).wf(),
            r == (match old(self).value_of(name@) {
                Some(OptionValue::Channel(c)) => Some(c),
                _ => None,
            }),
            final(self).entries() == old(self).entries().remove(old(self).position(name@)->0),
    {
        match self.read(name) {
            Some(OptionValue::Channel(c)) => Some(c),
            _ => None,
        }
    }

    /// Takes out a role option as the role's id; it must be present and,
    /// when it has a value, hold a role.
    pub fn read_role(&mut self, name: &str) -> (r: Option<u64>)
        requires
            old(self).wf(),
            old(self).position(name@) is Some,
            old(self).value_of(name@) matches Some(v) ==> v is Role,
        ensures
            final(self).wf(),
            r == (match old(self).value_of(name@) {
                Some(OptionValue::Role(x)) => Some(x),
                _ => None,
            }),
            final(self).entries() == old(self).entries().remove(old(self).position(name@)->0),
    {
        match self.read(name) {
            Some(OptionValue::Role(x)) => Some(x),
            _ => None,
        }
    }
}

} // verus!
