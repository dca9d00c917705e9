use vstd::prelude::*;

use crate::command::{Command, CommandError, Outcome, DEFAULT_PRIORITY};
use crate::commands::help::HELP_PRIORITY;
use crate::commands::version::VERSION_PRIORITY;
use crate::commands::{HelpCommand, VersionCommand};
use crate::config::{CliConfig, HelpType};
use crate::version::Version;

verus! {

/// Why a dispatch did not succeed.
#[derive(Debug, Clone, PartialEq, Eq)]
pub enum DispatchError {
    /// No registered command takes the request.
    Unhandled,
    /// The chosen command failed; its error is passed on unchanged.
    Failed(CommandError),
}

impl DispatchError {
    /// The text reported for this error.
    pub open spec fn message_view(self) -> Seq<char> {
        match self {
            DispatchError::Unhandled => "No command could handle this request"@,
            DispatchError::Failed(e) => e.message@,
        }
    }

    pub fn message(&self) -> (r: String)
        ensures
            r@ == self.message_view(),
    {
        match self {
            DispatchError::Unhandled => String::from_str("No command could handle this request"),
            DispatchError::Failed(e) => e.message.clone(),
        }
    }
}

/// A registered command: one of the two built-ins, or one of the application's.
#[derive(Debug, Clone)]
pub enum Handler<K> {
    Version(VersionCommand),
    Help(HelpCommand),
    App(K),
}

impl<K> Handler<K> {
    /// Whether this command takes a request made with `config`.
    pub open spec fn handles<C: CliConfig>(self, config: C) -> bool where K: Command<C> {
        match self {
            Handler::Version(v) => v.handles(config),
            Handler::Help(h) => h.handles(config),
            Handler::App(k) => k.handles(config),
        }
    }

    /// What a dispatch that runs this command with `config` returns: the text of a
    /// built-in, or for an application command a result its `execute` may give,
    /// with a failure wrapped in `Failed`.
    pub open spec fn answers<C: CliConfig>(
        self,
        config: C,
        r: Result<Outcome, DispatchError>,
    ) -> bool where K: Command<C> {
        match self {
            Handler::Version(v) => r matches Ok(Outcome::Print(s)) && s@ == v.version.text(),
            Handler::Help(h) => r matches Ok(Outcome::Print(s)) && s@ == h.text_for(
                config.base_view(),
            ),
            Handler::App(k) => exists|x: Result<Outcome, CommandError>|
                #[trigger] k.executes(config, x) && r == passed_on(x),
        }
    }

    fn can_handle<C: CliConfig>(&self, config: &C) -> (r: bool) where K: Command<C>
        ensures
            r == self.handles(*config),
    {
        match self {
            Handler::Version(v) => v.can_handle(config),
            Handler::Help(h) => h.can_handle(config),
            Handler::App(k) => k.can_handle(config),
        }
    }

    fn run<C: CliConfig>(&self, config: &C) -> (r: Result<Outcome, DispatchError>) where
        K: Command<C>,
        ensures
            self.answers(*config, r),
    {
        match self {
            Handler::Version(v) => Ok(Outcome::Print(v.text())),
            Handler::Help(h) => Ok(Outcome::Print(h.text(config))),
            Handler::App(k) => {
                let x = k.execute(config);
                let r = match x {
                    Ok(o) => Ok(o),
                    Err(e) => Err(DispatchError::Failed(e)),
                };
                assert(k.executes(*config, x) && r == passed_on(x));
                r
            },
        }
    }
}

/// The result of a dispatch whose command returned `x`: the same, with a failure
/// wrapped in `Failed`.
pub open spec fn passed_on(x: Result<Outcome, CommandError>) -> Result<Outcome, DispatchError> {
    match x {
        Ok(o) => Ok(o),
        Err(e) => Err(DispatchError::Failed(e)),
    }
}

/// A command in the dispatcher's list, with its priority and its registration number.
pub struct Slot<K> {
    pub priority: u8,
    pub handler: Handler<K>,
    /// How many commands were registered before this one.
    pub order: Ghost<nat>,
}

/// Whether `a` is tried before `b`: a lower priority first, and between equal
/// priorities the one registered first.
pub open spec fn precedes<K>(a: Slot<K>, b: Slot<K>) -> bool {
    a.priority < b.priority || (a.priority == b.priority && a.order@ < b.order@)
}

/// Holds the commands of a program and runs, for each request, the first of
/// them in order of priority that takes it.
pub struct Dispatcher<C, K> {
    commands: Vec<Slot<K>>,
    config: core::marker::PhantomData<C>,
}

impl<C: CliConfig, K: Command<C>> Dispatcher<C, K> {
    /// The registered commands, in the order in which they are tried.
    pub closed spec fn slots(&self) -> Seq<Slot<K>> {
        self.commands@
    }

    /// The list is sorted by `precedes`, each command carries the priority it
    /// declares, the built-ins were registered first, and the registration
    /// numbers are distinct and below the number of registrations.
    pub open spec fn wf(&self) -> bool {
        let s = self.slots();
        &&& s.len() >= 2
        &&& forall|i: int, j: int| 0 <= i < j < s.len() ==> precedes(s[i], s[j])
        &&& forall|i: int| 0 <= i < s.len() ==> (#[trigger] s[i]).order@ < s.len()
        &&& forall|i: int, j: int|
            0 <= i < s.len() && 0 <= j < s.len() && i != j ==> (#[trigger] s[i]).order@ != (
            #[trigger] s[j]).order@
        &&& forall|i: int| 0 <= i < s.len() ==> slot_consistent(#[trigger] s[i])
        &&& s[0].handler is Version
    }

    /// Whether the command at `i` is the one a request with `config` goes to:
    /// it takes the request, and no command before it does.
    pub open spec fn selects(&self, config: C, i: int) -> bool {
        let s = self.slots();
        &&& 0 <= i < s.len()
        &&& s[i].handler.handles(config)
        &&& forall|j: int| 0 <= j < i ==> !(#[trigger] s[j]).handler.handles(config)
    }

    /// Whether no registered command takes a request with `config`.
    pub open spec fn unhandled(&self, config: C) -> bool {
        forall|i: int|
            0 <= i < self.slots().len() ==> !(#[trigger] self.slots()[i]).handler.handles(config)
    }

    /// The command a request goes to is, among the commands that take it, the one
    /// with the lowest priority, and among equal priorities the one registered first.
    pub proof fn lemma_selects_lowest_priority(&self, config: C, i: int)
        requires
            self.wf(),
        ensures
            self.selects(config, i) <==> {
                let s = self.slots();
                &&& 0 <= i < s.len()
                &&& s[i].handler.handles(config)
                &&& forall|j: int|
                    0 <= j < s.len() && j != i && (#[trigger] s[j]).handler.handles(config)
                        ==> precedes(s[i], s[j])
            },
    {
        let s = self.slots();
        if self.selects(config, i) {
            assert forall|j: int|
                0 <= j < s.len() && j != i && (#[trigger] s[j]).handler.handles(config)
                    implies precedes(s[i], s[j]) by {
                if j < i {
                    assert(!s[j].handler.handles(config));
                }
            }
        }
        if 0 <= i < s.len() && s[i].handler.handles(config) && forall|j: int|
            0 <= j < s.len() && j != i && (#[trigger] s[j]).handler.handles(config)
                ==> precedes(s[i], s[j]) {
            assert forall|j: int| 0 <= j < i implies !(#[trigger] s[j]).handler.handles(config) by {
                if s[j].handler.handles(config) {
                    assert(precedes(s[i], s[j]));
                    assert(precedes(s[j], s[i]));
                }
            }
        }
    }

    /// A request that asks for the version goes to the version command, whatever
    /// else it asks for and whatever else is registered.
    pub proof fn lemma_version_wins(&self, config: C)
        requires
            self.wf(),
            config.base_view().version,
        ensures
            self.selects(config, 0),
            self.slots()[0].handler is Version,
    {
    }

    /// A command that takes every request, registered with the default priority,
    /// gets a request exactly when no command that comes before it takes it: none
    /// with a lower priority, and none with the same priority registered earlier.
    pub proof fn lemma_catch_all(&self, config: C, i: int, k: K)
        requires
            self.wf(),
            0 <= i < self.slots().len(),
            self.slots()[i].handler == Handler::<K>::App(k),
            forall|c: C| k.handles(c),
            k.rank() == DEFAULT_PRIORITY,
        ensures
            self.selects(config, i) <==> !exists|j: int|
                0 <= j < self.slots().len() && j != i && (#[trigger] self.slots()[j]).handler.handles(config) && (
                self.slots()[j].priority < DEFAULT_PRIORITY || (self.slots()[j].priority
                    == DEFAULT_PRIORITY && self.slots()[j].order@ < self.slots()[i].order@)),
    {
        let s = self.slots();
        assert(slot_consistent(s[i]));
        assert(s[i].handler.handles(config));
        self.lemma_selects_lowest_priority(config, i);
        assert forall|j: int| 0 <= j < s.len() && j != i implies (precedes(s[i], s[j]) <==> !precedes(
            s[j],
            s[i],
        )) by {
            if j < i {
                assert(precedes(s[j], s[i]));
            } else {
                assert(precedes(s[i], s[j]));
            }
        }
    }

    /// A request that asks for neither help nor the version, and that no command of
    /// the application takes, goes to no command.
    pub proof fn lemma_no_match(&self, config: C)
        requires
            self.wf(),
            !config.base_view().version,
            config.base_view().help == HelpType::NotRequested,
            forall|i: int|
                0 <= i < self.slots().len() ==> ((#[trigger] self.slots()[i]).handler matches Handler::App(
                    k,
                ) ==> !k.handles(config)),
        ensures
            self.unhandled(config),
    {
    }

    /// A dispatcher holding the two built-ins: the version command, with priority
    /// 0, and the help command, with priority 1.
    pub fn new(version: Version, short_help: String, long_help: String) -> (r: Self)
        ensures
            r.wf(),
            r.slots().len() == 2,
            r.slots()[0].handler == Handler::<K>::Version(VersionCommand { version }),
            r.slots()[1].handler == Handler::<K>::Help(HelpCommand { short_help, long_help }),
    {
        let mut commands: Vec<Slot<K>> = Vec::new();
        commands.push(
            Slot {
                priority: VERSION_PRIORITY,
                handler: Handler::Version(VersionCommand::new(version)),
                order: Ghost(0),
            },
        );
        commands.push(
            Slot {
                priority: HELP_PRIORITY,
                handler: Handler::Help(HelpCommand::new(short_help, long_help)),
                order: Ghost(1),
            },
        );
        Dispatcher { commands, config: core::marker::PhantomData }
    }

    /// Adds `command`, after every command that comes before it or ties with it on
    /// priority, so that among equal priorities registration order is kept.
    pub fn register(self, command: K) -> (r: Self)
        requires
            self.wf(),
        ensures
            r.wf(),
            r.slots().len() == self.slots().len() + 1,
            exists|k: int|
                0 <= k <= self.slots().len() && r.slots().remove(k) == self.slots() && {
                    let added = #[trigger] r.slots()[k];
                    &&& added.priority == command.rank()
                    &&& added.handler == Handler::App(command)
                    &&& added.order@ == self.slots().len()
                },
    {
        let mut d = self;
        let p = command.priority();
        let n = d.commands.len();
        let mut i: usize = 0;
        while i < n && d.commands[i].priority <= p
            invariant
                n == d.commands@.len(),
                0 <= i <= n,
                forall|j: int| 0 <= j < i ==> (#[trigger] d.commands@[j]).priority <= p,
            decreases n - i,
        {
            i = i + 1;
        }
        proof {
            assert(slot_consistent(d.commands@[0]));
            assert(i > 0);
        }
        let ghost old_slots = d.commands@;
        let slot = Slot { priority: p, handler: Handler::App(command), order: Ghost(n as nat) };
        d.commands.insert(i, slot);
        proof {
            let s = d.commands@;
            assert(s.remove(i as int) =~= old_slots);
            assert forall|a: int, b: int| 0 <= a < b < s.len() implies precedes(s[a], s[b]) by {
                if b < i {
                } else if a > i {
                    assert(s[a] == old_slots[a - 1]);
                    assert(s[b] == old_slots[b - 1]);
                } else if a == i {
                    assert(s[b] == old_slots[b - 1]);
                    assert(precedes(old_slots[i as int], old_slots[b - 1]) || b - 1 == i);
                    assert(old_slots[i as int].priority > p);
                } else if b == i {
                    assert(s[a] == old_slots[a]);
                    assert(old_slots[a].priority <= p);
                    assert(old_slots[a].order@ < n);
                } else {
                    assert(s[a] == old_slots[a]);
                    assert(s[b] == old_slots[b - 1]);
                }
            }
            assert forall|a: int| 0 <= a < s.len() implies (#[trigger] s[a]).order@ < s.len()
                && slot_consistent(s[a]) by {
                if a < i {
                    assert(s[a] == old_slots[a]);
                } else if a > i {
                    assert(s[a] == old_slots[a - 1]);
                }
            }
            assert(s[i as int] == slot);
            assert forall|a: int, b: int|
                0 <= a < s.len() && 0 <= b < s.len() && a != b implies (#[trigger] s[a]).order@ != (
                #[trigger] s[b]).order@ by {
                let oa = if a < i { a } else { a - 1 };
                let ob = if b < i { b } else { b - 1 };
                if a != i {
                    assert(s[a] == old_slots[oa]);
                }
                if b != i {
                    assert(s[b] == old_slots[ob]);
                }
            }
        }
        d
    }

    /// Runs the first command, in order of priority, that takes the request, and
    /// returns what it returned; `Unhandled` when none takes it.
    pub fn dispatch(&self, config: &C) -> (r: Result<Outcome, DispatchError>)
        requires
            self.wf(),
        ensures
            (r matches Err(DispatchError::Unhandled)) <==> self.unhandled(*config),
            forall|i: int| #[trigger]
                self.selects(*config, i) ==> self.slots()[i].handler.answers(*config, r),
    {
        let n = self.commands.len();
        let mut i: usize = 0;
        while i < n
            invariant
                n == self.slots().len(),
                0 <= i <= n,
                forall|j: int| 0 <= j < i ==> !(#[trigger] self.slots()[j]).handler.handles(*config),
            decreases n - i,
        {
            if self.commands[i].handler.can_handle(config) {
                let r = self.commands[i].handler.run(config);
                proof {
                    assert forall|k: int| #[trigger] self.selects(*config, k) implies k == i by {
                        if k < i {
                        } else if k > i {
                            assert(!self.slots()[i as int].handler.handles(*config));
                        }
                    }
                }
                return r;
            }
            i = i + 1;
        }
        Err(DispatchError::Unhandled)
    }
}

/// Each command carries the priority it declares; the version command was
/// registered first and the help command second.
pub open spec fn slot_consistent<C: CliConfig, K: Command<C>>(s: Slot<K>) -> bool {
    match s.handler {
        Handler::Version(_) => s.priority == VERSION_PRIORITY && s.order@ == 0,
        Handler::Help(_) => s.priority == HELP_PRIORITY && s.order@ == 1,
        Handler::App(k) => s.priority == k.rank() && s.order@ >= 2,
    }
}

} // verus!
