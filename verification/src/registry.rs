//! The command table: which names the web view may invoke, and which
//! command each of them stands for.
//!
//! The table is filled once, while the process starts, and only read after
//! that. A name is bound once at most: binding it a second time is a fault
//! in the program's configuration, and is refused.

use vstd::prelude::*;
use vstd::string::StringSliceAdditionalSpecFns;
use vstd::utf8::*;

use crate::error::BridgeError;
use crate::navigation::{
    emit_navigation, is_navigation_to, NavigationEvent, WindowHandle, CREATE_TOKEN_ROUTE,
};

verus! {

/// The commands that the shell offers to the web view.
#[derive(Debug, Clone, Copy, PartialEq, Eq, Structural)]
pub enum Command {
    /// Fetches the text that the native routine provides.
    HelloWorld,
    /// Asks the script layer to show the page on which a token is created.
    NavigateToCreateToken,
}

/// What a command asks of the host runtime, once it has been invoked: the
/// one piece of outside work that stands between the invocation and its
/// result.
#[derive(Debug, PartialEq, Eq)]
pub enum Step {
    /// Call the native routine once; its handle concludes the invocation.
    CallNative,
    /// Post this event to the invoking window once; whether the window
    /// took it concludes the invocation.
    Emit(NavigationEvent),
}

/// A name was registered although a command was bound to it already.
#[derive(Debug, Clone, Copy, PartialEq, Eq, Structural)]
pub struct DuplicateCommand;

/// What registering `command` under `name` makes of `table`: the table with
/// the new binding, or nothing where the name is taken.
pub open spec fn registered(table: Map<Seq<char>, Command>, name: Seq<char>, command: Command) -> Option<
    Map<Seq<char>, Command>,
> {
    if table.dom().contains(name) {
        None
    } else {
        Some(table.insert(name, command))
    }
}

/// Where an invocation of `name` goes in `table`: to the command bound to
/// the name, or nowhere.
pub open spec fn routed(table: Map<Seq<char>, Command>, name: Seq<char>) -> Result<Command, BridgeError> {
    if table.dom().contains(name) {
        Ok(table[name])
    } else {
        Err(BridgeError::UnknownCommand)
    }
}

/// What invoking `command` from `window` leads to: the step that the
/// command's handler asks for, or the failure with which it ends at once.
pub open spec fn is_step_of(command: Command, window: WindowHandle, result: Result<Step, BridgeError>) -> bool {
    match command {
        Command::HelloWorld => result == Ok::<Step, BridgeError>(Step::CallNative),
        Command::NavigateToCreateToken => if window.live {
            &&& result matches Ok(Step::Emit(event))
            &&& is_navigation_to(event, CREATE_TOKEN_ROUTE@)
        } else {
            result == Err::<Step, BridgeError>(BridgeError::EmitFailed)
        },
    }
}

/// What dispatching `name` from `window` on `table` leads to. An unknown
/// name leads to `UnknownCommand` and to no step; a known one to what its
/// command leads to.
pub open spec fn is_dispatch_of(
    table: Map<Seq<char>, Command>,
    name: Seq<char>,
    window: WindowHandle,
    result: Result<Step, BridgeError>,
) -> bool {
    match routed(table, name) {
        Ok(command) => is_step_of(command, window, result),
        Err(error) => result == Err::<Step, BridgeError>(error),
    }
}

/// One binding of the table.
#[derive(Debug)]
struct Entry {
    name: String,
    command: Command,
}

/// The bindings of `entries` as a map; a later binding of a name would
/// replace an earlier one.
spec fn bindings(entries: Seq<Entry>) -> Map<Seq<char>, Command>
    decreases entries.len(),
{
    if entries.len() == 0 {
        Map::empty()
    } else {
        bindings(entries.drop_last()).insert(entries.last().name@, entries.last().command)
    }
}

/// No two of `entries` bear the same name.
spec fn distinct_names(entries: Seq<Entry>) -> bool {
    forall|i: int, j: int|
        0 <= i < j < entries.len() ==> (#[trigger] entries[i]).name@ != (#[trigger] entries[j]).name@
}

/// The names bound by `entries` are exactly the names of its members.
proof fn lemma_bindings_domain(entries: Seq<Entry>, name: Seq<char>)
    ensures
        bindings(entries).dom().contains(name) <==> exists|i: int|
            0 <= i < entries.len() && (#[trigger] entries[i]).name@ == name,
    decreases entries.len(),
{
    if entries.len() > 0 {
        let front = entries.drop_last();
        lemma_bindings_domain(front, name);
        if bindings(entries).dom().contains(name) {
            if entries.last().name@ == name {
                assert(entries[entries.len() - 1].name@ == name);
            } else {
                let i = choose|i: int| 0 <= i < front.len() && (#[trigger] front[i]).name@ == name;
                assert(entries[i].name@ == name);
            }
        }
        if exists|i: int| 0 <= i < entries.len() && (#[trigger] entries[i]).name@ == name {
            let i = choose|i: int| 0 <= i < entries.len() && (#[trigger] entries[i]).name@ == name;
            if i < front.len() {
                assert(front[i].name@ == name);
            }
        }
    }
}

/// Where names are distinct, each member's name is bound to that member's
/// command.
proof fn lemma_bindings_member(entries: Seq<Entry>, at: int)
    requires
        distinct_names(entries),
        0 <= at < entries.len(),
    ensures
        bindings(entries).dom().contains(entries[at].name@),
        bindings(entries)[entries[at].name@] == entries[at].command,
    decreases entries.len(),
{
    let front = entries.drop_last();
    if at < front.len() {
        assert(front[at] == entries[at]);
        assert(distinct_names(front)) by {
            assert forall|i: int, j: int| 0 <= i < j < front.len() implies (#[trigger] front[i]).name@
                != (#[trigger] front[j]).name@ by {
                assert(front[i] == entries[i]);
                assert(front[j] == entries[j]);
            }
        }
        lemma_bindings_member(front, at);
        assert(entries[at].name@ != entries[entries.len() - 1].name@);
    }
}

/// Whether two string slices hold the same text.
pub fn same_text(left: &str, right: &str) -> (same: bool)
    ensures
        same == (left@ == right@),
{
    let a = left.as_bytes();
    let b = right.as_bytes();
    proof {
        encode_utf8_decode_utf8(left@);
        encode_utf8_decode_utf8(right@);
    }
    if a.len() != b.len() {
        return false;
    }
    let mut i: usize = 0;
    while i < a.len()
        invariant
            a@ == left.spec_bytes(),
            b@ == right.spec_bytes(),
            a@.len() == b@.len(),
            0 <= i <= a@.len(),
            forall|j: int| 0 <= j < i ==> a@[j] == b@[j],
        decreases a@.len() - i,
    {
        if a[i] != b[i] {
            return false;
        }
        i = i + 1;
    }
    assert(a@ =~= b@);
    true
}

/// The table of commands, by name.
#[derive(Debug)]
pub struct Registry {
    entries: Vec<Entry>,
}

impl Registry {
    #[verifier::type_invariant]
    spec fn names_are_distinct(self) -> bool {
        distinct_names(self.entries@)
    }

    /// The table as a map from each registered name to its command.
    pub closed spec fn view(&self) -> Map<Seq<char>, Command> {
        bindings(self.entries@)
    }

    /// A table that binds no name.
    pub fn new() -> (registry: Registry)
        ensures
            registry@ == Map::<Seq<char>, Command>::empty(),
    {
        Registry { entries: Vec::new() }
    }

    /// Whether a command is bound to `name`.
    pub fn contains(&self, name: &str) -> (found: bool)
        ensures
            found == self@.dom().contains(name@),
    {
        self.find(name).is_some()
    }

    /// Binds `name` to `command` and hands the table on, unless the name is
    /// taken: then the registration fails, and with it the table is gone, so
    /// that nothing can be dispatched on a table that was set up wrongly.
    pub fn register(self, name: &str, command: Command) -> (result: Result<Registry, DuplicateCommand>)
        ensures
            registered(self@, name@, command) == match result {
                Ok(registry) => Some(registry@),
                Err(_) => None,
            },
    {
        proof {
            use_type_invariant(&self);
        }
        if self.find(name).is_some() {
            return Err(DuplicateCommand);
        }
        let ghost before = self.entries@;
        let entry = Entry { name: name.to_owned(), command };
        let mut entries = self.entries;
        entries.push(entry);
        proof {
            lemma_bindings_domain(before, name@);
            let after = entries@;
            assert(after.drop_last() =~= before);
            assert(distinct_names(after)) by {
                assert forall|i: int, j: int| 0 <= i < j < after.len() implies (#[trigger] after[i]).name@
                    != (#[trigger] after[j]).name@ by {
                    assert(after[i] == before[i]);
                    if j < before.len() {
                        assert(after[j] == before[j]);
                    }
                }
            }
        }
        Ok(Registry { entries })
    }

    /// Routes an invocation: the command bound to `name`, or `UnknownCommand`
    /// where none is.
    pub fn lookup(&self, name: &str) -> (result: Result<Command, BridgeError>)
        ensures
            result == routed(self@, name@),
    {
        match self.find(name) {
            Some(command) => Ok(command),
            None => Err(BridgeError::UnknownCommand),
        }
    }

    /// Dispatches an invocation of `name` that came from `window`.
    ///
    /// An unknown name fails with `UnknownCommand`, and no handler runs: no
    /// step is asked of the host. A known name runs its handler as far as
    /// the handler's outside work: the result is that step, or the failure
    /// of a handler that ends before it (a navigation to a window that is
    /// gone).
    pub fn dispatch(&self, name: &str, window: &WindowHandle) -> (result: Result<Step, BridgeError>)
        ensures
            is_dispatch_of(self@, name@, *window, result),
    {
        match self.lookup(name) {
            Err(error) => Err(error),
            Ok(Command::HelloWorld) => Ok(Step::CallNative),
            Ok(Command::NavigateToCreateToken) => match emit_navigation(window, CREATE_TOKEN_ROUTE) {
                Ok(event) => Ok(Step::Emit(event)),
                Err(error) => Err(error),
            },
        }
    }

    /// The command of the entry that bears `name`, if there is one.
    fn find(&self, name: &str) -> (found: Option<Command>)
        ensures
            found == match routed(self@, name@) {
                Ok(command) => Some(command),
                Err(_) => None,
            },
    {
        proof {
            lemma_bindings_domain(self.entries@, name@);
        }
        let mut i: usize = 0;
        while i < self.entries.len()
            invariant
                0 <= i <= self.entries@.len(),
                forall|j: int| 0 <= j < i ==> (#[trigger] self.entries@[j]).name@ != name@,
            decreases self.entries@.len() - i,
        {
            if same_text(self.entries[i].name.as_str(), name) {
                proof {
                    use_type_invariant(self);
                    lemma_bindings_member(self.entries@, i as int);
                }
                return Some(self.entries[i].command);
            }
            i = i + 1;
        }
        None
    }
}

/// An invocation of a name that is not registered fails with
/// `UnknownCommand`, whatever the table and the window are, and runs no
/// handler: the result holds no step for the host to take.
pub proof fn lemma_unregistered_name_is_unknown(
    table: Map<Seq<char>, Command>,
    name: Seq<char>,
    window: WindowHandle,
    result: Result<Step, BridgeError>,
)
    requires
        !table.dom().contains(name),
        is_dispatch_of(table, name, window, result),
    ensures
        routed(table, name) == Err::<Command, BridgeError>(BridgeError::UnknownCommand),
        result == Err::<Step, BridgeError>(BridgeError::UnknownCommand),
{
}

/// Once a name is registered, registering it again fails, whatever the
/// second command is.
pub proof fn lemma_second_registration_fails(
    table: Map<Seq<char>, Command>,
    name: Seq<char>,
    first: Command,
    second: Command,
)
    requires
        registered(table, name, first) is Some,
    ensures
        registered(registered(table, name, first).unwrap(), name, second) is None,
{
}

/// A successful registration routes the new name to its command and leaves
/// every other name where it was.
pub proof fn lemma_registration_routes(
    table: Map<Seq<char>, Command>,
    name: Seq<char>,
    command: Command,
    other: Seq<char>,
)
    requires
        registered(table, name, command) is Some,
    ensures
        routed(registered(table, name, command).unwrap(), name) == Ok::<Command, BridgeError>(command),
        other != name ==> routed(registered(table, name, command).unwrap(), other) == routed(
            table,
            other,
        ),
{
}

} // verus!
