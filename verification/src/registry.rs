//! Commands and the registry that finds them by name.
//!
//! A registry is filled while the service starts and only read afterwards. Its
//! model is a map from a name to the command registered under it, so that no
//! two registered commands ever share a name.

use crate::text::same_text;
use vstd::prelude::*;

verus! {

/// A named unit of work. `cooldown` is the least number of seconds between two
/// uses of the command by one user (zero: no cooldown); `executor` is whatever
/// the embedding application needs to run the command.
#[derive(Clone, Debug, PartialEq, Eq)]
pub struct Command<E> {
    pub name: String,
    pub cooldown: u64,
    pub executor: E,
}

impl<E> Command<E> {
    /// A command with the given name, cooldown in seconds and executor.
    pub fn new(name: &str, cooldown: u64, executor: E) -> (command: Self)
        ensures
            command.name@ == name@,
            command.cooldown == cooldown,
            command.executor == executor,
    {
        Command { name: name.to_owned(), cooldown, executor }
    }
}

/// Whether some command of `commands` has the given name.
pub open spec fn is_named<E>(commands: Seq<Command<E>>, name: Seq<char>) -> bool {
    exists|i: int| 0 <= i < commands.len() && (#[trigger] commands[i]).name@ == name
}

/// The position of a command of `commands` with the given name.
pub open spec fn position_of<E>(commands: Seq<Command<E>>, name: Seq<char>) -> int {
    choose|i: int| 0 <= i < commands.len() && (#[trigger] commands[i]).name@ == name
}

/// Whether no two commands of `commands` share a name.
pub open spec fn distinct_names<E>(commands: Seq<Command<E>>) -> bool {
    forall|i: int, j: int|
        0 <= i < j < commands.len() ==> (#[trigger] commands[i]).name@ != (
        #[trigger] commands[j]).name@
}

/// The commands of `commands`, each under its name.
pub open spec fn by_name<E>(commands: Seq<Command<E>>) -> Map<Seq<char>, Command<E>> {
    Map::new(
        |name: Seq<char>| is_named(commands, name),
        |name: Seq<char>| commands[position_of(commands, name)],
    )
}

/// Among distinct names, the command under a name is the one command that has it.
proof fn lemma_found_at<E>(commands: Seq<Command<E>>, index: int)
    requires
        distinct_names(commands),
        0 <= index < commands.len(),
    ensures
        by_name(commands).dom().contains(commands[index].name@),
        by_name(commands)[commands[index].name@] == commands[index],
{
    let name = commands[index].name@;
    assert(is_named(commands, name));
    let chosen = position_of(commands, name);
    assert(chosen == index) by {
        if chosen < index {
            assert(commands[chosen].name@ != commands[index].name@);
        } else if index < chosen {
            assert(commands[index].name@ != commands[chosen].name@);
        }
    }
}

/// Commands that can be registered on top of distinct names keep all names
/// distinct, and take their places in the map beside those already there.
proof fn lemma_registered_together<E>(present: Seq<Command<E>>, added: Seq<Command<E>>)
    requires
        distinct_names(present),
        registrable(by_name(present), added),
    ensures
        distinct_names(present + added),
        by_name(present + added) == by_name(present).union_prefer_right(by_name(added)),
{
    let all = present + added;
    assert forall|i: int, j: int| 0 <= i < j < all.len() implies (#[trigger] all[i]).name@ != (
    #[trigger] all[j]).name@ by {
        if j >= present.len() {
            let at = j - present.len();
            assert(!clashes(by_name(present), added, at));
            if i < present.len() {
                assert(all[i] == present[i]);
                if present[i].name@ == added[at].name@ {
                    assert(is_named(present, added[at].name@));
                }
            } else {
                let before = i - present.len();
                assert(added.subrange(0, at)[before] == added[before]);
            }
        }
    }
    assert forall|name: Seq<char>| is_named(added, name) implies is_named(all, name)
        && by_name(all)[name] == by_name(added)[name] by {
        let at = position_of(added, name);
        assert(all[present.len() + at] == added[at]);
        lemma_found_at(all, present.len() + at);
    }
    assert forall|name: Seq<char>| is_named(present, name) implies is_named(all, name)
        && by_name(all)[name] == by_name(present)[name] by {
        let at = position_of(present, name);
        assert(all[at] == present[at]);
        lemma_found_at(all, at);
    }
    assert forall|name: Seq<char>| is_named(all, name) implies is_named(present, name) || is_named(
        added,
        name,
    ) by {
        let at = position_of(all, name);
        if at < present.len() {
            assert(present[at] == all[at]);
        } else {
            assert(added[at - present.len()] == all[at]);
        }
    }
    assert(by_name(all) =~= by_name(present).union_prefer_right(by_name(added)));
}

/// Whether the command at `index` of `commands` cannot be registered along with
/// the others: its name is taken in `registered` or by an earlier command of
/// `commands`.
pub open spec fn clashes<E>(
    registered: Map<Seq<char>, Command<E>>,
    commands: Seq<Command<E>>,
    index: int,
) -> bool {
    ||| registered.dom().contains(commands[index].name@)
    ||| is_named(commands.subrange(0, index), commands[index].name@)
}

/// Whether `index` is the first position of `commands` that clashes.
pub open spec fn first_clash<E>(
    registered: Map<Seq<char>, Command<E>>,
    commands: Seq<Command<E>>,
    index: int,
) -> bool {
    &&& 0 <= index < commands.len()
    &&& clashes(registered, commands, index)
    &&& forall|earlier: int| 0 <= earlier < index ==> !clashes(registered, commands, earlier)
}

/// Whether all of `commands` can be registered on top of `registered`.
pub open spec fn registrable<E>(
    registered: Map<Seq<char>, Command<E>>,
    commands: Seq<Command<E>>,
) -> bool {
    forall|index: int| 0 <= index < commands.len() ==> !clashes(registered, commands, index)
}

/// Commands that can be registered have names of their own.
proof fn lemma_registrable_names_are_distinct<E>(
    registered: Map<Seq<char>, Command<E>>,
    commands: Seq<Command<E>>,
)
    requires
        registrable(registered, commands),
    ensures
        distinct_names(commands),
{
    assert forall|i: int, j: int| 0 <= i < j < commands.len() implies (
    #[trigger] commands[i]).name@ != (#[trigger] commands[j]).name@ by {
        assert(!clashes(registered, commands, j));
        assert(commands.subrange(0, j)[i] == commands[i]);
    }
}

/// After a registration every registered command is found under its own name.
pub proof fn law_registered_commands_are_found<E>(
    registered: Map<Seq<char>, Command<E>>,
    commands: Seq<Command<E>>,
    index: int,
)
    requires
        registrable(registered, commands),
        0 <= index < commands.len(),
    ensures
        registered.union_prefer_right(by_name(commands)).dom().contains(commands[index].name@),
        registered.union_prefer_right(by_name(commands))[commands[index].name@]
            == commands[index],
{
    lemma_registrable_names_are_distinct(registered, commands);
    lemma_found_at(commands, index);
}

/// A registration leaves every command that was registered before as it was,
/// and adds no name but those of the new commands.
pub proof fn law_registration_keeps_the_rest<E>(
    registered: Map<Seq<char>, Command<E>>,
    commands: Seq<Command<E>>,
    name: Seq<char>,
)
    requires
        registrable(registered, commands),
    ensures
        registered.dom().contains(name) ==> registered.union_prefer_right(
            by_name(commands),
        ).dom().contains(name) && registered.union_prefer_right(by_name(commands))[name]
            == registered[name],
        registered.union_prefer_right(by_name(commands)).dom().contains(name)
            <==> registered.dom().contains(name) || is_named(commands, name),
{
    if registered.dom().contains(name) && is_named(commands, name) {
        let at = position_of(commands, name);
        assert(clashes(registered, commands, at));
    }
}

/// The configuration error of a registration: two commands share `name`.
#[derive(Clone, Debug, PartialEq, Eq)]
pub struct DuplicateCommand {
    pub name: String,
}

/// The registry: every registered command, found by its name.
pub struct CommandRegistry<E> {
    commands: Vec<Command<E>>,
}

impl<E> View for CommandRegistry<E> {
    type V = Map<Seq<char>, Command<E>>;

    closed spec fn view(&self) -> Map<Seq<char>, Command<E>> {
        by_name(self.commands@)
    }
}

impl<E> CommandRegistry<E> {
    #[verifier::type_invariant]
    spec fn names_are_unique(&self) -> bool {
        distinct_names(self.commands@)
    }

    /// A registry without commands.
    pub fn new() -> (registry: Self)
        ensures
            registry@ == Map::<Seq<char>, Command<E>>::empty(),
    {
        let registry = CommandRegistry { commands: Vec::new() };
        assert(registry@ =~= Map::<Seq<char>, Command<E>>::empty());
        registry
    }

    /// Whether one of the first `end` commands of `commands` has the given name.
    fn named_before(commands: &Vec<Command<E>>, end: usize, name: &str) -> (named: bool)
        requires
            end <= commands.len(),
        ensures
            named == is_named(commands@.subrange(0, end as int), name@),
    {
        let ghost firsts = commands@.subrange(0, end as int);
        let mut i: usize = 0;
        while i < end
            invariant
                i <= end <= commands.len(),
                firsts == commands@.subrange(0, end as int),
                forall|k: int| 0 <= k < i ==> (#[trigger] firsts[k]).name@ != name@,
            decreases end - i,
        {
            if same_text(commands[i].name.as_str(), name) {
                assert(firsts[i as int].name@ == name@);
                return true;
            }
            i += 1;
        }
        false
    }

    /// Registers every command of `commands` under its name, or none of them:
    /// where a name is already taken, in the registry or by an earlier command of
    /// `commands`, nothing is registered and the first such name is reported.
    pub fn register(&mut self, commands: Vec<Command<E>>) -> (outcome: Result<
        (),
        DuplicateCommand,
    >)
        ensures
            outcome is Ok <==> registrable(old(self)@, commands@),
            outcome is Ok ==> final(self)@ == old(self)@.union_prefer_right(by_name(commands@)),
            outcome matches Err(duplicate) ==> final(self)@ == old(self)@ && exists|index: int|
                first_clash(old(self)@, commands@, index) && duplicate.name@
                    == commands@[index].name@,
    {
        proof {
            use_type_invariant(&*self);
        }
        let mut i: usize = 0;
        while i < commands.len()
            invariant
                i <= commands.len(),
                *self == *old(self),
                forall|k: int| 0 <= k < i ==> !clashes(self@, commands@, k),
            decreases commands.len() - i,
        {
            let name = commands[i].name.as_str();
            if self.lookup(name).is_some() || Self::named_before(&commands, i, name) {
                assert(first_clash(self@, commands@, i as int));
                return Err(DuplicateCommand { name: commands[i].name.clone() });
            }
            i += 1;
        }
        proof {
            assert(registrable(self@, commands@));
            lemma_registered_together(self.commands@, commands@);
        }
        let mut added = commands;
        let mut all: Vec<Command<E>> = Vec::new();
        core::mem::swap(&mut self.commands, &mut all);
        all.append(&mut added);
        self.commands = all;
        Ok(())
    }

    /// The command registered under `name`, if there is one.
    pub fn lookup(&self, name: &str) -> (found: Option<&Command<E>>)
        ensures
            found == if self@.dom().contains(name@) {
                Some(&self@[name@])
            } else {
                None
            },
            found matches Some(command) ==> command.name@ == name@,
    {
        proof {
            use_type_invariant(self);
        }
        let mut i: usize = 0;
        while i < self.commands.len()
            invariant
                i <= self.commands.len(),
                distinct_names(self.commands@),
                forall|k: int| 0 <= k < i ==> (#[trigger] self.commands@[k]).name@ != name@,
            decreases self.commands.len() - i,
        {
            if same_text(self.commands[i].name.as_str(), name) {
                proof {
                    lemma_found_at(self.commands@, i as int);
                }
                return Some(&self.commands[i]);
            }
            i += 1;
        }
        None
    }
}

} // verus!
