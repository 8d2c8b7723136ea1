//! The target's table of remotely callable functions.

use crate::error::{QspiError, QspiErrorView};
use vstd::prelude::*;

verus! {

/// What is needed to call a function on the target: the identifier that a
/// call instruction carries, and the number of arguments the function takes.
#[derive(Clone, Copy, Debug, PartialEq, Eq, Structural)]
pub struct FunctionDescriptor {
    pub id: u8,
    pub arity: usize,
}

struct Entry {
    name: String,
    descriptor: FunctionDescriptor,
}

/// A snapshot of the target's function table, by function name.
pub struct FunctionCatalog {
    entries: Vec<Entry>,
}

/// The table that a list of entries stands for; of two entries with one name
/// the later one counts.
spec fn table(entries: Seq<Entry>) -> Map<Seq<char>, FunctionDescriptor>
    decreases entries.len(),
{
    if entries.len() == 0 {
        Map::empty()
    } else {
        table(entries.drop_last()).insert(entries.last().name@, entries.last().descriptor)
    }
}

/// What a lookup under `name` gives when the caller will pass `nargs`
/// arguments: the descriptor, or the reason why the function cannot be called.
pub open spec fn checked(
    table: Map<Seq<char>, FunctionDescriptor>,
    name: Seq<char>,
    nargs: usize,
) -> Result<FunctionDescriptor, QspiErrorView> {
    if !table.contains_key(name) {
        Err(QspiErrorView::FunctionNotFound(name))
    } else if table[name].arity != nargs {
        Err(QspiErrorView::SignatureMismatch(name))
    } else {
        Ok(table[name])
    }
}

impl View for FunctionCatalog {
    type V = Map<Seq<char>, FunctionDescriptor>;

    closed spec fn view(&self) -> Map<Seq<char>, FunctionDescriptor> {
        table(self.entries@)
    }
}

impl FunctionCatalog {
    /// A catalog without functions.
    pub fn new() -> (catalog: FunctionCatalog)
        ensures
            catalog@ == Map::<Seq<char>, FunctionDescriptor>::empty(),
    {
        FunctionCatalog { entries: Vec::new() }
    }

    /// Records a function; an earlier record under the same name is replaced.
    pub fn insert(&mut self, name: &str, id: u8, arity: usize)
        ensures
            final(self)@ == old(self)@.insert(name@, FunctionDescriptor { id, arity }),
    {
        let entry = Entry { name: name.to_owned(), descriptor: FunctionDescriptor { id, arity } };
        self.entries.push(entry);
        proof {
            assert(self.entries@.drop_last() =~= old(self).entries@);
        }
    }

    /// The descriptor of the function called `name`, if the table has one.
    pub fn resolve(&self, name: &str) -> (found: Option<FunctionDescriptor>)
        ensures
            found is Some == self@.contains_key(name@),
            found matches Some(descriptor) ==> descriptor == self@[name@],
    {
        let key = name.to_owned();
        let mut i = self.entries.len();
        proof {
            assert(self.entries@.take(i as int) =~= self.entries@);
        }
        while i > 0
            invariant
                i <= self.entries.len(),
                key@ == name@,
                self@.contains_key(name@) == table(self.entries@.take(i as int)).contains_key(name@),
                self@.contains_key(name@) ==> self@[name@] == table(self.entries@.take(i as int))[name@],
            decreases i,
        {
            i = i - 1;
            proof {
                assert(self.entries@.take(i as int + 1).drop_last() =~= self.entries@.take(i as int));
            }
            if self.entries[i].name == key {
                return Some(self.entries[i].descriptor);
            }
        }
        None
    }

    /// The descriptor of the function called `name`, provided that it takes
    /// `nargs` arguments.
    pub fn lookup(&self, name: &str, nargs: usize) -> (result: Result<FunctionDescriptor, QspiError>)
        ensures
            result matches Ok(descriptor) ==> checked(self@, name@, nargs) == Ok::<
                FunctionDescriptor,
                QspiErrorView,
            >(descriptor),
            result matches Err(error) ==> checked(self@, name@, nargs) == Err::<
                FunctionDescriptor,
                QspiErrorView,
            >(error@),
    {
        match self.resolve(name) {
            None => Err(QspiError::FunctionNotFound(name.to_owned())),
            Some(descriptor) => if descriptor.arity != nargs {
                Err(QspiError::SignatureMismatch(name.to_owned()))
            } else {
                Ok(descriptor)
            },
        }
    }
}

} // verus!
