//! The root owning container of one parsed image.

use vstd::prelude::*;

use crate::commands::{classified_from, Command, CommandRecord, Commands};

verus! {

/// The root owning container: it holds the abstract command records of one
/// parsed image, in the order the native engine attached them to the
/// load-command table. Every wrapped command borrows its validity from the
/// `Binary` it was enumerated from.
pub struct Binary {
    records: Vec<CommandRecord>,
}

impl View for Binary {
    type V = Seq<CommandRecord>;

    closed spec fn view(&self) -> Seq<CommandRecord> {
        self.records@
    }
}

impl Binary {
    /// Take ownership of the abstract command records of one parsed image.
    pub fn from_records(records: Vec<CommandRecord>) -> (bin: Binary)
        ensures
            bin@ == records@,
    {
        Binary { records }
    }

    /// How many records stand in the load-command table.
    pub fn command_count(&self) -> (count: usize)
        ensures
            count == self@.len(),
    {
        self.records.len()
    }

    /// Materialise the command at one position of the load-command table,
    /// classified on demand. The result borrows its validity from this
    /// `Binary` and cannot outlive it.
    pub fn command_at<'a>(&'a self, idx: usize) -> (cmd: Commands<'a>)
        requires
            idx < self@.len(),
        ensures
            classified_from(cmd, self@[idx as int]),
    {
        Commands::classify(self.records[idx])
    }

    /// Enumerate the whole load-command table: each record, in table order,
    /// passed through variant dispatch. The wrapped commands borrow their
    /// validity from this `Binary` and cannot outlive it.
    pub fn commands<'a>(&'a self) -> (cmds: Vec<Commands<'a>>)
        ensures
            is_enumeration_of(cmds@, self@),
    {
        let mut cmds: Vec<Commands<'a>> = Vec::new();
        let mut idx: usize = 0;
        while idx < self.records.len()
            invariant
                idx <= self@.len(),
                cmds@.len() == idx,
                forall|i: int| 0 <= i < idx ==> classified_from(#[trigger] cmds@[i], self@[i]),
            decreases self@.len() - idx,
        {
            cmds.push(Commands::classify(self.records[idx]));
            idx = idx + 1;
        }
        cmds
    }
}

/// A full enumeration of a load-command table: one element per record, in
/// table order, each the result of variant dispatch on its record.
pub open spec fn is_enumeration_of<'a>(
    cmds: Seq<Commands<'a>>,
    records: Seq<CommandRecord>,
) -> bool {
    &&& cmds.len() == records.len()
    &&& forall|i: int| 0 <= i < records.len() ==> classified_from(#[trigger] cmds[i], records[i])
}

/// The ordered discriminator sequence an enumeration reports through the
/// shared capability.
pub open spec fn discriminators_of<'a>(cmds: Seq<Commands<'a>>) -> Seq<u32> {
    cmds.map(|i: int, cmd: Commands<'a>| cmd.base_spec().cmd)
}

/// Enumeration is idempotent: without intervening mutation of the records,
/// any two full enumerations of the same load-command table report the same
/// ordered sequence of discriminators.
pub proof fn lemma_enumeration_idempotent<'a>(
    records: Seq<CommandRecord>,
    first: Seq<Commands<'a>>,
    second: Seq<Commands<'a>>,
)
    requires
        is_enumeration_of(first, records),
        is_enumeration_of(second, records),
    ensures
        discriminators_of(first) == discriminators_of(second),
{
    assert forall|i: int| 0 <= i < records.len() implies #[trigger] first[i].base_spec()
        == second[i].base_spec() by {
        assert(classified_from(first[i], records[i]));
        assert(classified_from(second[i], records[i]));
    }
    assert(discriminators_of(first) =~= discriminators_of(second));
}

} // verus!
