//! The load-command model: abstract records, the closed classification
//! table, the per-variant wrappers, and variant dispatch.

use vstd::prelude::*;

use core::marker::PhantomData;

use crate::binary::Binary;

verus! {

/// Raw discriminator of a segment command in a 32-bit image.
pub const CMD_SEGMENT: u32 = 0x1;
/// Raw discriminator of the symbol-table command.
pub const CMD_SYMTAB: u32 = 0x2;
/// Raw discriminator of the dynamic-symbol-table command.
pub const CMD_DYSYMTAB: u32 = 0xB;
/// Raw discriminator of a segment command in a 64-bit image.
pub const CMD_SEGMENT_64: u32 = 0x19;
/// Raw discriminator of the UUID command.
pub const CMD_UUID: u32 = 0x1B;
/// Raw discriminator of the entry-point command.
pub const CMD_MAIN: u32 = 0x80000028;

/// The shared field surface of every load command, exactly as the native
/// engine computed it: the raw 32-bit type discriminator, the record's byte
/// size, and the record's offset within the image.
#[derive(Clone, Copy, Debug, PartialEq, Eq, Structural)]
pub struct CommandRecord {
    /// The raw type discriminator.
    pub cmd: u32,
    /// The byte size of the record.
    pub size: u32,
    /// The offset of the record within the image.
    pub offset: u64,
}

impl CommandRecord {
    /// Assemble a record from the fields the native engine reports.
    pub fn new(cmd: u32, size: u32, offset: u64) -> (record: CommandRecord)
        ensures
            record == (CommandRecord { cmd, size, offset }),
    {
        CommandRecord { cmd, size, offset }
    }

    /// The raw type discriminator of this record.
    pub fn discriminator(&self) -> (cmd: u32)
        ensures
            cmd == self.cmd,
    {
        self.cmd
    }
}

/// Which variant of the closed set a command belongs to. `Unknown` is the
/// catch-all for every discriminator outside the set.
#[derive(Clone, Copy, Debug, PartialEq, Eq, Structural)]
pub enum CommandKind {
    Segment,
    SymbolTable,
    DynamicSymbolTable,
    Uuid,
    Main,
    Unknown,
}

/// The classification table: the variant registered for a given raw
/// discriminator. Matching is exact equality; every discriminator outside
/// the closed set maps to `CommandKind::Unknown`, so the table is total.
pub open spec fn kind_of(cmd: u32) -> CommandKind {
    if cmd == CMD_SEGMENT || cmd == CMD_SEGMENT_64 {
        CommandKind::Segment
    } else if cmd == CMD_SYMTAB {
        CommandKind::SymbolTable
    } else if cmd == CMD_DYSYMTAB {
        CommandKind::DynamicSymbolTable
    } else if cmd == CMD_UUID {
        CommandKind::Uuid
    } else if cmd == CMD_MAIN {
        CommandKind::Main
    } else {
        CommandKind::Unknown
    }
}

/// A discriminator is known when the table registers a concrete variant
/// for it.
pub open spec fn is_known(cmd: u32) -> bool {
    kind_of(cmd) != CommandKind::Unknown
}

/// The capability every variant shares: a borrowed view of the abstract
/// command record the wrapper was built from. It never fails and never
/// allocates.
pub trait Command {
    /// The abstract record this wrapper presents.
    spec fn base_spec(&self) -> CommandRecord;

    /// Borrow the shared discriminator/size/offset fields.
    fn get_base(&self) -> (base: &CommandRecord)
        ensures
            *base == self.base_spec(),
    ;
}

/// The conversion protocol: wrap an abstract record as one concrete
/// variant. Variant dispatch, never the conversion itself, guarantees that
/// the record genuinely belongs to the variant; given that, the conversion
/// is total and preserves the record unchanged.
pub trait FromRecord: Command + Sized {
    /// The discriminators this variant is registered for.
    spec fn accepts(cmd: u32) -> bool;

    /// Wrap `base` as this variant.
    fn from_record(base: CommandRecord) -> (wrapped: Self)
        requires
            Self::accepts(base.cmd),
        ensures
            wrapped.base_spec() == base,
    ;
}

/// A segment command, anchored to the `Binary` that owns the native record.
pub struct Segment<'a> {
    base: CommandRecord,
    _owner: PhantomData<&'a Binary>,
}

impl<'a> Command for Segment<'a> {
    closed spec fn base_spec(&self) -> CommandRecord {
        self.base
    }

    fn get_base(&self) -> (base: &CommandRecord) {
        &self.base
    }
}

impl<'a> FromRecord for Segment<'a> {
    open spec fn accepts(cmd: u32) -> bool {
        kind_of(cmd) == CommandKind::Segment
    }

    fn from_record(base: CommandRecord) -> (wrapped: Self) {
        Segment { base, _owner: PhantomData }
    }
}

/// The symbol-table command, anchored to the `Binary` that owns the native
/// record.
pub struct SymbolTable<'a> {
    base: CommandRecord,
    _owner: PhantomData<&'a Binary>,
}

impl<'a> Command for SymbolTable<'a> {
    closed spec fn base_spec(&self) -> CommandRecord {
        self.base
    }

    fn get_base(&self) -> (base: &CommandRecord) {
        &self.base
    }
}

impl<'a> FromRecord for SymbolTable<'a> {
    open spec fn accepts(cmd: u32) -> bool {
        kind_of(cmd) == CommandKind::SymbolTable
    }

    fn from_record(base: CommandRecord) -> (wrapped: Self) {
        SymbolTable { base, _owner: PhantomData }
    }
}

/// The dynamic-symbol-table command, anchored to the `Binary` that owns the
/// native record.
pub struct DynamicSymbolTable<'a> {
    base: CommandRecord,
    _owner: PhantomData<&'a Binary>,
}

impl<'a> Command for DynamicSymbolTable<'a> {
    closed spec fn base_spec(&self) -> CommandRecord {
        self.base
    }

    fn get_base(&self) -> (base: &CommandRecord) {
        &self.base
    }
}

impl<'a> FromRecord for DynamicSymbolTable<'a> {
    open spec fn accepts(cmd: u32) -> bool {
        kind_of(cmd) == CommandKind::DynamicSymbolTable
    }

    fn from_record(base: CommandRecord) -> (wrapped: Self) {
        DynamicSymbolTable { base, _owner: PhantomData }
    }
}

/// The UUID command, anchored to the `Binary` that owns the native record.
pub struct Uuid<'a> {
    base: CommandRecord,
    _owner: PhantomData<&'a Binary>,
}

impl<'a> Command for Uuid<'a> {
    closed spec fn base_spec(&self) -> CommandRecord {
        self.base
    }

    fn get_base(&self) -> (base: &CommandRecord) {
        &self.base
    }
}

impl<'a> FromRecord for Uuid<'a> {
    open spec fn accepts(cmd: u32) -> bool {
        kind_of(cmd) == CommandKind::Uuid
    }

    fn from_record(base: CommandRecord) -> (wrapped: Self) {
        Uuid { base, _owner: PhantomData }
    }
}

/// The entry-point command, anchored to the `Binary` that owns the native
/// record.
pub struct Main<'a> {
    base: CommandRecord,
    _owner: PhantomData<&'a Binary>,
}

impl<'a> Command for Main<'a> {
    closed spec fn base_spec(&self) -> CommandRecord {
        self.base
    }

    fn get_base(&self) -> (base: &CommandRecord) {
        &self.base
    }
}

impl<'a> FromRecord for Main<'a> {
    open spec fn accepts(cmd: u32) -> bool {
        kind_of(cmd) == CommandKind::Main
    }

    fn from_record(base: CommandRecord) -> (wrapped: Self) {
        Main { base, _owner: PhantomData }
    }
}

/// The catch-all variant for discriminators outside the closed set. It
/// preserves the raw value the dispatch could not classify, so the
/// information is never silently dropped.
pub struct Unknown<'a> {
    base: CommandRecord,
    original: u64,
    _owner: PhantomData<&'a Binary>,
}

impl<'a> Unknown<'a> {
    /// The raw discriminator the dispatch could not classify.
    pub closed spec fn original_spec(&self) -> u64 {
        self.original
    }

    /// The preserved value is the base record's discriminator, widened
    /// without truncation, and indeed outside the closed set.
    pub open spec fn wf(&self) -> bool {
        &&& self.original_spec() == self.base_spec().cmd as u64
        &&& !is_known(self.base_spec().cmd)
    }

    /// The raw discriminator value this command carried in the image,
    /// exactly as the native engine read it.
    pub fn original_command(&self) -> (raw: u64)
        ensures
            raw == self.original_spec(),
    {
        self.original
    }
}

impl<'a> Command for Unknown<'a> {
    closed spec fn base_spec(&self) -> CommandRecord {
        self.base
    }

    fn get_base(&self) -> (base: &CommandRecord) {
        &self.base
    }
}

impl<'a> FromRecord for Unknown<'a> {
    open spec fn accepts(cmd: u32) -> bool {
        !is_known(cmd)
    }

    fn from_record(base: CommandRecord) -> (wrapped: Self)
        ensures
            wrapped.wf(),
            wrapped.original_spec() == base.cmd as u64,
    {
        Unknown { base, original: base.cmd as u64, _owner: PhantomData }
    }
}

/// A load command classified by variant dispatch: one case per concrete
/// variant of the closed set, plus the `Unknown` fallback.
pub enum Commands<'a> {
    Segment(Segment<'a>),
    SymbolTable(SymbolTable<'a>),
    DynamicSymbolTable(DynamicSymbolTable<'a>),
    Uuid(Uuid<'a>),
    Main(Main<'a>),
    Unknown(Unknown<'a>),
}

impl<'a> Commands<'a> {
    /// Which variant this value was classified into.
    pub open spec fn kind_spec(&self) -> CommandKind {
        match self {
            Commands::Segment(_) => CommandKind::Segment,
            Commands::SymbolTable(_) => CommandKind::SymbolTable,
            Commands::DynamicSymbolTable(_) => CommandKind::DynamicSymbolTable,
            Commands::Uuid(_) => CommandKind::Uuid,
            Commands::Main(_) => CommandKind::Main,
            Commands::Unknown(_) => CommandKind::Unknown,
        }
    }

    /// A classified command is well formed when its variant is the one the
    /// table registers for its own discriminator, and an `Unknown` carries
    /// its discriminator unchanged.
    pub open spec fn wf(&self) -> bool {
        &&& self.kind_spec() == kind_of(self.base_spec().cmd)
        &&& (self matches Commands::Unknown(unknown) ==> unknown.wf())
    }

    /// Which variant this value was classified into.
    pub fn kind(&self) -> (kind: CommandKind)
        ensures
            kind == self.kind_spec(),
    {
        match self {
            Commands::Segment(_) => CommandKind::Segment,
            Commands::SymbolTable(_) => CommandKind::SymbolTable,
            Commands::DynamicSymbolTable(_) => CommandKind::DynamicSymbolTable,
            Commands::Uuid(_) => CommandKind::Uuid,
            Commands::Main(_) => CommandKind::Main,
            Commands::Unknown(_) => CommandKind::Unknown,
        }
    }

    /// The diagnostic name of the variant, for textual renderings.
    pub fn variant_name(&self) -> (name: &'static str)
        ensures
            name@ == name_of(self.kind_spec()),
    {
        match self {
            Commands::Segment(_) => "Segment",
            Commands::SymbolTable(_) => "SymbolTable",
            Commands::DynamicSymbolTable(_) => "DynamicSymbolTable",
            Commands::Uuid(_) => "Uuid",
            Commands::Main(_) => "Main",
            Commands::Unknown(_) => "UnknownCommand",
        }
    }

    /// Variant dispatch: read the discriminator of the abstract record,
    /// match it by exact equality against the closed set, and wrap the
    /// record as the registered variant. Every discriminator outside the
    /// set yields `Unknown` with the raw value preserved, so dispatch is
    /// total and never fails.
    pub fn classify(base: CommandRecord) -> (cmd: Commands<'a>)
        ensures
            classified_from(cmd, base),
    {
        if base.cmd == CMD_SEGMENT || base.cmd == CMD_SEGMENT_64 {
            Commands::Segment(Segment::from_record(base))
        } else if base.cmd == CMD_SYMTAB {
            Commands::SymbolTable(SymbolTable::from_record(base))
        } else if base.cmd == CMD_DYSYMTAB {
            Commands::DynamicSymbolTable(DynamicSymbolTable::from_record(base))
        } else if base.cmd == CMD_UUID {
            Commands::Uuid(Uuid::from_record(base))
        } else if base.cmd == CMD_MAIN {
            Commands::Main(Main::from_record(base))
        } else {
            Commands::Unknown(Unknown::from_record(base))
        }
    }
}

impl<'a> Command for Commands<'a> {
    open spec fn base_spec(&self) -> CommandRecord {
        match self {
            Commands::Segment(command) => command.base_spec(),
            Commands::SymbolTable(command) => command.base_spec(),
            Commands::DynamicSymbolTable(command) => command.base_spec(),
            Commands::Uuid(command) => command.base_spec(),
            Commands::Main(command) => command.base_spec(),
            Commands::Unknown(command) => command.base_spec(),
        }
    }

    fn get_base(&self) -> (base: &CommandRecord) {
        match self {
            Commands::Segment(command) => command.get_base(),
            Commands::SymbolTable(command) => command.get_base(),
            Commands::DynamicSymbolTable(command) => command.get_base(),
            Commands::Uuid(command) => command.get_base(),
            Commands::Main(command) => command.get_base(),
            Commands::Unknown(command) => command.get_base(),
        }
    }
}

/// The diagnostic name registered for each variant.
pub open spec fn name_of(kind: CommandKind) -> Seq<char> {
    match kind {
        CommandKind::Segment => "Segment"@,
        CommandKind::SymbolTable => "SymbolTable"@,
        CommandKind::DynamicSymbolTable => "DynamicSymbolTable"@,
        CommandKind::Uuid => "Uuid"@,
        CommandKind::Main => "Main"@,
        CommandKind::Unknown => "UnknownCommand"@,
    }
}

/// Everything variant dispatch guarantees of its result for a given
/// abstract record: the result is well formed, its variant is the one the
/// table registers for the record's discriminator, and the record itself is
/// carried through unchanged.
pub open spec fn classified_from<'a>(cmd: Commands<'a>, base: CommandRecord) -> bool {
    &&& cmd.wf()
    &&& cmd.kind_spec() == kind_of(base.cmd)
    &&& cmd.base_spec() == base
}

/// Every known discriminator dispatches to the concrete variant the table
/// registers for it — never to `Unknown` — and that variant reports the
/// same discriminator through the shared capability.
pub proof fn lemma_known_dispatch<'a>(cmd: Commands<'a>, base: CommandRecord)
    requires
        is_known(base.cmd),
        classified_from(cmd, base),
    ensures
        cmd.kind_spec() == kind_of(base.cmd),
        cmd !is Unknown,
        cmd.base_spec().cmd == base.cmd,
{
}

/// Every discriminator outside the closed set dispatches to `Unknown`, and
/// `Unknown` preserves the raw value exactly: no truncation and no
/// reinterpretation.
pub proof fn lemma_unknown_dispatch<'a>(cmd: Commands<'a>, base: CommandRecord)
    requires
        !is_known(base.cmd),
        classified_from(cmd, base),
    ensures
        cmd is Unknown,
        cmd matches Commands::Unknown(unknown) ==> unknown.original_spec() == base.cmd as u64,
        cmd.base_spec().cmd == base.cmd,
{
}

} // verus!
